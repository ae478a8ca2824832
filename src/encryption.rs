//! How a bucket encrypts what it stores.
use vstd::prelude::*;
use crate::common::Emoji;
use crate::text::same_text;

verus! {

/// The algorithm name of encryption with keys that the provider manages.
pub const AES256: &'static str = "AES256";

/// The algorithm name of encryption with keys from the key-management service.
pub const AWS_KMS: &'static str = "aws:kms";

/// One rule of an encryption configuration, as far as the audit reads it.
#[derive(Clone, Debug, PartialEq, Eq)]
pub struct EncryptionRule {
    /// The algorithm that the rule applies by default, if it sets one.
    pub sse_algorithm: Option<String>,
}

/// A bucket's server-side encryption configuration.
#[derive(Clone, Debug, PartialEq, Eq)]
pub struct EncryptionConfiguration {
    pub rules: Option<Vec<EncryptionRule>>,
}

/// The encryption finding.
#[derive(Clone, Debug, PartialEq, Eq)]
pub enum BucketEncryption {
    Default,
    Kms,
    NotEnabled,
    Unknown(String),
}

/// The algorithm that the first rule applies by default, if any.
pub open spec fn first_algorithm(config: Option<EncryptionConfiguration>) -> Option<String> {
    match config {
        Some(c) => match c.rules {
            Some(rules) => if rules@.len() > 0 {
                rules@[0].sse_algorithm
            } else {
                None
            },
            None => None,
        },
        None => None,
    }
}

/// The finding for an algorithm name: the two known names, or the name kept
/// as it is.
pub open spec fn encryption_for(algorithm: Option<String>) -> BucketEncryption {
    match algorithm {
        None => BucketEncryption::NotEnabled,
        Some(a) => if a@ == AES256@ {
            BucketEncryption::Default
        } else if a@ == AWS_KMS@ {
            BucketEncryption::Kms
        } else {
            BucketEncryption::Unknown(a)
        },
    }
}

impl BucketEncryption {
    /// Classifies an encryption configuration; no configuration, no rule or
    /// no default algorithm means no encryption.
    pub fn from_configuration(config: &Option<EncryptionConfiguration>) -> (r: BucketEncryption)
        ensures
            r == encryption_for(first_algorithm(*config)),
    {
        let algorithm = match config {
            Some(c) => match &c.rules {
                Some(rules) => if rules.len() > 0 {
                    &rules[0].sse_algorithm
                } else {
                    return BucketEncryption::NotEnabled;
                },
                None => return BucketEncryption::NotEnabled,
            },
            None => return BucketEncryption::NotEnabled,
        };
        match algorithm {
            None => BucketEncryption::NotEnabled,
            Some(a) => if same_text(a.as_str(), AES256) {
                BucketEncryption::Default
            } else if same_text(a.as_str(), AWS_KMS) {
                BucketEncryption::Kms
            } else {
                BucketEncryption::Unknown(a.clone())
            },
        }
    }

    pub open spec fn spec_emoji(&self) -> Emoji {
        match self {
            BucketEncryption::Default => Emoji::Info,
            BucketEncryption::Kms => Emoji::Tick,
            BucketEncryption::NotEnabled => Emoji::Cross,
            BucketEncryption::Unknown(_) => Emoji::Warning,
        }
    }

    pub open spec fn spec_message(&self) -> Seq<char> {
        match self {
            BucketEncryption::Default => "Server side encryption enabled using the default AES256 algorithm"@,
            BucketEncryption::Kms => "Server side encryption enabled using KMS"@,
            BucketEncryption::NotEnabled => "Server side encryption is not enabled"@,
            BucketEncryption::Unknown(a) => "Server side encryption using unknown algorithm: "@ + a@,
        }
    }

    /// The marker of the finding.
    pub fn emoji(&self) -> (r: Emoji)
        ensures
            r == self.spec_emoji(),
    {
        match self {
            BucketEncryption::Default => Emoji::Info,
            BucketEncryption::Kms => Emoji::Tick,
            BucketEncryption::NotEnabled => Emoji::Cross,
            BucketEncryption::Unknown(_) => Emoji::Warning,
        }
    }

    /// The words of the finding.
    pub fn message(&self) -> (r: String)
        ensures
            r@ == self.spec_message(),
    {
        match self {
            BucketEncryption::Default => String::from_str(
                "Server side encryption enabled using the default AES256 algorithm",
            ),
            BucketEncryption::Kms => String::from_str("Server side encryption enabled using KMS"),
            BucketEncryption::NotEnabled => String::from_str("Server side encryption is not enabled"),
            BucketEncryption::Unknown(a) => String::from_str(
                "Server side encryption using unknown algorithm: ",
            ).concat(a.as_str()),
        }
    }
}

} // verus!
