//! The four switches that block public access to a bucket.
use vstd::prelude::*;
use crate::common::{emoji_of, Emoji};

verus! {

/// A bucket's public-access-block configuration, each switch where set.
#[derive(Clone, Copy, Debug, PartialEq, Eq, Structural)]
pub struct PublicAccessBlockConfiguration {
    pub block_public_acls: Option<bool>,
    pub block_public_policy: Option<bool>,
    pub ignore_public_acls: Option<bool>,
    pub restrict_public_buckets: Option<bool>,
}

/// One switch and its setting.
#[derive(Clone, Copy, Debug, PartialEq, Eq, Structural)]
pub enum PublicAccessBlockType {
    BlockPublicAcls(bool),
    BlockPublicPolicy(bool),
    IgnorePublicAcls(bool),
    RestrictPublicBuckets(bool),
}

/// The word for a setting.
pub open spec fn bool_word(b: bool) -> Seq<char> {
    if b {
        "true"@
    } else {
        "false"@
    }
}

pub(crate) fn bool_text(b: bool) -> (r: &'static str)
    ensures
        r@ == bool_word(b),
{
    if b {
        "true"
    } else {
        "false"
    }
}

impl PublicAccessBlockType {
    /// The setting of the switch.
    pub open spec fn setting(&self) -> bool {
        match self {
            PublicAccessBlockType::BlockPublicAcls(b) => *b,
            PublicAccessBlockType::BlockPublicPolicy(b) => *b,
            PublicAccessBlockType::IgnorePublicAcls(b) => *b,
            PublicAccessBlockType::RestrictPublicBuckets(b) => *b,
        }
    }

    pub open spec fn spec_message(&self) -> Seq<char> {
        match self {
            PublicAccessBlockType::BlockPublicAcls(b) => "BlockPublicAcls is set to "@ + bool_word(*b),
            PublicAccessBlockType::BlockPublicPolicy(b) => "BlockPublicPolicy is set to "@ + bool_word(*b),
            PublicAccessBlockType::IgnorePublicAcls(b) => "IgnorePublicAcls is set to "@ + bool_word(*b),
            PublicAccessBlockType::RestrictPublicBuckets(b) => "RestrictPublicBuckets is set to "@
                + bool_word(*b),
        }
    }

    /// A tick for a switch that is on, else a cross.
    pub open spec fn spec_emoji(&self) -> Emoji {
        emoji_of(self.setting())
    }

    /// The marker shown in front of the finding.
    pub fn emoji(&self) -> (r: Emoji)
        ensures
            r == self.spec_emoji(),
    {
        match self {
            PublicAccessBlockType::BlockPublicAcls(b) => Emoji::from(*b),
            PublicAccessBlockType::BlockPublicPolicy(b) => Emoji::from(*b),
            PublicAccessBlockType::IgnorePublicAcls(b) => Emoji::from(*b),
            PublicAccessBlockType::RestrictPublicBuckets(b) => Emoji::from(*b),
        }
    }

    /// The words of the finding.
    pub fn message(&self) -> (r: String)
        ensures
            r@ == self.spec_message(),
    {
        match self {
            PublicAccessBlockType::BlockPublicAcls(b) => String::from_str(
                "BlockPublicAcls is set to ",
            ).concat(bool_text(*b)),
            PublicAccessBlockType::BlockPublicPolicy(b) => String::from_str(
                "BlockPublicPolicy is set to ",
            ).concat(bool_text(*b)),
            PublicAccessBlockType::IgnorePublicAcls(b) => String::from_str(
                "IgnorePublicAcls is set to ",
            ).concat(bool_text(*b)),
            PublicAccessBlockType::RestrictPublicBuckets(b) => String::from_str(
                "RestrictPublicBuckets is set to ",
            ).concat(bool_text(*b)),
        }
    }
}

/// The public-access-block finding: the four switches in a fixed order.
#[derive(Clone, Copy, Debug, PartialEq, Eq, Structural)]
pub struct PublicAccessBlock {
    pub block_public_acls: bool,
    pub block_public_policy: bool,
    pub ignore_public_acls: bool,
    pub restrict_public_buckets: bool,
}

/// A switch that is not set counts as off.
pub open spec fn switch_of(setting: Option<bool>) -> bool {
    match setting {
        Some(b) => b,
        None => false,
    }
}

/// The finding for a fetch: every switch off where there is no configuration.
pub open spec fn block_of(config: Option<PublicAccessBlockConfiguration>) -> PublicAccessBlock {
    match config {
        Some(c) => PublicAccessBlock {
            block_public_acls: switch_of(c.block_public_acls),
            block_public_policy: switch_of(c.block_public_policy),
            ignore_public_acls: switch_of(c.ignore_public_acls),
            restrict_public_buckets: switch_of(c.restrict_public_buckets),
        },
        None => PublicAccessBlock {
            block_public_acls: false,
            block_public_policy: false,
            ignore_public_acls: false,
            restrict_public_buckets: false,
        },
    }
}

impl Default for PublicAccessBlock {
    fn default() -> (r: PublicAccessBlock)
        ensures
            r == block_of(None),
    {
        PublicAccessBlock {
            block_public_acls: false,
            block_public_policy: false,
            ignore_public_acls: false,
            restrict_public_buckets: false,
        }
    }
}

fn switch(setting: Option<bool>) -> (r: bool)
    ensures
        r == switch_of(setting),
{
    match setting {
        Some(b) => b,
        None => false,
    }
}

impl PublicAccessBlock {
    /// Classifies a fetched configuration, or its absence.
    pub fn from_configuration(config: &Option<PublicAccessBlockConfiguration>) -> (r: PublicAccessBlock)
        ensures
            r == block_of(*config),
    {
        match config {
            Some(c) => PublicAccessBlock {
                block_public_acls: switch(c.block_public_acls),
                block_public_policy: switch(c.block_public_policy),
                ignore_public_acls: switch(c.ignore_public_acls),
                restrict_public_buckets: switch(c.restrict_public_buckets),
            },
            None => PublicAccessBlock::default(),
        }
    }

    pub open spec fn spec_blocks(&self) -> Seq<PublicAccessBlockType> {
        seq![
            PublicAccessBlockType::BlockPublicAcls(self.block_public_acls),
            PublicAccessBlockType::BlockPublicPolicy(self.block_public_policy),
            PublicAccessBlockType::IgnorePublicAcls(self.ignore_public_acls),
            PublicAccessBlockType::RestrictPublicBuckets(self.restrict_public_buckets),
        ]
    }

    /// The four switches, in their fixed order.
    pub fn blocks(&self) -> (r: Vec<PublicAccessBlockType>)
        ensures
            r@ == self.spec_blocks(),
    {
        let r = vec![
            PublicAccessBlockType::BlockPublicAcls(self.block_public_acls),
            PublicAccessBlockType::BlockPublicPolicy(self.block_public_policy),
            PublicAccessBlockType::IgnorePublicAcls(self.ignore_public_acls),
            PublicAccessBlockType::RestrictPublicBuckets(self.restrict_public_buckets),
        ];
        assert(r@ =~= self.spec_blocks());
        r
    }
}

} // verus!
