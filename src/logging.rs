//! Whether a bucket logs access.
use vstd::prelude::*;
use crate::common::Emoji;

verus! {

/// Where a bucket sends its access logs.
#[derive(Clone, Debug, PartialEq, Eq)]
pub struct LoggingEnabled {
    pub target_bucket: String,
    pub target_prefix: String,
}

/// The logging finding.
#[derive(Clone, Debug, PartialEq, Eq)]
pub enum BucketLogging {
    Enabled(String),
    Disabled,
}

/// Logging to the target bucket where logging is set up, else none.
pub open spec fn logging_of(logging: Option<LoggingEnabled>) -> BucketLogging {
    match logging {
        Some(l) => BucketLogging::Enabled(l.target_bucket),
        None => BucketLogging::Disabled,
    }
}

impl BucketLogging {
    /// Classifies a logging configuration.
    pub fn from_logging(logging: &Option<LoggingEnabled>) -> (r: BucketLogging)
        ensures
            r == logging_of(*logging),
    {
        match logging {
            Some(l) => BucketLogging::Enabled(l.target_bucket.clone()),
            None => BucketLogging::Disabled,
        }
    }

    /// A tick where logging is on, else a cross.
    pub open spec fn spec_emoji(&self) -> Emoji {
        match self {
            BucketLogging::Enabled(_) => Emoji::Tick,
            BucketLogging::Disabled => Emoji::Cross,
        }
    }

    /// The marker shown in front of the finding.
    pub fn emoji(&self) -> (r: Emoji)
        ensures
            r == self.spec_emoji(),
    {
        match self {
            BucketLogging::Enabled(_) => Emoji::Tick,
            BucketLogging::Disabled => Emoji::Cross,
        }
    }

    pub open spec fn spec_message(&self) -> Seq<char> {
        match self {
            BucketLogging::Enabled(bucket) => "Logging to "@ + bucket@,
            BucketLogging::Disabled => "Logging is not enabled"@,
        }
    }

    /// The words of the finding.
    pub fn message(&self) -> (r: String)
        ensures
            r@ == self.spec_message(),
    {
        match self {
            BucketLogging::Enabled(bucket) => String::from_str("Logging to ").concat(bucket.as_str()),
            BucketLogging::Disabled => String::from_str("Logging is not enabled"),
        }
    }
}

} // verus!
