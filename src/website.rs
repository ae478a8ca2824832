//! Whether a bucket serves a static website.
use vstd::prelude::*;
use crate::common::Emoji;

verus! {

/// The website finding.
#[derive(Clone, Copy, Debug, PartialEq, Eq, Structural)]
pub enum BucketWebsite {
    Enabled,
    Disabled,
}

impl BucketWebsite {
    /// Hosting is on exactly when the website configuration could be fetched.
    pub fn from_result<T, E>(res: &Result<T, E>) -> (r: BucketWebsite)
        ensures
            r == (if res is Ok {
                BucketWebsite::Enabled
            } else {
                BucketWebsite::Disabled
            }),
    {
        match res {
            Ok(_) => BucketWebsite::Enabled,
            Err(_) => BucketWebsite::Disabled,
        }
    }

    /// A warning where hosting is on, else a tick.
    pub open spec fn spec_emoji(&self) -> Emoji {
        match self {
            BucketWebsite::Enabled => Emoji::Warning,
            BucketWebsite::Disabled => Emoji::Tick,
        }
    }

    /// The marker shown in front of the finding.
    pub fn emoji(&self) -> (r: Emoji)
        ensures
            r == self.spec_emoji(),
    {
        match self {
            BucketWebsite::Enabled => Emoji::Warning,
            BucketWebsite::Disabled => Emoji::Tick,
        }
    }

    pub open spec fn spec_message(&self) -> Seq<char> {
        match self {
            BucketWebsite::Enabled => "Static website hosting is enabled"@,
            BucketWebsite::Disabled => "Static website hosting is disabled"@,
        }
    }

    /// The words of the finding.
    pub fn message(&self) -> (r: String)
        ensures
            r@ == self.spec_message(),
    {
        match self {
            BucketWebsite::Enabled => String::from_str("Static website hosting is enabled"),
            BucketWebsite::Disabled => String::from_str("Static website hosting is disabled"),
        }
    }
}

} // verus!
