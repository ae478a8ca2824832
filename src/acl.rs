//! Whether a bucket's access-control list lets the public in.
use vstd::prelude::*;
use crate::common::Emoji;
use crate::text::same_text;

verus! {

/// The grantee that stands for everyone.
pub const ALL_USERS: &'static str = "http://acs.amazonaws.com/groups/global/AllUsers";

/// The grantee that stands for anyone with an account.
pub const AUTHENTICATED_USERS: &'static str =
    "http://acs.amazonaws.com/groups/global/AuthenticatedUsers";

/// One grant of an access-control list, as far as the audit reads it.
#[derive(Clone, Debug, PartialEq, Eq)]
pub struct Grant {
    /// The URI of the grantee, where the grant has a grantee with a URI.
    pub grantee_uri: Option<String>,
}

/// Whether a grantee URI opens the bucket to the public.
pub open spec fn is_public_uri(uri: Seq<char>) -> bool {
    uri == ALL_USERS@ || uri == AUTHENTICATED_USERS@
}

/// Whether a grant opens the bucket to the public.
pub open spec fn grants_public(grant: Grant) -> bool {
    match grant.grantee_uri {
        Some(uri) => is_public_uri(uri@),
        None => false,
    }
}

/// The access finding for a list of grants.
#[derive(Clone, Copy, Debug, PartialEq, Eq, Structural)]
pub enum BucketAcl {
    Private,
    Public,
}

/// Public exactly when some grant goes to everyone or to any authenticated user.
pub open spec fn acl_of(grants: Seq<Grant>) -> BucketAcl {
    if exists|i: int| 0 <= i < grants.len() && #[trigger] grants_public(grants[i]) {
        BucketAcl::Public
    } else {
        BucketAcl::Private
    }
}

impl BucketAcl {
    /// Classifies the grants of an access-control list.
    pub fn from_grants(grants: &Vec<Grant>) -> (r: BucketAcl)
        ensures
            r == acl_of(grants@),
    {
        let mut i: usize = 0;
        while i < grants.len()
            invariant
                i <= grants.len(),
                forall|j: int| 0 <= j < i ==> !#[trigger] grants_public(grants@[j]),
            decreases grants.len() - i,
        {
            if let Some(uri) = &grants[i].grantee_uri {
                if same_text(uri.as_str(), ALL_USERS) || same_text(uri.as_str(), AUTHENTICATED_USERS) {
                    assert(grants_public(grants@[i as int]));
                    return BucketAcl::Public;
                }
            }
            i = i + 1;
        }
        BucketAcl::Private
    }

    /// A warning for a public list, a tick for a private one.
    pub open spec fn spec_emoji(&self) -> Emoji {
        match self {
            BucketAcl::Private => Emoji::Tick,
            BucketAcl::Public => Emoji::Warning,
        }
    }

    /// The marker shown in front of the finding.
    pub fn emoji(&self) -> (r: Emoji)
        ensures
            r == self.spec_emoji(),
    {
        match self {
            BucketAcl::Private => Emoji::Tick,
            BucketAcl::Public => Emoji::Warning,
        }
    }

    pub open spec fn spec_message(&self) -> Seq<char> {
        match self {
            BucketAcl::Private => "Bucket ACL doesn't allow access to 'Everyone' or 'Any authenticated AWS user'"@,
            BucketAcl::Public => "Bucket allows public access via ACL"@,
        }
    }

    /// The words of the finding.
    pub fn message(&self) -> (r: String)
        ensures
            r@ == self.spec_message(),
    {
        match self {
            BucketAcl::Private => String::from_str(
                "Bucket ACL doesn't allow access to 'Everyone' or 'Any authenticated AWS user'",
            ),
            BucketAcl::Public => String::from_str("Bucket allows public access via ACL"),
        }
    }
}

} // verus!
