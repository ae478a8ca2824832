//! Object versioning and MFA delete, both read from one fetch.
use vstd::prelude::*;
use crate::common::Emoji;
use crate::text::same_text;

verus! {

/// The word that the provider uses for a setting that is on.
pub const ENABLED: &'static str = "Enabled";

/// A bucket's versioning configuration: the two statuses as the provider
/// names them, where set.
#[derive(Clone, Debug, PartialEq, Eq)]
pub struct VersioningConfiguration {
    pub mfa_delete: Option<String>,
    pub status: Option<String>,
}

/// Whether deleting needs a second factor.
#[derive(Clone, Copy, Debug, PartialEq, Eq, Structural)]
pub enum MfaStatus {
    Enabled,
    Disabled,
}

/// Whether object versions are kept.
#[derive(Clone, Copy, Debug, PartialEq, Eq, Structural)]
pub enum VersioningStatus {
    Enabled,
    Suspended,
}

/// Whether an optional status is the word for "on".
pub open spec fn is_enabled(status: Option<String>) -> bool {
    match status {
        Some(s) => s@ == ENABLED@,
        None => false,
    }
}

fn enabled_text(status: &Option<String>) -> (r: bool)
    ensures
        r == is_enabled(*status),
{
    match status {
        Some(s) => same_text(s.as_str(), ENABLED),
        None => false,
    }
}

impl MfaStatus {
    /// A tick where MFA delete is on, else a cross.
    pub open spec fn spec_emoji(&self) -> Emoji {
        match self {
            MfaStatus::Enabled => Emoji::Tick,
            MfaStatus::Disabled => Emoji::Cross,
        }
    }

    /// The marker shown in front of the finding.
    pub fn emoji(&self) -> (r: Emoji)
        ensures
            r == self.spec_emoji(),
    {
        match self {
            MfaStatus::Enabled => Emoji::Tick,
            MfaStatus::Disabled => Emoji::Cross,
        }
    }

    pub open spec fn spec_message(&self) -> Seq<char> {
        match self {
            MfaStatus::Enabled => "MFA Delete is enabled"@,
            MfaStatus::Disabled => "MFA Delete is not enabled"@,
        }
    }

    /// The words of the finding.
    pub fn message(&self) -> (r: String)
        ensures
            r@ == self.spec_message(),
    {
        match self {
            MfaStatus::Enabled => String::from_str("MFA Delete is enabled"),
            MfaStatus::Disabled => String::from_str("MFA Delete is not enabled"),
        }
    }
}

impl VersioningStatus {
    /// A tick where versioning is on, else a cross.
    pub open spec fn spec_emoji(&self) -> Emoji {
        match self {
            VersioningStatus::Enabled => Emoji::Tick,
            VersioningStatus::Suspended => Emoji::Cross,
        }
    }

    /// The marker shown in front of the finding.
    pub fn emoji(&self) -> (r: Emoji)
        ensures
            r == self.spec_emoji(),
    {
        match self {
            VersioningStatus::Enabled => Emoji::Tick,
            VersioningStatus::Suspended => Emoji::Cross,
        }
    }

    pub open spec fn spec_message(&self) -> Seq<char> {
        match self {
            VersioningStatus::Enabled => "Object Versioning is enabled"@,
            VersioningStatus::Suspended => "Object Versioning is not enabled"@,
        }
    }

    /// The words of the finding.
    pub fn message(&self) -> (r: String)
        ensures
            r@ == self.spec_message(),
    {
        match self {
            VersioningStatus::Enabled => String::from_str("Object Versioning is enabled"),
            VersioningStatus::Suspended => String::from_str("Object Versioning is not enabled"),
        }
    }
}

/// The versioning finding: both statuses from one configuration.
#[derive(Clone, Copy, Debug, PartialEq, Eq, Structural)]
pub struct BucketVersioning {
    mfa_delete: MfaStatus,
    versioning: VersioningStatus,
}

/// The MFA delete status that a configuration gives: on only where it says so.
pub open spec fn mfa_status_of(config: VersioningConfiguration) -> MfaStatus {
    if is_enabled(config.mfa_delete) {
        MfaStatus::Enabled
    } else {
        MfaStatus::Disabled
    }
}

/// The versioning status that a configuration gives: on only where it says so.
pub open spec fn versioning_status_of(config: VersioningConfiguration) -> VersioningStatus {
    if is_enabled(config.status) {
        VersioningStatus::Enabled
    } else {
        VersioningStatus::Suspended
    }
}

impl View for BucketVersioning {
    type V = (MfaStatus, VersioningStatus);

    closed spec fn view(&self) -> (MfaStatus, VersioningStatus) {
        (self.mfa_delete, self.versioning)
    }
}

impl BucketVersioning {
    /// The finding of the two statuses.
    pub fn new(mfa_delete: MfaStatus, versioning: VersioningStatus) -> (r: BucketVersioning)
        ensures
            r@ == (mfa_delete, versioning),
    {
        BucketVersioning { mfa_delete, versioning }
    }

    /// Classifies a versioning configuration.
    pub fn from_configuration(config: &VersioningConfiguration) -> (r: BucketVersioning)
        ensures
            r@ == (mfa_status_of(*config), versioning_status_of(*config)),
    {
        let mfa_delete = if enabled_text(&config.mfa_delete) {
            MfaStatus::Enabled
        } else {
            MfaStatus::Disabled
        };
        let versioning = if enabled_text(&config.status) {
            VersioningStatus::Enabled
        } else {
            VersioningStatus::Suspended
        };
        BucketVersioning { mfa_delete, versioning }
    }

    /// The MFA delete status.
    pub fn mfa_delete(&self) -> (r: &MfaStatus)
        ensures
            *r == self@.0,
    {
        &self.mfa_delete
    }

    /// The versioning status.
    pub fn versioning(&self) -> (r: &VersioningStatus)
        ensures
            *r == self@.1,
    {
        &self.versioning
    }
}

} // verus!
