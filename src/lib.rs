//! Security posture audit of storage buckets: finding classifiers, a policy
//! risk analyser, a selectable audit set and report rendering, each with a
//! checked contract.

pub mod acl;
pub mod actions;
pub mod audits;
pub mod common;
pub mod csv_output;
pub mod encryption;
pub mod json;
pub mod logging;
pub mod names;
pub mod policy;
pub mod principals;
pub mod public_access_block;
pub mod report;
pub mod text;
pub mod versioning;
pub mod website;

pub use acl::{BucketAcl, Grant};
pub use actions::Action;
pub use audits::{Audit, Audits};
pub use common::{Emoji, TextLine};
pub use csv_output::{CsvError, CsvOutput};
pub use encryption::{BucketEncryption, EncryptionConfiguration, EncryptionRule};
pub use json::Json;
pub use logging::{BucketLogging, LoggingEnabled};
pub use policy::{
    BucketPolicy, CloudFrontDistributions, NoBucketPolicy, PolicyError, Statement, Wildcards,
};
pub use principals::Principal;
pub use public_access_block::{PublicAccessBlock, PublicAccessBlockConfiguration, PublicAccessBlockType};
pub use report::{
    bucket_region, FetchPlan, Fetched, Rendered, Report, ReportError, ReportOptions, ReportType,
    Reports,
};
pub use versioning::{BucketVersioning, MfaStatus, VersioningConfiguration, VersioningStatus};
pub use website::BucketWebsite;
