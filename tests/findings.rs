use s3audit::{
    BucketAcl, BucketEncryption, BucketLogging, BucketVersioning, BucketWebsite, Emoji,
    EncryptionConfiguration, EncryptionRule, Grant, LoggingEnabled, MfaStatus, PublicAccessBlock,
    PublicAccessBlockConfiguration, PublicAccessBlockType, VersioningConfiguration,
    VersioningStatus,
};

const PRIVATE_GROUP: &str = "http://acs.amazonaws.com/groups/private/lovelace";
const PUBLIC_GROUP: &str = "http://acs.amazonaws.com/groups/global/AllUsers";

fn grants(uri: &str) -> Vec<Grant> {
    vec![Grant { grantee_uri: Some(uri.into()) }]
}

fn encryption(algorithm: &str) -> Option<EncryptionConfiguration> {
    Some(EncryptionConfiguration {
        rules: Some(vec![EncryptionRule { sse_algorithm: Some(algorithm.into()) }]),
    })
}

#[test]
fn acl_test_from_for_bucket_acl_private() {
    assert_eq!(BucketAcl::from_grants(&grants(PRIVATE_GROUP)), BucketAcl::Private)
}

#[test]
fn acl_test_from_for_bucket_acl_public() {
    assert_eq!(BucketAcl::from_grants(&grants(PUBLIC_GROUP)), BucketAcl::Public)
}

#[test]
fn bucket_acl_test_from_for_bucket_acl_private() {
    assert_eq!(BucketAcl::from_grants(&grants(PRIVATE_GROUP)), BucketAcl::Private)
}

#[test]
fn bucket_acl_test_from_for_bucket_acl_public() {
    assert_eq!(BucketAcl::from_grants(&grants(PUBLIC_GROUP)), BucketAcl::Public)
}

#[test]
fn acl_authenticated_users_is_public_and_no_grants_is_private() {
    let authenticated = grants("http://acs.amazonaws.com/groups/global/AuthenticatedUsers");
    assert_eq!(BucketAcl::from_grants(&authenticated), BucketAcl::Public);
    assert_eq!(BucketAcl::from_grants(&Vec::new()), BucketAcl::Private);
    let mixed = vec![Grant { grantee_uri: None }, Grant { grantee_uri: Some(PUBLIC_GROUP.into()) }];
    assert_eq!(BucketAcl::from_grants(&mixed), BucketAcl::Public);
}

#[test]
fn encryption_test_from_default_encryption() {
    assert_eq!(BucketEncryption::from_configuration(&encryption("AES256")), BucketEncryption::Default);
}

#[test]
fn encryption_test_from_kms_encryption() {
    assert_eq!(BucketEncryption::from_configuration(&encryption("aws:kms")), BucketEncryption::Kms);
}

#[test]
fn encryption_test_from_unknown_encryption() {
    assert_eq!(
        BucketEncryption::from_configuration(&encryption("wat")),
        BucketEncryption::Unknown("wat".into())
    );
}

#[test]
fn encryption_test_from_no_rules() {
    let config = Some(EncryptionConfiguration { rules: Some(Vec::new()) });
    assert_eq!(BucketEncryption::from_configuration(&config), BucketEncryption::NotEnabled);
}

#[test]
fn encryption_test_from_no_sse_config() {
    assert_eq!(BucketEncryption::from_configuration(&None), BucketEncryption::NotEnabled);
}

#[test]
fn bucket_encryption_test_from_default_encryption() {
    assert_eq!(BucketEncryption::from_configuration(&encryption("AES256")), BucketEncryption::Default);
}

#[test]
fn bucket_encryption_test_from_kms_encryption() {
    assert_eq!(BucketEncryption::from_configuration(&encryption("aws:kms")), BucketEncryption::Kms);
}

#[test]
fn bucket_encryption_test_from_unknown_encryption() {
    assert_eq!(
        BucketEncryption::from_configuration(&encryption("wat")),
        BucketEncryption::Unknown("wat".into())
    );
}

#[test]
fn bucket_encryption_test_from_no_rules() {
    let config = Some(EncryptionConfiguration { rules: Some(Vec::new()) });
    assert_eq!(BucketEncryption::from_configuration(&config), BucketEncryption::NotEnabled);
}

#[test]
fn bucket_encryption_test_from_no_sse_config() {
    assert_eq!(BucketEncryption::from_configuration(&None), BucketEncryption::NotEnabled);
}

#[test]
fn encryption_rule_without_algorithm_is_not_enabled() {
    let config = Some(EncryptionConfiguration {
        rules: Some(vec![EncryptionRule { sse_algorithm: None }]),
    });
    assert_eq!(BucketEncryption::from_configuration(&config), BucketEncryption::NotEnabled);
    let config = Some(EncryptionConfiguration { rules: None });
    assert_eq!(BucketEncryption::from_configuration(&config), BucketEncryption::NotEnabled);
}

#[test]
fn encryption_messages() {
    assert_eq!(BucketEncryption::Unknown("wat".into()).message(), "Server side encryption using unknown algorithm: wat");
    assert_eq!(BucketEncryption::Unknown("wat".into()).emoji(), Emoji::Warning);
    assert_eq!(BucketEncryption::Kms.message(), "Server side encryption enabled using KMS");
    assert_eq!(BucketEncryption::NotEnabled.emoji(), Emoji::Cross);
    assert_eq!(BucketEncryption::Default.emoji(), Emoji::Info);
}

#[test]
fn test_from_for_bucket_logging() {
    let logging = Some(LoggingEnabled { target_bucket: "foo".into(), target_prefix: String::new() });
    assert_eq!(BucketLogging::from_logging(&logging), BucketLogging::Enabled("foo".into()))
}

#[test]
fn test_from_for_bucket_logging_enabled() {
    let logging = Some(LoggingEnabled { target_bucket: "foo".into(), target_prefix: "test".into() });
    assert_eq!(BucketLogging::from_logging(&logging), BucketLogging::Enabled("foo".into()))
}

#[test]
fn test_from_for_bucket_logging_disabled() {
    assert_eq!(BucketLogging::from_logging(&None), BucketLogging::Disabled)
}

#[test]
fn logging_messages() {
    assert_eq!(BucketLogging::Enabled("foo".into()).message(), "Logging to foo");
    assert_eq!(BucketLogging::Disabled.message(), "Logging is not enabled");
}

#[test]
fn test_from_for_bucket_versioning() {
    let tests = vec![
        ("Enabled", "Enabled", MfaStatus::Enabled, VersioningStatus::Enabled),
        ("Disabled", "Suspended", MfaStatus::Disabled, VersioningStatus::Suspended),
    ];
    for test in tests {
        let config = VersioningConfiguration {
            mfa_delete: Some(test.0.into()),
            status: Some(test.1.into()),
        };
        let expected = BucketVersioning::new(test.2, test.3);
        let versioning = BucketVersioning::from_configuration(&config);
        assert_eq!(versioning, expected);
        assert_eq!(*versioning.mfa_delete(), test.2);
        assert_eq!(*versioning.versioning(), test.3);
    }
}

#[test]
fn versioning_without_statuses_is_off() {
    let config = VersioningConfiguration { mfa_delete: None, status: None };
    let versioning = BucketVersioning::from_configuration(&config);
    assert_eq!(versioning, BucketVersioning::new(MfaStatus::Disabled, VersioningStatus::Suspended));
    assert_eq!(VersioningStatus::Suspended.message(), "Object Versioning is not enabled");
    assert_eq!(MfaStatus::Enabled.message(), "MFA Delete is enabled");
}

#[test]
fn test_from() {
    let config = Some(PublicAccessBlockConfiguration {
        block_public_acls: Some(true),
        block_public_policy: Some(false),
        ignore_public_acls: Some(true),
        restrict_public_buckets: Some(false),
    });
    let expected = vec![
        PublicAccessBlockType::BlockPublicAcls(true),
        PublicAccessBlockType::BlockPublicPolicy(false),
        PublicAccessBlockType::IgnorePublicAcls(true),
        PublicAccessBlockType::RestrictPublicBuckets(false),
    ];
    assert_eq!(PublicAccessBlock::from_configuration(&config).blocks(), expected)
}

#[test]
fn public_access_block_not_configured_is_all_off() {
    let block = PublicAccessBlock::from_configuration(&None);
    assert_eq!(block, PublicAccessBlock::default());
    assert_eq!(
        block.blocks(),
        vec![
            PublicAccessBlockType::BlockPublicAcls(false),
            PublicAccessBlockType::BlockPublicPolicy(false),
            PublicAccessBlockType::IgnorePublicAcls(false),
            PublicAccessBlockType::RestrictPublicBuckets(false),
        ]
    );
    let unset = Some(PublicAccessBlockConfiguration {
        block_public_acls: None,
        block_public_policy: Some(true),
        ignore_public_acls: None,
        restrict_public_buckets: None,
    });
    let block = PublicAccessBlock::from_configuration(&unset);
    assert!(!block.block_public_acls && block.block_public_policy);
}

#[test]
fn public_access_block_messages() {
    let on = PublicAccessBlockType::IgnorePublicAcls(true);
    assert_eq!(on.message(), "IgnorePublicAcls is set to true");
    assert_eq!(on.emoji(), Emoji::Tick);
    let off = PublicAccessBlockType::RestrictPublicBuckets(false);
    assert_eq!(off.message(), "RestrictPublicBuckets is set to false");
    assert_eq!(off.emoji(), Emoji::Cross);
}

#[test]
fn website_follows_the_fetch() {
    let ok: Result<(), ()> = Ok(());
    let err: Result<(), ()> = Err(());
    assert_eq!(BucketWebsite::from_result(&ok), BucketWebsite::Enabled);
    assert_eq!(BucketWebsite::from_result(&err), BucketWebsite::Disabled);
    assert_eq!(BucketWebsite::Enabled.emoji(), Emoji::Warning);
    assert_eq!(BucketWebsite::Disabled.message(), "Static website hosting is disabled");
}

#[test]
fn acl_messages_and_markers() {
    assert_eq!(BucketAcl::Public.message(), "Bucket allows public access via ACL");
    assert_eq!(BucketAcl::Public.emoji(), Emoji::Warning);
    assert_eq!(
        BucketAcl::Private.message(),
        "Bucket ACL doesn't allow access to 'Everyone' or 'Any authenticated AWS user'"
    );
    assert_eq!(Emoji::from(true), Emoji::Tick);
    assert_eq!(Emoji::from(false), Emoji::Cross);
    assert_eq!(Emoji::Arrow.symbol(), "❯");
}
