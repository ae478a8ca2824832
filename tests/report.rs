use s3audit::{
    bucket_region, Audit, Audits, BucketAcl, CsvError, Emoji, EncryptionConfiguration,
    EncryptionRule, FetchPlan, Fetched, Grant, MfaStatus, PolicyError, PublicAccessBlock,
    Rendered, Report, ReportError, ReportOptions, ReportType, Reports, TextLine,
    VersioningConfiguration, VersioningStatus,
};

fn nothing_fetched() -> Fetched {
    Fetched {
        acl: None,
        encryption: None,
        logging: None,
        policy: None,
        public_access_block: None,
        versioning: None,
        website: None,
    }
}

fn everything_fetched(policy: Option<&str>) -> Fetched {
    Fetched {
        acl: Some(vec![Grant { grantee_uri: None }]),
        encryption: Some(Some(EncryptionConfiguration {
            rules: Some(vec![EncryptionRule { sse_algorithm: Some("AES256".into()) }]),
        })),
        logging: Some(None),
        policy: Some(policy.map(String::from)),
        public_access_block: Some(None),
        versioning: Some(VersioningConfiguration {
            mfa_delete: Some("Enabled".into()),
            status: Some("Suspended".into()),
        }),
        website: Some(false),
    }
}

fn texts(lines: &[TextLine]) -> Vec<(usize, Emoji, String)> {
    lines.iter().map(|l| (l.indent, l.emoji, l.text.clone())).collect()
}

#[test]
fn plan_fetches_versioning_once_for_either_audit() {
    let plan = FetchPlan::for_audits(&vec![Audit::MfaDelete]);
    assert!(plan.versioning && !plan.acl && !plan.policy);
    let plan = FetchPlan::for_audits(&vec![Audit::Versioning, Audit::MfaDelete]);
    assert!(plan.versioning);
    let plan = FetchPlan::for_audits(&vec![Audit::Acl, Audit::Cloudfront]);
    assert!(plan.acl && !plan.versioning && !plan.policy && !plan.website);
}

#[test]
fn versioning_only_shows_versioning_and_keeps_mfa() {
    let mut fetched = nothing_fetched();
    fetched.versioning = Some(VersioningConfiguration {
        mfa_delete: Some("Enabled".into()),
        status: Some("Enabled".into()),
    });
    let report = Report::assemble("b".into(), &vec![Audit::Versioning], fetched).unwrap();
    let versioning = report.versioning.as_ref().unwrap();
    assert_eq!(*versioning.mfa_delete(), MfaStatus::Enabled);
    assert!(report.versioning_audited);
    assert!(!report.mfa_delete_audited);
    assert_eq!(
        texts(&report.text()),
        vec![
            (1, Emoji::Arrow, "b".to_string()),
            (2, Emoji::Tick, "Object Versioning is enabled".to_string()),
        ]
    );
    let row = report.csv();
    assert_eq!(row.header(), vec!["name", "mfa_delete", "versioning"]);
    assert_eq!(row.record(), vec!["b", "", "true"]);
}

#[test]
fn mfa_only_keeps_both_statuses_and_shows_mfa() {
    let mut fetched = nothing_fetched();
    fetched.versioning = Some(VersioningConfiguration { mfa_delete: None, status: Some("Enabled".into()) });
    let report = Report::assemble("b".into(), &vec![Audit::MfaDelete], fetched).unwrap();
    let versioning = report.versioning.as_ref().unwrap();
    assert_eq!(*versioning.versioning(), VersioningStatus::Enabled);
    assert_eq!(*versioning.mfa_delete(), MfaStatus::Disabled);
    assert!(!report.versioning_audited);
    assert!(report.mfa_delete_audited);
    assert_eq!(
        texts(&report.text()),
        vec![
            (1, Emoji::Arrow, "b".to_string()),
            (2, Emoji::Cross, "MFA Delete is not enabled".to_string()),
        ]
    );
    assert_eq!(report.csv().header(), vec!["name", "mfa_delete", "versioning"]);
    assert_eq!(report.csv().record(), vec!["b", "false", ""]);
    let records = Reports::new(vec![report]).csv().unwrap();
    assert_eq!(records, vec!["name,mfa_delete,versioning\n", "b,false,\n"]);
}

#[test]
fn no_policy_is_audited_and_absent() {
    let mut fetched = nothing_fetched();
    fetched.policy = Some(None);
    let report = Report::assemble("b".into(), &vec![Audit::Policy], fetched).unwrap();
    assert!(matches!(report.policy, Some(None)));
    assert_eq!(
        texts(&report.text())[1],
        (2, Emoji::Info, "No bucket policy set".to_string())
    );
    assert_eq!(report.csv().record(), vec!["b", "false"]);

    let report = Report::assemble("b".into(), &vec![Audit::Acl], nothing_fetched());
    assert_eq!(report.unwrap_err(), ReportError::NotFetched(Audit::Acl));

    let mut fetched = nothing_fetched();
    fetched.policy = Some(Some(r#"{"Statement": []}"#.into()));
    let report = Report::assemble("b".into(), &vec![Audit::Policy], fetched).unwrap();
    match &report.policy {
        Some(Some(p)) => assert_eq!(p.wildcards().count(), 0),
        _ => panic!("policy slot should hold a clean policy"),
    }

    let report = Report::assemble("b".into(), &vec![], nothing_fetched()).unwrap();
    assert!(report.policy.is_none());
}

#[test]
fn unparsable_policy_fails_the_report() {
    let mut fetched = nothing_fetched();
    fetched.policy = Some(Some("{".into()));
    let report = Report::assemble("b".into(), &vec![Audit::Policy], fetched);
    assert_eq!(report.unwrap_err(), ReportError::Policy(PolicyError::Unparsable));
}

#[test]
fn missing_versioning_fetch_is_reported() {
    let report = Report::assemble("b".into(), &vec![Audit::MfaDelete], nothing_fetched());
    assert_eq!(report.unwrap_err(), ReportError::NotFetched(Audit::Versioning));
}

#[test]
fn public_access_block_not_configured_reports_all_false() {
    let mut fetched = nothing_fetched();
    fetched.public_access_block = Some(None);
    let report = Report::assemble("b".into(), &vec![Audit::PublicAccessBlocks], fetched).unwrap();
    assert_eq!(report.public_access_block, Some(PublicAccessBlock::default()));
    let lines = texts(&report.text());
    assert_eq!(lines.len(), 6);
    assert_eq!(lines[1], (2, Emoji::Arrow, "Bucket public access configuration".to_string()));
    assert_eq!(lines[2], (3, Emoji::Cross, "BlockPublicAcls is set to false".to_string()));
    assert_eq!(lines[5], (3, Emoji::Cross, "RestrictPublicBuckets is set to false".to_string()));
}

#[test]
fn full_report_text_in_fixed_order() {
    let audits = Audits::new().enabled();
    let policy = r#"{"Statement": [{"Effect": "Allow", "Action": "s3:*", "Principal": "*"}]}"#;
    let report = Report::assemble("bucket".into(), &audits, everything_fetched(Some(policy))).unwrap();
    let lines = report.text();
    assert!(lines[0].heading);
    assert!(!lines[1].heading);
    let got: Vec<String> = lines.iter().map(|l| l.text.clone()).collect();
    assert_eq!(
        got,
        vec![
            "bucket",
            "Bucket public access configuration",
            "BlockPublicAcls is set to false",
            "BlockPublicPolicy is set to false",
            "IgnorePublicAcls is set to false",
            "RestrictPublicBuckets is set to false",
            "Server side encryption enabled using the default AES256 algorithm",
            "Object Versioning is not enabled",
            "MFA Delete is enabled",
            "Static website hosting is disabled",
            "Bucket has 2 statements with wildcard entities",
            "Bucket is not associated with any CloudFront distributions",
            "Bucket ACL doesn't allow access to 'Everyone' or 'Any authenticated AWS user'",
            "Logging is not enabled",
        ]
    );
}

#[test]
fn csv_has_one_header_and_a_row_per_bucket() {
    let audits = vec![Audit::Acl, Audit::Policy];
    let mut reports = Vec::new();
    for name in ["one", "two", "three"] {
        let mut fetched = nothing_fetched();
        fetched.acl = Some(vec![Grant { grantee_uri: Some("http://acs.amazonaws.com/groups/global/AllUsers".into()) }]);
        fetched.policy = Some(None);
        reports.push(Report::assemble(name.into(), &audits, fetched).unwrap());
    }
    let records = Reports::new(reports).csv().unwrap();
    assert_eq!(
        records,
        vec![
            "name,acl,policy_wildcard_principals\n",
            "one,public,false\n",
            "two,public,false\n",
            "three,public,false\n",
        ]
    );
}

#[test]
fn csv_of_every_audit() {
    let audits = Audits::new().enabled();
    let policy = r#"{"Statement": [{"Effect": "Allow", "Action": "s3:GetObject", "Principal": "*"}]}"#;
    let report = Report::assemble("bucket".into(), &audits, everything_fetched(Some(policy))).unwrap();
    let records = Reports::new(vec![report]).csv().unwrap();
    assert_eq!(
        records,
        vec![
            "name,acl,block_public_acls,block_public_policy,encryption,ignore_public_acls,logging,mfa_delete,policy_wildcard_principals,restrict_public_buckets,versioning,website\n",
            "bucket,private,false,false,AES256,false,false,true,true,false,false,false\n",
        ]
    );
}

#[test]
fn csv_quotes_cells_that_need_it() {
    let mut fetched = nothing_fetched();
    fetched.encryption = Some(Some(EncryptionConfiguration {
        rules: Some(vec![EncryptionRule { sse_algorithm: Some("a,b".into()) }]),
    }));
    let report = Report::assemble("b".into(), &vec![Audit::ServerSideEncryption], fetched).unwrap();
    let records = Reports::new(vec![report]).csv().unwrap();
    assert_eq!(records, vec!["name,encryption\n", "b,\"a,b\"\n"]);
}

#[test]
fn csv_of_no_bucket_is_empty() {
    assert!(Reports::new(Vec::new()).csv().unwrap().is_empty());
}

#[test]
fn csv_rows_of_other_widths_are_refused() {
    let mut fetched = nothing_fetched();
    fetched.acl = Some(Vec::new());
    let wide = Report::assemble("a".into(), &vec![Audit::Acl], fetched).unwrap();
    let narrow = Report::assemble("b".into(), &vec![], nothing_fetched()).unwrap();
    let result = Reports::new(vec![wide, narrow]).csv();
    assert_eq!(result, Err(CsvError::UnequalLengths { expected_len: 2, len: 1 }));
}

#[test]
fn output_follows_the_report_type() {
    let report = Report::assemble("b".into(), &vec![Audit::Acl], {
        let mut f = nothing_fetched();
        f.acl = Some(Vec::new());
        f
    })
    .unwrap();
    let reports = Reports::new(vec![report]);
    match reports.output(&ReportOptions { output_type: ReportType::Csv }).unwrap() {
        Rendered::Csv(records) => assert_eq!(records, vec!["name,acl\n", "b,private\n"]),
        Rendered::Text(_) => panic!("expected CSV"),
    }
    match reports.output(&ReportOptions::default()).unwrap() {
        Rendered::Text(lines) => {
            assert_eq!(texts(&lines)[1], (2, Emoji::Tick, "Bucket ACL doesn't allow access to 'Everyone' or 'Any authenticated AWS user'".to_string()));
            assert_eq!(lines, reports.text());
        },
        Rendered::Csv(_) => panic!("expected text"),
    }
    assert_eq!(BucketAcl::Private, report_acl(&reports));
}

fn report_acl(reports: &Reports) -> BucketAcl {
    reports.0[0].acl.unwrap()
}

#[test]
fn reports_text_joins_buckets_in_order() {
    let a = Report::assemble("a".into(), &vec![], nothing_fetched()).unwrap();
    let b = Report::assemble("b".into(), &vec![], nothing_fetched()).unwrap();
    let lines = Reports::new(vec![a, b]).text();
    assert_eq!(texts(&lines), vec![(1, Emoji::Arrow, "a".to_string()), (1, Emoji::Arrow, "b".to_string())]);
}

#[test]
fn bucket_regions() {
    assert_eq!(bucket_region(None), "us-east-1");
    assert_eq!(bucket_region(Some("")), "us-east-1");
    assert_eq!(bucket_region(Some("EU")), "eu-west-1");
    assert_eq!(bucket_region(Some("ap-south-1")), "ap-south-1");
}

#[test]
fn versioning_status_in_csv_and_text() {
    let mut fetched = nothing_fetched();
    fetched.versioning = Some(VersioningConfiguration { mfa_delete: None, status: Some("Enabled".into()) });
    let report = Report::assemble("b".into(), &vec![Audit::Versioning, Audit::MfaDelete], fetched).unwrap();
    assert_eq!(*report.versioning.as_ref().unwrap().versioning(), VersioningStatus::Enabled);
    assert!(report.versioning_audited && report.mfa_delete_audited);
    assert_eq!(report.csv().header(), vec!["name", "mfa_delete", "versioning"]);
    assert_eq!(report.csv().record(), vec!["b", "false", "true"]);
}
