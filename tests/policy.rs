use s3audit::{
    Action, BucketPolicy, CloudFrontDistributions, Json, PolicyError, Principal, Statement, Wildcards,
};

fn policy(text: &str) -> BucketPolicy {
    BucketPolicy::try_from(Some(text)).unwrap()
}

fn sorted(v: &[String]) -> Vec<String> {
    let mut v = v.to_vec();
    v.sort();
    v
}

const ACTION_VEC: &str = r#"{
    "Effect": "Allow",
    "Action": ["s3:ListAllMyBuckets", "s3:GetObject", "s3:*", "*"],
    "Principal": {"AWS": ["arn:aws:iam::123456789012:root", "123456789012", "*"]}
}"#;

const STRING_STATEMENT: &str = r#"{"Effect": "Allow", "Action": "*", "Principal": "*"}"#;

const PRINCIPAL_VEC: &str = r#"{
    "Effect": "Allow",
    "Action": "*",
    "Principal": {"AWS": ["arn:aws:iam::123456789012:root", "123456789012", "*"]}
}"#;

fn action_vec_expected() -> Vec<String> {
    vec!["s3:GetObject".into(), "s3:ListAllMyBuckets".into(), "s3:*".into(), "*".into()]
}

#[test]
fn actions_test_from_policy_action_string() {
    let action = Action::from_json(&Json::member(STRING_STATEMENT, "Action"));
    let expected = vec!["*"];
    assert_eq!(action.0, expected);
    assert_eq!(action.wildcards(), 1);
}

#[test]
fn actions_test_from_policy_action_vec() {
    let action = Action::from_json(&Json::member(ACTION_VEC, "Action"));
    assert_eq!(sorted(&action.0), sorted(&action_vec_expected()));
    assert_eq!(action.wildcards(), 2);
}

#[test]
fn bucket_policy_test_from_policy_action_string() {
    let action = Action::from_json(&Json::member(STRING_STATEMENT, "Action"));
    let expected = vec!["*"];
    assert_eq!(action.0, expected);
    assert_eq!(action.wildcards(), 1);
}

#[test]
fn bucket_policy_test_from_policy_action_vec() {
    let action = Action::from_json(&Json::member(ACTION_VEC, "Action"));
    assert_eq!(sorted(&action.0), sorted(&action_vec_expected()));
    assert_eq!(action.wildcards(), 2);
}

#[test]
fn principals_test_from_policy_principal_string() {
    let principal = Principal::from_json(&Json::member(STRING_STATEMENT, "Principal"));
    let expected = vec!["*"];
    assert_eq!(principal.0, expected);
    assert_eq!(principal.wildcards(), 1);
}

#[test]
fn principals_test_from_policy_principal_vec() {
    let principal = Principal::from_json(&Json::member(PRINCIPAL_VEC, "Principal"));
    let expected = vec!["arn:aws:iam::123456789012:root", "123456789012", "*"];
    assert_eq!(principal.0, expected);
    assert_eq!(principal.wildcards(), 1);
}

#[test]
fn bucket_policy_test_from_policy_principal_string() {
    let principal = Principal::from_json(&Json::member(STRING_STATEMENT, "Principal"));
    let expected = vec!["*"];
    assert_eq!(principal.0, expected);
}

#[test]
fn bucket_policy_test_from_policy_principal_vec() {
    let principal = Principal::from_json(&Json::member(PRINCIPAL_VEC, "Principal"));
    let expected = vec!["arn:aws:iam::123456789012:root", "123456789012", "*"];
    assert_eq!(principal.0, expected);
}

#[test]
fn test_policy_deny_wildcard_actions_and_principals() {
    let policy = policy(
        r#"{
        "Version": "2012-10-17",
        "Statement": [{
            "Effect": "Deny",
            "Action": ["s3:*", "s3:*Object*", "*"],
            "Resource": "arn:aws:s3:::s3audit-rs-example-bucket/*",
            "Principal": {"AWS": ["arn:aws:iam::*:user/*", "*"]}
        }]
    }"#,
    );
    assert_eq!(policy.wildcards(), Wildcards(0));
}

#[test]
fn test_policy_no_policy() {
    let policy = BucketPolicy::try_from(None);
    assert!(policy.is_err());
}

#[test]
fn test_policy_cloudfront_no_distributions() {
    let policy = policy(
        r#"{
        "Version": "2012-10-17",
        "Statement": [{
            "Effect": "Allow",
            "Action": "s3:GetObject",
            "Resource": "arn:aws:s3:::s3audit-rs-example-bucket/*",
            "Principal": {"AWS": "*"}
        }]
    }"#,
    );
    assert_eq!(policy.cloudfront_distributions(), CloudFrontDistributions(0));
}

#[test]
fn test_policy_cloudfront_some_distributions() {
    let policy = policy(
        r#"{
        "Version": "2012-10-17",
        "Statement": [{
            "Effect": "Allow",
            "Action": "s3:GetObject",
            "Resource": "arn:aws:s3:::s3audit-rs-example-bucket/*",
            "Principal": {"AWS": "arn:aws:iam::cloudfront:user/CloudFront Origin Access Identity 123456789012"}
        }]
    }"#,
    );
    assert_eq!(policy.cloudfront_distributions(), CloudFrontDistributions(1));
}

#[test]
fn test_policy_no_wildcard_actions() {
    let policy = policy(
        r#"{
        "Version": "2012-10-17",
        "Statement": [{
            "Effect": "Allow",
            "Action": "s3:GetObject",
            "Resource": "arn:aws:s3:::s3audit-rs-example-bucket/*"
        }]
    }"#,
    );
    assert_eq!(policy.wildcards(), Wildcards(0));
}

#[test]
fn test_policy_some_wildcard_actions_and_principals() {
    let policy = policy(
        r#"{
        "Version": "2012-10-17",
        "Statement": [{
            "Effect": "Allow",
            "Action": ["s3:*", "s3:*Object*", "*"],
            "Resource": "arn:aws:s3:::s3audit-rs-example-bucket/*",
            "Principal": {"AWS": ["arn:aws:iam::*:user/*", "*"]}
        }]
    }"#,
    );
    assert_eq!(policy.wildcards(), Wildcards(4));
}

#[test]
fn test_policy_some_wildcard_principals() {
    let policy = policy(
        r#"{
        "Version": "2012-10-17",
        "Statement": [{
            "Effect": "Allow",
            "Action": "s3:GetObject",
            "Resource": "arn:aws:s3:::s3audit-rs-example-bucket/*",
            "Principal": {"AWS": ["arn:aws:iam::*:user/*", "*"]}
        }]
    }"#,
    );
    assert_eq!(policy.wildcards(), Wildcards(1));
}

#[test]
fn test_policy_some_service_principal() {
    let policy = policy(
        r#"{
        "Version": "2012-10-17",
        "Statement": [{
            "Effect": "Allow",
            "Action": "s3:GetObject",
            "Resource": "arn:aws:s3:::s3audit-rs-example-bucket/*",
            "Principal": {"Service": "s3.amazonaws.com"}
        }]
    }"#,
    );
    assert_eq!(policy.wildcards(), Wildcards(0));
}

#[test]
fn deny_statement_adds_nothing_among_allows() {
    let with_deny = policy(
        r#"{"Statement": [
            {"Effect": "Allow", "Action": "s3:*", "Principal": "*"},
            {"Effect": "Deny", "Action": "*", "Principal": {"AWS": ["*", "arn:aws:iam::cloudfront:user/CloudFront Origin Access Identity E1"]}},
            {"Effect": "Allow", "Action": "s3:GetObject", "Principal": {"AWS": "arn:aws:iam::cloudfront:user/CloudFront Origin Access Identity E2"}}
        ]}"#,
    );
    let without = policy(
        r#"{"Statement": [
            {"Effect": "Allow", "Action": "s3:*", "Principal": "*"},
            {"Effect": "Allow", "Action": "s3:GetObject", "Principal": {"AWS": "arn:aws:iam::cloudfront:user/CloudFront Origin Access Identity E2"}}
        ]}"#,
    );
    assert_eq!(with_deny.wildcards(), without.wildcards());
    assert_eq!(with_deny.wildcards(), Wildcards(2));
    assert_eq!(with_deny.cloudfront_distributions(), CloudFrontDistributions(1));
}

#[test]
fn principal_wildcard_is_exact_match() {
    let principal = Principal(vec!["arn:aws:iam::*:user/*".into()]);
    assert_eq!(principal.wildcards(), 0);
    let principal = Principal(vec!["*".into()]);
    assert_eq!(principal.wildcards(), 1);
    let principal = Principal(vec!["**".into(), " *".into()]);
    assert_eq!(principal.wildcards(), 0);
}

#[test]
fn action_wildcard_is_substring_match() {
    let action = Action(vec!["s3:*".into(), "iam:*AccessKey*".into(), "s3:GetObject".into()]);
    assert_eq!(action.wildcards(), 2);
}

#[test]
fn allow_everything_statement_counts_two_wildcards() {
    let policy = policy(r#"{"Statement": [{"Effect":"Allow","Action":"*","Principal":"*"}]}"#);
    assert_eq!(policy.wildcards(), Wildcards(2));
    assert_eq!(policy.cloudfront_distributions(), CloudFrontDistributions(0));
}

#[test]
fn origin_access_identity_counts_one_distribution() {
    let policy = policy(
        r#"{"Statement": [{"Effect":"Allow","Action":"s3:GetObject",
            "Principal":{"AWS":"arn:aws:iam::cloudfront:user/CloudFront Origin Access Identity E1234"}}]}"#,
    );
    assert_eq!(policy.cloudfront_distributions(), CloudFrontDistributions(1));
    assert_eq!(policy.wildcards(), Wildcards(0));
}

#[test]
fn counts_add_up_across_statements() {
    let policy = policy(
        r#"{"Statement": [
            {"Effect":"Allow","Action":["s3:*","iam:*"],"Principal":"*"},
            {"Effect":"Allow","Action":"*","Principal":{"AWS":["*","*"]}}
        ]}"#,
    );
    assert_eq!(policy.wildcards(), Wildcards(6));
}

#[test]
fn odd_shapes_list_nothing() {
    let policy = policy(
        r#"{"Statement": [
            {"Effect":"Allow","Action":{"a":"*"},"Principal":["*"]},
            {"Effect":"Allow","Action":["*", 3],"Principal":{"AWS":{"x":"*"}}},
            {"Effect":"Allow","Action":7,"Principal":{"Federated":"*"}}
        ]}"#,
    );
    assert_eq!(policy.wildcards(), Wildcards(0));
}

#[test]
fn policy_errors_are_reported() {
    assert_eq!(BucketPolicy::try_from(None).unwrap_err(), PolicyError::Missing);
    assert_eq!(BucketPolicy::try_from(Some("{not json")).unwrap_err(), PolicyError::Unparsable);
    assert_eq!(
        BucketPolicy::try_from(Some(r#"{"Version": "2012-10-17"}"#)).unwrap_err(),
        PolicyError::NoStatements
    );
    assert_eq!(
        BucketPolicy::try_from(Some(r#"{"Statement": {"Effect": "Allow"}}"#)).unwrap_err(),
        PolicyError::NoStatements
    );
    assert_eq!(
        BucketPolicy::try_from(Some(r#"{"Statement": [{"Effect": "Allow"}, {"Action": "*"}]}"#))
            .unwrap_err(),
        PolicyError::NoEffect
    );
}

#[test]
fn empty_statement_list_is_clean() {
    let policy = policy(r#"{"Statement": []}"#);
    assert_eq!(policy.wildcards(), Wildcards(0));
    assert_eq!(policy.cloudfront_distributions(), CloudFrontDistributions(0));
}

#[test]
fn json_member_reads_one_level() {
    assert_eq!(Json::member(r#"{"a": [1, "x"]}"#, "a"), Some(Json::Array(vec!["1".into(), "\"x\"".into()])));
    assert_eq!(Json::member(r#"{"a": {"b": true}}"#, "a"), Some(Json::Object(vec![("b".into(), "true".into())])));
    assert_eq!(Json::member(r#"{"a": 1}"#, "b"), None);
    assert_eq!(Json::member(r#"[1]"#, "a"), None);
    assert_eq!(Json::member(r#"{"a": null}"#, "a"), Some(Json::Null));
}

#[test]
fn finding_messages_count_in_words() {
    assert_eq!(Wildcards(0).message(), "Bucket policy doesn't allow a wildcard entity");
    assert_eq!(Wildcards(1).message(), "Bucket has 1 statement with wildcard entities");
    assert_eq!(Wildcards(12).message(), "Bucket has 12 statements with wildcard entities");
    assert_eq!(
        CloudFrontDistributions(0).message(),
        "Bucket is not associated with any CloudFront distributions"
    );
    assert_eq!(
        CloudFrontDistributions(1).message(),
        "Bucket is associated with 1 CloudFront distribution"
    );
    assert_eq!(
        CloudFrontDistributions(305).message(),
        "Bucket is associated with 305 CloudFront distributions"
    );
    assert_eq!(Wildcards(7).count(), 7);
}

fn statement(effect: Option<&str>, actions: &[&str], principals: &[&str]) -> Statement {
    Statement {
        effect: effect.map(String::from),
        actions: Action(actions.iter().map(|a| a.to_string()).collect()),
        principals: Principal(principals.iter().map(|p| p.to_string()).collect()),
    }
}

#[test]
fn statements_gather_what_allows() {
    let statements = vec![
        statement(Some("Allow"), &["s3:*", "s3:GetObject"], &["*"]),
        statement(Some("Deny"), &["*"], &["*", "arn:aws:iam::cloudfront:user/CloudFront Origin Access Identity E9"]),
        statement(Some("Allow"), &["iam:*AccessKey*"], &["arn:aws:iam::cloudfront:user/CloudFront Origin Access Identity E1", "arn:aws:iam::*:user/*"]),
    ];
    let policy = BucketPolicy::from_statements(&statements).unwrap();
    assert_eq!(policy.wildcards(), Wildcards(3));
    assert_eq!(policy.cloudfront_distributions(), CloudFrontDistributions(1));
}

#[test]
fn statements_without_effect_are_refused() {
    let statements = vec![statement(Some("Allow"), &["*"], &[]), statement(None, &[], &[])];
    assert_eq!(BucketPolicy::from_statements(&statements).unwrap_err(), PolicyError::NoEffect);
    let none: Vec<Statement> = Vec::new();
    assert_eq!(BucketPolicy::from_statements(&none).unwrap().wildcards(), Wildcards(0));
}

#[test]
fn statement_reads_its_json() {
    let read = Statement::read(STRING_STATEMENT);
    assert_eq!(read.effect.as_deref(), Some("Allow"));
    assert_eq!(read.actions.0, vec!["*"]);
    assert_eq!(read.principals.0, vec!["*"]);
}

#[test]
fn statement_order_does_not_change_counts() {
    let a = statement(Some("Allow"), &["s3:*"], &["*"]);
    let b = statement(Some("Allow"), &["s3:Get*", "s3:List"], &["arn:aws:iam::cloudfront:user/CloudFront Origin Access Identity E1"]);
    let one = BucketPolicy::from_statements(&vec![a, b]).unwrap();
    let a = statement(Some("Allow"), &["s3:*"], &["*"]);
    let b = statement(Some("Allow"), &["s3:Get*", "s3:List"], &["arn:aws:iam::cloudfront:user/CloudFront Origin Access Identity E1"]);
    let two = BucketPolicy::from_statements(&vec![b, a]).unwrap();
    assert_eq!(one.wildcards(), two.wildcards());
    assert_eq!(one.cloudfront_distributions(), two.cloudfront_distributions());
}
