//! Per-bucket reports: the fetches that an audit needs, the findings made
//! from what was fetched, and the lines of a text report.
use vstd::prelude::*;
use crate::acl::{acl_of, BucketAcl, Grant};
use crate::actions::wildcard_actions;
use crate::audits::{list_contains, Audit};
use crate::common::{Emoji, LineView, TextLine, line};
use crate::encryption::{encryption_for, first_algorithm, BucketEncryption, EncryptionConfiguration};
use crate::logging::{logging_of, BucketLogging, LoggingEnabled};
use crate::policy::{analysis_of, BucketPolicy, CloudFrontDistributions, NoBucketPolicy, PolicyError, Wildcards};
use crate::principals::{cloudfront_principals, wildcard_principals};
use crate::public_access_block::{block_of, PublicAccessBlock, PublicAccessBlockConfiguration};
use crate::versioning::{
    mfa_status_of, versioning_status_of, BucketVersioning, VersioningConfiguration,
    VersioningStatus,
};
use crate::website::BucketWebsite;
use crate::csv_output::{cells_of, csv_outcome, CsvError};
use crate::names::texts;
use crate::text::{lower_of, lowercase, same_text};

verus! {

/// The fetches that a bucket's audit needs. One versioning fetch serves both
/// the versioning and the MFA delete audits.
#[derive(Clone, Copy, Debug, PartialEq, Eq, Structural)]
pub struct FetchPlan {
    pub acl: bool,
    pub encryption: bool,
    pub logging: bool,
    pub policy: bool,
    pub public_access_block: bool,
    pub versioning: bool,
    pub website: bool,
}

/// The fetches that a list of enabled audits needs. The `Cloudfront` audit
/// needs no fetch of its own: CloudFront origin access identities are read
/// from the policy, and their finding rides along with the policy audit.
/// Whether it should be gated on its own is left open; here it is not.
pub open spec fn plan_of(audits: Seq<Audit>) -> FetchPlan {
    FetchPlan {
        acl: audits.contains(Audit::Acl),
        encryption: audits.contains(Audit::ServerSideEncryption),
        logging: audits.contains(Audit::Logging),
        policy: audits.contains(Audit::Policy),
        public_access_block: audits.contains(Audit::PublicAccessBlocks),
        versioning: audits.contains(Audit::Versioning) || audits.contains(Audit::MfaDelete),
        website: audits.contains(Audit::Website),
    }
}

impl FetchPlan {
    /// The fetches that the enabled audits need.
    pub fn for_audits(audits: &Vec<Audit>) -> (r: FetchPlan)
        ensures
            r == plan_of(audits@),
    {
        FetchPlan {
            acl: list_contains(audits, Audit::Acl),
            encryption: list_contains(audits, Audit::ServerSideEncryption),
            logging: list_contains(audits, Audit::Logging),
            policy: list_contains(audits, Audit::Policy),
            public_access_block: list_contains(audits, Audit::PublicAccessBlocks),
            versioning: list_contains(audits, Audit::Versioning) || list_contains(
                audits,
                Audit::MfaDelete,
            ),
            website: list_contains(audits, Audit::Website),
        }
    }
}

/// What the fetches of one bucket gave, each where it was made.
#[derive(Clone, Debug)]
pub struct Fetched {
    /// The grants of the access-control list.
    pub acl: Option<Vec<Grant>>,
    /// The encryption configuration, `None` inside where there is none.
    pub encryption: Option<Option<EncryptionConfiguration>>,
    /// The logging configuration, `None` inside where logging is off.
    pub logging: Option<Option<LoggingEnabled>>,
    /// The policy text, `None` inside where the bucket has no policy.
    pub policy: Option<Option<String>>,
    /// The public-access-block configuration, `None` inside where there is none.
    pub public_access_block: Option<Option<PublicAccessBlockConfiguration>>,
    /// The versioning configuration, shared by two audits.
    pub versioning: Option<VersioningConfiguration>,
    /// Whether the website configuration could be fetched.
    pub website: Option<bool>,
}

/// The findings for one bucket, a slot for each audit that ran.
#[derive(Debug)]
pub struct Report {
    pub name: String,
    pub acl: Option<BucketAcl>,
    pub encryption: Option<BucketEncryption>,
    pub logging: Option<BucketLogging>,
    /// `Some(None)` where the policy audit ran and the bucket has no policy.
    pub policy: Option<Option<BucketPolicy>>,
    pub public_access_block: Option<PublicAccessBlock>,
    /// Filled where the versioning or the MFA delete audit ran: both
    /// statuses of the one versioning fetch.
    pub versioning: Option<BucketVersioning>,
    /// Whether the versioning audit ran, so that its status is shown.
    pub versioning_audited: bool,
    /// Whether the MFA delete audit ran, so that its status is shown.
    pub mfa_delete_audited: bool,
    pub website: Option<BucketWebsite>,
}

/// Why a bucket's report could not be made.
#[derive(Clone, Copy, Debug, PartialEq, Eq, Structural)]
pub enum ReportError {
    /// A fetch that an enabled audit needs was not handed over; the audit
    /// names it (versioning for the shared versioning fetch).
    NotFetched(Audit),
    /// The bucket's policy could not be analysed.
    Policy(PolicyError),
}

/// The first fetch that the plan needs and that is missing.
pub open spec fn missing_fetch(plan: FetchPlan, fetched: Fetched) -> Option<Audit> {
    if plan.acl && fetched.acl is None {
        Some(Audit::Acl)
    } else if plan.encryption && fetched.encryption is None {
        Some(Audit::ServerSideEncryption)
    } else if plan.logging && fetched.logging is None {
        Some(Audit::Logging)
    } else if plan.policy && fetched.policy is None {
        Some(Audit::Policy)
    } else if plan.public_access_block && fetched.public_access_block is None {
        Some(Audit::PublicAccessBlocks)
    } else if plan.versioning && fetched.versioning is None {
        Some(Audit::Versioning)
    } else if plan.website && fetched.website is None {
        Some(Audit::Website)
    } else {
        None
    }
}

/// Why the fetched policy cannot be analysed, where the plan needs it.
pub open spec fn policy_failure(plan: FetchPlan, fetched: Fetched) -> Option<PolicyError> {
    if plan.policy {
        match fetched.policy {
            Some(Some(doc)) => match analysis_of(Some(doc@)) {
                Err(e) => Some(e),
                Ok(_) => None,
            },
            _ => None,
        }
    } else {
        None
    }
}

/// Whether each slot of a report is filled exactly when its audit is enabled.
pub open spec fn audited_with(report: Report, audits: Seq<Audit>) -> bool {
    &&& report.acl is Some == audits.contains(Audit::Acl)
    &&& report.encryption is Some == audits.contains(Audit::ServerSideEncryption)
    &&& report.logging is Some == audits.contains(Audit::Logging)
    &&& report.policy is Some == audits.contains(Audit::Policy)
    &&& report.public_access_block is Some == audits.contains(Audit::PublicAccessBlocks)
    &&& report.versioning is Some == (audits.contains(Audit::Versioning) || audits.contains(
        Audit::MfaDelete,
    ))
    &&& report.versioning_audited == audits.contains(Audit::Versioning)
    &&& report.mfa_delete_audited == audits.contains(Audit::MfaDelete)
    &&& report.website is Some == audits.contains(Audit::Website)
}

/// Whether a report holds, for each enabled audit, the finding that its
/// classifier makes of what was fetched, and nothing for the others.
pub open spec fn report_fits(report: Report, name: String, audits: Seq<Audit>, fetched: Fetched) -> bool {
    let plan = plan_of(audits);
    &&& report.name == name
    &&& report.acl == if plan.acl {
        Some(acl_of(fetched.acl->0@))
    } else {
        None
    }
    &&& report.encryption == if plan.encryption {
        Some(encryption_for(first_algorithm(fetched.encryption->0)))
    } else {
        None
    }
    &&& report.logging == if plan.logging {
        Some(logging_of(fetched.logging->0))
    } else {
        None
    }
    &&& report.public_access_block == if plan.public_access_block {
        Some(block_of(fetched.public_access_block->0))
    } else {
        None
    }
    &&& report.website == if plan.website {
        Some(
            if fetched.website->0 {
                BucketWebsite::Enabled
            } else {
                BucketWebsite::Disabled
            },
        )
    } else {
        None
    }
    &&& if plan.versioning {
        report.versioning matches Some(v) && v@ == (
            mfa_status_of(fetched.versioning->0),
            versioning_status_of(fetched.versioning->0),
        )
    } else {
        report.versioning is None
    }
    &&& report.versioning_audited == audits.contains(Audit::Versioning)
    &&& report.mfa_delete_audited == audits.contains(Audit::MfaDelete)
    &&& if plan.policy {
        match fetched.policy->0 {
            None => report.policy == Some(None::<BucketPolicy>),
            Some(doc) => report.policy matches Some(Some(p)) && analysis_of(Some(doc@)) == Ok::<
                (Seq<Seq<char>>, Seq<Seq<char>>),
                PolicyError,
            >((p@.actions, p@.principals)),
        }
    } else {
        report.policy is None
    }
}


/// The views of a sequence of lines.
pub open spec fn line_views(lines: Seq<TextLine>) -> Seq<LineView> {
    lines.map_values(|l: TextLine| l@)
}

/// The heading line of a bucket.
pub open spec fn heading_line(name: Seq<char>) -> LineView {
    LineView { indent: 1, emoji: Emoji::Arrow, heading: true, text: name }
}

/// The public-access-block lines: a heading, then each switch.
pub open spec fn block_lines(pab: Option<PublicAccessBlock>) -> Seq<LineView> {
    match pab {
        Some(b) => {
            let blocks = b.spec_blocks();
            seq![
                line(2, Emoji::Arrow, "Bucket public access configuration"@),
                line(3, blocks[0].spec_emoji(), blocks[0].spec_message()),
                line(3, blocks[1].spec_emoji(), blocks[1].spec_message()),
                line(3, blocks[2].spec_emoji(), blocks[2].spec_message()),
                line(3, blocks[3].spec_emoji(), blocks[3].spec_message()),
            ]
        },
        None => Seq::empty(),
    }
}

pub open spec fn encryption_lines(e: Option<BucketEncryption>) -> Seq<LineView> {
    match e {
        Some(x) => seq![line(2, x.spec_emoji(), x.spec_message())],
        None => Seq::empty(),
    }
}

/// The versioning line, where the versioning audit ran.
pub open spec fn versioning_lines(v: Option<BucketVersioning>, shown: bool) -> Seq<LineView> {
    match v {
        Some(x) => if shown {
            seq![line(2, x@.1.spec_emoji(), x@.1.spec_message())]
        } else {
            Seq::empty()
        },
        None => Seq::empty(),
    }
}

/// The MFA delete line, where the MFA delete audit ran.
pub open spec fn mfa_lines(v: Option<BucketVersioning>, shown: bool) -> Seq<LineView> {
    match v {
        Some(x) => if shown {
            seq![line(2, x@.0.spec_emoji(), x@.0.spec_message())]
        } else {
            Seq::empty()
        },
        None => Seq::empty(),
    }
}

pub open spec fn website_lines(w: Option<BucketWebsite>) -> Seq<LineView> {
    match w {
        Some(x) => seq![line(2, x.spec_emoji(), x.spec_message())],
        None => Seq::empty(),
    }
}

/// The wildcard count of a policy.
pub open spec fn policy_wildcards(p: BucketPolicy) -> Wildcards {
    Wildcards((wildcard_actions(p@.actions) + wildcard_principals(p@.principals)) as usize)
}

/// The CloudFront count of a policy.
pub open spec fn policy_distributions(p: BucketPolicy) -> CloudFrontDistributions {
    CloudFrontDistributions(cloudfront_principals(p@.principals) as usize)
}

/// The policy lines: the wildcard and CloudFront findings, or a note that
/// there is no policy. The CloudFront line comes with every audited policy,
/// whether or not the `Cloudfront` audit is on; gating it on that audit
/// instead is an open choice that this library does not make.
pub open spec fn policy_lines(p: Option<Option<BucketPolicy>>) -> Seq<LineView> {
    match p {
        Some(Some(policy)) => seq![
            line(2, policy_wildcards(policy).spec_emoji(), policy_wildcards(policy).spec_message()),
            line(
                2,
                policy_distributions(policy).spec_emoji(),
                policy_distributions(policy).spec_message(),
            ),
        ],
        Some(None) => seq![line(2, NoBucketPolicy.spec_emoji(), "No bucket policy set"@)],
        None => Seq::empty(),
    }
}

pub open spec fn acl_lines(a: Option<BucketAcl>) -> Seq<LineView> {
    match a {
        Some(x) => seq![line(2, x.spec_emoji(), x.spec_message())],
        None => Seq::empty(),
    }
}

pub open spec fn logging_lines(l: Option<BucketLogging>) -> Seq<LineView> {
    match l {
        Some(x) => seq![line(2, x.spec_emoji(), x.spec_message())],
        None => Seq::empty(),
    }
}

/// The text report of a bucket: its heading, then a line for each filled
/// slot, in a fixed order.
pub open spec fn report_lines(r: Report) -> Seq<LineView> {
    seq![heading_line(r.name@)] + block_lines(r.public_access_block) + encryption_lines(r.encryption)
        + versioning_lines(r.versioning, r.versioning_audited) + mfa_lines(
        r.versioning,
        r.mfa_delete_audited,
    ) + website_lines(r.website)
        + policy_lines(r.policy) + acl_lines(r.acl) + logging_lines(r.logging)
}

fn add_line(lines: &mut Vec<TextLine>, indent: usize, emoji: Emoji, text: String)
    ensures
        line_views(final(lines)@) == line_views(old(lines)@).push(line(indent as nat, emoji, text@)),
{
    let ghost before = lines@;
    lines.push(TextLine::new(indent, emoji, text));
    assert(line_views(lines@) =~= line_views(before).push(line(indent as nat, emoji, text@)));
}

fn add_block_lines(lines: &mut Vec<TextLine>, pab: &Option<PublicAccessBlock>)
    ensures
        line_views(final(lines)@) == line_views(old(lines)@) + block_lines(*pab),
{
    let ghost done = line_views(lines@);
    if let Some(b) = pab {
        add_line(lines, 2, Emoji::Arrow, String::from_str("Bucket public access configuration"));
        let blocks = b.blocks();
        add_line(lines, 3, blocks[0].emoji(), blocks[0].message());
        add_line(lines, 3, blocks[1].emoji(), blocks[1].message());
        add_line(lines, 3, blocks[2].emoji(), blocks[2].message());
        add_line(lines, 3, blocks[3].emoji(), blocks[3].message());
    }
    assert(line_views(lines@) =~= done + block_lines(*pab));
}

fn add_encryption_lines(lines: &mut Vec<TextLine>, e: &Option<BucketEncryption>)
    ensures
        line_views(final(lines)@) == line_views(old(lines)@) + encryption_lines(*e),
{
    let ghost done = line_views(lines@);
    if let Some(x) = e {
        add_line(lines, 2, x.emoji(), x.message());
    }
    assert(line_views(lines@) =~= done + encryption_lines(*e));
}

fn add_versioning_lines(lines: &mut Vec<TextLine>, v: &Option<BucketVersioning>, shown: bool)
    ensures
        line_views(final(lines)@) == line_views(old(lines)@) + versioning_lines(*v, shown),
{
    let ghost done = line_views(lines@);
    if let Some(x) = v {
        if shown {
            add_line(lines, 2, x.versioning().emoji(), x.versioning().message());
        }
    }
    assert(line_views(lines@) =~= done + versioning_lines(*v, shown));
}

fn add_mfa_lines(lines: &mut Vec<TextLine>, v: &Option<BucketVersioning>, shown: bool)
    ensures
        line_views(final(lines)@) == line_views(old(lines)@) + mfa_lines(*v, shown),
{
    let ghost done = line_views(lines@);
    if let Some(x) = v {
        if shown {
            add_line(lines, 2, x.mfa_delete().emoji(), x.mfa_delete().message());
        }
    }
    assert(line_views(lines@) =~= done + mfa_lines(*v, shown));
}

fn add_website_lines(lines: &mut Vec<TextLine>, w: &Option<BucketWebsite>)
    ensures
        line_views(final(lines)@) == line_views(old(lines)@) + website_lines(*w),
{
    let ghost done = line_views(lines@);
    if let Some(x) = w {
        add_line(lines, 2, x.emoji(), x.message());
    }
    assert(line_views(lines@) =~= done + website_lines(*w));
}

fn add_policy_lines(lines: &mut Vec<TextLine>, p: &Option<Option<BucketPolicy>>)
    ensures
        line_views(final(lines)@) == line_views(old(lines)@) + policy_lines(*p),
{
    let ghost done = line_views(lines@);
    match p {
        Some(Some(policy)) => {
            let wildcards = policy.wildcards();
            assert(wildcards == policy_wildcards(*policy));
            add_line(lines, 2, wildcards.emoji(), wildcards.message());
            let distributions = policy.cloudfront_distributions();
            assert(distributions == policy_distributions(*policy));
            add_line(lines, 2, distributions.emoji(), distributions.message());
        },
        Some(None) => {
            let none = NoBucketPolicy;
            add_line(lines, 2, none.emoji(), none.message());
        },
        None => {},
    }
    assert(line_views(lines@) =~= done + policy_lines(*p));
}

fn add_acl_lines(lines: &mut Vec<TextLine>, a: &Option<BucketAcl>)
    ensures
        line_views(final(lines)@) == line_views(old(lines)@) + acl_lines(*a),
{
    let ghost done = line_views(lines@);
    if let Some(x) = a {
        add_line(lines, 2, x.emoji(), x.message());
    }
    assert(line_views(lines@) =~= done + acl_lines(*a));
}

fn add_logging_lines(lines: &mut Vec<TextLine>, l: &Option<BucketLogging>)
    ensures
        line_views(final(lines)@) == line_views(old(lines)@) + logging_lines(*l),
{
    let ghost done = line_views(lines@);
    if let Some(x) = l {
        add_line(lines, 2, x.emoji(), x.message());
    }
    assert(line_views(lines@) =~= done + logging_lines(*l));
}

impl Report {
    /// The report of the bucket `name` for the enabled audits, made from
    /// what was fetched for it.
    pub fn assemble(name: String, audits: &Vec<Audit>, fetched: Fetched) -> (r: Result<
        Report,
        ReportError,
    >)
        ensures
            match r {
                Ok(report) => {
                    &&& missing_fetch(plan_of(audits@), fetched) is None
                    &&& policy_failure(plan_of(audits@), fetched) is None
                    &&& report_fits(report, name, audits@, fetched)
                    &&& audited_with(report, audits@)
                },
                Err(ReportError::NotFetched(a)) => missing_fetch(plan_of(audits@), fetched) == Some(
                    a,
                ),
                Err(ReportError::Policy(e)) => {
                    &&& missing_fetch(plan_of(audits@), fetched) is None
                    &&& policy_failure(plan_of(audits@), fetched) == Some(e)
                },
            },
    {
        let plan = FetchPlan::for_audits(audits);
        if plan.acl && fetched.acl.is_none() {
            return Err(ReportError::NotFetched(Audit::Acl));
        }
        if plan.encryption && fetched.encryption.is_none() {
            return Err(ReportError::NotFetched(Audit::ServerSideEncryption));
        }
        if plan.logging && fetched.logging.is_none() {
            return Err(ReportError::NotFetched(Audit::Logging));
        }
        if plan.policy && fetched.policy.is_none() {
            return Err(ReportError::NotFetched(Audit::Policy));
        }
        if plan.public_access_block && fetched.public_access_block.is_none() {
            return Err(ReportError::NotFetched(Audit::PublicAccessBlocks));
        }
        if plan.versioning && fetched.versioning.is_none() {
            return Err(ReportError::NotFetched(Audit::Versioning));
        }
        if plan.website && fetched.website.is_none() {
            return Err(ReportError::NotFetched(Audit::Website));
        }
        let policy = match &fetched.policy {
            Some(Some(doc)) if plan.policy => match BucketPolicy::try_from(Some(doc.as_str())) {
                Ok(p) => Some(Some(p)),
                Err(e) => return Err(ReportError::Policy(e)),
            },
            Some(None) if plan.policy => Some(None),
            _ => None,
        };
        let acl = match &fetched.acl {
            Some(grants) if plan.acl => Some(BucketAcl::from_grants(grants)),
            _ => None,
        };
        let encryption = match &fetched.encryption {
            Some(config) if plan.encryption => Some(BucketEncryption::from_configuration(config)),
            _ => None,
        };
        let logging = match &fetched.logging {
            Some(l) if plan.logging => Some(BucketLogging::from_logging(l)),
            _ => None,
        };
        let public_access_block = match &fetched.public_access_block {
            Some(config) if plan.public_access_block => Some(
                PublicAccessBlock::from_configuration(config),
            ),
            _ => None,
        };
        let versioning = match &fetched.versioning {
            Some(config) if plan.versioning => Some(BucketVersioning::from_configuration(config)),
            _ => None,
        };
        let versioning_audited = list_contains(audits, Audit::Versioning);
        let mfa_delete_audited = list_contains(audits, Audit::MfaDelete);
        let website = match fetched.website {
            Some(configured) if plan.website => Some(
                if configured {
                    BucketWebsite::Enabled
                } else {
                    BucketWebsite::Disabled
                },
            ),
            _ => None,
        };
        Ok(
            Report {
                name,
                acl,
                encryption,
                logging,
                policy,
                public_access_block,
                versioning,
                versioning_audited,
                mfa_delete_audited,
                website,
            },
        )
    }

    /// The lines of the bucket's text report.
    pub fn text(&self) -> (r: Vec<TextLine>)
        ensures
            line_views(r@) == report_lines(*self),
    {
        let mut lines: Vec<TextLine> = Vec::new();
        lines.push(
            TextLine { indent: 1, emoji: Emoji::Arrow, heading: true, text: self.name.clone() },
        );
        assert(line_views(lines@) =~= seq![heading_line(self.name@)]);
        add_block_lines(&mut lines, &self.public_access_block);
        add_encryption_lines(&mut lines, &self.encryption);
        add_versioning_lines(&mut lines, &self.versioning, self.versioning_audited);
        add_mfa_lines(&mut lines, &self.versioning, self.mfa_delete_audited);
        add_website_lines(&mut lines, &self.website);
        add_policy_lines(&mut lines, &self.policy);
        add_acl_lines(&mut lines, &self.acl);
        add_logging_lines(&mut lines, &self.logging);
        lines
    }
}

/// Where the versioning or the MFA delete audit runs, the one versioning
/// fetch is made, and the report's versioning finding holds both statuses
/// that it gave.
pub proof fn lemma_versioning_fetch_fills_both(
    name: String,
    audits: Seq<Audit>,
    fetched: Fetched,
    report: Report,
)
    requires
        audits.contains(Audit::Versioning) || audits.contains(Audit::MfaDelete),
        report_fits(report, name, audits, fetched),
    ensures
        plan_of(audits).versioning,
        report.versioning matches Some(v) && v@ == (
            mfa_status_of(fetched.versioning->0),
            versioning_status_of(fetched.versioning->0),
        ),
{
}

/// With the versioning audit on and the MFA delete audit off, a report
/// needs the one versioning fetch and keeps the MFA delete status that it
/// gave, while its text and its CSV show the versioning status only: the
/// MFA delete cell is left blank.
pub proof fn lemma_versioning_without_mfa(
    name: String,
    audits: Seq<Audit>,
    fetched: Fetched,
    report: Report,
)
    requires
        audits.contains(Audit::Versioning),
        !audits.contains(Audit::MfaDelete),
        report_fits(report, name, audits, fetched),
    ensures
        plan_of(audits).versioning,
        report.versioning matches Some(v) && v@ == (
            mfa_status_of(fetched.versioning->0),
            versioning_status_of(fetched.versioning->0),
        ),
        versioning_lines(report.versioning, report.versioning_audited) == seq![
            line(
                2,
                versioning_status_of(fetched.versioning->0).spec_emoji(),
                versioning_status_of(fetched.versioning->0).spec_message(),
            ),
        ],
        mfa_lines(report.versioning, report.mfa_delete_audited) == Seq::<LineView>::empty(),
        cells_of(report).versioning == Some(
            Some(versioning_status_of(fetched.versioning->0) == VersioningStatus::Enabled),
        ),
        cells_of(report).mfa_delete == Some(None::<bool>),
{
}

/// Where the policy audit runs and the bucket has no policy, the report's
/// policy slot says so: audited and absent, neither left out nor a policy.
pub proof fn lemma_no_policy_is_audited_absence(
    name: String,
    audits: Seq<Audit>,
    fetched: Fetched,
    report: Report,
)
    requires
        audits.contains(Audit::Policy),
        fetched.policy == Some(None::<String>),
        report_fits(report, name, audits, fetched),
    ensures
        report.policy == Some(None::<BucketPolicy>),
        policy_lines(report.policy) == seq![line(2, Emoji::Info, "No bucket policy set"@)],
{
}

/// The reports of a run, in the order the buckets were found.
#[derive(Debug)]
pub struct Reports(pub Vec<Report>);

/// The text report of a run: each bucket's lines, bucket after bucket.
pub open spec fn all_report_lines(reports: Seq<Report>) -> Seq<LineView>
    decreases reports.len(),
{
    if reports.len() == 0 {
        Seq::empty()
    } else {
        all_report_lines(reports.drop_last()) + report_lines(reports.last())
    }
}

/// The format of a report.
#[derive(Clone, Copy, Debug, PartialEq, Eq, Structural)]
pub enum ReportType {
    Csv,
    Text,
}

impl Default for ReportType {
    fn default() -> (r: ReportType)
        ensures
            r == ReportType::Text,
    {
        ReportType::Text
    }
}

/// The format named by a lower-case name.
pub open spec fn report_type_named(name: Seq<char>) -> Option<ReportType> {
    if name == "csv"@ {
        Some(ReportType::Csv)
    } else if name == "text"@ {
        Some(ReportType::Text)
    } else {
        None
    }
}

impl ReportType {
    /// The format named by `name`, in any case.
    pub fn parse(name: &str) -> (r: Option<ReportType>)
        ensures
            r == report_type_named(lower_of(name@)),
    {
        let lower = lowercase(name);
        if same_text(lower.as_str(), "csv") {
            Some(ReportType::Csv)
        } else if same_text(lower.as_str(), "text") {
            Some(ReportType::Text)
        } else {
            None
        }
    }
}

/// How reports are to be written.
#[derive(Clone, Copy, Debug, PartialEq, Eq, Structural)]
pub struct ReportOptions {
    pub output_type: ReportType,
}

impl Default for ReportOptions {
    fn default() -> (r: ReportOptions)
        ensures
            r.output_type == ReportType::Text,
    {
        ReportOptions { output_type: ReportType::default() }
    }
}

/// A run's reports written out: CSV records, or the lines of the text report.
#[derive(Debug)]
pub enum Rendered {
    Csv(Vec<String>),
    Text(Vec<TextLine>),
}

impl Reports {
    /// The reports of a run.
    pub fn new(reports: Vec<Report>) -> (r: Reports)
        ensures
            r.0@ == reports@,
    {
        Reports(reports)
    }

    /// The lines of the text report: each bucket's, bucket after bucket.
    pub fn text(&self) -> (r: Vec<TextLine>)
        ensures
            line_views(r@) == all_report_lines(self.0@),
    {
        let mut lines: Vec<TextLine> = Vec::new();
        let mut i: usize = 0;
        assert(self.0@.subrange(0, 0) =~= Seq::<Report>::empty());
        assert(line_views(lines@) =~= Seq::<LineView>::empty());
        while i < self.0.len()
            invariant
                i <= self.0.len(),
                line_views(lines@) == all_report_lines(self.0@.subrange(0, i as int)),
            decreases self.0.len() - i,
        {
            let ghost done = self.0@.subrange(0, i + 1);
            assert(done.drop_last() =~= self.0@.subrange(0, i as int));
            let ghost before = lines@;
            let mut more = self.0[i].text();
            let ghost added = more@;
            lines.append(&mut more);
            assert(line_views(lines@) =~= line_views(before) + line_views(added));
            i = i + 1;
        }
        assert(self.0@.subrange(0, self.0@.len() as int) =~= self.0@);
        lines
    }

    /// The reports written in the chosen format.
    pub fn output(&self, options: &ReportOptions) -> (r: Result<Rendered, CsvError>)
        ensures
            match options.output_type {
                ReportType::Csv => match r {
                    Ok(Rendered::Csv(records)) => csv_outcome(self.0@) == Ok::<
                        Seq<Seq<char>>,
                        CsvError,
                    >(texts(records@)),
                    Ok(Rendered::Text(_)) => false,
                    Err(e) => csv_outcome(self.0@) == Err::<Seq<Seq<char>>, CsvError>(e),
                },
                ReportType::Text => match r {
                    Ok(Rendered::Text(lines)) => line_views(lines@) == all_report_lines(self.0@),
                    _ => false,
                },
            },
    {
        match options.output_type {
            ReportType::Csv => match self.csv() {
                Ok(records) => Ok(Rendered::Csv(records)),
                Err(e) => Err(e),
            },
            ReportType::Text => Ok(Rendered::Text(self.text())),
        }
    }
}

/// The region of a bucket, from the location constraint that the provider
/// reports: no constraint or an empty one means `us-east-1`, and the legacy
/// `EU` means `eu-west-1`.
pub open spec fn region_of(location: Option<Seq<char>>) -> Seq<char> {
    match location {
        None => "us-east-1"@,
        Some(l) => if l == ""@ {
            "us-east-1"@
        } else if l == "EU"@ {
            "eu-west-1"@
        } else {
            l
        },
    }
}

/// The region that a bucket's fetches are sent to.
pub fn bucket_region(location: Option<&str>) -> (r: String)
    ensures
        r@ == region_of(match location {
            Some(l) => Some(l@),
            None => None,
        }),
{
    match location {
        None => String::from_str("us-east-1"),
        Some(l) => if same_text(l, "") {
            String::from_str("us-east-1")
        } else if same_text(l, "EU") {
            String::from_str("eu-west-1")
        } else {
            String::from_str(l)
        },
    }
}

} // verus!
