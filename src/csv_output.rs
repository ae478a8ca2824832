//! The CSV rendering of reports: one header row, then one row per bucket.
use vstd::prelude::*;
use crate::acl::BucketAcl;
use crate::actions::wildcard_actions;
use crate::encryption::{BucketEncryption, AES256, AWS_KMS};
use crate::logging::BucketLogging;
use crate::names::texts;
use crate::policy::BucketPolicy;
use crate::principals::wildcard_principals;
use crate::public_access_block::{bool_text, bool_word};
use crate::audits::Audit;
use crate::report::{audited_with, Report, Reports};
use crate::versioning::{MfaStatus, VersioningStatus};

use crate::website::BucketWebsite;

verus! {

/// What the csv crate writes for one record of the given fields.
pub uninterp spec fn csv_record_of(fields: Seq<Seq<char>>) -> Seq<char>;

/// Relies on `csv::Writer::write_record` with the default writer: the
/// fields, each quoted where CSV needs it, then the line terminator.
#[verifier::external_body]
fn encode_record(fields: &Vec<String>) -> (r: String)
    ensures
        r@ == csv_record_of(texts(fields@)),
{
    let mut writer = csv::Writer::from_writer(Vec::new());
    let _ = writer.write_record(fields);
    String::from_utf8(writer.into_inner().unwrap_or_default()).unwrap_or_default()
}

/// A column name, where the column is present.
#[verifier::opaque]
pub open spec fn name_col(name: Seq<char>, present: bool) -> Seq<Seq<char>> {
    if present {
        seq![name]
    } else {
        Seq::empty()
    }
}

/// A text cell, where present.
pub open spec fn text_col(v: Option<String>) -> Seq<Seq<char>> {
    match v {
        Some(s) => seq![s@],
        None => Seq::empty(),
    }
}

/// A cell that is `true`, `false` or blank, where present.
pub open spec fn status_col(v: Option<Option<bool>>) -> Seq<Seq<char>> {
    match v {
        Some(Some(b)) => seq![bool_word(b)],
        Some(None) => seq![""@],
        None => Seq::empty(),
    }
}

/// A `true` or `false` cell, where present.
pub open spec fn bool_col(v: Option<bool>) -> Seq<Seq<char>> {
    match v {
        Some(b) => seq![bool_word(b)],
        None => Seq::empty(),
    }
}

/// The CSV word for an access finding.
pub open spec fn acl_word(a: BucketAcl) -> Seq<char> {
    match a {
        BucketAcl::Private => "private"@,
        BucketAcl::Public => "public"@,
    }
}

/// The CSV word for an encryption finding: the algorithm name, or `None`.
pub open spec fn encryption_word(e: BucketEncryption) -> Seq<char> {
    match e {
        BucketEncryption::Default => AES256@,
        BucketEncryption::Kms => AWS_KMS@,
        BucketEncryption::NotEnabled => "None"@,
        BucketEncryption::Unknown(s) => s@,
    }
}

/// Whether an audited policy allows any wildcard entity; no policy allows none.
pub open spec fn policy_allows_wildcards(p: Option<BucketPolicy>) -> bool {
    match p {
        Some(policy) => wildcard_actions(policy@.actions) + wildcard_principals(policy@.principals)
            > 0,
        None => false,
    }
}

/// The cells of one CSV row, each where present.
pub struct CsvCells {
    pub name: Seq<char>,
    pub acl: Option<Seq<char>>,
    pub block_public_acls: Option<bool>,
    pub block_public_policy: Option<bool>,
    pub encryption: Option<Seq<char>>,
    pub ignore_public_acls: Option<bool>,
    pub logging: Option<bool>,
    pub mfa_delete: Option<Option<bool>>,
    pub policy_wildcard_principals: Option<bool>,
    pub restrict_public_buckets: Option<bool>,
    pub versioning: Option<Option<bool>>,
    pub website: Option<bool>,
}

/// The characters of an optional string.
pub open spec fn opt_text(v: Option<String>) -> Option<Seq<char>> {
    match v {
        Some(s) => Some(s@),
        None => None,
    }
}

/// A cell of characters, where present.
pub open spec fn chars_col(v: Option<Seq<char>>) -> Seq<Seq<char>> {
    match v {
        Some(s) => seq![s],
        None => Seq::empty(),
    }
}

/// The column names of a row: the name, then one for each cell present.
#[verifier::opaque]
pub open spec fn header_of(c: CsvCells) -> Seq<Seq<char>> {
    seq!["name"@] + name_col("acl"@, c.acl is Some) + name_col(
        "block_public_acls"@,
        c.block_public_acls is Some,
    ) + name_col("block_public_policy"@, c.block_public_policy is Some) + name_col(
        "encryption"@,
        c.encryption is Some,
    ) + name_col("ignore_public_acls"@, c.ignore_public_acls is Some) + name_col(
        "logging"@,
        c.logging is Some,
    ) + name_col("mfa_delete"@, c.mfa_delete is Some) + name_col(
        "policy_wildcard_principals"@,
        c.policy_wildcard_principals is Some,
    ) + name_col("restrict_public_buckets"@, c.restrict_public_buckets is Some) + name_col(
        "versioning"@,
        c.versioning is Some,
    ) + name_col("website"@, c.website is Some)
}

/// The cells of a row, in the order of its column names.
#[verifier::opaque]
pub open spec fn record_of(c: CsvCells) -> Seq<Seq<char>> {
    seq![c.name] + chars_col(c.acl) + bool_col(c.block_public_acls) + bool_col(
        c.block_public_policy,
    ) + chars_col(c.encryption) + bool_col(c.ignore_public_acls) + bool_col(c.logging) + status_col(
        c.mfa_delete,
    ) + bool_col(c.policy_wildcard_principals) + bool_col(c.restrict_public_buckets) + status_col(
        c.versioning,
    ) + bool_col(c.website)
}

/// The cells that a report flattens into.
pub open spec fn cells_of(r: Report) -> CsvCells {
    CsvCells {
        name: r.name@,
        acl: match r.acl {
            Some(a) => Some(acl_word(a)),
            None => None,
        },
        block_public_acls: match r.public_access_block {
            Some(b) => Some(b.block_public_acls),
            None => None,
        },
        block_public_policy: match r.public_access_block {
            Some(b) => Some(b.block_public_policy),
            None => None,
        },
        encryption: match r.encryption {
            Some(e) => Some(encryption_word(e)),
            None => None,
        },
        ignore_public_acls: match r.public_access_block {
            Some(b) => Some(b.ignore_public_acls),
            None => None,
        },
        logging: match r.logging {
            Some(l) => Some(l is Enabled),
            None => None,
        },
        mfa_delete: match r.versioning {
            Some(v) => Some(
                if r.mfa_delete_audited {
                    Some(v@.0 == MfaStatus::Enabled)
                } else {
                    None
                },
            ),
            None => None,
        },
        policy_wildcard_principals: match r.policy {
            Some(p) => Some(policy_allows_wildcards(p)),
            None => None,
        },
        restrict_public_buckets: match r.public_access_block {
            Some(b) => Some(b.restrict_public_buckets),
            None => None,
        },
        versioning: match r.versioning {
            Some(v) => Some(
                if r.versioning_audited {
                    Some(v@.1 == VersioningStatus::Enabled)
                } else {
                    None
                },
            ),
            None => None,
        },
        website: match r.website {
            Some(w) => Some(w == BucketWebsite::Enabled),
            None => None,
        },
    }
}

/// The column names of a bucket's row.
pub open spec fn csv_header_of(r: Report) -> Seq<Seq<char>> {
    header_of(cells_of(r))
}

/// The cells of a bucket's row.
pub open spec fn csv_values_of(r: Report) -> Seq<Seq<char>> {
    record_of(cells_of(r))
}

/// One for a cell that is present, else nothing.
pub open spec fn count_of(present: bool) -> nat {
    if present {
        1
    } else {
        0
    }
}

/// The number of cells of a row.
pub open spec fn width_of(c: CsvCells) -> nat {
    1 + count_of(c.acl is Some) + count_of(c.block_public_acls is Some) + count_of(
        c.block_public_policy is Some,
    ) + count_of(c.encryption is Some) + count_of(c.ignore_public_acls is Some) + count_of(
        c.logging is Some,
    ) + count_of(c.mfa_delete is Some) + count_of(c.policy_wildcard_principals is Some) + count_of(
        c.restrict_public_buckets is Some,
    ) + count_of(c.versioning is Some) + count_of(c.website is Some)
}

proof fn lemma_name_col_len(name: Seq<char>, present: bool)
    ensures
        name_col(name, present).len() == count_of(present),
{
    reveal(name_col);
}

proof fn lemma_header_width(c: CsvCells)
    ensures
        header_of(c).len() == width_of(c),
{
    reveal(header_of);
    lemma_name_col_len("acl"@, c.acl is Some);
    lemma_name_col_len("block_public_acls"@, c.block_public_acls is Some);
    lemma_name_col_len("block_public_policy"@, c.block_public_policy is Some);
    lemma_name_col_len("encryption"@, c.encryption is Some);
    lemma_name_col_len("ignore_public_acls"@, c.ignore_public_acls is Some);
    lemma_name_col_len("logging"@, c.logging is Some);
    lemma_name_col_len("mfa_delete"@, c.mfa_delete is Some);
    lemma_name_col_len("policy_wildcard_principals"@, c.policy_wildcard_principals is Some);
    lemma_name_col_len("restrict_public_buckets"@, c.restrict_public_buckets is Some);
    lemma_name_col_len("versioning"@, c.versioning is Some);
    lemma_name_col_len("website"@, c.website is Some);
}

proof fn lemma_record_width(c: CsvCells)
    ensures
        record_of(c).len() == width_of(c),
{
    reveal(record_of);
}

/// A row has a cell for each of its column names.
pub proof fn lemma_csv_row_width(c: CsvCells)
    ensures
        record_of(c).len() == header_of(c).len(),
{
    lemma_header_width(c);
    lemma_record_width(c);
}

/// A report flattened into one CSV row: the bucket name, and a cell for each
/// leaf of each filled slot.
#[derive(Clone, Debug, PartialEq, Eq)]
pub struct CsvOutput {
    pub name: String,
    pub acl: Option<String>,
    pub block_public_acls: Option<bool>,
    pub block_public_policy: Option<bool>,
    pub encryption: Option<String>,
    pub ignore_public_acls: Option<bool>,
    pub logging: Option<bool>,
    pub mfa_delete: Option<Option<bool>>,
    pub policy_wildcard_principals: Option<bool>,
    pub restrict_public_buckets: Option<bool>,
    pub versioning: Option<Option<bool>>,
    pub website: Option<bool>,
}

impl View for CsvOutput {
    type V = CsvCells;

    open spec fn view(&self) -> CsvCells {
        CsvCells {
            name: self.name@,
            acl: opt_text(self.acl),
            block_public_acls: self.block_public_acls,
            block_public_policy: self.block_public_policy,
            encryption: opt_text(self.encryption),
            ignore_public_acls: self.ignore_public_acls,
            logging: self.logging,
            mfa_delete: self.mfa_delete,
            policy_wildcard_principals: self.policy_wildcard_principals,
            restrict_public_buckets: self.restrict_public_buckets,
            versioning: self.versioning,
            website: self.website,
        }
    }
}

fn push_name(v: &mut Vec<String>, name: &str, present: bool)
    ensures
        texts(final(v)@) == texts(old(v)@) + name_col(name@, present),
{
    let ghost before = v@;
    if present {
        v.push(String::from_str(name));
    }
    proof {
        reveal(name_col);
    }
    assert(texts(v@) =~= texts(before) + name_col(name@, present));
}

fn push_text(v: &mut Vec<String>, cell: &Option<String>)
    ensures
        texts(final(v)@) == texts(old(v)@) + chars_col(opt_text(*cell)),
{
    let ghost before = v@;
    if let Some(s) = cell {
        v.push(s.clone());
    }
    assert(texts(v@) =~= texts(before) + chars_col(opt_text(*cell)));
}

fn push_status(v: &mut Vec<String>, cell: Option<Option<bool>>)
    ensures
        texts(final(v)@) == texts(old(v)@) + status_col(cell),
{
    let ghost before = v@;
    match cell {
        Some(Some(b)) => {
            v.push(String::from_str(bool_text(b)));
            assert(texts(v@) =~= texts(before) + seq![bool_word(b)]);
        },
        Some(None) => {
            let blank = String::new();
            proof {
                reveal_strlit("");
            }
            assert(blank@ == ""@);
            v.push(blank);
            assert(texts(v@) =~= texts(before) + seq![""@]);
        },
        None => {
            assert(texts(v@) =~= texts(before) + Seq::<Seq<char>>::empty());
        },
    }
}

fn push_bool(v: &mut Vec<String>, cell: Option<bool>)
    ensures
        texts(final(v)@) == texts(old(v)@) + bool_col(cell),
{
    let ghost before = v@;
    if let Some(b) = cell {
        v.push(String::from_str(bool_text(b)));
    }
    assert(texts(v@) =~= texts(before) + bool_col(cell));
}

impl CsvOutput {
    /// The names of the columns that the row has.
    pub fn header(&self) -> (r: Vec<String>)
        ensures
            texts(r@) == header_of(self@),
    {
        let mut v: Vec<String> = Vec::new();
        v.push(String::from_str("name"));
        assert(texts(v@) =~= seq!["name"@]);
        push_name(&mut v, "acl", self.acl.is_some());
        push_name(&mut v, "block_public_acls", self.block_public_acls.is_some());
        push_name(&mut v, "block_public_policy", self.block_public_policy.is_some());
        push_name(&mut v, "encryption", self.encryption.is_some());
        push_name(&mut v, "ignore_public_acls", self.ignore_public_acls.is_some());
        push_name(&mut v, "logging", self.logging.is_some());
        push_name(&mut v, "mfa_delete", self.mfa_delete.is_some());
        push_name(&mut v, "policy_wildcard_principals", self.policy_wildcard_principals.is_some());
        push_name(&mut v, "restrict_public_buckets", self.restrict_public_buckets.is_some());
        push_name(&mut v, "versioning", self.versioning.is_some());
        push_name(&mut v, "website", self.website.is_some());
        proof {
            reveal(header_of);
        }
        v
    }

    /// The cells of the row.
    pub fn record(&self) -> (r: Vec<String>)
        ensures
            texts(r@) == record_of(self@),
    {
        let mut v: Vec<String> = Vec::new();
        v.push(self.name.clone());
        assert(texts(v@) =~= seq![self.name@]);
        push_text(&mut v, &self.acl);
        push_bool(&mut v, self.block_public_acls);
        push_bool(&mut v, self.block_public_policy);
        push_text(&mut v, &self.encryption);
        push_bool(&mut v, self.ignore_public_acls);
        push_bool(&mut v, self.logging);
        push_status(&mut v, self.mfa_delete);
        push_bool(&mut v, self.policy_wildcard_principals);
        push_bool(&mut v, self.restrict_public_buckets);
        push_status(&mut v, self.versioning);
        push_bool(&mut v, self.website);
        proof {
            reveal(record_of);
        }
        v
    }
}

fn acl_text(a: &BucketAcl) -> (r: String)
    ensures
        r@ == acl_word(*a),
{
    match a {
        BucketAcl::Private => String::from_str("private"),
        BucketAcl::Public => String::from_str("public"),
    }
}

fn encryption_text(e: &BucketEncryption) -> (r: String)
    ensures
        r@ == encryption_word(*e),
{
    match e {
        BucketEncryption::Default => String::from_str(AES256),
        BucketEncryption::Kms => String::from_str(AWS_KMS),
        BucketEncryption::NotEnabled => String::from_str("None"),
        BucketEncryption::Unknown(s) => s.clone(),
    }
}

impl Report {
    /// The report flattened into one CSV row.
    pub fn csv(&self) -> (r: CsvOutput)
        ensures
            r@ == cells_of(*self),
    {
        let acl = match &self.acl {
            Some(a) => Some(acl_text(a)),
            None => None,
        };
        let encryption = match &self.encryption {
            Some(e) => Some(encryption_text(e)),
            None => None,
        };
        let logging = match &self.logging {
            Some(BucketLogging::Enabled(_)) => Some(true),
            Some(BucketLogging::Disabled) => Some(false),
            None => None,
        };
        let mfa_delete = match &self.versioning {
            Some(v) => Some(
                if self.mfa_delete_audited {
                    Some(*v.mfa_delete() == MfaStatus::Enabled)
                } else {
                    None
                },
            ),
            None => None,
        };
        let policy_wildcard_principals = match &self.policy {
            Some(Some(p)) => Some(p.wildcards().count() > 0),
            Some(None) => Some(false),
            None => None,
        };
        let versioning = match &self.versioning {
            Some(v) => Some(
                if self.versioning_audited {
                    Some(*v.versioning() == VersioningStatus::Enabled)
                } else {
                    None
                },
            ),
            None => None,
        };
        let website = match &self.website {
            Some(w) => Some(*w == BucketWebsite::Enabled),
            None => None,
        };
        let (block_public_acls, block_public_policy, ignore_public_acls, restrict_public_buckets) =
            match &self.public_access_block {
            Some(b) => (
                Some(b.block_public_acls),
                Some(b.block_public_policy),
                Some(b.ignore_public_acls),
                Some(b.restrict_public_buckets),
            ),
            None => (None, None, None, None),
        };
        let r = CsvOutput {
            name: self.name.clone(),
            acl,
            block_public_acls,
            block_public_policy,
            encryption,
            ignore_public_acls,
            logging,
            mfa_delete,
            policy_wildcard_principals,
            restrict_public_buckets,
            versioning,
            website,
        };
        assert(r@.acl == cells_of(*self).acl);
        assert(r@.encryption == cells_of(*self).encryption);
        r
    }
}

/// Why reports could not be written as one CSV table.
#[derive(Clone, Copy, Debug, PartialEq, Eq, Structural)]
pub enum CsvError {
    /// A row has another number of cells than the header.
    UnequalLengths { expected_len: usize, len: usize },
}

/// The width of the first row, among `rows`, whose width is not `width`.
pub open spec fn width_mismatch(rows: Seq<Report>, width: nat) -> Option<nat>
    decreases rows.len(),
{
    if rows.len() == 0 {
        None
    } else {
        match width_mismatch(rows.drop_last(), width) {
            Some(w) => Some(w),
            None => if csv_values_of(rows.last()).len() != width {
                Some(csv_values_of(rows.last()).len())
            } else {
                None
            },
        }
    }
}

/// The data records of the rows, in order.
pub open spec fn data_records(rows: Seq<Report>) -> Seq<Seq<char>>
    decreases rows.len(),
{
    if rows.len() == 0 {
        Seq::empty()
    } else {
        data_records(rows.drop_last()).push(csv_record_of(csv_values_of(rows.last())))
    }
}

/// The CSV records of a run: nothing for no bucket; else the header of the
/// first row, written once, then a record per bucket, as long as every row
/// is as wide as that header.
pub open spec fn csv_outcome(rows: Seq<Report>) -> Result<Seq<Seq<char>>, CsvError> {
    if rows.len() == 0 {
        Ok(Seq::empty())
    } else {
        let width = csv_header_of(rows[0]).len();
        match width_mismatch(rows, width) {
            Some(w) => Err(CsvError::UnequalLengths { expected_len: width as usize, len: w as usize }),
            None => Ok(seq![csv_record_of(csv_header_of(rows[0]))] + data_records(rows)),
        }
    }
}

proof fn lemma_width_mismatch_extends(rows: Seq<Report>, k: int, width: nat, w: nat)
    requires
        0 <= k <= rows.len(),
        width_mismatch(rows.subrange(0, k), width) == Some(w),
    ensures
        width_mismatch(rows, width) == Some(w),
    decreases rows.len() - k,
{
    if k < rows.len() {
        assert(rows.subrange(0, k + 1).drop_last() =~= rows.subrange(0, k));
        lemma_width_mismatch_extends(rows, k + 1, width, w);
    } else {
        assert(rows.subrange(0, k) =~= rows);
    }
}

proof fn lemma_no_mismatch(rows: Seq<Report>, width: nat)
    requires
        forall|i: int| 0 <= i < rows.len() ==> csv_values_of(#[trigger] rows[i]).len() == width,
    ensures
        width_mismatch(rows, width) is None,
    decreases rows.len(),
{
    if rows.len() > 0 {
        let init = rows.drop_last();
        assert forall|i: int| 0 <= i < init.len() implies csv_values_of(#[trigger] init[i]).len()
            == width by {
            assert(init[i] == rows[i]);
        }
        lemma_no_mismatch(init, width);
        assert(rows.last() == rows[rows.len() - 1]);
    }
}

proof fn lemma_data_records(rows: Seq<Report>)
    ensures
        data_records(rows).len() == rows.len(),
        forall|i: int|
            0 <= i < rows.len() ==> data_records(rows)[i] == csv_record_of(
                csv_values_of(#[trigger] rows[i]),
            ),
    decreases rows.len(),
{
    if rows.len() > 0 {
        let init = rows.drop_last();
        lemma_data_records(init);
        assert forall|i: int| 0 <= i < rows.len() implies data_records(rows)[i] == csv_record_of(
            csv_values_of(#[trigger] rows[i]),
        ) by {
            if i < init.len() {
                assert(init[i] == rows[i]);
            }
        }
    }
}

/// Whether two reports fill the same slots.
pub open spec fn same_slots(r1: Report, r2: Report) -> bool {
    &&& r1.acl is Some == r2.acl is Some
    &&& r1.encryption is Some == r2.encryption is Some
    &&& r1.logging is Some == r2.logging is Some
    &&& r1.policy is Some == r2.policy is Some
    &&& r1.public_access_block is Some == r2.public_access_block is Some
    &&& r1.versioning is Some == r2.versioning is Some
    &&& r1.website is Some == r2.website is Some
}

/// Two reports that fill the same slots have the same CSV columns, in the
/// same order, and rows as wide as those columns.
pub proof fn lemma_same_slots_same_columns(r1: Report, r2: Report)
    requires
        same_slots(r1, r2),
    ensures
        csv_header_of(r1) == csv_header_of(r2),
        csv_values_of(r1).len() == csv_header_of(r1).len(),
        csv_values_of(r2).len() == csv_header_of(r2).len(),
{
    reveal(header_of);
    lemma_csv_row_width(cells_of(r1));
    lemma_csv_row_width(cells_of(r2));
}

/// Reports made with one set of enabled audits fill the same slots.
pub proof fn lemma_same_audits_same_slots(r1: Report, r2: Report, audits: Seq<Audit>)
    requires
        audited_with(r1, audits),
        audited_with(r2, audits),
    ensures
        same_slots(r1, r2),
{
}

/// Reports that fill the same slots (as those of one run do) share their
/// columns, so their CSV is a single header record followed by one record
/// per bucket, every row as wide as that header.
pub proof fn lemma_csv_single_header(rows: Seq<Report>)
    requires
        rows.len() >= 1,
        forall|i: int| 0 <= i < rows.len() ==> same_slots(#[trigger] rows[i], rows[0]),
    ensures
        csv_outcome(rows) == Ok::<Seq<Seq<char>>, CsvError>(
            seq![csv_record_of(csv_header_of(rows[0]))] + data_records(rows),
        ),
        data_records(rows).len() == rows.len(),
        forall|i: int|
            0 <= i < rows.len() ==> {
                &&& data_records(rows)[i] == csv_record_of(csv_values_of(#[trigger] rows[i]))
                &&& csv_header_of(rows[i]) == csv_header_of(rows[0])
                &&& csv_values_of(rows[i]).len() == csv_header_of(rows[0]).len()
            },
{
    let width = csv_header_of(rows[0]).len();
    assert forall|i: int| 0 <= i < rows.len() implies csv_header_of(#[trigger] rows[i])
        == csv_header_of(rows[0]) && csv_values_of(rows[i]).len() == width by {
        lemma_same_slots_same_columns(rows[i], rows[0]);
    }
    lemma_no_mismatch(rows, width);
    lemma_data_records(rows);
}

impl Reports {
    /// The CSV records of the run, each with its line terminator: the header
    /// once, then a record per bucket.
    pub fn csv(&self) -> (r: Result<Vec<String>, CsvError>)
        ensures
            match r {
                Ok(records) => csv_outcome(self.0@) == Ok::<Seq<Seq<char>>, CsvError>(
                    texts(records@),
                ),
                Err(e) => csv_outcome(self.0@) == Err::<Seq<Seq<char>>, CsvError>(e),
            },
    {
        let rows = &self.0;
        let mut records: Vec<String> = Vec::new();
        if rows.len() == 0 {
            assert(texts(records@) =~= Seq::<Seq<char>>::empty());
            return Ok(records);
        }
        let header = rows[0].csv().header();
        proof {
            lemma_csv_row_width(cells_of(rows@[0]));
        }
        let width = header.len();
        records.push(encode_record(&header));
        let ghost head = csv_record_of(csv_header_of(rows@[0]));
        assert(texts(records@) =~= seq![head]);
        assert(rows@.subrange(0, 0) =~= Seq::<Report>::empty());
        let mut i: usize = 0;
        while i < rows.len()
            invariant
                rows@ == self.0@,
                i <= rows.len(),
                rows.len() > 0,
                width == csv_header_of(rows@[0]).len(),
                head == csv_record_of(csv_header_of(rows@[0])),
                width_mismatch(rows@.subrange(0, i as int), width as nat) is None,
                texts(records@) == seq![head] + data_records(rows@.subrange(0, i as int)),
            decreases rows.len() - i,
        {
            let ghost done = rows@.subrange(0, i + 1);
            assert(done.drop_last() =~= rows@.subrange(0, i as int));
            assert(done.last() == rows@[i as int]);
            let record = rows[i].csv().record();
            assert(texts(record@).len() == record@.len());
            if record.len() != width {
                proof {
                    assert(csv_values_of(rows@[i as int]).len() == record.len());
                    assert(width_mismatch(done, width as nat) == Some(record.len() as nat));
                    lemma_width_mismatch_extends(rows@, i + 1, width as nat, record.len() as nat);
                }
                return Err(CsvError::UnequalLengths { expected_len: width, len: record.len() });
            }
            let ghost before = records@;
            records.push(encode_record(&record));
            assert(texts(records@) =~= texts(before).push(records@.last()@));
            i = i + 1;
        }
        assert(rows@.subrange(0, rows@.len() as int) =~= rows@);
        Ok(records)
    }
}

} // verus!
