//! Risk analysis of a bucket's resource policy: wildcard entities and
//! CloudFront origin access identities among the statements that allow.
use vstd::prelude::*;
use crate::actions::{wildcard_actions, Action};
use crate::common::Emoji;
use crate::json::{member_of, Json};
use crate::names::{name_list, texts};
use crate::principals::{cloudfront_principals, principal_list, wildcard_principals, Principal};
use crate::text::{decimal, decimal_text, same_text};

verus! {

/// Why a policy document could not be analysed.
#[derive(Clone, Copy, Debug, PartialEq, Eq, Structural)]
pub enum PolicyError {
    /// No policy text was given.
    Missing,
    /// The text is no JSON document.
    Unparsable,
    /// The document has no `Statement` array.
    NoStatements,
    /// A statement has no `Effect` string.
    NoEffect,
    /// The statements list more names than a count can hold.
    TooLarge,
}

/// The statements of a policy document, each as its JSON text.
pub open spec fn statements_of(doc: Seq<char>) -> Option<Seq<String>> {
    match member_of(doc, "Statement"@) {
        Some(Json::Array(items)) => Some(items@),
        _ => None,
    }
}

/// The effect of a statement.
pub open spec fn effect_of(statement: Seq<char>) -> Option<Seq<char>> {
    match member_of(statement, "Effect"@) {
        Some(Json::Str(e)) => Some(e@),
        _ => None,
    }
}

/// One statement as read: its effect, where it states one, and the
/// actions and principals that it lists.
pub struct StatementView {
    pub effect: Option<Seq<char>>,
    pub actions: Seq<Seq<char>>,
    pub principals: Seq<Seq<char>>,
}

/// What a statement's JSON text reads as.
pub open spec fn read_statement(text: Seq<char>) -> StatementView {
    StatementView {
        effect: effect_of(text),
        actions: name_list(member_of(text, "Action"@)),
        principals: principal_list(member_of(text, "Principal"@)),
    }
}

/// What each statement text reads as, in order.
pub open spec fn read_statements(texts: Seq<String>) -> Seq<StatementView>
    decreases texts.len(),
{
    if texts.len() == 0 {
        Seq::empty()
    } else {
        read_statements(texts.drop_last()).push(read_statement(texts.last()@))
    }
}

/// Whether every statement states its effect.
pub open spec fn all_have_effect(statements: Seq<StatementView>) -> bool {
    forall|i: int| 0 <= i < statements.len() ==> (#[trigger] statements[i]).effect is Some
}

/// Whether a statement denies: such a statement adds no risk.
pub open spec fn denies(statement: StatementView) -> bool {
    statement.effect == Some("Deny"@)
}

/// The actions that the statements which do not deny list, in order.
pub open spec fn gathered_actions(statements: Seq<StatementView>) -> Seq<Seq<char>>
    decreases statements.len(),
{
    if statements.len() == 0 {
        Seq::empty()
    } else {
        gathered_actions(statements.drop_last()) + if denies(statements.last()) {
            Seq::empty()
        } else {
            statements.last().actions
        }
    }
}

/// The principals that the statements which do not deny list, in order.
pub open spec fn gathered_principals(statements: Seq<StatementView>) -> Seq<Seq<char>>
    decreases statements.len(),
{
    if statements.len() == 0 {
        Seq::empty()
    } else {
        gathered_principals(statements.drop_last()) + if denies(statements.last()) {
            Seq::empty()
        } else {
            statements.last().principals
        }
    }
}

/// The finding of a list of statements: the actions and principals of those
/// that do not deny, or why there is none.
pub open spec fn finding_of(statements: Seq<StatementView>) -> Result<
    (Seq<Seq<char>>, Seq<Seq<char>>),
    PolicyError,
> {
    if !all_have_effect(statements) {
        Err(PolicyError::NoEffect)
    } else if gathered_actions(statements).len() + gathered_principals(statements).len()
        > usize::MAX {
        Err(PolicyError::TooLarge)
    } else {
        Ok((gathered_actions(statements), gathered_principals(statements)))
    }
}

/// What analysing a policy text gives: the finding of its statements, or
/// why it cannot be analysed.
pub open spec fn analysis_of(policy: Option<Seq<char>>) -> Result<
    (Seq<Seq<char>>, Seq<Seq<char>>),
    PolicyError,
> {
    match policy {
        None => Err(PolicyError::Missing),
        Some(doc) => if crate::json::json_of(doc) is None {
            Err(PolicyError::Unparsable)
        } else {
            match statements_of(doc) {
                None => Err(PolicyError::NoStatements),
                Some(statements) => finding_of(read_statements(statements)),
            }
        },
    }
}

/// One statement of a policy, as read.
#[derive(Debug)]
pub struct Statement {
    pub effect: Option<String>,
    pub actions: Action,
    pub principals: Principal,
}

impl View for Statement {
    type V = StatementView;

    open spec fn view(&self) -> StatementView {
        StatementView {
            effect: match self.effect {
                Some(e) => Some(e@),
                None => None,
            },
            actions: self.actions@,
            principals: self.principals@,
        }
    }
}

/// The views of a list of statements.
pub open spec fn statement_views(statements: Seq<Statement>) -> Seq<StatementView> {
    statements.map_values(|s: Statement| s@)
}

impl Statement {
    /// Reads a statement from its JSON text.
    pub fn read(text: &str) -> (r: Statement)
        ensures
            r@ == read_statement(text@),
    {
        let effect = match Json::member(text, "Effect") {
            Some(Json::Str(e)) => Some(e),
            _ => None,
        };
        let actions = Action::from_json(&Json::member(text, "Action"));
        let principals = Principal::from_json(&Json::member(text, "Principal"));
        Statement { effect, actions, principals }
    }
}

fn copy_names(names: &Vec<String>) -> (r: Vec<String>)
    ensures
        texts(r@) == texts(names@),
{
    let mut r: Vec<String> = Vec::new();
    let mut i: usize = 0;
    while i < names.len()
        invariant
            i <= names.len(),
            texts(r@) == texts(names@).subrange(0, i as int),
        decreases names.len() - i,
    {
        let ghost before = r@;
        r.push(names[i].clone());
        assert(texts(r@) =~= texts(before).push(names@[i as int]@));
        assert(texts(names@).subrange(0, i + 1) =~= texts(names@).subrange(0, i as int).push(
            names@[i as int]@,
        ));
        i = i + 1;
    }
    assert(texts(names@).subrange(0, names@.len() as int) =~= texts(names@));
    r
}

/// The number of wildcard entities that a policy allows.
#[derive(Clone, Copy, Debug, PartialEq, Eq, Structural)]
pub struct Wildcards(pub usize);

/// The number of CloudFront distributions that a policy lets in.
#[derive(Clone, Copy, Debug, PartialEq, Eq, Structural)]
pub struct CloudFrontDistributions(pub usize);

/// The finding for a bucket that has no policy.
#[derive(Clone, Copy, Debug, PartialEq, Eq, Structural)]
pub struct NoBucketPolicy;

/// The plural ending that follows a count of `n`.
pub open spec fn plural_s(n: nat) -> Seq<char> {
    if n > 1 {
        "s"@
    } else {
        ""@
    }
}

fn plural_text(n: usize) -> (r: &'static str)
    ensures
        r@ == plural_s(n as nat),
{
    if n > 1 {
        "s"
    } else {
        ""
    }
}

impl Wildcards {
    pub(crate) fn add(&mut self, count: usize)
        requires
            old(self).0 + count <= usize::MAX,
        ensures
            final(self).0 == old(self).0 + count,
    {
        self.0 = self.0 + count;
    }

    /// The number of wildcard entities.
    pub fn count(&self) -> (r: usize)
        ensures
            r == self.0,
    {
        self.0
    }

    pub open spec fn spec_message(&self) -> Seq<char> {
        if self.0 == 0 {
            "Bucket policy doesn't allow a wildcard entity"@
        } else {
            "Bucket has "@ + decimal(self.0 as nat) + " statement"@ + plural_s(self.0 as nat)
                + " with wildcard entities"@
        }
    }

    /// A tick where no wildcard entity is allowed, else a cross.
    pub open spec fn spec_emoji(&self) -> Emoji {
        if self.0 == 0 {
            Emoji::Tick
        } else {
            Emoji::Cross
        }
    }

    /// The marker shown in front of the finding.
    pub fn emoji(&self) -> (r: Emoji)
        ensures
            r == self.spec_emoji(),
    {
        if self.0 == 0 {
            Emoji::Tick
        } else {
            Emoji::Cross
        }
    }

    /// The words of the finding.
    pub fn message(&self) -> (r: String)
        ensures
            r@ == self.spec_message(),
    {
        if self.0 == 0 {
            String::from_str("Bucket policy doesn't allow a wildcard entity")
        } else {
            let r = String::from_str("Bucket has ");
            let r = r.concat(decimal_text(self.0).as_str());
            let r = r.concat(" statement");
            let r = r.concat(plural_text(self.0));
            r.concat(" with wildcard entities")
        }
    }
}

impl CloudFrontDistributions {
    pub open spec fn spec_message(&self) -> Seq<char> {
        if self.0 == 0 {
            "Bucket is not associated with any CloudFront distributions"@
        } else {
            "Bucket is associated with "@ + decimal(self.0 as nat) + " CloudFront distribution"@
                + plural_s(self.0 as nat)
        }
    }

    /// A tick where no distribution is let in, else a cross.
    pub open spec fn spec_emoji(&self) -> Emoji {
        if self.0 == 0 {
            Emoji::Tick
        } else {
            Emoji::Cross
        }
    }

    /// The marker shown in front of the finding.
    pub fn emoji(&self) -> (r: Emoji)
        ensures
            r == self.spec_emoji(),
    {
        if self.0 == 0 {
            Emoji::Tick
        } else {
            Emoji::Cross
        }
    }

    /// The words of the finding.
    pub fn message(&self) -> (r: String)
        ensures
            r@ == self.spec_message(),
    {
        if self.0 == 0 {
            String::from_str("Bucket is not associated with any CloudFront distributions")
        } else {
            let r = String::from_str("Bucket is associated with ");
            let r = r.concat(decimal_text(self.0).as_str());
            let r = r.concat(" CloudFront distribution");
            r.concat(plural_text(self.0))
        }
    }
}

impl NoBucketPolicy {
    /// Marks the finding as information.
    pub open spec fn spec_emoji(&self) -> Emoji {
        Emoji::Info
    }

    /// The marker shown in front of the finding.
    pub fn emoji(&self) -> (r: Emoji)
        ensures
            r == self.spec_emoji(),
    {
        Emoji::Info
    }

    /// The words of the finding.
    pub fn message(&self) -> (r: String)
        ensures
            r@ == "No bucket policy set"@,
    {
        String::from_str("No bucket policy set")
    }
}

/// The risk-bearing entries of a bucket policy: the actions and principals
/// of every statement that does not deny.
#[derive(Debug)]
pub struct BucketPolicy {
    actions: Action,
    principals: Principal,
}

/// The actions and principals of a policy.
pub struct PolicyView {
    pub actions: Seq<Seq<char>>,
    pub principals: Seq<Seq<char>>,
}

impl View for BucketPolicy {
    type V = PolicyView;

    closed spec fn view(&self) -> PolicyView {
        PolicyView { actions: self.actions@, principals: self.principals@ }
    }
}

impl BucketPolicy {
    #[verifier::type_invariant]
    spec fn inv(self) -> bool {
        self.actions@.len() + self.principals@.len() <= usize::MAX
    }

    /// The number of CloudFront origin access identities among the principals.
    pub fn cloudfront_distributions(&self) -> (r: CloudFrontDistributions)
        ensures
            r.0 == cloudfront_principals(self@.principals),
    {
        CloudFrontDistributions(self.principals.cloudfront_distributions())
    }

    /// The number of wildcard actions plus the number of wildcard principals.
    pub fn wildcards(&self) -> (r: Wildcards)
        ensures
            r.0 == wildcard_actions(self@.actions) + wildcard_principals(self@.principals),
    {
        proof {
            use_type_invariant(self);
            crate::actions::lemma_wildcard_actions_bound(self@.actions);
            crate::principals::lemma_wildcard_principals_bound(self@.principals);
        }
        let mut wildcards = Wildcards(0);
        wildcards.add(self.actions.wildcards());
        wildcards.add(self.principals.wildcards());
        wildcards
    }

    /// The finding of statements already read: the actions and principals
    /// of each statement that does not deny are gathered, in order.
    pub fn from_statements(statements: &Vec<Statement>) -> (r: Result<BucketPolicy, PolicyError>)
        ensures
            match r {
                Ok(p) => finding_of(statement_views(statements@)) == Ok::<
                    (Seq<Seq<char>>, Seq<Seq<char>>),
                    PolicyError,
                >((p@.actions, p@.principals)),
                Err(e) => finding_of(statement_views(statements@)) == Err::<
                    (Seq<Seq<char>>, Seq<Seq<char>>),
                    PolicyError,
                >(e),
            },
    {
        let ghost all = statement_views(statements@);
        let mut actions = Action::new();
        let mut principals = Principal::new();
        let mut i: usize = 0;
        assert(all.subrange(0, 0) =~= Seq::<StatementView>::empty());
        while i < statements.len()
            invariant
                all == statement_views(statements@),
                i <= statements.len(),
                forall|j: int| 0 <= j < i ==> (#[trigger] all[j]).effect is Some,
                actions@ == gathered_actions(all.subrange(0, i as int)),
                principals@ == gathered_principals(all.subrange(0, i as int)),
            decreases statements.len() - i,
        {
            let statement = &statements[i];
            let ghost done = all.subrange(0, i + 1);
            assert(done.drop_last() =~= all.subrange(0, i as int));
            assert(done.last() == all[i as int]);
            let deny = match &statement.effect {
                Some(e) => same_text(e.as_str(), "Deny"),
                None => {
                    assert(!all_have_effect(all));
                    return Err(PolicyError::NoEffect);
                },
            };
            if !deny {
                actions.append(Action(copy_names(&statement.actions.0)));
                principals.append(Principal(copy_names(&statement.principals.0)));
            } else {
                assert(actions@ =~= gathered_actions(done));
                assert(principals@ =~= gathered_principals(done));
            }
            i = i + 1;
        }
        assert(all.subrange(0, all.len() as int) =~= all);
        if actions.0.len() > usize::MAX - principals.0.len() {
            return Err(PolicyError::TooLarge);
        }
        Ok(BucketPolicy { actions, principals })
    }

    /// Analyses a policy document: its statements are read, and their
    /// finding made by `from_statements`.
    pub fn try_from(policy: Option<&str>) -> (r: Result<BucketPolicy, PolicyError>)
        ensures
            match r {
                Ok(p) => analysis_of(policy_text(policy)) == Ok::<
                    (Seq<Seq<char>>, Seq<Seq<char>>),
                    PolicyError,
                >((p@.actions, p@.principals)),
                Err(e) => analysis_of(policy_text(policy)) == Err::<
                    (Seq<Seq<char>>, Seq<Seq<char>>),
                    PolicyError,
                >(e),
            },
    {
        let doc = match policy {
            None => return Err(PolicyError::Missing),
            Some(doc) => doc,
        };
        let top = crate::json::parse_json(doc);
        if top.is_none() {
            return Err(PolicyError::Unparsable);
        }
        let texts = match Json::member(doc, "Statement") {
            Some(Json::Array(items)) => items,
            _ => return Err(PolicyError::NoStatements),
        };
        let mut statements: Vec<Statement> = Vec::new();
        let mut i: usize = 0;
        assert(texts@.subrange(0, 0) =~= Seq::<String>::empty());
        assert(statement_views(statements@) =~= Seq::<StatementView>::empty());
        while i < texts.len()
            invariant
                i <= texts.len(),
                statement_views(statements@) == read_statements(texts@.subrange(0, i as int)),
            decreases texts.len() - i,
        {
            let ghost done = texts@.subrange(0, i + 1);
            assert(done.drop_last() =~= texts@.subrange(0, i as int));
            assert(done.last() == texts@[i as int]);
            let ghost before = statements@;
            statements.push(Statement::read(texts[i].as_str()));
            assert(statement_views(statements@) =~= statement_views(before).push(
                read_statement(texts@[i as int]@),
            ));
            i = i + 1;
        }
        assert(texts@.subrange(0, texts@.len() as int) =~= texts@);
        BucketPolicy::from_statements(&statements)
    }
}

/// A statement that denies adds nothing to the actions or the principals of
/// a policy, wherever it stands among the statements and whatever it lists;
/// so it adds nothing to the wildcard count nor to the CloudFront count.
pub proof fn lemma_deny_adds_nothing(statements: Seq<StatementView>, k: int, statement: StatementView)
    requires
        0 <= k <= statements.len(),
        denies(statement),
    ensures
        gathered_actions(statements.insert(k, statement)) == gathered_actions(statements),
        gathered_principals(statements.insert(k, statement)) == gathered_principals(statements),
        wildcard_actions(gathered_actions(statements.insert(k, statement))) + wildcard_principals(
            gathered_principals(statements.insert(k, statement)),
        ) == wildcard_actions(gathered_actions(statements)) + wildcard_principals(
            gathered_principals(statements),
        ),
        cloudfront_principals(gathered_principals(statements.insert(k, statement)))
            == cloudfront_principals(gathered_principals(statements)),
    decreases statements.len(),
{
    let longer = statements.insert(k, statement);
    if k == statements.len() {
        assert(longer.drop_last() =~= statements);
        assert(longer.last() == statement);
        assert(gathered_actions(longer) =~= gathered_actions(statements));
        assert(gathered_principals(longer) =~= gathered_principals(statements));
    } else {
        lemma_deny_adds_nothing(statements.drop_last(), k, statement);
        assert(longer.drop_last() =~= statements.drop_last().insert(k, statement));
        assert(longer.last() == statements.last());
    }
}

proof fn lemma_gathered_concat(a: Seq<StatementView>, b: Seq<StatementView>)
    ensures
        gathered_actions(a + b) == gathered_actions(a) + gathered_actions(b),
        gathered_principals(a + b) == gathered_principals(a) + gathered_principals(b),
    decreases b.len(),
{
    if b.len() == 0 {
        assert(a + b =~= a);
        assert(gathered_actions(a) + gathered_actions(b) =~= gathered_actions(a));
        assert(gathered_principals(a) + gathered_principals(b) =~= gathered_principals(a));
    } else {
        lemma_gathered_concat(a, b.drop_last());
        assert((a + b).drop_last() =~= a + b.drop_last());
        assert((a + b).last() == b.last());
        let extra_a = if denies(b.last()) {
            Seq::<Seq<char>>::empty()
        } else {
            b.last().actions
        };
        let extra_p = if denies(b.last()) {
            Seq::<Seq<char>>::empty()
        } else {
            b.last().principals
        };
        assert(gathered_actions(a) + gathered_actions(b.drop_last()) + extra_a =~= gathered_actions(
            a,
        ) + (gathered_actions(b.drop_last()) + extra_a));
        assert(gathered_principals(a) + gathered_principals(b.drop_last()) + extra_p
            =~= gathered_principals(a) + (gathered_principals(b.drop_last()) + extra_p));
    }
}

/// The three counts of a list of statements.
pub open spec fn policy_counts(statements: Seq<StatementView>) -> (nat, nat, nat) {
    (
        wildcard_actions(gathered_actions(statements)),
        wildcard_principals(gathered_principals(statements)),
        cloudfront_principals(gathered_principals(statements)),
    )
}

proof fn lemma_counts_concat(a: Seq<StatementView>, b: Seq<StatementView>)
    ensures
        policy_counts(a + b).0 == policy_counts(a).0 + policy_counts(b).0,
        policy_counts(a + b).1 == policy_counts(a).1 + policy_counts(b).1,
        policy_counts(a + b).2 == policy_counts(a).2 + policy_counts(b).2,
{
    lemma_gathered_concat(a, b);
    crate::actions::lemma_wildcard_actions_concat(gathered_actions(a), gathered_actions(b));
    crate::principals::lemma_principal_counts_concat(
        gathered_principals(a),
        gathered_principals(b),
    );
}

/// The wildcard and CloudFront counts of a policy do not depend on the
/// order of its statements: exchanging two neighbouring groups of
/// statements, which any reordering can be built from, keeps all three
/// counts.
pub proof fn lemma_statement_order_irrelevant(
    before: Seq<StatementView>,
    first: Seq<StatementView>,
    second: Seq<StatementView>,
    after: Seq<StatementView>,
)
    ensures
        policy_counts(before + first + second + after) == policy_counts(
            before + second + first + after,
        ),
{
    lemma_counts_concat(before + first + second, after);
    lemma_counts_concat(before + first, second);
    lemma_counts_concat(before, first);
    lemma_counts_concat(before + second + first, after);
    lemma_counts_concat(before + second, first);
    lemma_counts_concat(before, second);
}

/// The characters of a policy text, if any.
pub open spec fn policy_text(policy: Option<&str>) -> Option<Seq<char>> {
    match policy {
        Some(s) => Some(s@),
        None => None,
    }
}

} // verus!
