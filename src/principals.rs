//! The principals that the statements of a policy allow.
use vstd::prelude::*;
use crate::json::{json_of, lookup, Json};
use crate::names::{name_list, names_of, texts};
use crate::text::{is_prefix_of, same_text, starts_with};

verus! {

/// How the principal of a CloudFront origin access identity begins.
pub const CLOUDFRONT_OAI: &'static str = "arn:aws:iam::cloudfront:user/CloudFront Origin Access Identity ";

/// The lone `*`, which stands for anyone.
pub const WILDCARD: &'static str = "*";

/// The principals that the `Principal` value of a statement lists: a string
/// names itself; an object, what its `AWS` member lists; anything else, none.
pub open spec fn principal_list(node: Option<Json>) -> Seq<Seq<char>> {
    match node {
        Some(Json::Str(s)) => seq![s@],
        Some(Json::Object(entries)) => match lookup(entries@, "AWS"@) {
            Some(t) => name_list(json_of(t)),
            None => Seq::empty(),
        },
        _ => Seq::empty(),
    }
}

/// The number of principals that are exactly `*`.
pub open spec fn wildcard_principals(arns: Seq<Seq<char>>) -> nat
    decreases arns.len(),
{
    if arns.len() == 0 {
        0
    } else {
        wildcard_principals(arns.drop_last()) + if arns.last() == WILDCARD@ {
            1nat
        } else {
            0nat
        }
    }
}

/// A count of some of the names is at most their number.
pub proof fn lemma_wildcard_principals_bound(arns: Seq<Seq<char>>)
    ensures
        wildcard_principals(arns) <= arns.len(),
    decreases arns.len(),
{
    if arns.len() > 0 {
        lemma_wildcard_principals_bound(arns.drop_last());
    }
}

/// The number of principals that are CloudFront origin access identities.
pub open spec fn cloudfront_principals(arns: Seq<Seq<char>>) -> nat
    decreases arns.len(),
{
    if arns.len() == 0 {
        0
    } else {
        cloudfront_principals(arns.drop_last()) + if is_prefix_of(CLOUDFRONT_OAI@, arns.last()) {
            1nat
        } else {
            0nat
        }
    }
}

/// A principal counts as a wildcard exactly when it is the lone `*`: an ARN
/// that merely holds a `*` elsewhere does not count.
pub proof fn lemma_wildcard_principal_exact(arn: Seq<char>, arns: Seq<Seq<char>>)
    ensures
        wildcard_principals(seq![arn]) == (if arn == WILDCARD@ {
            1nat
        } else {
            0nat
        }),
        wildcard_principals(arns.push(arn)) == wildcard_principals(arns) + wildcard_principals(
            seq![arn],
        ),
{
    reveal_with_fuel(wildcard_principals, 2);
    assert(seq![arn].drop_last() =~= Seq::<Seq<char>>::empty());
    assert(seq![arn].last() == arn);
    assert(arns.push(arn).drop_last() =~= arns);
    assert(arns.push(arn).last() == arn);
}

/// The counts of two lists of principals are the sums of their counts.
pub proof fn lemma_principal_counts_concat(a: Seq<Seq<char>>, b: Seq<Seq<char>>)
    ensures
        wildcard_principals(a + b) == wildcard_principals(a) + wildcard_principals(b),
        cloudfront_principals(a + b) == cloudfront_principals(a) + cloudfront_principals(b),
    decreases b.len(),
{
    if b.len() == 0 {
        assert(a + b =~= a);
    } else {
        lemma_principal_counts_concat(a, b.drop_last());
        assert((a + b).drop_last() =~= a + b.drop_last());
        assert((a + b).last() == b.last());
    }
}

/// The principal ARNs gathered from policy statements.
#[derive(Debug)]
pub struct Principal(pub Vec<String>);

impl View for Principal {
    type V = Seq<Seq<char>>;

    open spec fn view(&self) -> Seq<Seq<char>> {
        texts(self.0@)
    }
}

impl Principal {
    /// No principal.
    pub fn new() -> (r: Principal)
        ensures
            r@ == Seq::<Seq<char>>::empty(),
    {
        let r = Principal(Vec::new());
        assert(r@ =~= Seq::<Seq<char>>::empty());
        r
    }

    /// The principals that the `Principal` value of a statement lists.
    pub fn from_json(node: &Option<Json>) -> (r: Principal)
        ensures
            r@ == principal_list(*node),
    {
        match node {
            Some(Json::Str(s)) => {
                let r = Principal(vec![s.clone()]);
                assert(r@ =~= seq![s@]);
                r
            },
            Some(Json::Object(entries)) => {
                let aws = Principal::aws_member(entries);
                Principal(names_of(&aws))
            },
            _ => Principal::new(),
        }
    }

    fn aws_member(entries: &Vec<(String, String)>) -> (r: Option<Json>)
        ensures
            r == match lookup(entries@, "AWS"@) {
                Some(t) => json_of(t),
                None => None,
            },
    {
        match crate::json::find_entry(entries, "AWS") {
            Some(t) => crate::json::parse_json(t.as_str()),
            None => None,
        }
    }

    /// Adds the principals of `other` after those already held.
    pub fn append(&mut self, other: Principal)
        ensures
            final(self)@ == old(self)@ + other@,
    {
        let ghost prior = self@;
        let ghost added = other@;
        let mut other = other;
        self.0.append(&mut other.0);
        assert(self@ =~= prior + added);
    }

    /// The number of CloudFront origin access identities among the principals.
    pub fn cloudfront_distributions(&self) -> (r: usize)
        ensures
            r == cloudfront_principals(self@),
    {
        let mut count: usize = 0;
        let mut i: usize = 0;
        assert(self@.subrange(0, 0) =~= Seq::<Seq<char>>::empty());
        while i < self.0.len()
            invariant
                i <= self.0.len(),
                count <= i,
                count == cloudfront_principals(self@.subrange(0, i as int)),
            decreases self.0.len() - i,
        {
            assert(self@.subrange(0, i + 1).drop_last() =~= self@.subrange(0, i as int));
            if starts_with(self.0[i].as_str(), CLOUDFRONT_OAI) {
                count = count + 1;
            }
            i = i + 1;
        }
        assert(self@.subrange(0, self@.len() as int) =~= self@);
        count
    }

    /// The number of principals that are exactly `*`.
    pub fn wildcards(&self) -> (r: usize)
        ensures
            r == wildcard_principals(self@),
    {
        let mut count: usize = 0;
        let mut i: usize = 0;
        assert(self@.subrange(0, 0) =~= Seq::<Seq<char>>::empty());
        while i < self.0.len()
            invariant
                i <= self.0.len(),
                count <= i,
                count == wildcard_principals(self@.subrange(0, i as int)),
            decreases self.0.len() - i,
        {
            assert(self@.subrange(0, i + 1).drop_last() =~= self@.subrange(0, i as int));
            if same_text(self.0[i].as_str(), WILDCARD) {
                count = count + 1;
            }
            i = i + 1;
        }
        assert(self@.subrange(0, self@.len() as int) =~= self@);
        count
    }
}

} // verus!
