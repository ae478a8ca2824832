//! The actions that the statements of a policy allow.
use vstd::prelude::*;
use crate::json::Json;
use crate::names::{name_list, names_of, texts};
use crate::text::has_char;

verus! {

/// The number of action names that hold a `*` anywhere (`*`, `s3:*`,
/// `iam:*AccessKey*`).
pub open spec fn wildcard_actions(names: Seq<Seq<char>>) -> nat
    decreases names.len(),
{
    if names.len() == 0 {
        0
    } else {
        wildcard_actions(names.drop_last()) + if names.last().contains('*') {
            1nat
        } else {
            0nat
        }
    }
}

/// A count of some of the names is at most their number.
pub proof fn lemma_wildcard_actions_bound(names: Seq<Seq<char>>)
    ensures
        wildcard_actions(names) <= names.len(),
    decreases names.len(),
{
    if names.len() > 0 {
        lemma_wildcard_actions_bound(names.drop_last());
    }
}

/// An action name counts as a wildcard exactly when it holds a `*`
/// anywhere, and the counts of two lists of names add up.
pub proof fn lemma_wildcard_action_substring(name: Seq<char>, names: Seq<Seq<char>>)
    ensures
        wildcard_actions(seq![name]) == (if name.contains('*') {
            1nat
        } else {
            0nat
        }),
        wildcard_actions(names.push(name)) == wildcard_actions(names) + wildcard_actions(
            seq![name],
        ),
{
    reveal_with_fuel(wildcard_actions, 2);
    assert(seq![name].drop_last() =~= Seq::<Seq<char>>::empty());
    assert(seq![name].last() == name);
    assert(names.push(name).drop_last() =~= names);
    assert(names.push(name).last() == name);
}

/// The count of two lists of names is the sum of their counts.
pub proof fn lemma_wildcard_actions_concat(a: Seq<Seq<char>>, b: Seq<Seq<char>>)
    ensures
        wildcard_actions(a + b) == wildcard_actions(a) + wildcard_actions(b),
    decreases b.len(),
{
    if b.len() == 0 {
        assert(a + b =~= a);
    } else {
        lemma_wildcard_actions_concat(a, b.drop_last());
        assert((a + b).drop_last() =~= a + b.drop_last());
        assert((a + b).last() == b.last());
    }
}

/// The action names gathered from policy statements.
#[derive(Debug)]
pub struct Action(pub Vec<String>);

impl View for Action {
    type V = Seq<Seq<char>>;

    open spec fn view(&self) -> Seq<Seq<char>> {
        texts(self.0@)
    }
}

impl Action {
    /// No action.
    pub fn new() -> (r: Action)
        ensures
            r@ == Seq::<Seq<char>>::empty(),
    {
        let r = Action(Vec::new());
        assert(r@ =~= Seq::<Seq<char>>::empty());
        r
    }

    /// The actions that the `Action` value of a statement lists.
    pub fn from_json(node: &Option<Json>) -> (r: Action)
        ensures
            r@ == name_list(*node),
    {
        Action(names_of(node))
    }

    /// Adds the actions of `other` after those already held.
    pub fn append(&mut self, other: Action)
        ensures
            final(self)@ == old(self)@ + other@,
    {
        let ghost prior = self@;
        let ghost added = other@;
        let mut other = other;
        self.0.append(&mut other.0);
        assert(self@ =~= prior + added);
    }

    /// The number of action names that hold a wildcard.
    pub fn wildcards(&self) -> (r: usize)
        ensures
            r == wildcard_actions(self@),
    {
        let mut count: usize = 0;
        let mut i: usize = 0;
        assert(self@.subrange(0, 0) =~= Seq::<Seq<char>>::empty());
        while i < self.0.len()
            invariant
                i <= self.0.len(),
                count <= i,
                count == wildcard_actions(self@.subrange(0, i as int)),
            decreases self.0.len() - i,
        {
            assert(self@.subrange(0, i + 1).drop_last() =~= self@.subrange(0, i as int));
            if has_char(self.0[i].as_str(), '*') {
                count = count + 1;
            }
            i = i + 1;
        }
        assert(self@.subrange(0, self@.len() as int) =~= self@);
        count
    }
}

} // verus!
