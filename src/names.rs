//! The names that a value of a policy statement lists.
use vstd::prelude::*;
use crate::json::{json_of, parse_json, Json};

verus! {

/// The strings of the members of an array, or `None` where one member is no
/// string.
pub open spec fn array_strings(items: Seq<String>) -> Option<Seq<Seq<char>>>
    decreases items.len(),
{
    if items.len() == 0 {
        Some(Seq::empty())
    } else {
        match (array_strings(items.drop_last()), json_of(items.last()@)) {
            (Some(init), Some(Json::Str(s))) => Some(init.push(s@)),
            _ => None,
        }
    }
}

/// The names that a value lists: a string names itself, an array of strings
/// its members; any other value, or none, lists no name.
pub open spec fn name_list(node: Option<Json>) -> Seq<Seq<char>> {
    match node {
        Some(Json::Str(s)) => seq![s@],
        Some(Json::Array(items)) => match array_strings(items@) {
            Some(names) => names,
            None => Seq::empty(),
        },
        _ => Seq::empty(),
    }
}

/// The characters of each string.
pub open spec fn texts(v: Seq<String>) -> Seq<Seq<char>> {
    v.map_values(|s: String| s@)
}

proof fn lemma_array_strings_none(items: Seq<String>, k: int)
    requires
        0 <= k <= items.len(),
        array_strings(items.subrange(0, k)) is None,
    ensures
        array_strings(items) is None,
    decreases items.len() - k,
{
    if k < items.len() {
        assert(items.subrange(0, k + 1).drop_last() =~= items.subrange(0, k));
        lemma_array_strings_none(items, k + 1);
    } else {
        assert(items.subrange(0, k) =~= items);
    }
}

fn array_members(items: &Vec<String>) -> (r: Option<Vec<String>>)
    ensures
        match r {
            Some(v) => array_strings(items@) == Some(texts(v@)),
            None => array_strings(items@) is None,
        },
{
    let mut out: Vec<String> = Vec::new();
    let mut i: usize = 0;
    assert(items@.subrange(0, 0) =~= Seq::<String>::empty());
    assert(texts(out@) =~= Seq::<Seq<char>>::empty());
    while i < items.len()
        invariant
            i <= items.len(),
            array_strings(items@.subrange(0, i as int)) == Some(texts(out@)),
        decreases items.len() - i,
    {
        assert(items@.subrange(0, i + 1).drop_last() =~= items@.subrange(0, i as int));
        assert(items@.subrange(0, i + 1).last() == items@[i as int]);
        match parse_json(items[i].as_str()) {
            Some(Json::Str(s)) => {
                let ghost before = out@;
                out.push(s);
                assert(texts(out@) =~= texts(before).push(out@.last()@));
            },
            _ => {
                proof {
                    lemma_array_strings_none(items@, i + 1);
                }
                return None;
            },
        }
        i = i + 1;
    }
    assert(items@.subrange(0, items@.len() as int) =~= items@);
    Some(out)
}

/// The names that a value lists.
pub fn names_of(node: &Option<Json>) -> (r: Vec<String>)
    ensures
        texts(r@) == name_list(*node),
{
    match node {
        Some(Json::Str(s)) => {
            let r = vec![s.clone()];
            assert(texts(r@) =~= seq![s@]);
            r
        },
        Some(Json::Array(items)) => match array_members(items) {
            Some(v) => v,
            None => {
                let r: Vec<String> = Vec::new();
                assert(texts(r@) =~= Seq::<Seq<char>>::empty());
                r
            },
        },
        _ => {
            let r: Vec<String> = Vec::new();
            assert(texts(r@) =~= Seq::<Seq<char>>::empty());
            r
        },
    }
}

} // verus!
