//! JSON documents, read one level at a time.
use vstd::prelude::*;
use serde_json::Value;
use crate::text::same_text;

verus! {

/// One level of a JSON document: a scalar, or the members of an array or an
/// object, each nested value kept as its own JSON text.
#[derive(Clone, Debug, PartialEq, Eq)]
pub enum Json {
    Null,
    Bool(bool),
    Number(String),
    Str(String),
    Array(Vec<String>),
    Object(Vec<(String, String)>),
}

/// What serde_json reads from `text`: the top level of the document, or
/// `None` where the text is no JSON document.
pub uninterp spec fn json_of(text: Seq<char>) -> Option<Json>;

/// Relies on `serde_json::from_str` to parse the document, and on the
/// `Display` of `serde_json::Value` (compact JSON text) for nested values.
#[verifier::external_body]
pub(crate) fn parse_json(text: &str) -> (r: Option<Json>)
    ensures
        r == json_of(text@),
{
    match serde_json::from_str::<Value>(text) {
        Err(_) => None,
        Ok(Value::Null) => Some(Json::Null),
        Ok(Value::Bool(b)) => Some(Json::Bool(b)),
        Ok(Value::Number(n)) => Some(Json::Number(n.to_string())),
        Ok(Value::String(s)) => Some(Json::Str(s)),
        Ok(Value::Array(a)) => Some(Json::Array(a.iter().map(|v| v.to_string()).collect())),
        Ok(Value::Object(o)) => Some(Json::Object(o.iter().map(|(k, v)| (k.clone(), v.to_string())).collect())),
    }
}

/// The text of the first entry named `key`.
pub open spec fn lookup(entries: Seq<(String, String)>, key: Seq<char>) -> Option<Seq<char>>
    decreases entries.len(),
{
    if entries.len() == 0 {
        None
    } else if entries[0].0@ == key {
        Some(entries[0].1@)
    } else {
        lookup(entries.drop_first(), key)
    }
}

/// The member `key` of the document `text`, read one level down; `None` where
/// the document is no object, has no such member, or the member does not parse.
pub open spec fn member_of(text: Seq<char>, key: Seq<char>) -> Option<Json> {
    match json_of(text) {
        Some(Json::Object(entries)) => match lookup(entries@, key) {
            Some(t) => json_of(t),
            None => None,
        },
        _ => None,
    }
}

/// The text of the first entry named `key`.
pub fn find_entry<'a>(entries: &'a Vec<(String, String)>, key: &str) -> (r: Option<&'a String>)
    ensures
        match r {
            Some(t) => lookup(entries@, key@) == Some(t@),
            None => lookup(entries@, key@) is None,
        },
{
    let mut i: usize = 0;
    assert(entries@.subrange(0, entries@.len() as int) =~= entries@);
    while i < entries.len()
        invariant
            i <= entries.len(),
            lookup(entries@, key@) == lookup(entries@.subrange(i as int, entries@.len() as int), key@),
        decreases entries.len() - i,
    {
        let ghost rest = entries@.subrange(i as int, entries@.len() as int);
        assert(rest.drop_first() =~= entries@.subrange(i + 1, entries@.len() as int));
        if same_text(entries[i].0.as_str(), key) {
            return Some(&entries[i].1);
        }
        i = i + 1;
    }
    assert(entries@.subrange(i as int, entries@.len() as int).len() == 0);
    None
}

impl Json {
    /// The member `key` of the document `text`, read one level down.
    pub fn member(text: &str, key: &str) -> (r: Option<Json>)
        ensures
            r == member_of(text@, key@),
    {
        match parse_json(text) {
            Some(Json::Object(entries)) => match find_entry(&entries, key) {
                Some(t) => parse_json(t.as_str()),
                None => None,
            },
            _ => None,
        }
    }
}

} // verus!
