use vstd::prelude::*;

verus! {

/// A JSON value as this library shapes it.
///
/// Numbers are held as their canonical decimal text, so that the library never
/// handles a floating-point value; objects keep their entries in insertion order.
#[derive(Debug, PartialEq)]
pub enum JsonValue {
    Null,
    Bool(bool),
    Number(String),
    Str(String),
    Array(Vec<JsonValue>),
    Object(Vec<(String, JsonValue)>),
}

/// The text of a boolean as JSON and as a query value.
pub open spec fn bool_text(b: bool) -> Seq<char> {
    if b {
        "true"@
    } else {
        "false"@
    }
}

/// Whether `v` is the JSON string holding `s`.
pub open spec fn is_str(v: JsonValue, s: Seq<char>) -> bool {
    match v {
        JsonValue::Str(x) => x@ == s,
        _ => false,
    }
}

/// Whether an object entry has key `k` and value `v`.
pub open spec fn entry_is(e: (String, JsonValue), k: Seq<char>, v: JsonValue) -> bool {
    e.0@ == k && e.1 == v
}

/// Whether an object entry has key `k` and holds the JSON string `s`.
pub open spec fn str_entry_is(e: (String, JsonValue), k: Seq<char>, s: Seq<char>) -> bool {
    e.0@ == k && is_str(e.1, s)
}

/// The keys of a sequence of object entries, in order.
pub open spec fn keys_of(es: Seq<(String, JsonValue)>) -> Seq<Seq<char>> {
    es.map_values(|e: (String, JsonValue)| e.0@)
}

/// Makes the JSON string holding a copy of `s`.
pub fn json_str(s: &str) -> (r: JsonValue)
    ensures
        is_str(r, s@),
{
    JsonValue::Str(s.to_owned())
}

/// Makes an object entry with key `k` and value `v`.
pub fn entry(k: &str, v: JsonValue) -> (r: (String, JsonValue))
    ensures
        entry_is(r, k@, v),
{
    (k.to_owned(), v)
}

} // verus!
