//! The crate's view of JSON documents.
//!
//! Manifests are JSON, and serde_json does the parsing.  What a given
//! field of a given document holds is a function of the text alone, so
//! each extraction result gets an uninterpreted name over the text, and a
//! trusted wrapper states that the serde_json calls return exactly that
//! named result.  Everything a manifest contract says about a document
//! goes through these names.

use vstd::prelude::*;

verus! {

/// Whether serde_json accepts `s` as a JSON document; what exactly it
/// accepts is the JSON grammar and is not spelled out here.
pub uninterp spec fn is_json(s: Seq<char>) -> bool;

/// For a JSON document `s`: `None` when the document has no field `key`
/// at top level (or is no object at all); `Some(None)` when the field is
/// there but is not a string; `Some(Some(t))` when it is the string `t`.
pub uninterp spec fn str_field_of(s: Seq<char>, key: Seq<char>) -> Option<Option<Seq<char>>>;

/// For a JSON document `s`: `None` when the document has no field `key`
/// at top level (or is no object at all); `Some(None)` when the field is
/// there but is not an array of strings; `Some(Some(items))` when it is
/// one, with the elements in array order.
pub uninterp spec fn str_array_field_of(s: Seq<char>, key: Seq<char>) -> Option<
    Option<Seq<Seq<char>>>,
>;

/// For a JSON document `s`: `None` when the document has no field `key`
/// at top level (or is no object at all); `Some(None)` when the field is
/// there but is not an object; `Some(Some(keys))` when it is one, with
/// its keys in the map's own order.
pub uninterp spec fn key_list_field_of(s: Seq<char>, key: Seq<char>) -> Option<
    Option<Seq<Seq<char>>>,
>;

/// Relies on serde_json::from_str::<Value>: whether the text parses as a
/// JSON document depends on the text alone.
#[verifier::external_body]
pub(crate) fn is_json_text(text: &str) -> (r: bool)
    ensures
        r == is_json(text@),
{
    serde_json::from_str::<serde_json::Value>(text).is_ok()
}

/// Relies on serde_json::from_str::<Value>, Value::get and Value::as_str:
/// parses the text and reads the field `key` as a string; the result
/// depends on the text and the key alone.
#[verifier::external_body]
pub(crate) fn get_str_field(text: &str, key: &str) -> (r: Option<Option<String>>)
    ensures
        is_json(text@) ==> r.deep_view() == str_field_of(text@, key@),
{
    let v: serde_json::Value = serde_json::from_str(text).ok()?;
    let f = v.get(key)?;
    match f.as_str() {
        Some(s) => Some(Some(s.to_owned())),
        None => Some(None),
    }
}

/// Relies on serde_json::from_str::<Value>, Value::get, Value::as_array
/// and Value::as_str: parses the text and reads the field `key` as an
/// array of strings; the result depends on the text and the key alone.
#[verifier::external_body]
pub(crate) fn get_str_array_field(text: &str, key: &str) -> (r: Option<Option<Vec<String>>>)
    ensures
        is_json(text@) ==> r.deep_view() == str_array_field_of(text@, key@),
{
    let v: serde_json::Value = serde_json::from_str(text).ok()?;
    let f = v.get(key)?;
    let items = match f.as_array() {
        Some(a) => a,
        None => return Some(None),
    };
    let mut out: Vec<String> = Vec::new();
    for it in items {
        match it.as_str() {
            Some(s) => out.push(s.to_owned()),
            None => return Some(None),
        }
    }
    Some(Some(out))
}

/// Relies on serde_json::from_str::<Value>, Value::get, Value::as_object
/// and Map::keys: parses the text and reads the keys of the object field
/// `key`; the result depends on the text and the key alone.
#[verifier::external_body]
pub(crate) fn get_key_list_field(text: &str, key: &str) -> (r: Option<Option<Vec<String>>>)
    ensures
        is_json(text@) ==> r.deep_view() == key_list_field_of(text@, key@),
{
    let v: serde_json::Value = serde_json::from_str(text).ok()?;
    let f = v.get(key)?;
    match f.as_object() {
        Some(m) => Some(Some(m.keys().cloned().collect())),
        None => Some(None),
    }
}

} // verus!
