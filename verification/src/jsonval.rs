//! The JSON values the library produces and merges, held behind trusted
//! declarations of `serde_json`'s types.
//!
//! A JSON object is modeled as a `Map<Seq<char>, serde_json::Value>` of
//! its entries, named by `json_entries`; the values built here are named
//! by the `json_*_value` functions, each standing for what one
//! `serde_json` constructor returns on the given arguments. The texts
//! that `serde_json` renders are named by `json_text_of` and
//! `json_pretty_text_of`: with this crate's `serde_json` configuration an
//! object keeps its entries in a `BTreeMap`, so the rendered text is a
//! function of the entries alone.

use vstd::prelude::*;

verus! {

#[verifier::external_type_specification]
#[verifier::external_body]
pub struct ExJsonValue(serde_json::Value);

#[verifier::external_type_specification]
#[verifier::external_body]
#[verifier::reject_recursive_types(K)]
#[verifier::reject_recursive_types(V)]
pub struct ExJsonMap<K, V>(serde_json::Map<K, V>);

/// The entries of a JSON object, keyed by the characters of each key.
pub uninterp spec fn json_entries(m: serde_json::Map<String, serde_json::Value>) -> Map<
    Seq<char>,
    serde_json::Value,
>;

/// What `serde_json::Value::String` returns on the given characters.
pub uninterp spec fn json_string_value(s: Seq<char>) -> serde_json::Value;

/// What `serde_json::Number::from` wrapped as a value returns on the given number.
pub uninterp spec fn json_u64_value(n: u64) -> serde_json::Value;

/// What `serde_json::Value::Array` returns on the given items.
pub uninterp spec fn json_array_value(items: Seq<serde_json::Value>) -> serde_json::Value;

/// What `serde_json::Value::Object` returns on an object with the given entries.
pub uninterp spec fn json_object_value(entries: Map<Seq<char>, serde_json::Value>) -> serde_json::Value;

/// The value is the JSON null.
pub uninterp spec fn json_is_null(v: serde_json::Value) -> bool;

/// What `serde_json::from_str` yields on the given text: the entries of
/// its top-level object, or `None` when the text is not a JSON object.
pub uninterp spec fn json_doc_of(text: Seq<char>) -> Option<Map<Seq<char>, serde_json::Value>>;

/// What `serde_json::to_string` renders for an object with the given entries.
pub uninterp spec fn json_text_of(entries: Map<Seq<char>, serde_json::Value>) -> Seq<char>;

/// What `serde_json::to_string_pretty` renders for an object with the given entries.
pub uninterp spec fn json_pretty_text_of(entries: Map<Seq<char>, serde_json::Value>) -> Seq<char>;

/// Relies on `serde_json::Map::new`: the new object has no entries.
#[verifier::external_body]
pub(crate) fn json_new_map() -> (r: serde_json::Map<String, serde_json::Value>)
    ensures
        forall|k: Seq<char>| !json_entries(r).contains_key(k),
{
    serde_json::Map::new()
}

/// Relies on `serde_json::Map::insert`: afterwards the object holds `value`
/// under `key`, and every other entry is unchanged.
#[verifier::external_body]
pub(crate) fn json_insert(
    m: &mut serde_json::Map<String, serde_json::Value>,
    key: &str,
    value: serde_json::Value,
)
    ensures
        json_entries(*final(m)) == json_entries(*old(m)).insert(key@, value),
{
    m.insert(key.to_string(), value);
}

/// Relies on `serde_json::Value::String`: the value depends on the
/// characters alone.
#[verifier::external_body]
pub(crate) fn json_string(s: &str) -> (r: serde_json::Value)
    ensures
        r == json_string_value(s@),
{
    serde_json::Value::String(s.to_string())
}

/// Relies on `serde_json::Number::from` for `u64`: the numeric value
/// depends on the number alone.
#[verifier::external_body]
pub(crate) fn json_u64(n: u64) -> (r: serde_json::Value)
    ensures
        r == json_u64_value(n),
{
    serde_json::Value::Number(serde_json::Number::from(n))
}

/// Relies on `serde_json::Value::Null` being the JSON null.
#[verifier::external_body]
pub(crate) fn json_null() -> (r: serde_json::Value)
    ensures
        json_is_null(r),
{
    serde_json::Value::Null
}

/// Relies on `serde_json::Value::Array`: the value depends on the items alone.
#[verifier::external_body]
pub(crate) fn json_array(items: Vec<serde_json::Value>) -> (r: serde_json::Value)
    ensures
        r == json_array_value(items@),
{
    serde_json::Value::Array(items)
}

/// Relies on `serde_json::Value::Object`: the value depends on the
/// object's entries alone.
#[verifier::external_body]
pub(crate) fn json_object(m: serde_json::Map<String, serde_json::Value>) -> (r: serde_json::Value)
    ensures
        r == json_object_value(json_entries(m)),
{
    serde_json::Value::Object(m)
}

/// Relies on `serde_json::from_str`: the parse depends on the text alone;
/// the call yields the top-level object's map exactly when the text is a
/// JSON document whose top level is an object.
#[verifier::external_body]
pub(crate) fn parse_json_object(s: &str) -> (r: Option<
    serde_json::Map<String, serde_json::Value>,
>)
    ensures
        r matches Some(m) ==> json_doc_of(s@) matches Some(e) && json_entries(m) == e,
        r is None ==> json_doc_of(s@) is None,
{
    match serde_json::from_str::<serde_json::Value>(s) {
        Ok(serde_json::Value::Object(m)) => Some(m),
        _ => None,
    }
}

/// Relies on `serde_json::to_string`: serializing a string-keyed map of
/// values cannot fail, and the text depends on the entries alone.
#[verifier::external_body]
pub(crate) fn json_map_to_text(m: &serde_json::Map<String, serde_json::Value>) -> (r: String)
    ensures
        r@ == json_text_of(json_entries(*m)),
{
    match serde_json::to_string(m) {
        Ok(s) => s,
        Err(_) => String::new(),
    }
}

/// Relies on `serde_json::to_string_pretty`: serializing a string-keyed
/// map of values cannot fail, and the text depends on the entries alone.
#[verifier::external_body]
pub(crate) fn json_map_to_text_pretty(m: &serde_json::Map<String, serde_json::Value>) -> (r:
    String)
    ensures
        r@ == json_pretty_text_of(json_entries(*m)),
{
    match serde_json::to_string_pretty(m) {
        Ok(s) => s,
        Err(_) => String::new(),
    }
}

} // verus!
