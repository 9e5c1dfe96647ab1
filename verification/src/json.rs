//! Trusted, minimal bindings to the JSON library. Each function wraps one
//! call; everything the codec then does with the parsed tree — selecting the
//! envelope kind, walking payload fields, falling back to an error event —
//! is verified code in `codec`.
//!
//! Parsed JSON values are opaque to the verifier: none of these bindings
//! promises anything about what a value holds, so every decision the codec
//! takes is verified for every possible outcome of these calls.

use vstd::prelude::*;

verus! {

#[verifier::external_type_specification]
#[verifier::external_body]
pub struct ExJsonValue(serde_json::Value);

#[verifier::external_type_specification]
#[verifier::external_body]
#[verifier::reject_recursive_types(K)]
#[verifier::reject_recursive_types(V)]
pub struct ExJsonMap<K, V>(serde_json::Map<K, V>);

/// Whether `text` is one well-formed JSON document — a function of the
/// characters alone, left uninterpreted.
pub uninterp spec fn json_parses(text: Seq<char>) -> bool;

/// Relies on `serde_json::from_str::<Value>`: `Some` exactly when `text` is
/// one well-formed JSON document.
#[verifier::external_body]
pub(crate) fn json_parse(text: &str) -> (r: Option<serde_json::Value>)
    ensures
        (r is Some) <==> json_parses(text@),
{
    serde_json::from_str::<serde_json::Value>(text).ok()
}

/// Relies on `serde_json::Value::get`: the value under `key` when `v` is an
/// object that has it, `None` otherwise.
#[verifier::external_body]
pub(crate) fn json_get<'a>(v: &'a serde_json::Value, key: &str) -> Option<&'a serde_json::Value> {
    v.get(key)
}

/// Relies on `serde_json::Value::as_str`.
#[verifier::external_body]
pub(crate) fn json_as_str<'a>(v: &'a serde_json::Value) -> Option<&'a str> {
    v.as_str()
}

/// Relies on `serde_json::Value::as_i64`.
#[verifier::external_body]
pub(crate) fn json_as_i64(v: &serde_json::Value) -> Option<i64> {
    v.as_i64()
}

/// Relies on `serde_json::Value::as_u64`.
#[verifier::external_body]
pub(crate) fn json_as_u64(v: &serde_json::Value) -> Option<u64> {
    v.as_u64()
}

/// Relies on `serde_json::Value::as_bool`.
#[verifier::external_body]
pub(crate) fn json_as_bool(v: &serde_json::Value) -> Option<bool> {
    v.as_bool()
}

/// Relies on `serde_json::Value::as_array`.
#[verifier::external_body]
pub(crate) fn json_as_array<'a>(v: &'a serde_json::Value) -> Option<&'a Vec<serde_json::Value>> {
    v.as_array()
}

/// Relies on `serde_json::Value::is_null`.
#[verifier::external_body]
pub(crate) fn json_is_null(v: &serde_json::Value) -> bool {
    v.is_null()
}

/// Relies on `serde_json::Map::new`.
#[verifier::external_body]
pub(crate) fn json_new_map() -> serde_json::Map<String, serde_json::Value> {
    serde_json::Map::new()
}

/// Relies on `serde_json::Map::insert`.
#[verifier::external_body]
pub(crate) fn json_map_insert(
    m: &mut serde_json::Map<String, serde_json::Value>,
    key: &str,
    v: serde_json::Value,
) {
    m.insert(key.to_owned(), v);
}

/// Builds `serde_json::Value::Object`.
#[verifier::external_body]
pub(crate) fn json_of_map(m: serde_json::Map<String, serde_json::Value>) -> serde_json::Value {
    serde_json::Value::Object(m)
}

/// Builds `serde_json::Value::Array`.
#[verifier::external_body]
pub(crate) fn json_of_array(items: Vec<serde_json::Value>) -> serde_json::Value {
    serde_json::Value::Array(items)
}

/// Builds `serde_json::Value::String`.
#[verifier::external_body]
pub(crate) fn json_of_str(s: &str) -> serde_json::Value {
    serde_json::Value::String(s.to_owned())
}

/// Relies on `serde_json::Value::from` for `i64`.
#[verifier::external_body]
pub(crate) fn json_of_i64(i: i64) -> serde_json::Value {
    serde_json::Value::from(i)
}

/// Relies on `serde_json::Value::from` for `u64`.
#[verifier::external_body]
pub(crate) fn json_of_u64(u: u64) -> serde_json::Value {
    serde_json::Value::from(u)
}

/// Builds `serde_json::Value::Bool`.
#[verifier::external_body]
pub(crate) fn json_of_bool(b: bool) -> serde_json::Value {
    serde_json::Value::Bool(b)
}

/// Builds `serde_json::Value::Null`.
#[verifier::external_body]
pub(crate) fn json_null() -> serde_json::Value {
    serde_json::Value::Null
}

/// Relies on `serde_json::to_string` on a `Value`, which fails only when a
/// `Serialize` implementation errors; `Value`'s never does — its maps are
/// string-keyed and its numbers are always finite — so the call returns
/// text.
#[verifier::external_body]
pub(crate) fn json_to_text(v: &serde_json::Value) -> (r: Option<String>)
    ensures
        r is Some,
{
    serde_json::to_string(v).ok()
}

} // verus!
