//! JSON values, carried through the library as `serde_json` values.

use std::fmt::Write;
use vstd::prelude::*;

verus! {

#[verifier::external_type_specification]
#[verifier::external_body]
pub struct ExValue(serde_json::Value);

#[verifier::external_type_specification]
#[verifier::external_body]
pub struct ExSerdeError(serde_json::Error);

/// What `serde_json::from_slice::<Value>` yields on the given bytes: the value they
/// hold, or why they hold none.
pub uninterp spec fn json_parse(bytes: Seq<u8>) -> Result<serde_json::Value, serde_json::Error>;

/// Whether `Value::get` finds the key in the value (only an object has keys).
pub uninterp spec fn json_has_key(v: serde_json::Value, key: Seq<char>) -> bool;

/// The value `Value::String` makes of the text.
pub uninterp spec fn json_string_value(s: Seq<char>) -> serde_json::Value;

/// The value `Value::Object` makes of the entries, collected into a map.
pub uninterp spec fn json_object_value(entries: Seq<(Seq<char>, serde_json::Value)>) -> serde_json::Value;

/// Parses bytes as one JSON value.
///
/// Calls `serde_json::from_slice::<Value>`; the contract names what it yields as a
/// function of the bytes alone.
#[verifier::external_body]
pub(crate) fn parse_json(bytes: &[u8]) -> (r: Result<serde_json::Value, serde_json::Error>)
    ensures
        r == json_parse(bytes@),
{
    serde_json::from_slice::<serde_json::Value>(bytes)
}

/// Whether the value holds the key.
///
/// Calls `Value::get(key).is_some()`; the contract names the answer.
#[verifier::external_body]
pub(crate) fn has_key(v: &serde_json::Value, key: &str) -> (r: bool)
    ensures
        r == json_has_key(*v, key@),
{
    v.get(key).is_some()
}

/// A JSON string.
///
/// Calls `Value::String`; the contract names the value it makes.
#[verifier::external_body]
pub(crate) fn json_string(s: String) -> (r: serde_json::Value)
    ensures
        r == json_string_value(s@),
{
    serde_json::Value::String(s)
}

/// A JSON object with the given entries.
///
/// Calls `Value::Object` on the entries collected into a `serde_json::Map`; the
/// contract names the value it makes.
#[verifier::external_body]
pub(crate) fn json_object(entries: Vec<(String, serde_json::Value)>) -> (r: serde_json::Value)
    ensures
        r == json_object_value(entries@.map_values(|e: (String, serde_json::Value)| (e.0@, e.1))),
{
    serde_json::Value::Object(entries.into_iter().collect())
}

/// The value is JSON `null`: the value `serde_json` reads from the text `null`.
pub open spec fn is_json_null(v: serde_json::Value) -> bool {
    json_parse(seq![110u8, 117u8, 108u8, 108u8]) == Ok::<serde_json::Value, serde_json::Error>(v)
}

/// The JSON `null` value.
///
/// Calls `Value::default`, which is `Value::Null`; the contract claims it is the value
/// that `serde_json::from_slice` reads from the bytes of `null`.
#[verifier::external_body]
pub(crate) fn json_null() -> (r: serde_json::Value)
    ensures
        is_json_null(r),
{
    serde_json::Value::default()
}

/// The message of a `serde_json` error.
///
/// Writes `serde_json::Error`'s `Display` into a string, keeping what was written
/// should the formatting fail; nothing about the text is stated (for an error that
/// wraps an I/O error, the text comes from the operating system).
#[verifier::external_body]
pub(crate) fn serde_error_text(e: &serde_json::Error) -> (r: String) {
    let mut s = String::new();
    let _ = write!(s, "{}", e);
    s
}

} // verus!

verus! {

/// `<serde_json::Value as Clone>::clone`: the contract claims the copy equals the
/// original (the `Clone` impl of `serde_json::Value` is derived, field by field).
pub assume_specification[ <serde_json::Value as Clone>::clone ](v: &serde_json::Value) -> (r:
    serde_json::Value)
    ensures
        r == *v,
;

} // verus!
