//! Trusted boundary to the JSON decoder.
//!
//! A follow-up tool's line is decoded by the outside JSON library into one
//! opaque document value; the small readers below hand single fields out as
//! plain values. Nothing is assumed about what a given line decodes to: the
//! verified code around these calls handles every possible answer, and the
//! scanners' field-combination functions carry the exact contracts.

use vstd::prelude::*;

verus! {

#[verifier::external_type_specification]
#[verifier::external_body]
pub struct ExValue(serde_json::Value);

/// Relies on `serde_json::from_slice`: decodes one line into a JSON document
/// value, or fails if the line is not well-formed JSON (or not UTF-8).
#[verifier::external_body]
pub(crate) fn json_parse(line: &[u8]) -> Option<serde_json::Value> {
    match serde_json::from_slice::<serde_json::Value>(line) {
        Ok(v) => Some(v),
        Err(_) => None,
    }
}

/// Relies on `serde_json::Value::get`: looks a key up in a JSON object,
/// `None` if the value is no object or the key is absent.
#[verifier::external_body]
pub(crate) fn json_get<'a>(v: &'a serde_json::Value, key: &str) -> Option<&'a serde_json::Value> {
    v.get(key)
}

/// Relies on `serde_json::Value::as_str`: the string content of a JSON
/// string value, `None` for any other kind of value.
#[verifier::external_body]
pub(crate) fn json_as_str(v: &serde_json::Value) -> Option<String> {
    v.as_str().map(|s| s.to_owned())
}

/// Relies on `serde_json::Value::as_u64`: the content of a JSON number that
/// is a non-negative integer within range, `None` otherwise.
#[verifier::external_body]
pub(crate) fn json_as_u64(v: &serde_json::Value) -> Option<u64> {
    v.as_u64()
}

/// Relies on `serde_json::Value::as_array`: the elements of a JSON array
/// value, `None` for any other kind of value.
#[verifier::external_body]
pub(crate) fn json_as_array<'a>(v: &'a serde_json::Value) -> Option<&'a Vec<serde_json::Value>> {
    v.as_array()
}

} // verus!
