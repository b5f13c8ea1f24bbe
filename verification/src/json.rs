//! Trusted access to JSON values.
//!
//! Event envelopes arrive as JSON bytes. Parsing and navigation go through
//! serde_json; a `serde_json::Value` is opaque to the verifier, so each item
//! here does exactly one call and hands plain values in and out. All decoding
//! decisions are made by verified code on top of these.

use vstd::prelude::*;

verus! {

#[verifier::external_type_specification]
#[verifier::external_body]
pub struct ExValue(serde_json::Value);

/// Relies on serde_json::Value::get: the value of a field of a JSON object,
/// if the value is an object with that field.
#[verifier::external_body]
pub(crate) fn json_get<'a>(v: &'a serde_json::Value, key: &str) -> Option<&'a serde_json::Value> {
    v.get(key)
}

/// Relies on serde_json::Value::as_str: the contents, if the value is a
/// JSON string.
#[verifier::external_body]
pub(crate) fn json_as_str(v: &serde_json::Value) -> Option<String> {
    v.as_str().map(|s| s.to_owned())
}

/// Relies on serde_json::Value::as_i64: the value, if it is an integer
/// representable as `i64`.
#[verifier::external_body]
pub(crate) fn json_as_i64(v: &serde_json::Value) -> Option<i64> {
    v.as_i64()
}

/// Relies on serde_json::Value::as_bool: the value, if it is a JSON boolean.
#[verifier::external_body]
pub(crate) fn json_as_bool(v: &serde_json::Value) -> Option<bool> {
    v.as_bool()
}

/// Relies on serde_json::Value::as_array: the elements, if the value is a
/// JSON array.
#[verifier::external_body]
pub(crate) fn json_as_array(v: &serde_json::Value) -> Option<Vec<serde_json::Value>> {
    v.as_array().cloned()
}

/// Relies on serde_json::Value::is_null: whether the value is JSON `null`.
#[verifier::external_body]
pub(crate) fn json_is_null(v: &serde_json::Value) -> bool {
    v.is_null()
}

/// Relies on `Clone` for serde_json::Value: the copy is structurally equal
/// to the original.
#[verifier::external_body]
pub(crate) fn json_clone(v: &serde_json::Value) -> (r: serde_json::Value)
    ensures
        r == *v,
{
    v.clone()
}

} // verus!
