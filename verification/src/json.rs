//! The alert payload arrives as a JSON tree. Reading that tree is the one
//! thing this module leaves to serde_json; each accessor is declared here
//! with nothing promised about its result. Every rule about the values read
//! out — which fields must be present, what the severity codes mean, how
//! the timestamps parse — is verified where the plain values are consumed.

use vstd::prelude::*;

verus! {

/// serde_json's tree of parsed JSON, opaque to this crate.
#[verifier::external_type_specification]
#[verifier::external_body]
pub struct ExValue(serde_json::Value);

/// Relies on serde_json's `Value::get` with a string index: the member of an
/// object under that key, or nothing.
#[verifier::external_body]
pub(crate) fn json_get<'a>(v: &'a serde_json::Value, key: &str) -> (r: Option<
    &'a serde_json::Value,
>) {
    v.get(key)
}

/// Relies on serde_json's `Value::get` with a numeric index: the element of
/// an array at that position, or nothing.
#[verifier::external_body]
pub(crate) fn json_get_index<'a>(v: &'a serde_json::Value, i: usize) -> (r: Option<
    &'a serde_json::Value,
>) {
    v.get(i)
}

/// Relies on serde_json's `Value::as_str`: the text of a string value, or
/// nothing for any other kind of value.
#[verifier::external_body]
pub(crate) fn json_as_str(v: &serde_json::Value) -> (r: Option<String>) {
    match v.as_str() {
        Some(s) => Some(s.to_string()),
        None => None,
    }
}

/// Relies on serde_json's `Value::as_array`: the elements of an array value,
/// or nothing for any other kind of value.
#[verifier::external_body]
pub(crate) fn json_as_array<'a>(v: &'a serde_json::Value) -> (r: Option<
    &'a Vec<serde_json::Value>,
>) {
    v.as_array()
}

} // verus!
