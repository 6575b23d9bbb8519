//! Field extraction from the JSON payloads of the wire protocol.
//!
//! General JSON parsing is delegated to `serde_json`. Each extraction here is
//! a pure function of the payload bytes and the key alone, so its result is
//! given a name (an uninterpreted spec function) and the codec's contracts
//! are stated over those names. The one fact stated beyond the names is the
//! one serde_json's source plainly gives: when the bytes are not valid JSON,
//! parsing fails, so every extraction comes back empty.

use vstd::prelude::*;

verus! {

/// Whether the bytes parse as a JSON document (valid UTF-8, one complete
/// value, no trailing data), as `serde_json::from_slice` decides it.
pub uninterp spec fn json_valid(s: Seq<u8>) -> bool;

/// The string value at `key` in the top-level JSON object of `s`; `None`
/// when `s` is not a JSON object, the key is absent, or the value is not a
/// string.
pub uninterp spec fn json_str_field(s: Seq<u8>, key: Seq<char>) -> Option<Seq<char>>;

/// The unsigned-integer value at `key` in the top-level JSON object of `s`;
/// `None` when absent or when the value is not an integer representable as
/// `u64`.
pub uninterp spec fn json_u64_field(s: Seq<u8>, key: Seq<char>) -> Option<u64>;

/// The boolean value at `key` in the top-level JSON object of `s`; `None`
/// when absent or not a boolean.
pub uninterp spec fn json_bool_field(s: Seq<u8>, key: Seq<char>) -> Option<bool>;

/// The value at `key` in the top-level JSON object of `s`, read as an array
/// of strings; `None` when absent, not an array, or holding a non-string
/// element.
pub uninterp spec fn json_str_list_field(s: Seq<u8>, key: Seq<char>) -> Option<Seq<Seq<char>>>;

/// Whether the top-level JSON object of `s` has an entry at `key`, of any
/// type.
pub uninterp spec fn json_has_field(s: Seq<u8>, key: Seq<char>) -> bool;

/// Relies on `serde_json::from_slice::<Value>` and `Value::get` /
/// `Value::as_str`: the string at `key` in the JSON object held by `b`, a
/// function of the bytes and the key alone.
#[verifier::external_body]
pub(crate) fn get_str_field(b: &[u8], key: &str) -> (r: Option<String>)
    ensures
        r.deep_view() == json_str_field(b@, key@),
        !json_valid(b@) ==> r is None,
{
    let v: serde_json::Value = serde_json::from_slice(b).ok()?;
    Some(v.get(key)?.as_str()?.to_string())
}

/// Relies on `serde_json::from_slice::<Value>` and `Value::get` /
/// `Value::as_u64`: the unsigned integer at `key` in the JSON object held by
/// `b`, a function of the bytes and the key alone.
#[verifier::external_body]
pub(crate) fn get_u64_field(b: &[u8], key: &str) -> (r: Option<u64>)
    ensures
        r == json_u64_field(b@, key@),
        !json_valid(b@) ==> r is None,
{
    let v: serde_json::Value = serde_json::from_slice(b).ok()?;
    v.get(key)?.as_u64()
}

/// Relies on `serde_json::from_slice::<Value>` and `Value::get` /
/// `Value::as_bool`: the boolean at `key` in the JSON object held by `b`, a
/// function of the bytes and the key alone.
#[verifier::external_body]
pub(crate) fn get_bool_field(b: &[u8], key: &str) -> (r: Option<bool>)
    ensures
        r == json_bool_field(b@, key@),
        !json_valid(b@) ==> r is None,
{
    let v: serde_json::Value = serde_json::from_slice(b).ok()?;
    v.get(key)?.as_bool()
}

/// Relies on `serde_json::from_slice::<Value>`, `Value::get`,
/// `Value::as_array` and `Value::as_str`: the array of strings at `key` in
/// the JSON object held by `b`, a function of the bytes and the key alone.
#[verifier::external_body]
pub(crate) fn get_str_list_field(b: &[u8], key: &str) -> (r: Option<Vec<String>>)
    ensures
        r.deep_view() == json_str_list_field(b@, key@),
        !json_valid(b@) ==> r is None,
{
    let v: serde_json::Value = serde_json::from_slice(b).ok()?;
    let arr = v.get(key)?.as_array()?;
    let mut out: Vec<String> = Vec::with_capacity(arr.len());
    for e in arr {
        out.push(e.as_str()?.to_string());
    }
    Some(out)
}

/// Relies on `serde_json::from_slice::<Value>` and `Value::get`: whether the
/// JSON object held by `b` has an entry at `key`, a function of the bytes
/// and the key alone.
#[verifier::external_body]
pub(crate) fn has_field(b: &[u8], key: &str) -> (r: bool)
    ensures
        r == json_has_field(b@, key@),
        !json_valid(b@) ==> !r,
{
    match serde_json::from_slice::<serde_json::Value>(b) {
        Ok(v) => v.get(key).is_some(),
        Err(_) => false,
    }
}

} // verus!
