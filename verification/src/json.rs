//! The JSON documents of the service, as `serde_json` reads them.
//!
//! A document is kept as a `serde_json::Value`. Verus sees nothing inside
//! such a value: what the parser and the accessors return is named by the
//! uninterpreted functions below, and every contract in this file is
//! believed, not proved.

use serde_json::Value;
use vstd::prelude::*;

verus! {

/// `serde_json::Value`, a parsed JSON document or a part of one.
#[verifier::external_type_specification]
#[verifier::external_body]
pub struct ExValue(serde_json::Value);

/// `serde_json::Error`, the reason a text was refused as JSON.
#[verifier::external_type_specification]
#[verifier::external_body]
pub struct ExJsonError(serde_json::Error);

/// The document that `serde_json::from_slice` reads from `bytes`, or `None`
/// where it refuses them.
pub uninterp spec fn json_document(bytes: Seq<u8>) -> Option<Value>;

/// What indexing `value` with the string `key` yields: the member of that
/// name where `value` is an object that has one, and JSON `null` otherwise.
pub uninterp spec fn json_member(value: Value, key: Seq<char>) -> Value;

/// The text of `value` where it is a JSON string, `None` otherwise.
pub uninterp spec fn json_text(value: Value) -> Option<Seq<char>>;

/// The number `value` where it is a JSON integer that fits in 64 bits
/// without a sign, `None` otherwise.
pub uninterp spec fn json_count(value: Value) -> Option<u64>;

/// Calls `serde_json::from_slice` for a `Value`.
///
/// Claims that the outcome depends on the bytes alone: it is `Ok` with the
/// document named `json_document(bytes@)` where that is `Some`, and an
/// error where it is `None`.
#[verifier::external_body]
pub(crate) fn parse_document(bytes: &[u8]) -> (parsed: Result<Value, serde_json::Error>)
    ensures
        match parsed {
            Ok(document) => json_document(bytes@) == Some(document),
            Err(_) => json_document(bytes@).is_none(),
        },
{
    serde_json::from_slice::<Value>(bytes)
}

/// Indexes a `Value` with a string, as `value[key]` does.
///
/// Claims that the result is the value named `json_member(*value, key@)`.
/// With a string key the index never panics: it hands out `null` where
/// there is no such member.
#[verifier::external_body]
pub(crate) fn member<'a>(value: &'a Value, key: &str) -> (found: &'a Value)
    ensures
        *found == json_member(*value, key@),
{
    &value[key]
}

/// Calls `serde_json::Value::as_str`.
///
/// Claims that the result is the text named `json_text(*value)`.
#[verifier::external_body]
pub(crate) fn as_text<'a>(value: &'a Value) -> (found: Option<&'a str>)
    ensures
        match found {
            Some(s) => json_text(*value) == Some(s@),
            None => json_text(*value).is_none(),
        },
{
    value.as_str()
}

/// Calls `serde_json::Value::as_u64`.
///
/// Claims that the result is the number named `json_count(*value)`.
#[verifier::external_body]
pub(crate) fn as_count(value: &Value) -> (found: Option<u64>)
    ensures
        found == json_count(*value),
{
    value.as_u64()
}

} // verus!
