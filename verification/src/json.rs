//! Reading JSON values: the `serde_json` calls that the library's logic makes,
//! each with a name for what it gives.

use vstd::prelude::*;

use serde_json::Value;

verus! {

/// What `serde_json::from_str::<Value>` makes of a text: the JSON value, or
/// serde's error message.
pub uninterp spec fn json_parse(text: Seq<char>) -> Result<Value, Seq<char>>;

/// The member `key` of a JSON value, as `Value::get` gives it: `None` when the
/// value is not an object or has no such member.
pub uninterp spec fn json_member(v: Value, key: Seq<char>) -> Option<Value>;

/// The text of a JSON string, as `Value::as_str` gives it.
pub uninterp spec fn json_str(v: Value) -> Option<Seq<char>>;

/// Whether a JSON value is an object (`Value::as_object` is `Some`).
pub uninterp spec fn json_is_object(v: Value) -> bool;

/// The items of a JSON array, as `Value::as_array` gives them.
pub uninterp spec fn json_items(v: Value) -> Option<Seq<Value>>;

/// The value of a JSON number that is an unsigned 64-bit integer, as
/// `Value::as_u64` gives it.
pub uninterp spec fn json_u64(v: Value) -> Option<u64>;

/// `serde_json::from_str::<Value>`.
///
/// Claimed: the result is `json_parse` of the text, the error taken as its
/// message.
#[verifier::external_body]
pub(crate) fn parse_json(text: &str) -> (r: Result<Value, String>)
    ensures
        match r {
            Ok(v) => json_parse(text@) == Ok::<Value, Seq<char>>(v),
            Err(m) => json_parse(text@) == Err::<Value, Seq<char>>(m@),
        },
{
    serde_json::from_str::<Value>(text).map_err(|e| e.to_string())
}

/// `Value::get` with a string key, the member copied out.
///
/// Claimed: the result is `json_member` of the value and key.
#[verifier::external_body]
pub(crate) fn member(v: &Value, key: &str) -> (r: Option<Value>)
    ensures
        r == json_member(*v, key@),
{
    v.get(key).cloned()
}

/// `Value::as_str`, the text copied out.
///
/// Claimed: the result is `json_str` of the value.
#[verifier::external_body]
pub(crate) fn as_str(v: &Value) -> (r: Option<String>)
    ensures
        match r {
            Some(t) => json_str(*v) == Some(t@),
            None => json_str(*v) is None,
        },
{
    v.as_str().map(|t| t.to_owned())
}

/// Whether `Value::as_object` gives an object.
///
/// Claimed: the result is `json_is_object` of the value.
#[verifier::external_body]
pub(crate) fn is_object(v: &Value) -> (r: bool)
    ensures
        r == json_is_object(*v),
{
    v.as_object().is_some()
}

/// `Value::as_array`, the items copied out.
///
/// Claimed: the result is `json_items` of the value.
#[verifier::external_body]
pub(crate) fn as_array(v: &Value) -> (r: Option<Vec<Value>>)
    ensures
        match r {
            Some(items) => json_items(*v) == Some(items@),
            None => json_items(*v) is None,
        },
{
    v.as_array().cloned()
}

/// `Value::as_u64`.
///
/// Claimed: the result is `json_u64` of the value.
#[verifier::external_body]
pub(crate) fn as_u64(v: &Value) -> (r: Option<u64>)
    ensures
        r == json_u64(*v),
{
    v.as_u64()
}

/// The JSON text of a value, as its `Display` (`to_string`) writes it.
pub uninterp spec fn json_text_of(v: Value) -> Seq<char>;

/// `Value::to_string`: the value written as compact JSON text.
///
/// Claimed: the result is `json_text_of` the value.
#[verifier::external_body]
pub(crate) fn json_text(v: &Value) -> (r: String)
    ensures
        r@ == json_text_of(*v),
{
    v.to_string()
}

} // verus!
