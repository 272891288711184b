//! The few JSON operations the logic needs, done by `serde_json`.

use vstd::prelude::*;
use serde_json::Value;

verus! {

/// The JSON string literal for a text: the text in double quotes, with the
/// escapes that `serde_json` writes.
pub uninterp spec fn json_quoted(s: Seq<char>) -> Seq<char>;

/// Trusted: `serde_json::to_string` on a `str` writes its JSON string
/// literal, which depends on the text alone. Writing into memory does not
/// fail, so the fallback is never taken.
#[verifier::external_body]
pub(crate) fn quote(s: &str) -> (r: String)
    ensures
        r@ == json_quoted(s@),
{
    serde_json::to_string(s).unwrap_or_default()
}

/// `serde_json::Value`, declared so that it can stand in signatures. Nothing
/// is known of what it holds but what the names below say.
#[verifier::external_type_specification]
#[verifier::external_body]
pub struct ExValue(Value);

/// The JSON value that a text denotes, if it is well-formed JSON.
pub uninterp spec fn json_parsed(text: Seq<char>) -> Option<Value>;

/// The member of a JSON object under a key; none where the value is no
/// object or has no such member.
pub uninterp spec fn json_member(v: Value, key: Seq<char>) -> Option<Value>;

/// The text of a JSON string; none where the value is no string.
pub uninterp spec fn json_text(v: Value) -> Option<Seq<char>>;

/// The number of a JSON value that is an integer between 0 and 2^64 - 1;
/// none for any other value.
pub uninterp spec fn json_unsigned(v: Value) -> Option<u64>;

/// Trusted: `serde_json::from_str` decodes a text as a `Value`, or fails;
/// the outcome depends on the text alone.
#[verifier::external_body]
pub(crate) fn parse(text: &str) -> (r: Option<Value>)
    ensures
        r == json_parsed(text@),
{
    serde_json::from_str::<Value>(text).ok()
}

/// Trusted: `Value::get` with a text key gives the member of an object
/// under that key, and nothing for another kind of value or a missing key.
#[verifier::external_body]
pub(crate) fn member<'a>(v: &'a Value, key: &str) -> (r: Option<&'a Value>)
    ensures
        match r {
            Some(m) => json_member(*v, key@) == Some(*m),
            None => json_member(*v, key@) is None,
        },
{
    v.get(key)
}

/// Trusted: `Value::as_str` gives the text of a string value, and nothing
/// for another kind of value.
#[verifier::external_body]
pub(crate) fn as_text<'a>(v: &'a Value) -> (r: Option<&'a str>)
    ensures
        match r {
            Some(t) => json_text(*v) == Some(t@),
            None => json_text(*v) is None,
        },
{
    v.as_str()
}

/// Trusted: `Value::as_u64` gives the number of an integer value that fits
/// in 64 bits unsigned, and nothing for any other value.
#[verifier::external_body]
pub(crate) fn as_unsigned(v: &Value) -> (r: Option<u64>)
    ensures
        r == json_unsigned(*v),
{
    v.as_u64()
}

/// Trusted: `Value::clone` gives a value equal to the one it is made from.
#[verifier::external_body]
pub(crate) fn copy_of(v: &Value) -> (r: Value)
    ensures
        r == *v,
{
    v.clone()
}

} // verus!
