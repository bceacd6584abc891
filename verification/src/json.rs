//! JSON documents as text.
//!
//! A JSON value is handled as the text that writes it. `serde_json` reads the
//! text; what it finds is handed on as plain values, a nested value as the
//! text that writes it.
use crate::text::text_views;
use vstd::prelude::*;
use vstd::string::*;

verus! {

/// The elements of the array that a text writes, if it writes one.
pub uninterp spec fn json_items(text: Seq<char>) -> Option<Seq<Seq<char>>>;

/// The member of the object that a text writes, if it writes one that has it.
pub uninterp spec fn json_member(text: Seq<char>, key: Seq<char>) -> Option<Seq<char>>;

/// The string that a text writes, if it writes one.
pub uninterp spec fn json_string(text: Seq<char>) -> Option<Seq<char>>;

/// The number that a text writes, if it writes one that fits 64 bits unsigned.
pub uninterp spec fn json_unsigned(text: Seq<char>) -> Option<u64>;

/// The boolean that a text writes, if it writes one.
pub uninterp spec fn json_bool(text: Seq<char>) -> Option<bool>;

/// Why a text is no JSON document, if it is none.
pub uninterp spec fn json_fault(text: Seq<char>) -> Option<Seq<char>>;

/// `serde_json::from_str` and `Value::as_array`: the elements, each written
/// out again.
#[verifier::external_body]
pub(crate) fn items(text: &str) -> (r: Option<Vec<String>>)
    ensures
        match r {
            Some(list) => json_items(text@) == Some(text_views(list@)),
            None => json_items(text@) is None,
        },
{
    let value: serde_json::Value = serde_json::from_str(text).ok()?;
    value.as_array().map(|list| list.iter().map(|v| v.to_string()).collect())
}

/// `serde_json::from_str` and `Value::get`: the member, written out again.
#[verifier::external_body]
pub(crate) fn member(text: &str, key: &str) -> (r: Option<String>)
    ensures
        match r {
            Some(found) => json_member(text@, key@) == Some(found@),
            None => json_member(text@, key@) is None,
        },
{
    let value: serde_json::Value = serde_json::from_str(text).ok()?;
    value.get(key).map(|v| v.to_string())
}

/// `serde_json::from_str` and `Value::as_str`.
#[verifier::external_body]
pub(crate) fn string(text: &str) -> (r: Option<String>)
    ensures
        match r {
            Some(found) => json_string(text@) == Some(found@),
            None => json_string(text@) is None,
        },
{
    let value: serde_json::Value = serde_json::from_str(text).ok()?;
    value.as_str().map(|s| s.to_owned())
}

/// `serde_json::from_str` and `Value::as_u64`.
#[verifier::external_body]
pub(crate) fn unsigned(text: &str) -> (r: Option<u64>)
    ensures
        r == json_unsigned(text@),
{
    let value: serde_json::Value = serde_json::from_str(text).ok()?;
    value.as_u64()
}

/// `serde_json::from_str` and `Value::as_bool`.
#[verifier::external_body]
pub(crate) fn boolean(text: &str) -> (r: Option<bool>)
    ensures
        r == json_bool(text@),
{
    let value: serde_json::Value = serde_json::from_str(text).ok()?;
    value.as_bool()
}

/// `serde_json::from_str`: the error in words.
#[verifier::external_body]
pub(crate) fn fault(text: &str) -> (r: Option<String>)
    ensures
        match r {
            Some(e) => json_fault(text@) == Some(e@),
            None => json_fault(text@) is None,
        },
{
    let value: Result<serde_json::Value, serde_json::Error> = serde_json::from_str(text);
    value.err().map(|e| e.to_string())
}

} // verus!
