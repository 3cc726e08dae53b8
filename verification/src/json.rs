//! Reading JSON documents with the `serde_json` crate. A parsed value stays
//! opaque; what the crate reports of it is referred to by name.

use vstd::prelude::*;

verus! {

/// `serde_json::Value`, a parsed JSON value, carried as an opaque value.
#[verifier::external_type_specification]
#[verifier::external_body]
pub struct ExJsonValue(serde_json::Value);

/// The value that `text` parses to, if it is a JSON document.
pub uninterp spec fn json_document(text: Seq<char>) -> Option<serde_json::Value>;

/// What indexing `value` by the string `key` gives.
pub uninterp spec fn json_member(value: serde_json::Value, key: Seq<char>) -> serde_json::Value;

/// The elements of `value`, if it is an array.
pub uninterp spec fn json_elements(value: serde_json::Value) -> Option<Seq<serde_json::Value>>;

/// The characters of `value`, if it is a string.
pub uninterp spec fn json_text(value: serde_json::Value) -> Option<Seq<char>>;

/// Calls `serde_json::from_str` for a `Value` and drops the error: the
/// parsed document, or nothing where the text is not one.
#[verifier::external_body]
pub(crate) fn parse_document(text: &str) -> (document: Option<serde_json::Value>)
    ensures
        document == json_document(text@),
{
    serde_json::from_str::<serde_json::Value>(text).ok()
}

/// Indexes a `Value` by a string key, as `value[key]` does: a reference to
/// the member, or to a null value where there is none.
#[verifier::external_body]
pub(crate) fn member<'a>(value: &'a serde_json::Value, key: &str) -> (found: &'a serde_json::Value)
    ensures
        *found == json_member(*value, key@),
{
    &value[key]
}

/// Calls `Value::as_array`: the elements of an array, nothing for any other
/// value.
#[verifier::external_body]
pub(crate) fn elements(value: &serde_json::Value) -> (items: Option<&Vec<serde_json::Value>>)
    ensures
        match items {
            Some(list) => json_elements(*value) == Some(list@),
            None => json_elements(*value) is None,
        },
{
    value.as_array()
}

/// Calls `Value::as_str`: the characters of a string, nothing for any other
/// value.
#[verifier::external_body]
pub(crate) fn text_of(value: &serde_json::Value) -> (text: Option<&str>)
    ensures
        match text {
            Some(characters) => json_text(*value) == Some(characters@),
            None => json_text(*value) is None,
        },
{
    value.as_str()
}

} // verus!
