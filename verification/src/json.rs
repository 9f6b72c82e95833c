//! The JSON library that reads the player's replies.
//!
//! Nothing in this file is proved. A document is kept as the library's own
//! `serde_json::Value`, which stays opaque here; what the library computes
//! from it is given a name, and each call says that its result is that name
//! applied to its arguments. The functions that decide what a reply means are
//! in `reply` and are proved against these statements.

use vstd::prelude::*;

verus! {

/// `serde_json::Value`, a parsed JSON document or a part of one. Opaque.
#[verifier::external_type_specification]
#[verifier::external_body]
pub struct ExValue(serde_json::Value);

/// `serde_json::Error`, the reason a text was not accepted as JSON. Opaque.
#[verifier::external_type_specification]
#[verifier::external_body]
pub struct ExError(serde_json::Error);

/// The document that `serde_json::from_str` reads from `text`, if it accepts
/// the text.
pub uninterp spec fn json_parse(text: Seq<char>) -> Option<serde_json::Value>;

/// What `serde_json::Value::get` finds in `doc` under the string `key`.
pub uninterp spec fn json_member(doc: serde_json::Value, key: Seq<char>) -> Option<
    serde_json::Value,
>;

/// What `serde_json::Value::as_str` finds in `value`.
pub uninterp spec fn json_string(value: serde_json::Value) -> Option<Seq<char>>;

/// The text that `serde_json::Value`'s `Display` writes for `value` in its
/// plain form.
pub uninterp spec fn json_text(value: serde_json::Value) -> Seq<char>;

/// Calls `serde_json::from_str` for a `serde_json::Value`.
///
/// Claims that the outcome depends on the text alone: the call succeeds
/// exactly when `json_parse` has a document for the text, and then returns
/// that document.
#[verifier::external_body]
pub(crate) fn parse_document(text: &str) -> (res: Result<serde_json::Value, serde_json::Error>)
    ensures
        res is Ok <==> json_parse(text@) is Some,
        res matches Ok(doc) ==> json_parse(text@) == Some(doc),
{
    serde_json::from_str::<serde_json::Value>(text)
}

/// Calls `serde_json::Value::get` with a string key.
///
/// Claims that the outcome depends on the document and the key alone, and is
/// what `json_member` names. (The library returns the member stored under
/// the key if the document is an object that has one, and nothing
/// otherwise.)
#[verifier::external_body]
pub(crate) fn member<'a>(doc: &'a serde_json::Value, key: &str) -> (res: Option<
    &'a serde_json::Value,
>)
    ensures
        res is Some <==> json_member(*doc, key@) is Some,
        res matches Some(found) ==> json_member(*doc, key@) == Some(*found),
{
    doc.get(key)
}

/// Calls `serde_json::Value::as_str`.
///
/// Claims that the outcome depends on the value alone, and is what
/// `json_string` names. (The library returns the string's content if the
/// value is a JSON string, and nothing otherwise.)
#[verifier::external_body]
pub(crate) fn string_of<'a>(value: &'a serde_json::Value) -> (res: Option<&'a str>)
    ensures
        res is Some <==> json_string(*value) is Some,
        res matches Some(content) ==> json_string(*value) == Some(content@),
{
    value.as_str()
}

/// Calls `to_string` on a `serde_json::Value`, which runs its `Display`.
///
/// Claims that the text depends on the value alone, and is what `json_text`
/// names. (The library writes the value as compact JSON.)
#[verifier::external_body]
pub(crate) fn text_of(value: &serde_json::Value) -> (res: String)
    ensures
        res@ == json_text(*value),
{
    value.to_string()
}

} // verus!
