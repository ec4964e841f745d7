//! The JSON that crosses the wire, read and written by `serde_json`.
//!
//! Nothing here is proved about `serde_json` itself. Each function marked
//! `external_body` wraps one function of it, and its contract says what the
//! library takes that function to return; the spec functions without a body
//! give those results a name. [`field`], at the end, is verified against
//! these contracts.

use vstd::prelude::*;

verus! {

/// A parsed JSON document, as `serde_json` holds it: a tree of values whose
/// objects hold their members by key.
#[verifier::external_type_specification]
#[verifier::external_body]
pub struct ExValue(serde_json::Value);

/// What a JSON object holds under its keys: the text of a member that is a
/// JSON string, `None` for a member of any other kind.
pub type Members = Map<Seq<char>, Option<Seq<char>>>;

/// The members of `document` where it is a JSON object; no member at all
/// where it is anything else.
pub uninterp spec fn json_members(document: serde_json::Value) -> Members;

/// The text of `value` where it is a JSON string.
pub uninterp spec fn json_text(value: serde_json::Value) -> Option<Seq<char>>;

/// What `serde_json::from_str` makes of `text`: the members of the document
/// it parses, or the message of the error it reports.
pub uninterp spec fn json_document(text: Seq<char>) -> Result<Members, Seq<char>>;

/// What `serde_json::to_string` makes of the string `text`: the JSON string
/// literal for it, quotes included, or the message of the error it reports.
pub uninterp spec fn json_string_literal(text: Seq<char>) -> Result<Seq<char>, Seq<char>>;

/// Calls `serde_json::from_str` to parse `text` into a `serde_json::Value`.
/// Not proved: that the outcome depends on `text` alone, so that
/// [`json_document`] names it.
#[verifier::external_body]
pub(crate) fn parse_document(text: &str) -> (parsed: Result<serde_json::Value, String>)
    ensures
        match parsed {
            Ok(document) => json_document(text@) == Ok::<Members, Seq<char>>(
                json_members(document),
            ),
            Err(message) => json_document(text@) == Err::<Members, Seq<char>>(message@),
        },
{
    match serde_json::from_str::<serde_json::Value>(text) {
        Ok(document) => Ok(document),
        Err(error) => Err(error.to_string()),
    }
}

/// Calls `serde_json::Value::get` with a string key. Not proved: that a
/// member comes back exactly where `document` is an object that has `key`,
/// and that it is the member under that key.
#[verifier::external_body]
pub(crate) fn member<'a>(document: &'a serde_json::Value, key: &str) -> (found: Option<
    &'a serde_json::Value,
>)
    ensures
        match found {
            Some(value) => json_members(*document).contains_key(key@) && json_members(
                *document,
            )[key@] == json_text(*value),
            None => !json_members(*document).contains_key(key@),
        },
{
    document.get(key)
}

/// Calls `serde_json::Value::as_str`. Not proved: that a text comes back
/// exactly where `value` is a JSON string, and that it is the string's text.
#[verifier::external_body]
pub(crate) fn text_of<'a>(value: &'a serde_json::Value) -> (text: Option<&'a str>)
    ensures
        match text {
            Some(t) => json_text(*value) == Some(t@),
            None => json_text(*value) is None,
        },
{
    value.as_str()
}

/// Calls `serde_json::to_string` on a string slice. Not proved: that the
/// outcome depends on `text` alone, so that [`json_string_literal`] names it.
#[verifier::external_body]
pub(crate) fn quote(text: &str) -> (quoted: Result<String, String>)
    ensures
        match quoted {
            Ok(literal) => json_string_literal(text@) == Ok::<Seq<char>, Seq<char>>(literal@),
            Err(message) => json_string_literal(text@) == Err::<Seq<char>, Seq<char>>(message@),
        },
{
    match serde_json::to_string(text) {
        Ok(literal) => Ok(literal),
        Err(error) => Err(error.to_string()),
    }
}

/// What a JSON object holds under one key.
#[derive(Debug, PartialEq, Eq)]
pub enum Field {
    /// The object has no member under the key, or the document is no object.
    Absent,
    /// The member under the key is not a JSON string.
    NotText,
    /// The member under the key is a JSON string with this text.
    Text(String),
}

/// What `members` hold under `key`.
pub open spec fn field_of(members: Members, key: Seq<char>) -> Option<Option<Seq<char>>> {
    if members.contains_key(key) {
        Some(members[key])
    } else {
        None
    }
}

impl View for Field {
    type V = Option<Option<Seq<char>>>;

    open spec fn view(&self) -> Option<Option<Seq<char>>> {
        match *self {
            Field::Absent => None,
            Field::NotText => Some(None),
            Field::Text(text) => Some(Some(text@)),
        }
    }
}

/// Looks `key` up in `document`.
pub(crate) fn field(document: &serde_json::Value, key: &str) -> (found: Field)
    ensures
        found@ == field_of(json_members(*document), key@),
{
    match member(document, key) {
        None => Field::Absent,
        Some(value) => match text_of(value) {
            None => Field::NotText,
            Some(text) => Field::Text(text.to_owned()),
        },
    }
}

} // verus!
