//! JSON, as far as the wire format needs it: the strings of a document, and
//! a string as JSON writes it.
//!
//! Parsing and quoting are those of `serde_json`. What they yield is named,
//! not spelled out: the grammar of JSON is that crate's to know.

use vstd::prelude::*;

verus! {

/// A parsed JSON document.
#[verifier::external_type_specification]
#[verifier::external_body]
pub struct ExDocument(serde_json::Value);

/// The strings that a document holds, each under the JSON Pointer that
/// leads to it: `/data/path` is the member `path` of the member `data`.
/// A pointer that leads to nothing, or to a value that is no string, has no
/// entry.
pub uninterp spec fn strings_of(document: serde_json::Value) -> Map<Seq<char>, Seq<char>>;

/// The strings of the JSON document that a text spells, or nothing where the
/// text is not one JSON document.
pub uninterp spec fn parsed(text: Seq<char>) -> Option<Map<Seq<char>, Seq<char>>>;

/// A string as JSON writes it: between double quotes, with the characters
/// that JSON does not take as they are written as escapes.
pub uninterp spec fn quoted(text: Seq<char>) -> Seq<char>;

/// `serde_json::from_str` for a `serde_json::Value`. It succeeds exactly on
/// the texts that are one JSON document, and the value then holds the
/// strings of that document.
#[verifier::external_body]
pub(crate) fn parse(text: &str) -> (document: Option<serde_json::Value>)
    ensures
        document is Some <==> parsed(text@) is Some,
        document matches Some(value) ==> strings_of(value) == parsed(text@)->0,
{
    serde_json::from_str(text).ok()
}

/// `serde_json::Value::pointer`, for a pointer that leads to a string: the
/// string it leads to, or nothing where it leads to no string.
#[verifier::external_body]
pub(crate) fn string_at(document: &serde_json::Value, pointer: &str) -> (found: Option<String>)
    ensures
        found is Some <==> strings_of(*document).contains_key(pointer@),
        found matches Some(text) ==> text@ == strings_of(*document)[pointer@],
{
    match document.pointer(pointer) {
        Some(serde_json::Value::String(text)) => Some(text.clone()),
        _ => None,
    }
}

/// How `serde_json` writes a string: the `Display` of a
/// `serde_json::Value::String`.
#[verifier::external_body]
pub(crate) fn quote(text: &str) -> (literal: String)
    ensures
        literal@ == quoted(text@),
{
    serde_json::Value::String(text.to_owned()).to_string()
}

} // verus!
