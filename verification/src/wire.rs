//! The text form of JSON documents, read and written by `serde_json`.
//!
//! `serde_json` reads a text into a `serde_json::Value` and writes one from
//! it. It keeps the members of an object in a map that is ordered by name, so
//! what it writes depends on nothing but the document that the value holds.

use crate::json::{Json, JsonView};
use vstd::prelude::*;
use vstd::utf8::encode_utf8;

verus! {

/// `serde_json::Value`, the form in which `serde_json` hands a document over.
#[verifier::external_type_specification]
#[verifier::external_body]
pub struct ExValue(serde_json::Value);

/// `serde_json::Error`, what `serde_json` reports when it cannot read or write
/// a text.
#[verifier::external_type_specification]
#[verifier::external_body]
pub struct ExError(serde_json::Error);

/// The document that a `serde_json::Value` holds: `null`, a boolean, a
/// number, a string, an array of documents, or a map from names to
/// documents.
pub uninterp spec fn document(value: serde_json::Value) -> JsonView;

/// The document that `serde_json::from_slice` reads from `bytes`, or `None`
/// where it rejects them.
pub uninterp spec fn parsed(bytes: Seq<u8>) -> Option<JsonView>;

/// The text that `serde_json::to_string` writes for `doc`, on one line.
pub uninterp spec fn compact(doc: JsonView) -> Option<Seq<char>>;

/// The text that `serde_json::to_string_pretty` writes for `doc`, indented.
pub uninterp spec fn pretty(doc: JsonView) -> Option<Seq<char>>;

/// Tells the variants of `serde_json::Value` apart and moves what each holds
/// into the variant of [`Json`] of the same name. The members of an object
/// come in the order in which `serde_json` walks its map, every name once.
#[verifier::external_body]
fn from_value(value: serde_json::Value) -> (doc: Json)
    ensures
        doc@ == document(value),
{
    match value {
        serde_json::Value::Null => Json::Null,
        serde_json::Value::Bool(b) => Json::Bool(b),
        serde_json::Value::Number(n) => Json::Number(n),
        serde_json::Value::String(s) => Json::String(s),
        serde_json::Value::Array(items) => Json::Array(items.into_iter().map(from_value).collect()),
        serde_json::Value::Object(members) => Json::Object(
            members.into_iter().map(|(name, value)| (name, from_value(value))).collect(),
        ),
    }
}

/// Copies what each variant of [`Json`] holds into the variant of
/// `serde_json::Value` of the same name. The members of an object go into a
/// new map one after the other with `Map::insert`, which gives a name that
/// it holds already the new value.
#[verifier::external_body]
fn to_value(doc: &Json) -> (value: serde_json::Value)
    ensures
        document(value) == doc@,
{
    match doc {
        Json::Null => serde_json::Value::Null,
        Json::Bool(b) => serde_json::Value::Bool(*b),
        Json::Number(n) => serde_json::Value::Number(n.clone()),
        Json::String(s) => serde_json::Value::String(s.clone()),
        Json::Array(items) => serde_json::Value::Array(items.iter().map(to_value).collect()),
        Json::Object(members) => {
            let mut map = serde_json::Map::new();
            for (name, value) in members {
                map.insert(name.clone(), to_value(value));
            }
            serde_json::Value::Object(map)
        },
    }
}

/// Calls `serde_json::from_slice` for a `serde_json::Value`. The contract
/// names the outcome [`parsed`]: the same bytes always read as the same
/// document.
#[verifier::external_body]
fn read_bytes(bytes: &[u8]) -> (outcome: Result<serde_json::Value, serde_json::Error>)
    ensures
        match outcome {
            Ok(value) => parsed(bytes@) == Some(document(value)),
            Err(_) => parsed(bytes@) is None,
        },
{
    serde_json::from_slice::<serde_json::Value>(bytes)
}

/// Calls `serde_json::to_string`. The contract names the outcome
/// [`compact`]: the same document is always written as the same text.
#[verifier::external_body]
fn write_compact(value: &serde_json::Value) -> (outcome: Result<String, serde_json::Error>)
    ensures
        match outcome {
            Ok(text) => compact(document(*value)) == Some(text@),
            Err(_) => compact(document(*value)) is None,
        },
{
    serde_json::to_string(value)
}

/// Calls `serde_json::to_string_pretty`. The contract names the outcome
/// [`pretty`]: the same document is always written as the same text.
#[verifier::external_body]
fn write_pretty(value: &serde_json::Value) -> (outcome: Result<String, serde_json::Error>)
    ensures
        match outcome {
            Ok(text) => pretty(document(*value)) == Some(text@),
            Err(_) => pretty(document(*value)) is None,
        },
{
    serde_json::to_string_pretty(value)
}

impl Json {
    /// Reads a document from the bytes of its text. The error is what
    /// `serde_json` says about them.
    pub fn parse_bytes(bytes: &[u8]) -> (outcome: Result<Json, String>)
        ensures
            match outcome {
                Ok(doc) => parsed(bytes@) == Some(doc@),
                Err(_) => parsed(bytes@) is None,
            },
    {
        match read_bytes(bytes) {
            Ok(value) => Ok(from_value(value)),
            Err(e) => Err(e.to_string()),
        }
    }

    /// Reads a document from its text.
    pub fn parse(text: &str) -> (outcome: Result<Json, String>)
        ensures
            match outcome {
                Ok(doc) => parsed(encode_utf8(text@)) == Some(doc@),
                Err(_) => parsed(encode_utf8(text@)) is None,
            },
    {
        Self::parse_bytes(text.as_bytes())
    }

    /// Writes the document on one line. The error is what `serde_json` says
    /// about the document.
    pub fn to_text(&self) -> (outcome: Result<String, String>)
        ensures
            match outcome {
                Ok(text) => compact(self@) == Some(text@),
                Err(_) => compact(self@) is None,
            },
    {
        match write_compact(&to_value(self)) {
            Ok(text) => Ok(text),
            Err(e) => Err(e.to_string()),
        }
    }

    /// Writes the document over several lines, indented. The error is what
    /// `serde_json` says about the document.
    pub fn to_pretty_text(&self) -> (outcome: Result<String, String>)
        ensures
            match outcome {
                Ok(text) => pretty(self@) == Some(text@),
                Err(_) => pretty(self@) is None,
            },
    {
        match write_pretty(&to_value(self)) {
            Ok(text) => Ok(text),
            Err(e) => Err(e.to_string()),
        }
    }
}

} // verus!
