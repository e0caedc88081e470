//! The boundary to `serde_json`: the JSON value type, the calls the relay
//! makes on it, and the vocabulary in which their results are described.

use vstd::prelude::*;

verus! {

/// The content of a JSON document as a mathematical tree.
///
/// Numbers are kept as the decimal text `serde_json` prints for them, and an
/// object keeps its members in the order in which `serde_json` holds them.
pub enum JsonModel {
    Null,
    Bool(bool),
    Number(Seq<char>),
    Text(Seq<char>),
    Array(Seq<JsonModel>),
    Object(Seq<(Seq<char>, JsonModel)>),
}

/// The first member of `entries` stored under `key`, if there is one.
pub open spec fn first_with_key(entries: Seq<(Seq<char>, JsonModel)>, key: Seq<char>) -> Option<
    JsonModel,
>
    decreases entries.len(),
{
    if entries.len() == 0 {
        None
    } else if entries[0].0 == key {
        Some(entries[0].1)
    } else {
        first_with_key(entries.skip(1), key)
    }
}

impl JsonModel {
    /// The member of an object stored under `key`; nothing for any other kind
    /// of document and for an object without that key.
    pub open spec fn member(self, key: Seq<char>) -> Option<JsonModel> {
        match self {
            JsonModel::Object(entries) => first_with_key(entries, key),
            _ => None,
        }
    }
}

/// `serde_json::Value`, carried through the relay untouched.
#[verifier::external_type_specification]
#[verifier::external_body]
pub struct ExValue(serde_json::Value);

/// The document a `serde_json::Value` holds.
pub uninterp spec fn value_model(value: serde_json::Value) -> JsonModel;

/// What `serde_json::from_str` makes of a text: the document it reads, or
/// the message of the error it reports.
pub uninterp spec fn json_parse(text: Seq<char>) -> Result<JsonModel, Seq<char>>;

/// What `serde_json::to_string_pretty` makes of a document: its indented
/// text, or the message of the error it reports.
pub uninterp spec fn json_pretty(document: JsonModel) -> Result<Seq<char>, Seq<char>>;

/// The single-line text that the `Display` impl of `serde_json::Value`
/// writes for a document.
pub uninterp spec fn json_compact(document: JsonModel) -> Seq<char>;

/// The views of both sides of a fallible text result.
pub open spec fn text_result(outcome: Result<String, String>) -> Result<Seq<char>, Seq<char>> {
    match outcome {
        Ok(text) => Ok(text@),
        Err(message) => Err(message@),
    }
}

/// Calls `serde_json::from_str` for a `Value`. The contract claims only that
/// the outcome is a function of the text: the document read, or the error's
/// message as its `Display` writes it.
#[verifier::external_body]
pub(crate) fn parse_value(text: &str) -> (outcome: Result<serde_json::Value, String>)
    ensures
        match outcome {
            Ok(value) => json_parse(text@) == Ok::<JsonModel, Seq<char>>(value_model(value)),
            Err(message) => json_parse(text@) == Err::<JsonModel, Seq<char>>(message@),
        },
{
    match serde_json::from_str::<serde_json::Value>(text) {
        Ok(value) => Ok(value),
        Err(error) => Err(error.to_string()),
    }
}

/// Calls `serde_json::to_string_pretty` on a `Value`. The contract claims
/// only that the outcome is a function of the document the value holds.
#[verifier::external_body]
pub(crate) fn pretty_text(value: &serde_json::Value) -> (outcome: Result<String, String>)
    ensures
        text_result(outcome) == json_pretty(value_model(*value)),
{
    match serde_json::to_string_pretty(value) {
        Ok(text) => Ok(text),
        Err(error) => Err(error.to_string()),
    }
}

/// Calls `serde_json::Value::get` with a string index: the member of an
/// object stored under that key, and nothing for a missing key or for a
/// value that is not an object.
#[verifier::external_body]
pub(crate) fn lookup<'a>(value: &'a serde_json::Value, key: &str) -> (found: Option<
    &'a serde_json::Value,
>)
    ensures
        match found {
            Some(member) => value_model(*value).member(key@) == Some(value_model(*member)),
            None => value_model(*value).member(key@) is None,
        },
{
    value.get(key)
}

/// Formats a `Value` through its `Display` impl, which writes the compact
/// JSON text of the document.
#[verifier::external_body]
pub(crate) fn compact_text(value: &serde_json::Value) -> (text: String)
    ensures
        text@ == json_compact(value_model(*value)),
{
    value.to_string()
}

/// What `format_json` returns for a text, given what parsing makes of it.
pub open spec fn format_outcome(parsed: Result<JsonModel, Seq<char>>) -> Result<
    Seq<char>,
    Seq<char>,
> {
    match parsed {
        Ok(document) => json_pretty(document),
        Err(message) => Err(message),
    }
}

/// Re-indents a JSON text: parses it and prints the document read in the
/// pretty form. A text that is not JSON yields the parser's message.
pub fn format_json(json_str: &str) -> (outcome: Result<String, String>)
    ensures
        text_result(outcome) == format_outcome(json_parse(json_str@)),
{
    match parse_value(json_str) {
        Ok(value) => pretty_text(&value),
        Err(message) => Err(message),
    }
}

} // verus!
