//! The host relay: what the host says and does about one payload that the
//! interceptor of a window sent.
//!
//! Every payload is handled on its own. The relay keeps nothing from one
//! payload to the next, so the decisions here are functions of the payload
//! alone.

use vstd::prelude::*;
use vstd::string::*;
use crate::json::{
    compact_text, json_compact, json_parse, json_pretty, lookup, parse_value, pretty_text,
    text_result, value_model, JsonModel,
};

verus! {

/// The channel on which interceptors report captured requests.
pub const CAPTURE_CHANNEL: &'static str = "http-request";

/// The channel on which parsed requests are handed to the primary surface.
pub const REPUBLISH_CHANNEL: &'static str = "http-request-rust";

/// The label of the primary surface.
pub const PRIMARY_SURFACE: &'static str = "main";

/// One entry of the diagnostic log.
#[derive(Debug, PartialEq, Eq)]
pub enum LogEntry {
    /// The indented text of a captured request.
    Formatted(String),
    /// A captured request that could not be formatted, with the reason.
    FormatFailure(String),
    /// A payload that is not JSON, with the parser's message.
    ParseFailure(String),
    /// The address and the method of a captured request.
    Summary { url: String, method: String },
    /// A parsed request that did not reach the primary surface, with the
    /// reason.
    RepublishFailure(String),
}

/// The mathematical content of a `LogEntry`.
pub enum LogLine {
    Formatted(Seq<char>),
    FormatFailure(Seq<char>),
    ParseFailure(Seq<char>),
    Summary { url: Seq<char>, method: Seq<char> },
    RepublishFailure(Seq<char>),
}

impl LogLine {
    /// The text that is written to the log for this entry.
    pub open spec fn text(self) -> Seq<char> {
        match self {
            LogLine::Formatted(block) => "Formatted Request:\n"@ + block,
            LogLine::FormatFailure(reason) => "Failed to format JSON: "@ + reason,
            LogLine::ParseFailure(reason) => "Gagal parse payload: "@ + reason,
            LogLine::Summary { url, method } => "URL: "@ + url + ", Method: "@ + method,
            LogLine::RepublishFailure(reason) => "Failed to republish request: "@ + reason,
        }
    }
}

impl View for LogEntry {
    type V = LogLine;

    open spec fn view(&self) -> LogLine {
        match self {
            LogEntry::Formatted(block) => LogLine::Formatted(block@),
            LogEntry::FormatFailure(reason) => LogLine::FormatFailure(reason@),
            LogEntry::ParseFailure(reason) => LogLine::ParseFailure(reason@),
            LogEntry::Summary { url, method } => LogLine::Summary { url: url@, method: method@ },
            LogEntry::RepublishFailure(reason) => LogLine::RepublishFailure(reason@),
        }
    }
}

impl LogEntry {
    /// The text that is written to the log for this entry.
    pub fn render(&self) -> (line: String)
        ensures
            line@ == self@.text(),
    {
        match self {
            LogEntry::Formatted(block) => {
                let mut line = String::from_str("Formatted Request:\n");
                line.append(block.as_str());
                line
            },
            LogEntry::FormatFailure(reason) => {
                let mut line = String::from_str("Failed to format JSON: ");
                line.append(reason.as_str());
                line
            },
            LogEntry::ParseFailure(reason) => {
                let mut line = String::from_str("Gagal parse payload: ");
                line.append(reason.as_str());
                line
            },
            LogEntry::Summary { url, method } => {
                let mut line = String::from_str("URL: ");
                line.append(url.as_str());
                line.append(", Method: ");
                line.append(method.as_str());
                line
            },
            LogEntry::RepublishFailure(reason) => {
                let mut line = String::from_str("Failed to republish request: ");
                line.append(reason.as_str());
                line
            },
        }
    }
}

/// The contents of a log, entry by entry.
pub open spec fn log_lines(entries: Seq<LogEntry>) -> Seq<LogLine> {
    entries.map_values(|entry: LogEntry| entry@)
}

/// The view of an optional text.
pub open spec fn optional_text(text: Option<String>) -> Option<Seq<char>> {
    match text {
        Some(t) => Some(t@),
        None => None,
    }
}

/// The first entry of the log of a payload that was read: its indented text,
/// or the reason why there is none.
pub open spec fn formatted_line(formatted: Result<Seq<char>, Seq<char>>) -> LogLine {
    match formatted {
        Ok(block) => LogLine::Formatted(block),
        Err(reason) => LogLine::FormatFailure(reason),
    }
}

/// The log of a payload that was read, from the outcome of formatting it and
/// the compact texts of its `url` and `method` members: one entry for the
/// formatting, then a summary where both members exist.
pub open spec fn composed_log(
    formatted: Result<Seq<char>, Seq<char>>,
    url: Option<Seq<char>>,
    method: Option<Seq<char>>,
) -> Seq<LogLine> {
    if url is Some && method is Some {
        seq![formatted_line(formatted), LogLine::Summary { url: url->0, method: method->0 }]
    } else {
        seq![formatted_line(formatted)]
    }
}

/// The compact text of the member of `document` stored under `key`.
pub open spec fn member_text(document: JsonModel, key: Seq<char>) -> Option<Seq<char>> {
    match document.member(key) {
        Some(member) => Some(json_compact(member)),
        None => None,
    }
}

/// The log of a payload that was read as `document`.
pub open spec fn document_log(document: JsonModel) -> Seq<LogLine> {
    composed_log(
        json_pretty(document),
        member_text(document, "url"@),
        member_text(document, "method"@),
    )
}

/// The log of a payload, given what parsing makes of it. A payload that is
/// not JSON leaves the parser's message and nothing else.
pub open spec fn relay_log(parsed: Result<JsonModel, Seq<char>>) -> Seq<LogLine> {
    match parsed {
        Ok(document) => document_log(document),
        Err(reason) => seq![LogLine::ParseFailure(reason)],
    }
}

/// The document that is handed to the primary surface for a payload, given
/// what parsing makes of it: every document that was read, and nothing for a
/// payload that is not JSON.
pub open spec fn relay_republish(parsed: Result<JsonModel, Seq<char>>) -> Option<JsonModel> {
    match parsed {
        Ok(document) => Some(document),
        Err(_) => None,
    }
}

/// What the relay makes of one payload: the entries to write to the log, in
/// order, and the parsed request to hand to the primary surface, if any.
#[derive(Debug)]
pub struct RelayRecord {
    pub log: Vec<LogEntry>,
    pub republish: Option<serde_json::Value>,
}

impl RelayRecord {
    /// The contents of the log of this record.
    pub open spec fn lines(self) -> Seq<LogLine> {
        log_lines(self.log@)
    }

    /// The document to republish, if any.
    pub open spec fn republished(self) -> Option<JsonModel> {
        match self.republish {
            Some(value) => Some(value_model(value)),
            None => None,
        }
    }
}

/// Writes the log of a payload that was read, from the outcome of formatting
/// it and the compact texts of its `url` and `method` members.
pub fn compose_log(formatted: Result<String, String>, url: Option<String>, method: Option<
    String,
>) -> (log: Vec<LogEntry>)
    ensures
        log_lines(log@) == composed_log(
            text_result(formatted),
            optional_text(url),
            optional_text(method),
        ),
{
    let mut log: Vec<LogEntry> = Vec::new();
    match formatted {
        Ok(block) => log.push(LogEntry::Formatted(block)),
        Err(reason) => log.push(LogEntry::FormatFailure(reason)),
    }
    match url {
        Some(url) => match method {
            Some(method) => log.push(LogEntry::Summary { url, method }),
            None => {},
        },
        None => {},
    }
    log
}

/// The compact text of the member of `value` stored under `key`.
fn member_compact(value: &serde_json::Value, key: &str) -> (text: Option<String>)
    ensures
        optional_text(text) == member_text(value_model(*value), key@),
{
    match lookup(value, key) {
        Some(member) => Some(compact_text(member)),
        None => None,
    }
}

/// Handles a payload that was read as `value`: logs its indented text and,
/// where it names both an address and a method, their summary, and hands the
/// value on to the primary surface whether or not it names them.
pub fn relay_value(value: serde_json::Value) -> (record: RelayRecord)
    ensures
        record.lines() == document_log(value_model(value)),
        record.republish == Some(value),
{
    let formatted = pretty_text(&value);
    let url = member_compact(&value, "url");
    let method = member_compact(&value, "method");
    RelayRecord { log: compose_log(formatted, url, method), republish: Some(value) }
}

/// Handles one payload of the capture channel. A payload that is JSON is
/// logged and handed on as `relay_value` says; any other payload leaves one
/// entry with the parser's message and is dropped.
pub fn on_event(raw_payload: &str) -> (record: RelayRecord)
    ensures
        record.lines() == relay_log(json_parse(raw_payload@)),
        record.republished() == relay_republish(json_parse(raw_payload@)),
{
    match parse_value(raw_payload) {
        Ok(value) => relay_value(value),
        Err(reason) => {
            let mut log: Vec<LogEntry> = Vec::new();
            log.push(LogEntry::ParseFailure(reason));
            RelayRecord { log, republish: None }
        },
    }
}

/// How handing a request to the primary surface went.
#[derive(Debug, PartialEq, Eq)]
pub enum RepublishOutcome {
    /// The primary surface took the request.
    Delivered,
    /// There is no primary surface.
    SurfaceMissing,
    /// The primary surface did not take the request, with the reason.
    Rejected(String),
}

/// The mathematical content of a `RepublishOutcome`.
pub enum RepublishModel {
    Delivered,
    SurfaceMissing,
    Rejected(Seq<char>),
}

impl View for RepublishOutcome {
    type V = RepublishModel;

    open spec fn view(&self) -> RepublishModel {
        match self {
            RepublishOutcome::Delivered => RepublishModel::Delivered,
            RepublishOutcome::SurfaceMissing => RepublishModel::SurfaceMissing,
            RepublishOutcome::Rejected(reason) => RepublishModel::Rejected(reason@),
        }
    }
}

/// What is logged about handing a request to the primary surface: nothing
/// where it arrived, and the reason where it did not.
pub open spec fn republish_lines(outcome: RepublishModel) -> Seq<LogLine> {
    match outcome {
        RepublishModel::Delivered => seq![],
        RepublishModel::SurfaceMissing => seq![
            LogLine::RepublishFailure("the primary surface is not available"@),
        ],
        RepublishModel::Rejected(reason) => seq![LogLine::RepublishFailure(reason)],
    }
}

/// Closes the handling of one payload: a request that did not reach the
/// primary surface is logged and dropped, and the relay goes on.
pub fn republish_report(outcome: RepublishOutcome) -> (log: Vec<LogEntry>)
    ensures
        log_lines(log@) == republish_lines(outcome@),
{
    let mut log: Vec<LogEntry> = Vec::new();
    match outcome {
        RepublishOutcome::Delivered => {},
        RepublishOutcome::SurfaceMissing => {
            log.push(
                LogEntry::RepublishFailure(String::from_str("the primary surface is not available")),
            );
        },
        RepublishOutcome::Rejected(reason) => {
            log.push(LogEntry::RepublishFailure(reason));
        },
    }
    log
}

/// Every payload leaves a first entry that says what became of it: its
/// indented text, or the reason why there is none.
pub proof fn lemma_always_logged(raw_payload: Seq<char>)
    ensures
        relay_log(json_parse(raw_payload)).len() >= 1,
        !(relay_log(json_parse(raw_payload))[0] is Summary),
        !(relay_log(json_parse(raw_payload))[0] is RepublishFailure),
        relay_log(json_parse(raw_payload))[0] is ParseFailure <==> json_parse(raw_payload) is Err,
{
}

/// The first entry of the log of a payload that is JSON is what the
/// pretty-printer makes of the document that was read: its indented text
/// behind the heading, character for character.
pub proof fn lemma_formatted_first(raw_payload: Seq<char>, document: JsonModel)
    requires
        json_parse(raw_payload) == Ok::<JsonModel, Seq<char>>(document),
    ensures
        relay_log(json_parse(raw_payload))[0] == formatted_line(json_pretty(document)),
        json_pretty(document) matches Ok(block) ==> relay_log(json_parse(raw_payload))[0].text()
            == "Formatted Request:\n"@ + block,
{
}

/// A payload that is not JSON leaves exactly one entry, the parser's message;
/// it is not summarized and nothing is handed to the primary surface.
pub proof fn lemma_malformed_dropped(raw_payload: Seq<char>, reason: Seq<char>)
    requires
        json_parse(raw_payload) == Err::<JsonModel, Seq<char>>(reason),
    ensures
        relay_log(json_parse(raw_payload)) == seq![LogLine::ParseFailure(reason)],
        relay_log(json_parse(raw_payload))[0].text() == "Gagal parse payload: "@ + reason,
        relay_republish(json_parse(raw_payload)) is None,
{
}

/// A payload whose document has both a `url` and a `method` member is
/// summarized exactly once, and the summary holds the compact text of both
/// members unchanged.
pub proof fn lemma_summary_once(
    raw_payload: Seq<char>,
    document: JsonModel,
    url: JsonModel,
    method: JsonModel,
)
    requires
        json_parse(raw_payload) == Ok::<JsonModel, Seq<char>>(document),
        document.member("url"@) == Some(url),
        document.member("method"@) == Some(method),
    ensures
        relay_log(json_parse(raw_payload)).len() == 2,
        !(relay_log(json_parse(raw_payload))[0] is Summary),
        relay_log(json_parse(raw_payload))[1] == (LogLine::Summary {
            url: json_compact(url),
            method: json_compact(method),
        }),
        relay_log(json_parse(raw_payload))[1].text() == "URL: "@ + json_compact(url)
            + ", Method: "@ + json_compact(method),
{
}

/// A payload whose document lacks a `url` or a `method` member is not
/// summarized; it is still formatted and still handed to the primary
/// surface.
pub proof fn lemma_no_summary(raw_payload: Seq<char>, document: JsonModel)
    requires
        json_parse(raw_payload) == Ok::<JsonModel, Seq<char>>(document),
        document.member("url"@) is None || document.member("method"@) is None,
    ensures
        relay_log(json_parse(raw_payload)) == seq![formatted_line(json_pretty(document))],
        !(relay_log(json_parse(raw_payload))[0] is Summary),
        relay_republish(json_parse(raw_payload)) == Some(document),
{
}

} // verus!
