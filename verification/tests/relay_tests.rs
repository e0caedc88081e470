use request_relay::json::format_json;
use request_relay::relay::{
    compose_log, on_event, relay_value, republish_report, LogEntry, RepublishOutcome,
    CAPTURE_CHANNEL, PRIMARY_SURFACE, REPUBLISH_CHANNEL,
};
use serde_json::Value;

fn text(s: &str) -> String {
    s.to_string()
}

#[test]
fn format_json_indents_an_object() {
    let formatted = format_json("{\"a\":1,\"b\":[true,null]}").unwrap();
    assert_eq!(formatted, "{\n  \"a\": 1,\n  \"b\": [\n    true,\n    null\n  ]\n}");
}

#[test]
fn format_json_keeps_scalars() {
    assert_eq!(format_json("  42 ").unwrap(), "42");
    assert_eq!(format_json("\"hi\"").unwrap(), "\"hi\"");
    assert_eq!(format_json("null").unwrap(), "null");
    assert_eq!(format_json("[]").unwrap(), "[]");
    assert_eq!(format_json("{}").unwrap(), "{}");
}

#[test]
fn format_json_reports_the_parser_message() {
    assert_eq!(format_json("not json").unwrap_err(), "expected ident at line 1 column 2");
    assert_eq!(format_json("").unwrap_err(), "EOF while parsing a value at line 1 column 0");
    assert_eq!(
        format_json("{\"a\":").unwrap_err(),
        "EOF while parsing a value at line 1 column 5"
    );
}

#[test]
fn format_json_agrees_with_the_pretty_printer() {
    let raw = "{\"method\":\"GET\",\"headers\":{\"accept\":\"*/*\"},\"body\":null}";
    let parsed: Value = serde_json::from_str(raw).unwrap();
    assert_eq!(format_json(raw).unwrap(), serde_json::to_string_pretty(&parsed).unwrap());
}

#[test]
fn well_formed_payload_is_logged_pretty() {
    let raw = "{\"body\":null,\"headers\":{\"accept\":\"*/*\"},\"timestamp\":1700000000000}";
    let parsed: Value = serde_json::from_str(raw).unwrap();
    let record = on_event(raw);
    assert_eq!(
        record.log,
        vec![LogEntry::Formatted(serde_json::to_string_pretty(&parsed).unwrap())]
    );
    assert_eq!(
        record.log[0].render(),
        "Formatted Request:\n{\n  \"body\": null,\n  \"headers\": {\n    \"accept\": \"*/*\"\n  },\n  \"timestamp\": 1700000000000\n}"
    );
    assert_eq!(record.republish, Some(parsed));
}

#[test]
fn malformed_payload_leaves_one_failure_line() {
    let record = on_event("<html>");
    assert_eq!(
        record.log,
        vec![LogEntry::ParseFailure(text("expected value at line 1 column 1"))]
    );
    assert_eq!(
        record.log[0].render(),
        "Gagal parse payload: expected value at line 1 column 1"
    );
    assert_eq!(record.republish, None);
}

#[test]
fn empty_payload_is_malformed() {
    let record = on_event("");
    assert_eq!(record.log.len(), 1);
    assert_eq!(
        record.log,
        vec![LogEntry::ParseFailure(text("EOF while parsing a value at line 1 column 0"))]
    );
    assert_eq!(record.republish, None);
}

#[test]
fn relay_goes_on_after_a_malformed_payload() {
    let first = on_event("{");
    assert_eq!(first.republish, None);
    let second = on_event("{\"url\":\"https://example.com/\",\"method\":\"GET\"}");
    assert_eq!(second.log.len(), 2);
    assert!(second.republish.is_some());
}

#[test]
fn url_and_method_are_summarized_once() {
    let raw = "{\"method\":\"POST\",\"url\":\"https://example.com/api?q=1\",\"body\":\"x\"}";
    let record = on_event(raw);
    assert_eq!(record.log.len(), 2);
    assert!(matches!(record.log[0], LogEntry::Formatted(_)));
    assert_eq!(
        record.log[1],
        LogEntry::Summary {
            url: text("\"https://example.com/api?q=1\""),
            method: text("\"POST\""),
        }
    );
    assert_eq!(
        record.log[1].render(),
        "URL: \"https://example.com/api?q=1\", Method: \"POST\""
    );
    let summaries =
        record.log.iter().filter(|entry| matches!(entry, LogEntry::Summary { .. })).count();
    assert_eq!(summaries, 1);
}

#[test]
fn summary_takes_members_of_any_kind() {
    let record = on_event("{\"url\":5,\"method\":null}");
    assert_eq!(record.log[1], LogEntry::Summary { url: text("5"), method: text("null") });
    let record = on_event("{\"url\":{\"a\":[1,2]},\"method\":\"a\\\"b\"}");
    assert_eq!(
        record.log[1],
        LogEntry::Summary { url: text("{\"a\":[1,2]}"), method: text("\"a\\\"b\"") }
    );
}

#[test]
fn missing_method_means_no_summary() {
    let raw = "{\"url\":\"https://example.com/\"}";
    let record = on_event(raw);
    assert_eq!(record.log, vec![LogEntry::Formatted(text("{\n  \"url\": \"https://example.com/\"\n}"))]);
    assert_eq!(record.republish, Some(serde_json::from_str::<Value>(raw).unwrap()));
}

#[test]
fn missing_url_means_no_summary() {
    let raw = "{\"method\":\"GET\"}";
    let record = on_event(raw);
    assert_eq!(record.log.len(), 1);
    assert!(matches!(record.log[0], LogEntry::Formatted(_)));
    assert_eq!(record.republish, Some(serde_json::from_str::<Value>(raw).unwrap()));
}

#[test]
fn nested_members_do_not_count() {
    let record = on_event("{\"request\":{\"url\":\"u\",\"method\":\"GET\"}}");
    assert_eq!(record.log.len(), 1);
    assert!(record.republish.is_some());
}

#[test]
fn documents_that_are_no_objects_are_republished_unsummarized() {
    for raw in ["[\"url\",\"method\"]", "\"url method\"", "17", "true", "null"] {
        let record = on_event(raw);
        assert_eq!(record.log.len(), 1);
        assert!(matches!(record.log[0], LogEntry::Formatted(_)));
        assert_eq!(record.republish, Some(serde_json::from_str::<Value>(raw).unwrap()));
    }
}

#[test]
fn relay_value_hands_the_value_on() {
    let value: Value = serde_json::from_str("{\"method\":\"PUT\",\"url\":\"/x\"}").unwrap();
    let record = relay_value(value.clone());
    assert_eq!(
        record.log,
        vec![
            LogEntry::Formatted(text("{\n  \"method\": \"PUT\",\n  \"url\": \"/x\"\n}")),
            LogEntry::Summary { url: text("\"/x\""), method: text("\"PUT\"") },
        ]
    );
    assert_eq!(record.republish, Some(value));
}

#[test]
fn compose_log_with_both_members() {
    let log = compose_log(Ok(text("{}")), Some(text("\"u\"")), Some(text("\"GET\"")));
    assert_eq!(
        log,
        vec![
            LogEntry::Formatted(text("{}")),
            LogEntry::Summary { url: text("\"u\""), method: text("\"GET\"") },
        ]
    );
}

#[test]
fn compose_log_without_one_member() {
    assert_eq!(
        compose_log(Ok(text("{}")), Some(text("\"u\"")), None),
        vec![LogEntry::Formatted(text("{}"))]
    );
    assert_eq!(
        compose_log(Ok(text("{}")), None, Some(text("\"GET\""))),
        vec![LogEntry::Formatted(text("{}"))]
    );
    assert_eq!(compose_log(Ok(text("[]")), None, None), vec![LogEntry::Formatted(text("[]"))]);
}

#[test]
fn compose_log_with_a_formatting_failure() {
    assert_eq!(
        compose_log(Err(text("boom")), Some(text("1")), Some(text("2"))),
        vec![
            LogEntry::FormatFailure(text("boom")),
            LogEntry::Summary { url: text("1"), method: text("2") },
        ]
    );
}

#[test]
fn every_entry_renders_behind_its_heading() {
    assert_eq!(LogEntry::Formatted(text("[]")).render(), "Formatted Request:\n[]");
    assert_eq!(LogEntry::FormatFailure(text("why")).render(), "Failed to format JSON: why");
    assert_eq!(LogEntry::ParseFailure(text("why")).render(), "Gagal parse payload: why");
    assert_eq!(
        LogEntry::Summary { url: text("a"), method: text("b") }.render(),
        "URL: a, Method: b"
    );
    assert_eq!(
        LogEntry::RepublishFailure(text("why")).render(),
        "Failed to republish request: why"
    );
}

#[test]
fn delivered_request_leaves_no_entry() {
    assert_eq!(republish_report(RepublishOutcome::Delivered), vec![]);
}

#[test]
fn missing_surface_is_logged() {
    let log = republish_report(RepublishOutcome::SurfaceMissing);
    assert_eq!(log, vec![LogEntry::RepublishFailure(text("the primary surface is not available"))]);
    assert_eq!(
        log[0].render(),
        "Failed to republish request: the primary surface is not available"
    );
}

#[test]
fn rejected_request_is_logged_with_its_reason() {
    assert_eq!(
        republish_report(RepublishOutcome::Rejected(text("channel closed"))),
        vec![LogEntry::RepublishFailure(text("channel closed"))]
    );
}

#[test]
fn channel_names() {
    assert_eq!(CAPTURE_CHANNEL, "http-request");
    assert_eq!(REPUBLISH_CHANNEL, "http-request-rust");
    assert_eq!(PRIMARY_SURFACE, "main");
}
