use codex_session_kit::remote_control::preview::{
    cut_text, preview_remote_control_response_body, preview_text,
    redact_field, redact_remote_control_response_body, REMOTE_CONTROL_RESPONSE_BODY_MAX_BYTES,
};
use serde_json::Value;

fn object(fields: &[(&str, &str)]) -> Value {
    let mut map = serde_json::Map::new();
    for (key, value) in fields {
        map.insert(key.to_string(), Value::String(value.to_string()));
    }
    Value::Object(map)
}

#[test]
fn preview_remote_control_response_body_redacts_server_token() {
    assert_eq!(
        serde_json::from_str::<Value>(&preview_remote_control_response_body(
            br#"{"server_id":"srv_e_test","remote_control_token":"secret","pairing_code":"pairing-code","manual_pairing_code":"ABCD-EFGH"}"#
        ))
        .expect("redacted response preview should stay valid json"),
        object(&[
            ("server_id", "srv_e_test"),
            ("remote_control_token", "<redacted>"),
            ("pairing_code", "<redacted>"),
            ("manual_pairing_code", "<redacted>"),
        ])
    );
}

#[test]
fn blank_bodies_are_named() {
    assert_eq!(preview_remote_control_response_body(b""), "<empty>");
    assert_eq!(preview_remote_control_response_body(b" \r\n\t"), "<empty>");
}

#[test]
fn bodies_that_are_no_json_object_are_shown_as_they_are() {
    assert_eq!(preview_remote_control_response_body(b"  not json \n"), "not json");
    assert_eq!(
        preview_remote_control_response_body(b"[ \"pairing_code\" ]"),
        "[ \"pairing_code\" ]"
    );
    assert_eq!(preview_remote_control_response_body(b"\"x\""), "\"x\"");
}

#[test]
fn other_fields_are_shown_in_compact_form() {
    assert_eq!(
        redact_remote_control_response_body("{ \"b\" : [1, 2], \"a\" : { \"pairing_code\" : 1 } }"),
        "{\"a\":{\"pairing_code\":1},\"b\":[1,2]}"
    );
    assert_eq!(
        redact_remote_control_response_body("{\"pairing_code\":{\"deep\":[1]},\"c\":null}"),
        "{\"c\":null,\"pairing_code\":\"<redacted>\"}"
    );
}

#[test]
fn strings_are_written_with_escapes() {
    assert_eq!(
        redact_remote_control_response_body(
            "{\"a\\u0001\\\"b\" : \"\\t\\u007f\\/\\\\\\u00e4\", \"pairing_code\":1, \"n\":-7}"
        ),
        "{\"a\\u0001\\\"b\":\"\\t\u{7f}/\\\\\u{e4}\",\"n\":-7,\"pairing_code\":\"<redacted>\"}"
    );
}

#[test]
fn a_redacted_flat_object_reads_back() {
    let body = "{\"pairing_code\":[1.5],\"n\":18446744073709551615,\"t\":true,\"z\":null,\"s\":\"\\n\"}";
    let mut expected: Value = serde_json::from_str(body).expect("body should parse");
    expected["pairing_code"] = Value::String("<redacted>".to_string());
    assert_eq!(
        serde_json::from_str::<Value>(&redact_remote_control_response_body(body))
            .expect("redacted body should parse"),
        expected
    );
}

#[test]
fn a_redacted_nested_object_reads_back() {
    let deep = |n: usize| format!("{{\"d\":{}{},\"pairing_code\":1}}", "[".repeat(n), "]".repeat(n));
    let read = |text: &str| serde_json::from_str::<Value>(text);
    for body in [
        "{\"pairing_code\":1,\"a\":{\"b\":[1,-2,{\"c\":null,\"$d\":[]}],\"e\":{}},\"f\":\"[1.5\",\"g\":[1.5,-0.25]}".to_string(),
        deep(126),
    ] {
        let mut expected = read(&body).expect("body should parse");
        expected["pairing_code"] = Value::String("<redacted>".to_string());
        let shown = redact_remote_control_response_body(&body);
        assert_eq!(read(&shown).expect("redacted body should parse"), expected);
        assert_eq!(redact_remote_control_response_body(&shown), shown);
    }
    assert!(read(&deep(127)).is_err());
    assert_eq!(redact_remote_control_response_body(&deep(127)), deep(127));
}

#[test]
fn the_preview_tells_nothing_of_sensitive_values() {
    let one = preview_text("{\"a\":1,\"remote_control_token\":\"one\"}");
    let other = preview_text(" {\"remote_control_token\":[\"other\"], \"a\":1}");
    assert_eq!(one, other);
}

#[test]
fn redacting_twice_changes_nothing_more() {
    let once = redact_remote_control_response_body("{\"pairing_code\":\"p\",\"x\":\"y\"}");
    assert_eq!(redact_remote_control_response_body(&once), once);
}

#[test]
fn bytes_that_are_not_utf8_are_replaced() {
    assert_eq!(
        preview_remote_control_response_body(b"a\xffb"),
        "a\u{fffd}b"
    );
}

#[test]
fn long_bodies_are_cut_between_characters() {
    let max = REMOTE_CONTROL_RESPONSE_BODY_MAX_BYTES;
    let fits = "x".repeat(max);
    assert_eq!(preview_remote_control_response_body(fits.as_bytes()), fits);

    let long = "x".repeat(max + 1);
    assert_eq!(
        preview_remote_control_response_body(long.as_bytes()),
        format!("{fits}...")
    );

    // A character of two bytes would end one byte past the limit.
    let wide = format!("{}\u{e4}\u{e4}", "x".repeat(max - 1));
    assert_eq!(
        preview_remote_control_response_body(wide.as_bytes()),
        format!("{}...", "x".repeat(max - 1))
    );
}

#[test]
fn cutting_counts_bytes() {
    assert_eq!(cut_text("abc", 3), "abc");
    assert_eq!(cut_text("abc", 2), "ab...");
    assert_eq!(cut_text("\u{1f600}\u{1f600}", 7), "\u{1f600}...");
    assert_eq!(cut_text("\u{20ac}", 2), "...");
}

#[test]
fn one_field_is_redacted() {
    let mut document = object(&[("a", "1"), ("b", "2")]);
    redact_field(&mut document, "b");
    assert_eq!(document, object(&[("a", "1"), ("b", "<redacted>")]));
    redact_field(&mut document, "c");
    assert_eq!(document, object(&[("a", "1"), ("b", "<redacted>")]));
    let mut text = Value::from("b");
    redact_field(&mut text, "b");
    assert_eq!(text, Value::from("b"));
}
