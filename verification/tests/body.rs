use chat_gateway::body::chat_request_body;

#[test]
fn plain_body_has_exactly_two_members() {
    let body = chat_request_body("hello", "abc");
    assert_eq!(body, "{\"message\":\"hello\",\"session_id\":\"abc\"}");
}

#[test]
fn empty_message_and_session() {
    let body = chat_request_body("", "");
    assert_eq!(body, "{\"message\":\"\",\"session_id\":\"\"}");
}

#[test]
fn quotes_and_backslashes_are_escaped() {
    let body = chat_request_body("a\"b\\c", "s");
    assert_eq!(body, "{\"message\":\"a\\\"b\\\\c\",\"session_id\":\"s\"}");
}

#[test]
fn named_control_escapes() {
    let body = chat_request_body("\u{8}\t\n\u{c}\r", "s");
    assert_eq!(body, "{\"message\":\"\\b\\t\\n\\f\\r\",\"session_id\":\"s\"}");
}

#[test]
fn other_control_characters_use_hex_escapes() {
    let body = chat_request_body("\u{1}x\u{1f}", "s");
    assert_eq!(body, "{\"message\":\"\\u0001x\\u001f\",\"session_id\":\"s\"}");
}

#[test]
fn session_id_is_escaped_too() {
    let body = chat_request_body("m", "a\"b");
    assert_eq!(body, "{\"message\":\"m\",\"session_id\":\"a\\\"b\"}");
}

#[test]
fn non_ascii_passes_through_unescaped() {
    let body = chat_request_body("caf\u{e9} \u{2603}", "s");
    assert_eq!(body, "{\"message\":\"caf\u{e9} \u{2603}\",\"session_id\":\"s\"}");
}
