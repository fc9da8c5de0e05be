use almond_client::codec::{encode_command, encode_thingtalk};
use almond_client::errors::{AlmondError, ProtocolViolation};
use almond_client::input::{classify_line, InputClass};
use almond_client::textcmp::str_eq;

#[test]
fn thingtalk_wire_message() {
    let frame = encode_thingtalk("now => notify");
    assert_eq!(frame, "{\"type\":\"tt\",\"code\":\"now => notify\"}".to_string());
}

#[test]
fn command_wire_message() {
    let frame = encode_command("hello");
    assert_eq!(frame, "{\"type\":\"command\",\"text\":\"hello\"}".to_string());
}

#[test]
fn wire_encoding_escapes() {
    let frame = encode_command("he\"llo\\");
    assert_eq!(frame, "{\"type\":\"command\",\"text\":\"he\\\"llo\\\\\"}".to_string());
}

#[test]
fn empty_text_encoded() {
    let frame = encode_thingtalk("");
    assert_eq!(frame, "{\"type\":\"tt\",\"code\":\"\"}".to_string());
}

#[test]
fn classify_query_line() {
    let r = classify_line("\t now => notify");
    assert!(matches!(r, InputClass::Query(q) if q == "now => notify"));
}

#[test]
fn classify_command_line_verbatim() {
    let r = classify_line(" hello there ");
    assert!(matches!(r, InputClass::Command(c) if c == " hello there "));
}

#[test]
fn classify_blank_lines() {
    assert!(matches!(classify_line(""), InputClass::Empty));
    assert!(matches!(classify_line("  \t "), InputClass::Empty));
}

#[test]
fn describe_protocol_error() {
    let e = AlmondError::ProtocolError(ProtocolViolation::InvalidTextMessage);
    assert_eq!(e.describe(), "protocol error: invalid text message".to_string());
}

#[test]
fn protocol_violation_messages() {
    assert_eq!(ProtocolViolation::MissingType.message(), "missing message type");
    assert_eq!(ProtocolViolation::MissingConversationId.message(), "missing conversation id");
    assert_eq!(
        ProtocolViolation::InvalidAskSpecialWhat.message(),
        "invalid ask_special what field"
    );
    assert_eq!(ProtocolViolation::InvalidMessageId.message(), "invalid message id");
    assert_eq!(ProtocolViolation::InvalidTextMessage.message(), "invalid text message");
    assert_eq!(ProtocolViolation::InvalidCommandMessage.message(), "invalid command message");
}

#[test]
fn describe_json_error() {
    let bad: Result<serde_json::Value, serde_json::Error> = serde_json::from_str("nope");
    let e = AlmondError::from(bad.unwrap_err());
    let text = e.describe();
    assert!(text.starts_with("json/protocol error: "));
}

#[test]
fn str_eq_cases() {
    assert!(str_eq("askSpecial", "askSpecial"));
    assert!(!str_eq("text", "command"));
    assert!(!str_eq("text", "tex"));
    assert!(str_eq("", ""));
}
