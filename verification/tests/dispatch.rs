use almond_client::client::{AlmondClient, MessageHandler};
use almond_client::errors::{AlmondError, ProtocolViolation};
use almond_client::msg::{FieldVal, RawMsg};

struct Recorder {
    events: Vec<String>,
}

impl Recorder {
    fn new() -> Recorder {
        Recorder { events: Vec::new() }
    }
}

impl MessageHandler for Recorder {
    fn on_new_text_message(&mut self, msg: &str) {
        self.events.push(format!("text:{}", msg));
    }

    fn on_new_command(&mut self, msg: &str) {
        self.events.push(format!("command:{}", msg));
    }

    fn set_expected(&mut self, expected: Option<&str>) {
        match expected {
            Some(kind) => self.events.push(format!("expect:{}", kind)),
            None => self.events.push("expect-clear".to_string()),
        }
    }
}

fn text_msg(id: i64, text: &str) -> RawMsg {
    RawMsg {
        type_field: FieldVal::Str("text".to_string()),
        id_field: FieldVal::Int(id),
        what_field: FieldVal::Null,
        text_field: FieldVal::Str(text.to_string()),
        command_field: FieldVal::Null,
    }
}

fn ask_special(what: FieldVal) -> RawMsg {
    RawMsg {
        type_field: FieldVal::Str("askSpecial".to_string()),
        id_field: FieldVal::Null,
        what_field: what,
        text_field: FieldVal::Null,
        command_field: FieldVal::Null,
    }
}

#[test]
fn new_client_initial_state() {
    let client = AlmondClient::new(Recorder::new());
    assert!(client.conversation_id.is_none());
    assert_eq!(client.last_message_id, -1);
    assert!(!client.closed);
    assert!(client.handler.events.is_empty());
}

#[test]
fn ordered_ids_deduplicated() {
    let mut client = AlmondClient::new(Recorder::new());
    let ids = [5, 3, 5, 6];
    let texts = ["a", "b", "c", "d"];
    for k in 0..4 {
        let r = client.handle_decoded(&text_msg(ids[k], texts[k]));
        assert!(r.is_ok());
    }
    assert_eq!(client.handler.events, vec!["text:a".to_string(), "text:d".to_string()]);
    assert_eq!(client.last_message_id, 6);
}

#[test]
fn resend_and_stale_ids_dropped() {
    let mut client = AlmondClient::new(Recorder::new());
    let ids = [2, 1, 2, 9, 9, 3, 10];
    for id in ids {
        let r = client.handle_decoded(&text_msg(id, &format!("m{}", id)));
        assert!(r.is_ok());
    }
    assert_eq!(
        client.handler.events,
        vec!["text:m2".to_string(), "text:m9".to_string(), "text:m10".to_string()]
    );
    assert_eq!(client.last_message_id, 10);
}

#[test]
fn ask_special_sequence() {
    let mut client = AlmondClient::new(Recorder::new());
    assert!(client.handle_decoded(&ask_special(FieldVal::Null)).is_ok());
    assert!(client.handle_decoded(&ask_special(FieldVal::Str("yesno".to_string()))).is_ok());
    assert_eq!(
        client.handler.events,
        vec!["expect-clear".to_string(), "expect:yesno".to_string()]
    );
    // an identically repeated askSpecial is delivered again, never deduplicated
    assert!(client.handle_decoded(&ask_special(FieldVal::Str("yesno".to_string()))).is_ok());
    assert_eq!(client.handler.events.len(), 3);
    assert_eq!(client.handler.events[2], "expect:yesno".to_string());
}

#[test]
fn ask_special_wrong_type_is_fatal() {
    let mut client = AlmondClient::new(Recorder::new());
    let r = client.handle_decoded(&ask_special(FieldVal::Int(3)));
    assert!(matches!(
        r,
        Err(AlmondError::ProtocolError(ProtocolViolation::InvalidAskSpecialWhat))
    ));
    assert!(client.handler.events.is_empty());
}

#[test]
fn conversation_id_captured() {
    let mut client = AlmondClient::new(Recorder::new());
    let r = client.handle_server_message("{\"type\":\"id\",\"id\":\"conv-42\"}");
    assert!(r.is_ok());
    assert_eq!(client.conversation_id, Some("conv-42".to_string()));
    // a later identity assignment overwrites: no dedup on this field
    let r2 = client.handle_server_message("{\"type\":\"id\",\"id\":\"conv-43\"}");
    assert!(r2.is_ok());
    assert_eq!(client.conversation_id, Some("conv-43".to_string()));
    assert!(client.handler.events.is_empty());
}

#[test]
fn conversation_id_must_be_string() {
    let mut client = AlmondClient::new(Recorder::new());
    let r = client.handle_server_message("{\"type\":\"id\",\"id\":7}");
    assert!(matches!(
        r,
        Err(AlmondError::ProtocolError(ProtocolViolation::MissingConversationId))
    ));
    assert!(client.conversation_id.is_none());
}

#[test]
fn unknown_type_advances_watermark() {
    let mut client = AlmondClient::new(Recorder::new());
    let r = client.handle_server_message("{\"type\":\"banana\",\"id\":10}");
    assert!(r.is_ok());
    assert_eq!(client.last_message_id, 10);
    assert!(client.handler.events.is_empty());
    // an ordered text event at the same id is now a duplicate
    let r2 = client.handle_server_message("{\"type\":\"text\",\"id\":10,\"text\":\"late\"}");
    assert!(r2.is_ok());
    assert!(client.handler.events.is_empty());
    // but a fresh one is delivered
    let r3 = client.handle_server_message("{\"type\":\"text\",\"id\":11,\"text\":\"fresh\"}");
    assert!(r3.is_ok());
    assert_eq!(client.handler.events, vec!["text:fresh".to_string()]);
}

#[test]
fn missing_text_field_is_fatal() {
    let mut client = AlmondClient::new(Recorder::new());
    let r = client.handle_server_message("{\"type\":\"text\",\"id\":7}");
    assert!(matches!(
        r,
        Err(AlmondError::ProtocolError(ProtocolViolation::InvalidTextMessage))
    ));
    assert!(client.handler.events.is_empty());
    // the watermark had already advanced when the payload was found malformed
    assert_eq!(client.last_message_id, 7);
}

#[test]
fn missing_command_field_is_fatal() {
    let mut client = AlmondClient::new(Recorder::new());
    let msg = RawMsg {
        type_field: FieldVal::Str("command".to_string()),
        id_field: FieldVal::Int(8),
        what_field: FieldVal::Null,
        text_field: FieldVal::Null,
        command_field: FieldVal::Null,
    };
    let r = client.handle_decoded(&msg);
    assert!(matches!(
        r,
        Err(AlmondError::ProtocolError(ProtocolViolation::InvalidCommandMessage))
    ));
}

#[test]
fn command_event_delivered() {
    let mut client = AlmondClient::new(Recorder::new());
    let r = client.handle_server_message("{\"type\":\"command\",\"id\":1,\"command\":\"\\\\r hi\"}");
    assert!(r.is_ok());
    assert_eq!(client.handler.events, vec!["command:\\r hi".to_string()]);
}

#[test]
fn missing_type_is_fatal() {
    let mut client = AlmondClient::new(Recorder::new());
    let r = client.handle_server_message("{\"id\":3}");
    assert!(matches!(
        r,
        Err(AlmondError::ProtocolError(ProtocolViolation::MissingType))
    ));
}

#[test]
fn missing_id_is_fatal() {
    let mut client = AlmondClient::new(Recorder::new());
    let r = client.handle_server_message("{\"type\":\"text\",\"text\":\"x\"}");
    assert!(matches!(
        r,
        Err(AlmondError::ProtocolError(ProtocolViolation::InvalidMessageId))
    ));
    assert_eq!(client.last_message_id, -1);
}

#[test]
fn non_integer_id_is_fatal() {
    let mut client = AlmondClient::new(Recorder::new());
    // a number that does not fit in an i64 is not a valid ordered-event id
    let r = client.handle_server_message("{\"type\":\"text\",\"id\":18446744073709551615,\"text\":\"x\"}");
    assert!(matches!(
        r,
        Err(AlmondError::ProtocolError(ProtocolViolation::InvalidMessageId))
    ));
}

#[test]
fn malformed_json_is_fatal() {
    let mut client = AlmondClient::new(Recorder::new());
    let r = client.handle_server_message("this is not json");
    assert!(matches!(r, Err(AlmondError::JSONError(_))));
    assert_eq!(client.last_message_id, -1);
    assert!(client.conversation_id.is_none());
    assert!(client.handler.events.is_empty());
}

#[test]
fn non_object_payload_is_fatal() {
    let mut client = AlmondClient::new(Recorder::new());
    let r = client.handle_server_message("[1,2,3]");
    assert!(matches!(
        r,
        Err(AlmondError::ProtocolError(ProtocolViolation::MissingType))
    ));
}

#[test]
fn close_twice_is_benign() {
    let mut client = AlmondClient::new(Recorder::new());
    let first = client.close();
    assert!(first);
    assert!(client.closed);
    let second = client.close();
    assert!(!second);
    assert!(client.closed);
}

#[test]
fn large_fresh_id_delivered() {
    let mut client = AlmondClient::new(Recorder::new());
    let r = client.handle_decoded(&text_msg(i64::MAX, "edge"));
    assert!(r.is_ok());
    assert_eq!(client.handler.events, vec!["text:edge".to_string()]);
    assert_eq!(client.last_message_id, i64::MAX);
}
