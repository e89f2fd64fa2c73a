use collab_quotes::page::screenshot_name;
use collab_quotes::protocol::{
    encode_extract_request, EchoAction, EchoEvent, EchoSession, ExtractReq, ProcAction, ProcEvent,
    ProcSession, TypeOperation,
};

fn request(id: u64) -> ProcEvent {
    ProcEvent::Request(ExtractReq { collab: "Okland".to_string(), message_id: id, type__: TypeOperation::ExtractSimple })
}

#[test]
fn extraction_session_answers_until_close() {
    let mut session = ProcSession::new();
    assert!(matches!(session.handle(request(1)), ProcAction::ExtractText { message_id: 1, .. }));
    assert!(session.after_answer(false));
    assert!(matches!(session.handle(ProcEvent::Other), ProcAction::Ignore));
    assert!(matches!(session.handle(ProcEvent::Malformed("eof".to_string())), ProcAction::Reply(_)));
    assert!(matches!(session.handle(request(2)), ProcAction::ExtractText { message_id: 2, .. }));
    assert!(!session.is_stopped());
    assert!(matches!(session.handle(ProcEvent::Close), ProcAction::Stop));
    assert!(session.is_stopped());
    assert!(matches!(session.handle(request(3)), ProcAction::Stop));
    assert!(!session.after_answer(true));
}

#[test]
fn extraction_session_stops_at_end_of_stream() {
    let mut session = ProcSession::new();
    assert!(matches!(session.handle(ProcEvent::Ended), ProcAction::Stop));
    assert!(matches!(session.handle(request(4)), ProcAction::Stop));
}

#[test]
fn echo_session_stops_after_failed_send() {
    let mut session = EchoSession::new();
    match session.handle(EchoEvent::Text("Okland".to_string())) {
        EchoAction::OpenAndEcho { chat, reply } => {
            assert_eq!(chat, "Okland");
            assert_eq!(reply, "ECHO:: Okland");
        }
        _ => panic!("expected an echo"),
    }
    session.echo_sent(true);
    assert!(!session.is_stopped());
    assert!(matches!(session.handle(EchoEvent::Other), EchoAction::Ignore));
    session.echo_sent(false);
    assert!(session.is_stopped());
    assert!(matches!(session.handle(EchoEvent::Text("x".to_string())), EchoAction::Stop));
}

#[test]
fn echo_session_stops_at_end_of_stream() {
    let mut session = EchoSession::new();
    assert!(matches!(session.handle(EchoEvent::Ended), EchoAction::Stop));
    assert!(session.is_stopped());
}

#[test]
fn request_escapes_control_characters() {
    let chat = "a\u{1}\u{8}\u{c}\n\r\t\\\"é\u{7f}";
    let text = encode_extract_request(chat, 7, TypeOperation::ExtractSimple).ok().unwrap();
    let mut map = serde_json::Map::new();
    map.insert("collab".to_string(), serde_json::Value::String(chat.to_string()));
    map.insert("message_id".to_string(), serde_json::Value::from(7u64));
    map.insert("type__".to_string(), serde_json::Value::String("ExtractSimple".to_string()));
    assert_eq!(text, serde_json::to_string(&serde_json::Value::Object(map)).unwrap());
    assert!(text.starts_with("{\"collab\":\"a\\u0001\\b\\f\\n\\r\\t\\\\\\\"é\u{7f}\""));
}

#[test]
fn screenshot_stamp_is_digits() {
    let name = screenshot_name("page");
    let stamp = &name["page_".len()..name.len() - ".png".len()];
    let bytes = stamp.as_bytes();
    assert_eq!(bytes.len(), 15);
    assert_eq!(bytes[8], b'_');
    for (i, b) in bytes.iter().enumerate() {
        if i != 8 {
            assert!(b.is_ascii_digit());
        }
    }
}
