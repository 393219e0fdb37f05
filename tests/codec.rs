use chatatui::codec::{decode, encode};
use chatatui::envelope::{APIMessage, Message, UserStatus, WSMessage};

const ID: u128 = 0x550e8400_e29b_41d4_a716_446655440000;
const USER: u128 = 0x00000000_0000_0000_0000_0000000000ff;

fn line(content: &str) -> WSMessage {
    WSMessage::UserMessage(Message::new(ID, "2024-01-02T03:04:05Z", USER, content).unwrap())
}

#[test]
fn close_is_the_bare_tag() {
    assert_eq!(encode(&WSMessage::Close), "\"Close\"");
    assert_eq!(decode("\"Close\""), Some(WSMessage::Close));
}

#[test]
fn status_is_tagged_object() {
    let e = WSMessage::APIStatus(APIMessage { status: UserStatus::Offline });
    assert_eq!(encode(&e), "{\"APIStatus\":{\"status\":\"Offline\"}}");
    for st in [UserStatus::Online, UserStatus::Offline, UserStatus::Away] {
        let e = WSMessage::APIStatus(APIMessage { status: st });
        assert_eq!(decode(&encode(&e)), Some(e));
    }
}

#[test]
fn error_text_is_escaped() {
    let e = WSMessage::Error("say \"hi\"\n".to_string());
    assert_eq!(encode(&e), "{\"Error\":\"say \\\"hi\\\"\\n\"}");
    assert_eq!(decode(&encode(&e)), Some(e));
}

#[test]
fn user_message_wire_text() {
    assert_eq!(
        encode(&line("hi")),
        "{\"UserMessage\":{\"id\":\"550e8400-e29b-41d4-a716-446655440000\",\
         \"time_stamp\":\"2024-01-02T03:04:05Z\",\
         \"user_id\":\"00000000-0000-0000-0000-0000000000ff\",\"content\":\"hi\"}}"
    );
}

#[test]
fn every_variant_round_trips() {
    let all = vec![
        WSMessage::Close,
        WSMessage::Error(String::new()),
        WSMessage::Error("é ✓ \\ \"".to_string()),
        WSMessage::APIStatus(APIMessage { status: UserStatus::Away }),
        line(""),
        line("hi"),
        line("{\"Error\":\"x\"}}"),
    ];
    for e in all {
        assert_eq!(decode(&encode(&e)), Some(e));
    }
}

#[test]
fn malformed_text_is_rejected() {
    assert_eq!(decode(""), None);
    assert_eq!(decode("Close"), None);
    assert_eq!(decode("{\"Error\":5}"), None);
    assert_eq!(decode("{\"APIStatus\":{\"status\":\"Busy\"}}"), None);
    let good = encode(&line("hi"));
    assert_eq!(decode(&good[..good.len() - 1]), None);
    assert_eq!(decode(&good.replace("550e8400", "zz0e8400")), None);
    assert_eq!(decode(&good.replace("2024-01-02", "yesterday")), None);
}

#[test]
fn time_stamp_must_be_rfc3339() {
    assert!(Message::new(ID, "2024-01-02T03:04:05+02:00", USER, "x").is_some());
    assert!(Message::new(ID, "2024-01-02", USER, "x").is_none());
    assert!(Message::new(ID, "", USER, "x").is_none());
}
