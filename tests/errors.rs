use chatatui::errors::{AuthToken, ChatroomError, TUIError};

#[test]
fn status_codes_map_to_errors() {
    assert_eq!(ChatroomError::from_status(400), ChatroomError::InvalidData);
    assert_eq!(ChatroomError::from_status(401), ChatroomError::Unauthorized);
    assert_eq!(ChatroomError::from_status(500), ChatroomError::DatabaseError);
    assert_eq!(ChatroomError::from_status(404), ChatroomError::Unknown);
    assert_eq!(ChatroomError::from_status(200), ChatroomError::Unknown);
}

#[test]
fn error_texts() {
    assert_eq!(ChatroomError::ConnectionFailed.to_string(), "Websocket Connection Failed");
    assert_eq!(ChatroomError::Unknown.to_string(), "Unknown error occurred");
    assert_eq!(TUIError::InputSendFailure.to_string(), "Failed to send keyboard input");
}

#[test]
fn auth_token_text() {
    assert_eq!(AuthToken::new("abc.def").to_string(), "abc.def");
}
