//! Errors of the REST collaborator and of the terminal input.

use vstd::prelude::*;
use vstd::string::*;

verus! {

/// Why a chatroom request failed.
#[derive(Clone, Copy, Debug, PartialEq, Eq, Structural)]
pub enum ChatroomError {
    InvalidData,
    Unauthorized,
    DatabaseError,
    ConnectionFailed,
    Unknown,
}

/// The error that an HTTP status code stands for.
pub open spec fn status_error(code: u16) -> ChatroomError {
    if code == 400 {
        ChatroomError::InvalidData
    } else if code == 401 {
        ChatroomError::Unauthorized
    } else if code == 500 {
        ChatroomError::DatabaseError
    } else {
        ChatroomError::Unknown
    }
}

impl ChatroomError {
    /// Bad request is invalid data, unauthorized is unauthorized, an internal
    /// server error is a failure to store; any other status is unknown.
    pub fn from_status(code: u16) -> (r: ChatroomError)
        ensures
            r == status_error(code),
    {
        if code == 400 {
            ChatroomError::InvalidData
        } else if code == 401 {
            ChatroomError::Unauthorized
        } else if code == 500 {
            ChatroomError::DatabaseError
        } else {
            ChatroomError::Unknown
        }
    }

    /// Text shown to the user.
    pub fn to_string(&self) -> (r: String)
        ensures
            r@ == match self {
                ChatroomError::InvalidData => "Invalid chatroom data"@,
                ChatroomError::Unauthorized => "Unauthorized"@,
                ChatroomError::DatabaseError => "Failed to save or update chatroom"@,
                ChatroomError::ConnectionFailed => "Websocket Connection Failed"@,
                ChatroomError::Unknown => "Unknown error occurred"@,
            },
    {
        match self {
            ChatroomError::InvalidData => String::from_str("Invalid chatroom data"),
            ChatroomError::Unauthorized => String::from_str("Unauthorized"),
            ChatroomError::DatabaseError => String::from_str("Failed to save or update chatroom"),
            ChatroomError::ConnectionFailed => String::from_str("Websocket Connection Failed"),
            ChatroomError::Unknown => String::from_str("Unknown error occurred"),
        }
    }
}

/// Why terminal input failed.
#[derive(Clone, Copy, Debug, PartialEq, Eq, Structural)]
pub enum TUIError {
    InputSendFailure,
}

impl TUIError {
    /// Text shown to the user.
    pub fn to_string(&self) -> (r: String)
        ensures
            r@ == "Failed to send keyboard input"@,
    {
        String::from_str("Failed to send keyboard input")
    }
}

/// Input read from the keyboard.
#[derive(Clone, Debug)]
pub enum KeyboardInput {
    Input(String),
    Error(TUIError),
}

/// Bearer token handed out on sign-in.
#[derive(Clone, Debug)]
pub struct AuthToken {
    pub token: String,
}

impl AuthToken {
    pub fn new(token: &str) -> (r: AuthToken)
        ensures
            r.token@ == token@,
    {
        AuthToken { token: String::from_str(token) }
    }

    /// The token as it goes in an authorization header.
    pub fn to_string(&self) -> (r: String)
        ensures
            r@ == self.token@,
    {
        self.token.clone()
    }
}

} // verus!
