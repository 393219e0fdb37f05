//! The message unit that travels between a room's socket and its bus.

use vstd::prelude::*;
use vstd::string::*;

verus! {

/// Presence of a user.
#[derive(Clone, Copy, Debug, PartialEq, Eq, Structural)]
pub enum UserStatus {
    Online,
    Offline,
    Away,
}

/// A presence update sent by the service.
#[derive(Clone, Copy, Debug, PartialEq, Eq, Structural)]
pub struct APIMessage {
    pub status: UserStatus,
}

/// A chat line. Identifiers are UUIDs held as their 128-bit value; the time
/// stamp is RFC 3339 text.
#[derive(Clone, Debug, PartialEq, Eq)]
pub struct Message {
    pub id: u128,
    pub time_stamp: String,
    pub user_id: u128,
    pub content: String,
}

/// Envelope: exactly one of a chat line, a presence update, an error report or
/// a request to close the room.
#[derive(Clone, Debug, PartialEq, Eq)]
pub enum WSMessage {
    UserMessage(Message),
    APIStatus(APIMessage),
    Error(String),
    Close,
}

/// A room's history, as the service hands it out.
#[derive(Clone, Debug, PartialEq, Eq)]
pub struct Messages {
    pub messages: Vec<Message>,
}

/// A chatroom's description. Identifiers are UUIDs held as their 128-bit value.
#[derive(Clone, Debug, PartialEq, Eq)]
pub struct Chatroom {
    pub room_id: u128,
    pub room_name: String,
    pub owned_id: u128,
    pub public: bool,
}

/// Mathematical value of a [`Message`].
pub struct MessageView {
    pub id: u128,
    pub time_stamp: Seq<char>,
    pub user_id: u128,
    pub content: Seq<char>,
}

/// Mathematical value of a [`WSMessage`].
pub enum EnvelopeView {
    UserMessage(MessageView),
    APIStatus(UserStatus),
    Error(Seq<char>),
    Close,
}

impl View for Message {
    type V = MessageView;

    open spec fn view(&self) -> MessageView {
        MessageView {
            id: self.id,
            time_stamp: self.time_stamp@,
            user_id: self.user_id,
            content: self.content@,
        }
    }
}

impl View for WSMessage {
    type V = EnvelopeView;

    open spec fn view(&self) -> EnvelopeView {
        match self {
            WSMessage::UserMessage(m) => EnvelopeView::UserMessage(m@),
            WSMessage::APIStatus(a) => EnvelopeView::APIStatus(a.status),
            WSMessage::Error(s) => EnvelopeView::Error(s@),
            WSMessage::Close => EnvelopeView::Close,
        }
    }
}

/// Whether chrono reads `s` as an RFC 3339 date and time.
pub uninterp spec fn rfc3339_ok(s: Seq<char>) -> bool;

/// No double quote occurs in `s`.
pub open spec fn quote_free(s: Seq<char>) -> bool {
    forall|i: int| 0 <= i < s.len() ==> s[i] != '"'
}

impl MessageView {
    /// The time stamp is RFC 3339 text, which never holds a double quote.
    pub open spec fn wf(self) -> bool {
        rfc3339_ok(self.time_stamp) && quote_free(self.time_stamp)
    }
}

impl EnvelopeView {
    pub open spec fn wf(self) -> bool {
        match self {
            EnvelopeView::UserMessage(m) => m.wf(),
            _ => true,
        }
    }
}

/// Relies on chrono's `DateTime::parse_from_rfc3339`: whether `s` parses.
#[verifier::external_body]
pub(crate) fn is_rfc3339(s: &str) -> (r: bool)
    ensures
        r == rfc3339_ok(s@),
{
    chrono::DateTime::parse_from_rfc3339(s).is_ok()
}

/// Whether `s` holds no double quote.
pub(crate) fn has_no_quote(s: &str) -> (r: bool)
    ensures
        r == quote_free(s@),
{
    let n = s.unicode_len();
    let mut i: usize = 0;
    while i < n
        invariant
            n == s@.len(),
            i <= n,
            forall|j: int| 0 <= j < i ==> s@[j] != '"',
        decreases n - i,
    {
        if s.get_char(i) == '"' {
            return false;
        }
        i = i + 1;
    }
    true
}

impl Message {
    /// A chat line, or `None` when `time_stamp` is not RFC 3339 text.
    pub fn new(id: u128, time_stamp: &str, user_id: u128, content: &str) -> (r: Option<Message>)
        ensures
            r is Some <==> (MessageView {
                id,
                time_stamp: time_stamp@,
                user_id,
                content: content@,
            }).wf(),
            r matches Some(m) ==> m@ == (MessageView {
                id,
                time_stamp: time_stamp@,
                user_id,
                content: content@,
            }),
    {
        if is_rfc3339(time_stamp) && has_no_quote(time_stamp) {
            Some(
                Message {
                    id,
                    time_stamp: String::from_str(time_stamp),
                    user_id,
                    content: String::from_str(content),
                },
            )
        } else {
            None
        }
    }
}

impl WSMessage {
    /// Whether this envelope is well-formed, so that it has a wire text.
    pub fn is_valid(&self) -> (r: bool)
        ensures
            r == self@.wf(),
    {
        match self {
            WSMessage::UserMessage(m) => is_rfc3339(m.time_stamp.as_str()) && has_no_quote(
                m.time_stamp.as_str(),
            ),
            _ => true,
        }
    }

    /// Whether this envelope asks for the room to close.
    pub fn is_close(&self) -> (r: bool)
        ensures
            r == (self@ is Close),
    {
        match self {
            WSMessage::Close => true,
            _ => false,
        }
    }
}

} // verus!
