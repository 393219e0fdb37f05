//! Wire form of an envelope: a JSON object tagged by its variant, written in
//! one canonical layout.
//!
//! ```text
//! "Close"
//! {"APIStatus":{"status":"Online"}}
//! {"Error":<json string>}
//! {"UserMessage":{"id":"<uuid>","time_stamp":"<rfc3339>","user_id":"<uuid>","content":<json string>}}
//! ```

use vstd::prelude::*;
use vstd::string::*;
use vstd::arithmetic::power::pow;
use crate::envelope::{
    is_rfc3339, quote_free, rfc3339_ok, APIMessage, EnvelopeView, Message, MessageView, UserStatus, WSMessage,
};

verus! {

/// Hexadecimal digit `k` of `v`, counting from the most significant (0 to 31).
pub open spec fn uuid_nibble(v: u128, k: int) -> int {
    (v as int / pow(16, (31 - k) as nat)) % 16
}

/// Number of hyphens before position `i` of a hyphenated UUID.
pub open spec fn hyphens_before(i: int) -> int {
    if i < 9 {
        0
    } else if i < 14 {
        1
    } else if i < 19 {
        2
    } else if i < 24 {
        3
    } else {
        4
    }
}

/// Hyphenated text of a UUID: 32 lower-case hexadecimal digits, most
/// significant first, with hyphens at positions 8, 13, 18 and 23.
pub open spec fn uuid_text(v: u128) -> Seq<char> {
    Seq::new(
        36,
        |i: int|
            if i == 8 || i == 13 || i == 18 || i == 23 {
                '-'
            } else {
                "0123456789abcdef"@[uuid_nibble(v, i - hyphens_before(i))]
            },
    )
}

/// The UUID that uuid reads from `s`, if any.
pub uninterp spec fn uuid_parsed(s: Seq<char>) -> Option<u128>;

/// JSON string literal that serde_json writes for `s`.
pub uninterp spec fn json_quoted(s: Seq<char>) -> Seq<char>;

/// The string that serde_json reads from the JSON text `s`, if any.
pub uninterp spec fn json_unquoted(s: Seq<char>) -> Option<Seq<char>>;

/// Relies on uuid's `Uuid::from_u128` (big-endian bytes) and
/// `Uuid::hyphenated` (lower-case digits, grouped 8-4-4-4-12).
#[verifier::external_body]
fn uuid_to_text(v: u128) -> (r: String)
    ensures
        r@ == uuid_text(v),
{
    uuid::Uuid::from_u128(v).hyphenated().to_string()
}

/// Relies on uuid's `Uuid::parse_str`, which reads back the hyphenated text
/// that uuid writes.
#[verifier::external_body]
fn uuid_from_text(s: &str) -> (r: Option<u128>)
    ensures
        r == uuid_parsed(s@),
        forall|v: u128| s@ == #[trigger] uuid_text(v) ==> r == Some(v),
{
    match uuid::Uuid::parse_str(s) {
        Ok(u) => Some(u.as_u128()),
        Err(_) => None,
    }
}

/// Relies on `serde_json::to_string` on a string: its JSON string literal.
#[verifier::external_body]
fn quote_json(s: &str) -> (r: String)
    ensures
        r@ == json_quoted(s@),
{
    match serde_json::to_string(s) {
        Ok(t) => t,
        Err(_) => String::new(),
    }
}

/// Mathematical value of an optional string.
pub open spec fn opt_view(o: Option<String>) -> Option<Seq<char>> {
    match o {
        Some(t) => Some(t@),
        None => None,
    }
}

/// Relies on `serde_json::from_str` for a `String`, which reads back what
/// `serde_json::to_string` wrote.
#[verifier::external_body]
fn unquote_json(s: &str) -> (r: Option<String>)
    ensures
        opt_view(r) == json_unquoted(s@),
        forall|t: Seq<char>| s@ == #[trigger] json_quoted(t) ==> opt_view(r) == Some(t),
{
    match serde_json::from_str::<String>(s) {
        Ok(t) => Some(t),
        Err(_) => None,
    }
}

pub open spec fn close_text() -> Seq<char> {
    "\"Close\""@
}

pub open spec fn status_text(st: UserStatus) -> Seq<char> {
    match st {
        UserStatus::Online => "{\"APIStatus\":{\"status\":\"Online\"}}"@,
        UserStatus::Offline => "{\"APIStatus\":{\"status\":\"Offline\"}}"@,
        UserStatus::Away => "{\"APIStatus\":{\"status\":\"Away\"}}"@,
    }
}

pub open spec fn error_head() -> Seq<char> {
    "{\"Error\":"@
}

pub open spec fn error_tail() -> Seq<char> {
    "}"@
}

pub open spec fn user_head() -> Seq<char> {
    "{\"UserMessage\":{\"id\":\""@
}

pub open spec fn time_head() -> Seq<char> {
    "\",\"time_stamp\":\""@
}

pub open spec fn user_id_head() -> Seq<char> {
    "\",\"user_id\":\""@
}

pub open spec fn content_head() -> Seq<char> {
    "\",\"content\":"@
}

pub open spec fn user_tail() -> Seq<char> {
    "}}"@
}

/// Wire text of an envelope.
pub open spec fn encoding(e: EnvelopeView) -> Seq<char> {
    match e {
        EnvelopeView::Close => close_text(),
        EnvelopeView::APIStatus(st) => status_text(st),
        EnvelopeView::Error(m) => error_head() + json_quoted(m) + error_tail(),
        EnvelopeView::UserMessage(m) => user_head() + uuid_text(m.id) + time_head()
            + m.time_stamp + user_id_head() + uuid_text(m.user_id) + content_head()
            + json_quoted(m.content) + user_tail(),
    }
}

/// The layout of a wire text, before its fields are read.
pub enum FrameView {
    Close,
    Status(UserStatus),
    Error(Seq<char>),
    User(Seq<char>, Seq<char>, Seq<char>, Seq<char>),
}

/// `lit` stands in `s` from position `i`.
pub open spec fn has_at(s: Seq<char>, i: int, lit: Seq<char>) -> bool {
    0 <= i && i + lit.len() <= s.len() && s.subrange(i, i + lit.len()) == lit
}

/// Position of the first double quote in `s` at or after `i`, or the length of
/// `s` when there is none.
pub open spec fn first_quote(s: Seq<char>, i: int) -> int
    decreases s.len() - i,
{
    if i < 0 || i >= s.len() {
        s.len() as int
    } else if s[i] == '"' {
        i
    } else {
        first_quote(s, i + 1)
    }
}

/// The fields of a chat line's wire text: two UUID texts, the time stamp and
/// the content's JSON text.
pub open spec fn user_frame(s: Seq<char>) -> Option<FrameView> {
    let id_end: int = user_head().len() as int + 36;
    let stamp_start: int = id_end + time_head().len();
    if has_at(s, id_end, time_head()) {
        let q = first_quote(s, stamp_start);
        let uid_start: int = q + user_id_head().len();
        let uid_end: int = uid_start + 36;
        let content_start: int = uid_end + content_head().len();
        if has_at(s, q, user_id_head()) && has_at(s, uid_end, content_head()) && content_start
            + 2 <= s.len() && has_at(s, s.len() - 2, user_tail()) {
            Some(
                FrameView::User(
                    s.subrange(user_head().len() as int, id_end),
                    s.subrange(stamp_start, q),
                    s.subrange(uid_start, uid_end),
                    s.subrange(content_start, s.len() - 2),
                ),
            )
        } else {
            None
        }
    } else {
        None
    }
}

/// The layout of `s`, if it has one of the four.
pub open spec fn frame(s: Seq<char>) -> Option<FrameView> {
    if s == close_text() {
        Some(FrameView::Close)
    } else if s == status_text(UserStatus::Online) {
        Some(FrameView::Status(UserStatus::Online))
    } else if s == status_text(UserStatus::Offline) {
        Some(FrameView::Status(UserStatus::Offline))
    } else if s == status_text(UserStatus::Away) {
        Some(FrameView::Status(UserStatus::Away))
    } else if has_at(s, 0, error_head()) && s.len() >= error_head().len() + 1 && s.last() == '}' {
        Some(FrameView::Error(s.subrange(error_head().len() as int, s.len() - 1)))
    } else if has_at(s, 0, user_head()) {
        user_frame(s)
    } else {
        None
    }
}

/// The envelope that a wire text stands for, if any.
pub open spec fn decoded(s: Seq<char>) -> Option<EnvelopeView> {
    match frame(s) {
        None => None,
        Some(FrameView::Close) => Some(EnvelopeView::Close),
        Some(FrameView::Status(st)) => Some(EnvelopeView::APIStatus(st)),
        Some(FrameView::Error(mid)) => match json_unquoted(mid) {
            Some(m) => Some(EnvelopeView::Error(m)),
            None => None,
        },
        Some(FrameView::User(a, ts, b, mid)) => {
            if uuid_parsed(a) is Some && uuid_parsed(b) is Some && json_unquoted(mid) is Some
                && rfc3339_ok(ts) {
                Some(
                    EnvelopeView::UserMessage(
                        MessageView {
                            id: uuid_parsed(a)->0,
                            time_stamp: ts,
                            user_id: uuid_parsed(b)->0,
                            content: json_unquoted(mid)->0,
                        },
                    ),
                )
            } else {
                None
            }
        },
    }
}

/// The layout that the wire text of `e` has.
pub open spec fn frame_of(e: EnvelopeView) -> FrameView {
    match e {
        EnvelopeView::Close => FrameView::Close,
        EnvelopeView::APIStatus(st) => FrameView::Status(st),
        EnvelopeView::Error(m) => FrameView::Error(json_quoted(m)),
        EnvelopeView::UserMessage(m) => FrameView::User(
            uuid_text(m.id),
            m.time_stamp,
            uuid_text(m.user_id),
            json_quoted(m.content),
        ),
    }
}

proof fn lemma_first_quote(s: Seq<char>, i: int, q: int)
    requires
        0 <= i <= q < s.len(),
        s[q] == '"',
        forall|j: int| i <= j < q ==> s[j] != '"',
    ensures
        first_quote(s, i) == q,
    decreases q - i,
{
    if i < q {
        lemma_first_quote(s, i + 1, q);
    }
}

proof fn lemma_first_quote_bounds(s: Seq<char>, i: int)
    requires
        0 <= i <= s.len(),
    ensures
        i <= first_quote(s, i) <= s.len(),
    decreases s.len() - i,
{
    if i < s.len() {
        lemma_first_quote_bounds(s, i + 1);
    }
}

proof fn lemma_first_quote_free(s: Seq<char>, i: int, j: int)
    requires
        0 <= i <= j < first_quote(s, i),
    ensures
        s[j] != '"',
    decreases j - i,
{
    if i < j {
        lemma_first_quote_free(s, i + 1, j);
    }
}

/// Every well-formed envelope's wire text has the layout of its variant.
proof fn lemma_frame_encoding(e: EnvelopeView)
    requires
        e.wf(),
    ensures
        frame(encoding(e)) == Some(frame_of(e)),
{
    reveal_strlit("\"Close\"");
    reveal_strlit("{\"APIStatus\":{\"status\":\"Online\"}}");
    reveal_strlit("{\"APIStatus\":{\"status\":\"Offline\"}}");
    reveal_strlit("{\"APIStatus\":{\"status\":\"Away\"}}");
    reveal_strlit("{\"Error\":");
    reveal_strlit("}");
    reveal_strlit("{\"UserMessage\":{\"id\":\"");
    reveal_strlit("\",\"time_stamp\":\"");
    reveal_strlit("\",\"user_id\":\"");
    reveal_strlit("\",\"content\":");
    reveal_strlit("}}");
    let s = encoding(e);
    match e {
        EnvelopeView::Close => {},
        EnvelopeView::APIStatus(st) => {
            assert(s[0] != close_text()[0]);
            assert(status_text(UserStatus::Online)[25] != status_text(UserStatus::Offline)[25]);
            assert(status_text(UserStatus::Online)[24] != status_text(UserStatus::Away)[24]);
            assert(status_text(UserStatus::Offline)[24] != status_text(UserStatus::Away)[24]);
            assert(status_text(UserStatus::Online).len() != status_text(UserStatus::Offline).len());
        },
        EnvelopeView::Error(m) => {
            let q = json_quoted(m);
            assert(s[0] != close_text()[0]);
            assert(s[2] == 'E');
            assert(s[2] != status_text(UserStatus::Online)[2]);
            assert(s[2] != status_text(UserStatus::Offline)[2]);
            assert(s[2] != status_text(UserStatus::Away)[2]);
            assert(s.subrange(0, 9) =~= error_head());
            assert(s.subrange(9, s.len() - 1) =~= q);
        },
        EnvelopeView::UserMessage(m) => {
            let u1 = uuid_text(m.id);
            let u2 = uuid_text(m.user_id);
            let ts = m.time_stamp;
            let q = json_quoted(m.content);
            assert(s[0] != close_text()[0]);
            assert(s[2] == 'U');
            assert(s[2] != status_text(UserStatus::Online)[2]);
            assert(s[2] != status_text(UserStatus::Offline)[2]);
            assert(s[2] != status_text(UserStatus::Away)[2]);
            assert(s[2] != error_head()[2]);
            assert(s.subrange(0, 22) =~= user_head());
            assert(s.subrange(22, 58) =~= u1);
            assert(s.subrange(58, 74) =~= time_head());
            let qpos: int = 74 + ts.len() as int;
            assert(s.subrange(74, qpos) =~= ts);
            assert(s[qpos] == '"');
            assert forall|j: int| 74 <= j < qpos implies s[j] != '"' by {
                assert(s[j] == ts[j - 74]);
            }
            lemma_first_quote(s, 74, qpos);
            assert(s.subrange(qpos, qpos + 13) =~= user_id_head());
            assert(s.subrange(qpos + 13, qpos + 49) =~= u2);
            assert(s.subrange(qpos + 49, qpos + 61) =~= content_head());
            assert(s.subrange(qpos + 61, s.len() - 2) =~= q);
            assert(s.subrange(s.len() - 2, s.len() as int) =~= user_tail());
        },
    }
}

/// The wire text of `e`.
pub fn encode(e: &WSMessage) -> (r: String)
    requires
        e@.wf(),
    ensures
        r@ == encoding(e@),
{
    match e {
        WSMessage::Close => String::from_str("\"Close\""),
        WSMessage::APIStatus(a) => match a.status {
            UserStatus::Online => String::from_str("{\"APIStatus\":{\"status\":\"Online\"}}"),
            UserStatus::Offline => String::from_str("{\"APIStatus\":{\"status\":\"Offline\"}}"),
            UserStatus::Away => String::from_str("{\"APIStatus\":{\"status\":\"Away\"}}"),
        },
        WSMessage::Error(m) => {
            let q = quote_json(m.as_str());
            let r = String::from_str("{\"Error\":").concat(q.as_str()).concat("}");
            r
        },
        WSMessage::UserMessage(m) => {
            let mut r = String::from_str("{\"UserMessage\":{\"id\":\"");
            let id = uuid_to_text(m.id);
            r.append(id.as_str());
            r.append("\",\"time_stamp\":\"");
            r.append(m.time_stamp.as_str());
            r.append("\",\"user_id\":\"");
            let uid = uuid_to_text(m.user_id);
            r.append(uid.as_str());
            r.append("\",\"content\":");
            let q = quote_json(m.content.as_str());
            r.append(q.as_str());
            r.append("}}");
            r
        },
    }
}


/// The layout of a wire text, its fields still as text.
pub enum Frame {
    Close,
    Status(UserStatus),
    Error(String),
    User(String, String, String, String),
}

impl View for Frame {
    type V = FrameView;

    open spec fn view(&self) -> FrameView {
        match self {
            Frame::Close => FrameView::Close,
            Frame::Status(st) => FrameView::Status(*st),
            Frame::Error(m) => FrameView::Error(m@),
            Frame::User(a, ts, b, m) => FrameView::User(a@, ts@, b@, m@),
        }
    }
}

pub open spec fn frame_opt_view(f: Option<Frame>) -> Option<FrameView> {
    match f {
        Some(x) => Some(x@),
        None => None,
    }
}

pub open spec fn envelope_opt_view(e: Option<WSMessage>) -> Option<EnvelopeView> {
    match e {
        Some(x) => Some(x@),
        None => None,
    }
}

/// Whether `lit` stands in `s` from position `i`.
fn lit_at(s: &str, n: usize, i: usize, lit: &str) -> (r: bool)
    requires
        n == s@.len(),
    ensures
        r == has_at(s@, i as int, lit@),
{
    let k = lit.unicode_len();
    if i > n || k > n - i {
        return false;
    }
    let part = String::from_str(s.substring_char(i, i + k));
    let whole = String::from_str(lit);
    part == whole
}

/// Characters `from` to `to` of `s`.
fn cut(s: &str, from: usize, to: usize) -> (r: String)
    requires
        from <= to <= s@.len(),
    ensures
        r@ == s@.subrange(from as int, to as int),
{
    String::from_str(s.substring_char(from, to))
}

/// Position of the first double quote in `s` at or after `from`.
fn find_quote(s: &str, n: usize, from: usize) -> (r: usize)
    requires
        n == s@.len(),
        from <= n,
    ensures
        r as int == first_quote(s@, from as int),
        from <= r <= n,
{
    let mut i = from;
    while i < n
        invariant
            n == s@.len(),
            from <= i <= n,
            first_quote(s@, from as int) == first_quote(s@, i as int),
        decreases n - i,
    {
        if s.get_char(i) == '"' {
            return i;
        }
        i = i + 1;
    }
    i
}

/// The fields of a chat line's wire text.
fn parse_user(s: &str, n: usize) -> (r: Option<Frame>)
    requires
        n == s@.len(),
        has_at(s@, 0, user_head()),
    ensures
        frame_opt_view(r) == user_frame(s@),
{
    proof {
        reveal_strlit("{\"UserMessage\":{\"id\":\"");
        reveal_strlit("\",\"time_stamp\":\"");
        reveal_strlit("\",\"user_id\":\"");
        reveal_strlit("\",\"content\":");
        reveal_strlit("}}");
    }
    // The head has 22 characters and a UUID 36, so the time stamp's head
    // (16) starts at 58 and the time stamp at 74; the user id's head has 13
    // characters and the content's head 12.
    if !lit_at(s, n, 58, "\",\"time_stamp\":\"") {
        return None;
    }
    let q = find_quote(s, n, 74);
    if !lit_at(s, n, q, "\",\"user_id\":\"") {
        return None;
    }
    let uid_start = q + 13;
    if n - uid_start < 36 + 12 {
        return None;
    }
    let uid_end = uid_start + 36;
    if !lit_at(s, n, uid_end, "\",\"content\":") {
        return None;
    }
    let content_start = uid_end + 12;
    if n - content_start < 2 {
        return None;
    }
    if !lit_at(s, n, n - 2, "}}") {
        return None;
    }
    Some(
        Frame::User(
            cut(s, 22, 58),
            cut(s, 74, q),
            cut(s, uid_start, uid_end),
            cut(s, content_start, n - 2),
        ),
    )
}

/// The layout of `s`, if it has one.
fn parse_frame(s: &str) -> (r: Option<Frame>)
    ensures
        frame_opt_view(r) == frame(s@),
{
    proof {
        reveal_strlit("{\"Error\":");
    }
    let n = s.unicode_len();
    let t = String::from_str(s);
    if t == String::from_str("\"Close\"") {
        return Some(Frame::Close);
    }
    if t == String::from_str("{\"APIStatus\":{\"status\":\"Online\"}}") {
        return Some(Frame::Status(UserStatus::Online));
    }
    if t == String::from_str("{\"APIStatus\":{\"status\":\"Offline\"}}") {
        return Some(Frame::Status(UserStatus::Offline));
    }
    if t == String::from_str("{\"APIStatus\":{\"status\":\"Away\"}}") {
        return Some(Frame::Status(UserStatus::Away));
    }
    // The error head has 9 characters.
    if lit_at(s, n, 0, "{\"Error\":") && n >= 10 && s.get_char(n - 1) == '}' {
        return Some(Frame::Error(cut(s, 9, n - 1)));
    }
    if lit_at(s, n, 0, "{\"UserMessage\":{\"id\":\"") {
        return parse_user(s, n);
    }
    None
}

/// The envelope that the wire text `s` stands for. Every well-formed envelope
/// comes back from its own encoding.
pub fn decode(s: &str) -> (r: Option<WSMessage>)
    ensures
        envelope_opt_view(r) == decoded(s@),
        r matches Some(d) ==> d@.wf(),
        forall|e: EnvelopeView|
            e.wf() && s@ == #[trigger] encoding(e) ==> envelope_opt_view(r) == Some(e),
{
    let f = parse_frame(s);
    let r = match f {
        None => None,
        Some(Frame::Close) => Some(WSMessage::Close),
        Some(Frame::Status(st)) => Some(WSMessage::APIStatus(APIMessage { status: st })),
        Some(Frame::Error(mid)) => match unquote_json(mid.as_str()) {
            Some(m) => Some(WSMessage::Error(m)),
            None => None,
        },
        Some(Frame::User(a, ts, b, mid)) => {
            let id = uuid_from_text(a.as_str());
            let user_id = uuid_from_text(b.as_str());
            let content = unquote_json(mid.as_str());
            let stamp_ok = is_rfc3339(ts.as_str());
            proof {
                reveal_strlit("{\"UserMessage\":{\"id\":\"");
                reveal_strlit("\",\"time_stamp\":\"");
                let q = first_quote(s@, 74);
                lemma_first_quote_bounds(s@, 74);
                assert(ts@ == s@.subrange(74, q));
                assert forall|j: int| 0 <= j < ts@.len() implies ts@[j] != '"' by {
                    lemma_first_quote_free(s@, 74, 74 + j);
                }
            }
            match (id, user_id, content) {
                (Some(id), Some(user_id), Some(content)) => {
                    if stamp_ok {
                        Some(WSMessage::UserMessage(Message { id, time_stamp: ts, user_id, content }))
                    } else {
                        None
                    }
                },
                _ => None,
            }
        },
    };
    proof {
        assert forall|e: EnvelopeView|
            e.wf() && s@ == #[trigger] encoding(e) implies envelope_opt_view(r) == Some(e) by {
            lemma_frame_encoding(e);
            if let EnvelopeView::UserMessage(m) = e {
                assert(m.wf());
            }
        }
    }
    r
}

} // verus!
