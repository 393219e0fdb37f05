//! Addresses of the chat service: REST routes and the per-room socket.

use vstd::prelude::*;
use vstd::string::*;

verus! {

/// Root of the REST service. Routes are appended whole, each with its own
/// leading slash.
pub const BASE_URL: &'static str = "http://127.0.0.1:8080/";

/// Scheme and host of the socket service.
pub const WS_URL: &'static str = "ws://127.0.0.1:8080";

/// A REST route on the service host.
pub open spec fn rest_url(path: Seq<char>) -> Seq<char> {
    BASE_URL@ + path
}

/// `/chatrooms/<room_id>` followed by `tail`.
pub open spec fn room_path(room_id: Seq<char>, tail: Seq<char>) -> Seq<char> {
    "/chatrooms/"@ + room_id + tail
}

/// `base` followed by `/chatrooms/<room_id>` and `tail`.
fn room_url(base: &str, room_id: &str, tail: &str) -> (r: String)
    ensures
        r@ == base@ + room_path(room_id@, tail@),
{
    let s = String::from_str(base);
    let s = s.concat("/chatrooms/");
    let s = s.concat(room_id);
    let r = s.concat(tail);
    assert(r@ =~= base@ + room_path(room_id@, tail@));
    r
}

/// URL for signing in.
pub fn post_sign_in_url() -> (r: String)
    ensures
        r@ == rest_url("/User/Signin"@),
{
    String::from_str(BASE_URL).concat("/User/Signin")
}

/// URL for signing up.
pub fn post_sign_up_url() -> (r: String)
    ensures
        r@ == rest_url("/User/Signup"@),
{
    String::from_str(BASE_URL).concat("/User/Signup")
}

/// URL of the chatroom collection.
pub fn get_chatrooms_url() -> (r: String)
    ensures
        r@ == rest_url("/chatrooms"@),
{
    String::from_str(BASE_URL).concat("/chatrooms")
}

/// URL of one chatroom.
pub fn get_chatroom_by_id_url(room_id: &str) -> (r: String)
    ensures
        r@ == rest_url(room_path(room_id@, ""@)),
{
    let r = room_url(BASE_URL, room_id, "");
    assert(r@ =~= rest_url(room_path(room_id@, ""@)));
    r
}

/// URL for joining a chatroom.
pub fn get_chatroom_join_url(room_id: &str) -> (r: String)
    ensures
        r@ == rest_url(room_path(room_id@, "/join"@)),
{
    let r = room_url(BASE_URL, room_id, "/join");
    assert(r@ =~= rest_url(room_path(room_id@, "/join"@)));
    r
}

/// URL of a chatroom's messages.
pub fn get_chatroom_get_messages(room_id: &str) -> (r: String)
    ensures
        r@ == rest_url(room_path(room_id@, "/messages"@)),
{
    let r = room_url(BASE_URL, room_id, "/messages");
    assert(r@ =~= rest_url(room_path(room_id@, "/messages"@)));
    r
}

/// URL of a chatroom's history, loaded when it is opened.
pub fn chatroom_on_load(room_id: &str) -> (r: String)
    ensures
        r@ == rest_url(room_path(room_id@, "/load"@)),
{
    let r = room_url(BASE_URL, room_id, "/load");
    assert(r@ =~= rest_url(room_path(room_id@, "/load"@)));
    r
}

/// URL of a chatroom's socket: `ws://<host>/chatrooms/<room_id>/ws`.
pub fn chatroom_ws_url(room_id: &str) -> (r: String)
    ensures
        r@ == WS_URL@ + room_path(room_id@, "/ws"@),
{
    room_url(WS_URL, room_id, "/ws")
}

} // verus!
