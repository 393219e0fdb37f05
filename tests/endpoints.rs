use chatatui::endpoints::{
    chatroom_on_load, chatroom_ws_url, get_chatroom_by_id_url, get_chatroom_get_messages,
    get_chatroom_join_url, get_chatrooms_url, post_sign_in_url, post_sign_up_url,
};

#[test]
fn rest_routes_are_on_the_service_host() {
    assert_eq!(post_sign_in_url(), "http://127.0.0.1:8080//User/Signin");
    assert_eq!(post_sign_up_url(), "http://127.0.0.1:8080//User/Signup");
    assert_eq!(get_chatrooms_url(), "http://127.0.0.1:8080//chatrooms");
}

#[test]
fn room_routes_carry_the_room_id() {
    assert_eq!(get_chatroom_by_id_url("r1"), "http://127.0.0.1:8080//chatrooms/r1");
    assert_eq!(get_chatroom_join_url("r1"), "http://127.0.0.1:8080//chatrooms/r1/join");
    assert_eq!(get_chatroom_get_messages("r1"), "http://127.0.0.1:8080//chatrooms/r1/messages");
    assert_eq!(chatroom_on_load("lobby"), "http://127.0.0.1:8080//chatrooms/lobby/load");
}

#[test]
fn socket_url_follows_the_convention() {
    assert_eq!(chatroom_ws_url("r1"), "ws://127.0.0.1:8080/chatrooms/r1/ws");
    assert_eq!(chatroom_ws_url(""), "ws://127.0.0.1:8080/chatrooms//ws");
}
