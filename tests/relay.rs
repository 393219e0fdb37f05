use chatatui::bus::{BusEvent, RoomBus, BUS_CAPACITY};
use chatatui::codec::encode;
use chatatui::envelope::{Message, WSMessage};
use chatatui::pumps::{
    egress_after_write, egress_step, ingress_step, EgressAction, InboundFrame, IngressAction,
};
use chatatui::registry::ChatroomChannels;
use chatatui::supervisor::{
    ConnectionState, PumpEnd, Supervisor, SupervisorAction, SupervisorEvent,
};

fn numbered(i: usize) -> WSMessage {
    WSMessage::Error(format!("m{}", i))
}

#[test]
fn get_or_create_is_idempotent() {
    let mut reg = ChatroomChannels::new();
    let (a, created_a) = reg.create_chatroom("r1").unwrap();
    let (b, created_b) = reg.create_chatroom("r1").unwrap();
    assert!(created_a);
    assert!(!created_b);
    assert_eq!(a.id(), b.id());
    assert!(a.same_bus(&b));
    assert_eq!(reg.len(), 1);
    let (c, created_c) = reg.create_chatroom("r2").unwrap();
    assert!(created_c);
    assert!(!a.same_bus(&c));
    assert_eq!(reg.len(), 2);
}

#[test]
fn fan_out_reaches_every_subscriber_in_order() {
    let bus = RoomBus::new(7);
    let mut subs: Vec<_> = (0..3).map(|_| bus.subscribe()).collect();
    for i in 0..5 {
        assert_eq!(bus.publish(numbered(i)), 3);
    }
    for sub in subs.iter_mut() {
        for i in 0..5 {
            match sub.next() {
                BusEvent::Item(e) => assert_eq!(e, numbered(i)),
                other => panic!("expected item {}, got {:?}", i, other),
            }
        }
        assert!(matches!(sub.next(), BusEvent::Empty));
    }
}

#[test]
fn publish_without_subscribers_is_no_error() {
    let bus = RoomBus::new(1);
    assert_eq!(bus.publish(WSMessage::Close), 0);
}

#[test]
fn lagging_subscriber_is_told_and_never_sees_a_duplicate() {
    let bus = RoomBus::new(1);
    let mut slow = bus.subscribe();
    let total = BUS_CAPACITY + 6;
    for i in 0..total {
        bus.publish(numbered(i));
    }
    match slow.next() {
        BusEvent::Lagged(n) => assert_eq!(n, 6),
        other => panic!("expected a lag, got {:?}", other),
    }
    match slow.next() {
        BusEvent::Item(e) => assert_eq!(e, numbered(6)),
        other => panic!("expected the oldest kept item, got {:?}", other),
    }
    slow.resync();
    assert!(matches!(slow.next(), BusEvent::Empty));
    bus.publish(numbered(total));
    match slow.next() {
        BusEvent::Item(e) => assert_eq!(e, numbered(total)),
        other => panic!("expected the new item, got {:?}", other),
    }
    assert!(matches!(egress_step(BusEvent::Lagged(3)), EgressAction::Resubscribe));
}

#[test]
fn reaper_removes_closed_rooms_once_tasks_finish() {
    let mut reg = ChatroomChannels::new();
    reg.create_chatroom("r1").unwrap();
    reg.create_chatroom("r2").unwrap();
    reg.spawn_and_store("r1", 1);
    reg.spawn_and_store("r1", 2);
    assert!(reg.reap().is_empty());
    reg.set_state("r1", ConnectionState::Closed);
    assert!(reg.reap().is_empty());
    assert!(!reg.task_finished("r1", 1));
    assert!(reg.reap().is_empty());
    assert!(reg.task_finished("r1", 2));
    assert_eq!(reg.reap(), vec!["r1".to_string()]);
    assert_eq!(reg.status("r1"), None);
    assert_eq!(reg.status("r2"), Some(ConnectionState::Disconnected));
    assert!(!reg.task_finished("r1", 2));
}

#[test]
fn finished_tasks_alone_do_not_reap_an_open_room() {
    let mut reg = ChatroomChannels::new();
    reg.create_chatroom("r1").unwrap();
    reg.spawn_and_store("r1", 9);
    assert!(reg.task_finished("r1", 9));
    reg.set_state("r1", ConnectionState::Connected);
    assert!(reg.reap().is_empty());
    assert_eq!(reg.len(), 1);
}

#[test]
fn remove_and_lookups() {
    let mut reg = ChatroomChannels::new();
    assert!(reg.bus("r1").is_none());
    assert!(reg.publish("r1", WSMessage::Close).is_none());
    let (bus, _) = reg.create_chatroom("r1").unwrap();
    assert!(reg.bus("r1").unwrap().same_bus(&bus));
    let mut sub = reg.subscribe("r1").unwrap();
    assert_eq!(reg.publish("r1", WSMessage::Close), Some(1));
    assert!(matches!(sub.next(), BusEvent::Item(WSMessage::Close)));
    reg.remove_chatroom("r1");
    reg.remove_chatroom("r1");
    assert_eq!(reg.len(), 0);
    assert!(reg.subscribe("r1").is_none());
    let (again, created) = reg.create_chatroom("r1").unwrap();
    assert!(created);
    assert!(!again.same_bus(&bus));
}

#[test]
fn ingress_decisions() {
    let text = encode(&WSMessage::Close);
    assert!(matches!(ingress_step(InboundFrame::Text(text)), IngressAction::Publish(WSMessage::Close)));
    assert!(matches!(ingress_step(InboundFrame::Text("nope".to_string())), IngressAction::Drop));
    assert!(matches!(ingress_step(InboundFrame::Other), IngressAction::Ignore));
    let stop = ingress_step(InboundFrame::ReadError);
    assert!(matches!(stop, IngressAction::Stop));
    assert_eq!(stop.end(), Some(PumpEnd::TransportError));
    assert_eq!(IngressAction::Drop.end(), None);
}

#[test]
fn egress_decisions() {
    let err = egress_step(BusEvent::Item(WSMessage::Error("down".to_string())));
    assert!(matches!(&err, EgressAction::Surface(m) if m == "down"));
    assert_eq!(err.end(), None);
    assert!(matches!(egress_step(BusEvent::Empty), EgressAction::Idle));
    let gone = egress_step(BusEvent::Closed);
    assert!(matches!(gone, EgressAction::Stop));
    assert_eq!(gone.end(), Some(PumpEnd::CloseSeen));
}

#[test]
fn joined_room_writes_one_text_frame_per_message() {
    let mut reg = ChatroomChannels::new();
    let (bus, created) = reg.create_chatroom("r1").unwrap();
    assert!(created);
    let mut sup = Supervisor::new();
    assert_eq!(sup.step(SupervisorEvent::Join, 0), SupervisorAction::Connect);
    assert_eq!(sup.step(SupervisorEvent::HandshakeOk, 5), SupervisorAction::SpawnPumps);
    reg.set_state("r1", sup.state());
    assert_eq!(reg.status("r1"), Some(ConnectionState::Connected));
    let mut egress = bus.subscribe();
    let hi = WSMessage::UserMessage(
        Message::new(1, "2024-01-02T03:04:05Z", 2, "hi").unwrap(),
    );
    let expected = encode(&hi);
    assert!(expected.contains("\"content\":\"hi\""));
    reg.publish("r1", hi);
    match egress_step(egress.next()) {
        EgressAction::WriteText(t) => assert_eq!(t, expected),
        other => panic!("expected a text frame, got {:?}", other),
    }
    assert!(matches!(egress_step(egress.next()), EgressAction::Idle));
}

#[test]
fn transport_failure_reconnects_with_fresh_backoff() {
    let mut sup = Supervisor::new();
    sup.step(SupervisorEvent::Join, 0);
    sup.step(SupervisorEvent::HandshakeOk, 0);
    let end = ingress_step(InboundFrame::ReadError).end().unwrap();
    assert_eq!(sup.step(SupervisorEvent::PumpEnded(end), 1000), SupervisorAction::Sleep(100));
    assert_eq!(sup.state(), ConnectionState::Reconnecting(1100));
    assert_eq!(sup.step(SupervisorEvent::BackoffElapsed, 1100), SupervisorAction::Connect);
    assert_eq!(sup.step(SupervisorEvent::HandshakeFailed, 1150), SupervisorAction::Sleep(200));
    assert_eq!(sup.state(), ConnectionState::Reconnecting(1350));
    assert_eq!(sup.step(SupervisorEvent::BackoffElapsed, 1350), SupervisorAction::Connect);
    assert_eq!(sup.next_delay(), 400);
    assert_eq!(sup.step(SupervisorEvent::HandshakeOk, 1300), SupervisorAction::SpawnPumps);
    assert_eq!(sup.state(), ConnectionState::Connected);
    assert_eq!(sup.next_delay(), 100);
    assert_eq!(
        sup.step(SupervisorEvent::PumpEnded(PumpEnd::TransportError), 2000),
        SupervisorAction::Sleep(100)
    );
}

#[test]
fn close_frame_closes_and_reaps_the_room() {
    let mut reg = ChatroomChannels::new();
    let (bus, _) = reg.create_chatroom("r1").unwrap();
    let mut sup = Supervisor::new();
    sup.step(SupervisorEvent::Join, 0);
    sup.step(SupervisorEvent::HandshakeOk, 0);
    reg.spawn_and_store("r1", 1);
    reg.spawn_and_store("r1", 2);
    reg.set_state("r1", sup.state());
    let mut egress = bus.subscribe();

    let ingress = ingress_step(InboundFrame::Close);
    assert!(matches!(ingress, IngressAction::PublishClose));
    assert_eq!(ingress.end(), Some(PumpEnd::CloseSeen));
    bus.publish(WSMessage::Close);
    assert!(!reg.task_finished("r1", 1));

    let out = egress_step(egress.next());
    assert!(matches!(out, EgressAction::WriteClose));
    assert_eq!(sup.step(SupervisorEvent::PumpEnded(out.end().unwrap()), 10), SupervisorAction::Exit);
    assert_eq!(sup.state(), ConnectionState::Closed);
    reg.set_state("r1", sup.state());
    assert!(reg.task_finished("r1", 2));
    assert_eq!(reg.reap(), vec!["r1".to_string()]);
    assert_eq!(reg.status("r1"), None);
}

#[test]
fn leave_closes_through_the_pumps_when_connected() {
    let mut sup = Supervisor::new();
    assert_eq!(sup.step(SupervisorEvent::Leave, 0), SupervisorAction::Exit);
    assert_eq!(sup.state(), ConnectionState::Closed);
    assert_eq!(sup.step(SupervisorEvent::Join, 0), SupervisorAction::Nothing);

    let mut sup = Supervisor::new();
    sup.step(SupervisorEvent::Join, 0);
    sup.step(SupervisorEvent::HandshakeOk, 0);
    assert_eq!(sup.step(SupervisorEvent::Leave, 0), SupervisorAction::SendClose);
    assert_eq!(sup.state(), ConnectionState::Connected);
    assert_eq!(sup.step(SupervisorEvent::Join, 0), SupervisorAction::Nothing);
}

#[test]
fn malformed_message_is_skipped_by_egress() {
    let bad = WSMessage::UserMessage(Message {
        id: 1,
        time_stamp: "not a time".to_string(),
        user_id: 2,
        content: "hi".to_string(),
    });
    assert!(!bad.is_valid());
    let out = egress_step(BusEvent::Item(bad));
    assert!(matches!(out, EgressAction::Skip));
    assert_eq!(out.end(), None);
}

#[test]
fn failed_write_ends_egress() {
    assert_eq!(egress_after_write(true), None);
    assert_eq!(egress_after_write(false), Some(PumpEnd::TransportError));
}

#[test]
fn reaped_room_comes_back_with_a_new_bus() {
    let mut reg = ChatroomChannels::new();
    let (first, _) = reg.create_chatroom("r1").unwrap();
    reg.set_state("r1", ConnectionState::Closed);
    assert_eq!(reg.reap(), vec!["r1".to_string()]);
    let (second, created) = reg.create_chatroom("r1").unwrap();
    assert!(created);
    assert_ne!(first.id(), second.id());
    assert!(!first.same_bus(&second));
}
