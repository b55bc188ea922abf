use line_relay::listener::{Listener, ListenerAction, ListenerEvent};
use line_relay::session::{Session, SessionAction, SessionEvent};
use line_relay::wire::{chat_line, disconnect_notice, next_id, welcome_line};

fn published(a: SessionAction) -> Vec<u8> {
    match a {
        SessionAction::Publish(m) => m,
        _ => panic!("expected a publish"),
    }
}

fn farewell(a: SessionAction) -> Vec<u8> {
    match a {
        SessionAction::Farewell(m) => m,
        _ => panic!("expected a farewell"),
    }
}

fn spawned(a: ListenerAction) -> u16 {
    match a {
        ListenerAction::Spawn(id) => id,
        _ => panic!("expected a spawn"),
    }
}

#[test]
fn welcome_names_the_session() {
    assert_eq!(welcome_line(0), b"Welcome User#0\n".to_vec());
    assert_eq!(welcome_line(1), b"Welcome User#1\n".to_vec());
    assert_eq!(welcome_line(65535), b"Welcome User#65535\n".to_vec());
    assert_eq!(Session::new(12).greeting(), b"Welcome User#12\n".to_vec());
}

#[test]
fn disconnect_notice_text() {
    assert_eq!(disconnect_notice(1), b"User#1 disconnected!\n".to_vec());
    assert_eq!(disconnect_notice(907), b"User#907 disconnected!\n".to_vec());
}

#[test]
fn chat_line_adds_missing_newline() {
    assert_eq!(chat_line(0, b"hi"), b"User#0: hi\n".to_vec());
    assert_eq!(chat_line(42, b"x"), b"User#42: x\n".to_vec());
}

#[test]
fn chat_line_keeps_existing_newline() {
    assert_eq!(chat_line(0, b"hi\n"), b"User#0: hi\n".to_vec());
    assert_eq!(chat_line(5, b"\n"), b"User#5: \n".to_vec());
    assert_eq!(chat_line(5, b"a\n\n"), b"User#5: a\n\n".to_vec());
}

#[test]
fn next_id_wraps() {
    assert_eq!(next_id(0), 1);
    assert_eq!(next_id(7), 8);
    assert_eq!(next_id(65534), 65535);
    assert_eq!(next_id(65535), 0);
}

#[test]
fn message_reaches_every_other_session() {
    let mut sessions: Vec<Session> = (0u16..4).map(Session::new).collect();
    let msg = published(sessions[2].handle(&SessionEvent::Read(b"hello".to_vec())));
    assert_eq!(msg, b"User#2: hello\n".to_vec());
    let mut receivers = Vec::new();
    for s in sessions.iter_mut() {
        if matches!(s.handle(&SessionEvent::Delivered(2)), SessionAction::Forward) {
            receivers.push(s.id());
        }
    }
    assert_eq!(receivers, vec![0, 1, 3]);
}

#[test]
fn ids_increase_then_wrap() {
    let mut l = Listener::new();
    let mut last: Option<u16> = None;
    for i in 0u32..65536 {
        let id = spawned(l.handle(ListenerEvent::Accepted));
        assert_eq!(id as u32, i);
        if let Some(p) = last {
            assert!(p < id);
        }
        last = Some(id);
    }
    assert_eq!(spawned(l.handle(ListenerEvent::Accepted)), 0);
    assert_eq!(spawned(l.handle(ListenerEvent::Accepted)), 1);
}

#[test]
fn reused_id_still_filters_by_identifier() {
    let mut old_zero = Session::new(0);
    let mut new_zero = Session::new(0);
    let mut other = Session::new(9);
    assert!(matches!(old_zero.handle(&SessionEvent::Delivered(0)), SessionAction::Wait));
    assert!(matches!(new_zero.handle(&SessionEvent::Delivered(0)), SessionAction::Wait));
    assert!(matches!(other.handle(&SessionEvent::Delivered(0)), SessionAction::Forward));
    assert!(old_zero.is_open() && new_zero.is_open() && other.is_open());
}

#[test]
fn closing_client_says_goodbye_once() {
    let mut s = Session::new(1);
    let notice = farewell(s.handle(&SessionEvent::Read(Vec::new())));
    assert_eq!(notice, b"User#1 disconnected!\n".to_vec());
    assert!(!s.is_open());
    assert!(matches!(s.handle(&SessionEvent::Read(Vec::new())), SessionAction::Wait));
    assert!(matches!(s.handle(&SessionEvent::Read(b"late".to_vec())), SessionAction::Wait));
    assert!(matches!(s.handle(&SessionEvent::Delivered(3)), SessionAction::Wait));
}

#[test]
fn shutdown_closes_session() {
    let mut s = Session::new(4);
    assert!(matches!(s.handle(&SessionEvent::Shutdown(false)), SessionAction::Wait));
    assert!(s.is_open());
    assert!(matches!(s.handle(&SessionEvent::Shutdown(true)), SessionAction::Close));
    assert!(!s.is_open());
    assert!(matches!(s.handle(&SessionEvent::Read(b"more".to_vec())), SessionAction::Wait));
    assert!(matches!(s.handle(&SessionEvent::Delivered(0)), SessionAction::Wait));
}

#[test]
fn shutdown_stops_listener() {
    let mut l = Listener::new();
    assert_eq!(spawned(l.handle(ListenerEvent::Accepted)), 0);
    assert!(matches!(l.handle(ListenerEvent::Shutdown(false)), ListenerAction::Wait));
    assert!(l.is_running());
    assert!(matches!(l.handle(ListenerEvent::Shutdown(true)), ListenerAction::Stop));
    assert!(!l.is_running());
    assert!(matches!(l.handle(ListenerEvent::Accepted), ListenerAction::Wait));
    assert_eq!(l.peek_next_id(), 1);
}

#[test]
fn accept_failure_stops_listener() {
    let mut l = Listener::new();
    assert!(matches!(l.handle(ListenerEvent::AcceptFailed), ListenerAction::Stop));
    assert!(!l.is_running());
    assert!(matches!(l.handle(ListenerEvent::Accepted), ListenerAction::Wait));
}

#[test]
fn end_to_end_two_clients() {
    let mut l = Listener::new();
    let mut a = Session::new(spawned(l.handle(ListenerEvent::Accepted)));
    assert_eq!(a.greeting(), b"Welcome User#0\n".to_vec());
    let mut b = Session::new(spawned(l.handle(ListenerEvent::Accepted)));
    assert_eq!(b.greeting(), b"Welcome User#1\n".to_vec());

    let msg = published(a.handle(&SessionEvent::Read(b"hi\n".to_vec())));
    assert_eq!(msg, b"User#0: hi\n".to_vec());
    assert!(matches!(b.handle(&SessionEvent::Delivered(0)), SessionAction::Forward));
    assert!(matches!(a.handle(&SessionEvent::Delivered(0)), SessionAction::Wait));

    let notice = farewell(b.handle(&SessionEvent::Read(Vec::new())));
    assert_eq!(notice, b"User#1 disconnected!\n".to_vec());
    assert!(matches!(a.handle(&SessionEvent::Delivered(1)), SessionAction::Forward));
}

#[test]
fn lagging_subscriber_keeps_going() {
    let mut s = Session::new(3);
    assert!(matches!(s.handle(&SessionEvent::Lagged), SessionAction::Wait));
    assert!(s.is_open());
    assert!(matches!(s.handle(&SessionEvent::Delivered(1)), SessionAction::Forward));
}

#[test]
fn read_failure_is_not_an_event() {
    let mut s = Session::new(3);
    assert!(matches!(s.handle(&SessionEvent::ReadFailed), SessionAction::Wait));
    assert!(s.is_open());
}

#[test]
fn publish_failure_ends_session() {
    let mut s = Session::new(6);
    assert_eq!(published(s.handle(&SessionEvent::Read(b"x".to_vec()))), b"User#6: x\n".to_vec());
    assert!(matches!(s.handle(&SessionEvent::PublishFailed), SessionAction::Close));
    assert!(!s.is_open());
}
