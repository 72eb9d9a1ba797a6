use gnethogs::channel::{ChannelClosed, EventChannel};
use gnethogs::event::{Action, Event};

fn event(action: Action, id: i32, sent: u32) -> Event {
    Event {
        action,
        record_id: id,
        pid: 1,
        uid: 0,
        program: "prog".to_string(),
        device: "eth0".to_string(),
        sent,
        received: 0,
    }
}

#[test]
fn events_come_out_in_send_order() {
    let mut ch = EventChannel::new();
    ch.send(event(Action::Put, 1, 10)).unwrap();
    ch.send(event(Action::Put, 2, 20)).unwrap();
    ch.send(event(Action::Remove, 1, 0)).unwrap();
    assert_eq!(ch.len(), 3);
    let first = ch.recv().unwrap();
    assert_eq!(first.record_id, 1);
    assert_eq!(first.sent, 10);
    let second = ch.recv().unwrap();
    assert_eq!(second.record_id, 2);
    assert_eq!(second.sent, 20);
    let third = ch.recv().unwrap();
    assert_eq!(third.action, Action::Remove);
    assert_eq!(third.record_id, 1);
    assert!(ch.recv().is_none());
}

#[test]
fn recv_on_empty_channel_is_none() {
    let mut ch = EventChannel::new();
    assert!(ch.recv().is_none());
    assert_eq!(ch.len(), 0);
}

#[test]
fn send_after_close_fails_and_pending_stays_readable() {
    let mut ch = EventChannel::new();
    ch.send(event(Action::Put, 1, 10)).unwrap();
    ch.close();
    let refused = ch.send(event(Action::Put, 2, 20));
    assert_eq!(refused, Err(ChannelClosed));
    assert_eq!(ch.len(), 1);
    let pending = ch.recv().unwrap();
    assert_eq!(pending.record_id, 1);
    assert!(ch.recv().is_none());
}
