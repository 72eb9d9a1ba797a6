use gnethogs::channel::EventChannel;
use gnethogs::event::{make_event, Action, Event, ACTION_REMOVE_CODE, ACTION_SET_CODE};
use gnethogs::reconcile::{
    apply_put_event, apply_remove_event, drain, reconcile, u32_decimal, user_display, Applied,
    RowUpdate,
};
use gnethogs::store::{RecordStore, RowHandle};

fn put_event(id: i32, pid: i32, uid: u32, program: &str, device: &str, sent: u32, received: u32) -> Event {
    Event {
        action: Action::Put,
        record_id: id,
        pid,
        uid,
        program: program.to_string(),
        device: device.to_string(),
        sent,
        received,
    }
}

fn remove_event(id: i32) -> Event {
    Event {
        action: Action::Remove,
        record_id: id,
        pid: 0,
        uid: 0,
        program: String::new(),
        device: String::new(),
        sent: 0,
        received: 0,
    }
}

/// The display name the engine is expected to resolve a uid to: the account
/// name from the system user database, or the decimal uid when unknown.
fn expected_user(uid: u32) -> String {
    users::get_user_by_uid(uid)
        .map(|u| u.name().to_string_lossy().into_owned())
        .unwrap_or_else(|| uid.to_string())
}

#[test]
fn action_codes_map_to_events() {
    let some_put = make_event(ACTION_SET_CODE, 1, 2, 3, "p".to_string(), "d".to_string(), 4, 5);
    let ev = some_put.unwrap();
    assert_eq!(ev.action, Action::Put);
    assert_eq!(ev.record_id, 1);
    assert_eq!(ev.pid, 2);
    assert_eq!(ev.uid, 3);
    assert_eq!(ev.program, "p");
    assert_eq!(ev.device, "d");
    assert_eq!(ev.sent, 4);
    assert_eq!(ev.received, 5);
    let some_remove = make_event(ACTION_REMOVE_CODE, 1, 0, 0, String::new(), String::new(), 0, 0);
    assert_eq!(some_remove.unwrap().action, Action::Remove);
    assert!(make_event(0, 1, 0, 0, String::new(), String::new(), 0, 0).is_none());
    assert!(make_event(3, 1, 0, 0, String::new(), String::new(), 0, 0).is_none());
}

#[test]
fn decimal_rendering_is_exact() {
    assert_eq!(u32_decimal(0), "0");
    assert_eq!(u32_decimal(7), "7");
    assert_eq!(u32_decimal(10), "10");
    assert_eq!(u32_decimal(40961), "40961");
    assert_eq!(u32_decimal(u32::MAX), "4294967295");
}

#[test]
fn user_display_prefers_resolved_name() {
    assert_eq!(user_display(5, Some("alice".to_string())), "alice");
    assert_eq!(user_display(123, None), "123");
    assert_eq!(user_display(0, None), "0");
}

#[test]
fn put_with_resolved_user_creates_then_updates_one_row() {
    let mut store = RecordStore::new();
    let a1 = apply_put_event(
        &mut store,
        put_event(1, 100, 0, "curl", "eth0", 5000, 2000),
        "alice".to_string(),
    );
    assert_eq!(
        a1,
        Applied {
            row: RowUpdate::Appended(RowHandle { record_id: 1 }),
            total_sent: 5000,
            total_received: 2000,
        }
    );
    let a2 = apply_put_event(
        &mut store,
        put_event(1, 100, 0, "curl", "eth0", 7000, 3000),
        "alice".to_string(),
    );
    assert_eq!(
        a2,
        Applied {
            row: RowUpdate::Updated(RowHandle { record_id: 1 }),
            total_sent: 7000,
            total_received: 3000,
        }
    );
    assert_eq!(store.len(), 1);
    let row = store.get(1).unwrap();
    assert_eq!(row.user, "alice");
    assert_eq!(row.sent, 7000);
    assert_eq!(row.received, 3000);
}

#[test]
fn remove_of_unknown_id_is_ignored() {
    let mut store = RecordStore::new();
    let a = apply_remove_event(&mut store, 42);
    assert_eq!(
        a,
        Applied { row: RowUpdate::Ignored, total_sent: 0, total_received: 0 }
    );
    assert_eq!(store.len(), 0);
}

#[test]
fn end_to_end_scenario() {
    let cache = users::UsersCache::new();
    let mut store = RecordStore::new();

    let a1 = reconcile(&mut store, &cache, put_event(1, 100, 0, "curl", "eth0", 5000, 2000));
    assert_eq!(a1.row, RowUpdate::Appended(RowHandle { record_id: 1 }));
    assert_eq!((a1.total_sent, a1.total_received), (5000, 2000));
    assert_eq!(store.len(), 1);
    {
        let row = store.get(1).unwrap();
        assert_eq!(row.pid, 100);
        assert_eq!(row.user, expected_user(0));
        assert_eq!(row.program, "curl");
        assert_eq!(row.device, "eth0");
        assert_eq!(row.sent, 5000);
        assert_eq!(row.received, 2000);
    }

    let a2 = reconcile(&mut store, &cache, put_event(1, 100, 0, "curl", "eth0", 7000, 3000));
    assert_eq!(a2.row, RowUpdate::Updated(RowHandle { record_id: 1 }));
    assert_eq!((a2.total_sent, a2.total_received), (7000, 3000));
    assert_eq!(store.len(), 1);
    {
        let row = store.get(1).unwrap();
        assert_eq!(row.sent, 7000);
        assert_eq!(row.received, 3000);
    }

    let a3 = reconcile(&mut store, &cache, remove_event(1));
    assert_eq!(a3.row, RowUpdate::Removed(RowHandle { record_id: 1 }));
    assert_eq!((a3.total_sent, a3.total_received), (0, 0));
    assert_eq!(store.len(), 0);
}

#[test]
fn reconcile_remove_of_unknown_id_changes_nothing() {
    let cache = users::UsersCache::new();
    let mut store = RecordStore::new();
    reconcile(&mut store, &cache, put_event(7, 1, 0, "p", "d", 11, 22));
    let a = reconcile(&mut store, &cache, remove_event(8));
    assert_eq!(a.row, RowUpdate::Ignored);
    assert_eq!((a.total_sent, a.total_received), (11, 22));
    assert_eq!(store.len(), 1);
}

#[test]
fn drain_applies_all_pending_events_in_order() {
    let cache = users::UsersCache::new();
    let mut store = RecordStore::new();
    let mut ch = EventChannel::new();
    ch.send(put_event(1, 10, 0, "curl", "eth0", 100, 1)).unwrap();
    ch.send(put_event(2, 20, 0, "ssh", "eth0", 200, 2)).unwrap();
    ch.send(put_event(1, 10, 0, "curl", "eth0", 150, 5)).unwrap();
    ch.send(remove_event(2)).unwrap();
    drain(&mut store, &cache, &mut ch);
    assert_eq!(ch.len(), 0);
    assert_eq!(store.len(), 1);
    let row = store.get(1).unwrap();
    assert_eq!(row.sent, 150);
    assert_eq!(row.received, 5);
    assert!(!store.contains(2));
    assert_eq!(store.totals(), (150, 5));
}

#[test]
fn reconcile_agrees_with_system_user_database() {
    // uid 0 is resolvable on any system; a huge uid almost never is, and then
    // the decimal fallback must appear.  Either way the row must agree with
    // an independent lookup.
    let cache = users::UsersCache::new();
    let mut store = RecordStore::new();
    reconcile(&mut store, &cache, put_event(1, 1, 0, "p", "d", 1, 1));
    reconcile(&mut store, &cache, put_event(2, 2, 4294967294, "q", "d", 2, 2));
    assert_eq!(store.get(1).unwrap().user, expected_user(0));
    assert_eq!(store.get(2).unwrap().user, expected_user(4294967294));
}
