use gnethogs::store::{Record, RecordStore, RowHandle, UnknownRecord};

fn record(id: i32, pid: i32, user: &str, program: &str, device: &str, sent: u32, received: u32) -> Record {
    Record {
        record_id: id,
        pid,
        user: user.to_string(),
        program: program.to_string(),
        device: device.to_string(),
        sent,
        received,
    }
}

#[test]
fn new_store_is_empty() {
    let store = RecordStore::new();
    assert_eq!(store.len(), 0);
    assert_eq!(store.totals(), (0, 0));
    assert!(!store.contains(1));
    assert!(store.get(1).is_none());
}

#[test]
fn put_inserts_fresh_record() {
    let mut store = RecordStore::new();
    let (handle, is_new) = store.apply_set(record(1, 100, "root", "curl", "eth0", 5000, 2000));
    assert!(is_new);
    assert_eq!(handle, RowHandle { record_id: 1 });
    assert_eq!(store.len(), 1);
    assert!(store.contains(1));
    let row = store.get(1).unwrap();
    assert_eq!(row.pid, 100);
    assert_eq!(row.user, "root");
    assert_eq!(row.program, "curl");
    assert_eq!(row.device, "eth0");
    assert_eq!(row.sent, 5000);
    assert_eq!(row.received, 2000);
    assert_eq!(store.totals(), (5000, 2000));
}

#[test]
fn repeated_put_keeps_one_row_with_second_fields() {
    let mut store = RecordStore::new();
    let (_, first_new) = store.apply_set(record(1, 100, "root", "curl", "eth0", 5000, 2000));
    let (handle, second_new) = store.apply_set(record(1, 100, "root", "curl", "eth0", 7000, 3000));
    assert!(first_new);
    assert!(!second_new);
    assert_eq!(handle, RowHandle { record_id: 1 });
    assert_eq!(store.len(), 1);
    let row = store.get(1).unwrap();
    assert_eq!(row.sent, 7000);
    assert_eq!(row.received, 3000);
    assert_eq!(store.totals(), (7000, 3000));
}

#[test]
fn put_then_remove_nets_to_zero() {
    let mut store = RecordStore::new();
    store.apply_set(record(5, 10, "root", "ssh", "eth1", 1500, 300));
    let before = store.totals();
    store.apply_set(record(1, 100, "root", "curl", "eth0", 5000, 2000));
    let removed = store.apply_remove(1);
    assert_eq!(removed, Ok(RowHandle { record_id: 1 }));
    assert_eq!(store.totals(), before);
    assert_eq!(store.len(), 1);
    assert!(!store.contains(1));
}

#[test]
fn remove_of_unknown_id_is_rejected_without_mutation() {
    let mut store = RecordStore::new();
    store.apply_set(record(5, 10, "root", "ssh", "eth1", 1500, 300));
    let err = store.apply_remove(99);
    assert_eq!(err, Err(UnknownRecord { record_id: 99 }));
    assert_eq!(store.len(), 1);
    assert!(store.contains(5));
    assert_eq!(store.totals(), (1500, 300));
}

#[test]
fn totals_sum_over_all_records() {
    let mut store = RecordStore::new();
    store.apply_set(record(1, 1, "a", "p1", "eth0", 100, 7));
    store.apply_set(record(2, 2, "b", "p2", "eth0", 250, 13));
    store.apply_set(record(3, 3, "c", "p3", "wlan0", 4, 80));
    assert_eq!(store.totals(), (354, 100));
    store.apply_remove(2).unwrap();
    assert_eq!(store.totals(), (104, 87));
}

#[test]
fn update_keeps_row_position() {
    let mut store = RecordStore::new();
    store.apply_set(record(1, 1, "a", "p1", "eth0", 1, 1));
    store.apply_set(record(2, 2, "b", "p2", "eth0", 2, 2));
    store.apply_set(record(1, 9, "z", "p9", "eth9", 30, 40));
    assert_eq!(store.len(), 2);
    let row = store.get(1).unwrap();
    assert_eq!(row.pid, 9);
    assert_eq!(row.sent, 30);
    assert_eq!(store.totals(), (32, 42));
}
