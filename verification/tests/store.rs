use time::{Duration, OffsetDateTime};
use tower_sessions_rusqlite_store::rusqlite::Connection;
use tower_sessions_rusqlite_store::{Id, Record, RusqliteStore, SessionStoreError};

fn create_store() -> RusqliteStore {
    let conn = Connection::open_in_memory().unwrap();
    let mut store = RusqliteStore::new(conn);
    store.migrate().unwrap();
    store
}

fn minutes_from_now(minutes: i64) -> i64 {
    (OffsetDateTime::now_utc() + Duration::minutes(minutes)).unix_timestamp()
}

#[test]
fn test_create() {
    let mut store = create_store();
    let mut record = Record {
        id: Default::default(),
        data: Default::default(),
        expiry_date: minutes_from_now(30),
    };
    assert!(store.create(&mut record).is_ok());
}

#[test]
fn test_save() {
    let mut store = create_store();
    let record = Record {
        id: Default::default(),
        data: Default::default(),
        expiry_date: minutes_from_now(30),
    };
    assert!(store.save(&record).is_ok());
}

#[test]
fn test_load() {
    let mut store = create_store();
    let mut record = Record {
        id: Default::default(),
        data: Default::default(),
        expiry_date: minutes_from_now(30),
    };
    store.create(&mut record).unwrap();
    let loaded_record = store.load(&record.id).unwrap();
    assert_eq!(Some(record), loaded_record);
}

#[test]
fn test_delete() {
    let mut store = create_store();
    let mut record = Record {
        id: Default::default(),
        data: Default::default(),
        expiry_date: minutes_from_now(30),
    };
    store.create(&mut record).unwrap();
    assert!(store.delete(&record.id).is_ok());
    assert_eq!(None, store.load(&record.id).unwrap());
}

#[test]
fn test_create_id_collision() {
    let mut store = create_store();
    let expiry_date = minutes_from_now(30);
    let mut record1 = Record {
        id: Default::default(),
        data: Default::default(),
        expiry_date,
    };
    let mut record2 = Record {
        id: Default::default(),
        data: Default::default(),
        expiry_date,
    };
    store.create(&mut record1).unwrap();
    record2.id = record1.id; // Set the same ID for record2
    store.create(&mut record2).unwrap();
    assert_ne!(record1.id, record2.id); // IDs should be different
}

#[test]
fn test_delete_expired() {
    let mut store = create_store();
    let mut record = Record {
        id: Default::default(),
        data: Default::default(),
        expiry_date: minutes_from_now(-30),
    };
    store.create(&mut record).unwrap();
    store.delete_expired().unwrap();
    assert_eq!(None, store.load(&record.id).unwrap());
}

#[test]
fn an_id_shows_as_twenty_two_characters() {
    assert_eq!(Id(0).text(), "AAAAAAAAAAAAAAAAAAAAAA");
    assert_eq!(Id(1).text(), "AQAAAAAAAAAAAAAAAAAAAA");
    assert_eq!(Id(-1).text(), "_____________________w");
    assert_eq!(Id(255).text(), "_wAAAAAAAAAAAAAAAAAAAA");
    assert_eq!(Id(i128::MAX).text(), "____________________fw");
    assert_eq!(Id(i128::MIN).text(), "AAAAAAAAAAAAAAAAAAAAgA");
}

#[test]
fn random_ids_differ() {
    assert_ne!(Id::random(), Id::random());
    assert_ne!(Id::default(), Id::default());
}

#[test]
fn a_created_record_is_loaded_as_it_was_given() {
    let mut store = create_store();
    let mut record = Record { id: Id(17), data: vec![1, 2, 3], expiry_date: minutes_from_now(30) };
    let given = record.clone();
    store.create(&mut record).unwrap();
    assert_eq!(record, given);
    assert_eq!(store.load(&record.id).unwrap(), Some(given));
}

#[test]
fn a_second_create_under_the_same_id_keeps_the_first_record() {
    let mut store = create_store();
    let mut a = Record { id: Id(7), data: vec![b'a'], expiry_date: minutes_from_now(30) };
    store.create(&mut a).unwrap();
    assert_eq!(store.load(&a.id).unwrap(), Some(a.clone()));

    let mut b = Record { id: a.id, data: vec![b'b'], expiry_date: minutes_from_now(60) };
    let given = b.clone();
    store.create(&mut b).unwrap();
    assert_ne!(b.id, a.id);
    assert_eq!(b.data, given.data);
    assert_eq!(b.expiry_date, given.expiry_date);
    assert_eq!(store.load(&a.id).unwrap(), Some(a));
    assert_eq!(store.load(&b.id).unwrap(), Some(b));
}

#[test]
fn an_expired_row_still_claims_its_id() {
    let mut store = create_store();
    let mut expired = Record { id: Id(7), data: vec![1], expiry_date: minutes_from_now(-30) };
    store.create(&mut expired).unwrap();
    assert_eq!(expired.id, Id(7));
    assert_eq!(store.load(&Id(7)).unwrap(), None);

    let mut next = Record { id: Id(7), data: vec![2], expiry_date: minutes_from_now(30) };
    store.create(&mut next).unwrap();
    assert_ne!(next.id, Id(7));
}

#[test]
fn a_saved_record_is_loaded_until_it_expires() {
    let mut store = create_store();
    let record = Record { id: Id(5), data: vec![0, 255, 7], expiry_date: 1_000 };
    store.save(&record).unwrap();
    assert_eq!(store.load_at(&Id(5), 999).unwrap(), Some(record));
    assert_eq!(store.load_at(&Id(5), 1_000).unwrap(), None);
    assert_eq!(store.load(&Id(5)).unwrap(), None);
}

#[test]
fn a_save_replaces_the_record_of_the_same_id() {
    let mut store = create_store();
    let expiry_date = minutes_from_now(30);
    store.save(&Record { id: Id(5), data: vec![1], expiry_date }).unwrap();
    let newer = Record { id: Id(5), data: vec![2, 3], expiry_date: expiry_date + 60 };
    store.save(&newer).unwrap();
    assert_eq!(store.load(&Id(5)).unwrap(), Some(newer));
}

#[test]
fn a_delete_of_an_unused_id_succeeds() {
    let mut store = create_store();
    assert_eq!(store.delete(&Id(12345)), Ok(()));
    assert_eq!(store.load(&Id(12345)).unwrap(), None);
}

#[test]
fn a_sweep_removes_the_expired_and_keeps_the_rest() {
    let mut store = create_store();
    let gone = Record { id: Id(1), data: vec![1], expiry_date: 99 };
    let edge = Record { id: Id(2), data: vec![2], expiry_date: 100 };
    let kept = Record { id: Id(3), data: vec![3], expiry_date: 101 };
    store.save(&gone).unwrap();
    store.save(&edge).unwrap();
    store.save(&kept).unwrap();
    store.delete_expired_at(100).unwrap();
    assert_eq!(store.load_at(&Id(1), 0).unwrap(), None);
    assert_eq!(store.load_at(&Id(2), 0).unwrap(), Some(edge));
    assert_eq!(store.load_at(&Id(3), 0).unwrap(), Some(kept));
}

#[test]
fn a_store_takes_a_valid_table_name() {
    let conn = Connection::open_in_memory().unwrap();
    let mut store = RusqliteStore::new(conn).with_table_name("my_sessions_2").unwrap();
    store.migrate().unwrap();
    let record = Record { id: Id(5), data: vec![1], expiry_date: minutes_from_now(30) };
    store.save(&record).unwrap();
    assert_eq!(store.load(&Id(5)).unwrap(), Some(record));
}

#[test]
fn a_store_refuses_an_invalid_table_name() {
    let conn = Connection::open_in_memory().unwrap();
    let refused = RusqliteStore::new(conn).with_table_name("my sessions; --");
    assert_eq!(
        refused.err(),
        Some(
            "Invalid table name 'my sessions; --'. Table names must be alphanumeric and may \
             contain hyphens or underscores."
                .to_string()
        )
    );
    let conn = Connection::open_in_memory().unwrap();
    assert!(RusqliteStore::new(conn).with_table_name("").is_err());
}

#[test]
fn a_store_without_its_table_reports_backend_errors() {
    let conn = Connection::open_in_memory().unwrap();
    let mut store = RusqliteStore::new(conn);
    let mut record = Record { id: Id(5), data: vec![1], expiry_date: minutes_from_now(30) };
    assert!(matches!(store.save(&record), Err(SessionStoreError::Backend(_))));
    assert!(matches!(store.create(&mut record), Err(SessionStoreError::Backend(_))));
    assert_eq!(record.id, Id(5));
    assert!(matches!(store.load(&Id(5)), Err(SessionStoreError::Backend(_))));
    assert!(matches!(store.delete(&Id(5)), Err(SessionStoreError::Backend(_))));
    assert!(matches!(store.delete_expired(), Err(SessionStoreError::Backend(_))));
}

#[test]
fn migrate_may_be_run_again() {
    let mut store = create_store();
    let record = Record { id: Id(5), data: vec![1], expiry_date: minutes_from_now(30) };
    store.save(&record).unwrap();
    assert!(store.migrate().is_ok());
    assert_eq!(store.load(&Id(5)).unwrap(), Some(record));
}

#[test]
fn a_failed_migrate_is_a_backend_error() {
    let conn = Connection::open_in_memory().unwrap();
    let mut store = RusqliteStore::new(conn).with_table_name("my-sessions").unwrap();
    assert!(matches!(store.migrate(), Err(SessionStoreError::Backend(_))));
}
