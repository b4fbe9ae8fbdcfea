use tower_sessions_rusqlite_store::sql::{
    create_table_sql, delete_expired_sql, delete_sql, id_exists_sql, select_live_sql, upsert_sql,
};
use tower_sessions_rusqlite_store::TableName;

#[test]
fn statements_are_fixed_text_around_the_table_name() {
    let table = TableName::new("my_sessions").unwrap();
    assert_eq!(
        create_table_sql(&table),
        "create table if not exists my_sessions (id text primary key not null, data blob not \
         null, expiry_date integer not null)"
    );
    assert_eq!(
        id_exists_sql(&table),
        "select exists(select 1 from my_sessions where id = ?1)"
    );
    assert_eq!(
        upsert_sql(&table),
        "insert into my_sessions (id, data, expiry_date) values (?1, ?2, ?3) on conflict(id) do \
         update set data = ?2, expiry_date = ?3"
    );
    assert_eq!(
        select_live_sql(&table),
        "select data from my_sessions where id = ?1 and expiry_date > ?2"
    );
    assert_eq!(delete_sql(&table), "delete from my_sessions where id = ?1");
    assert_eq!(
        delete_expired_sql(&table),
        "delete from my_sessions where expiry_date < ?1"
    );
}

#[test]
fn statements_for_the_default_table() {
    let table = TableName::default();
    assert_eq!(delete_sql(&table), "delete from tower_sessions where id = ?1");
}
