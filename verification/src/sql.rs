//! The text of the store's statements.
//!
//! A statement is fixed text around the table name. Nothing else is ever
//! written into one: ids, payloads and times are bound as parameters. No
//! statement puts a table's name, or any other word, before the name of a
//! column, so that the table's name stands for the table and for nothing
//! else, whatever it is.

use vstd::prelude::*;
use crate::table_name::{TableName, valid_table_name};

verus! {

/// The statement that creates the session table unless the name is taken.
pub open spec fn create_table_statement(table: Seq<char>) -> Seq<char> {
    "create table if not exists "@ + table
        + " (id text primary key not null, data blob not null, expiry_date integer not null)"@
}

/// The query for whether a row has the id bound as `?1`.
pub open spec fn id_exists_statement(table: Seq<char>) -> Seq<char> {
    "select exists(select 1 from "@ + table + " where id = ?1)"@
}

/// The statement that inserts the row `(?1, ?2, ?3)`, or overwrites the
/// payload and the expiry of the row that has the id `?1`.
pub open spec fn upsert_statement(table: Seq<char>) -> Seq<char> {
    "insert into "@ + table
        + " (id, data, expiry_date) values (?1, ?2, ?3) on conflict(id) do update set data = ?2, expiry_date = ?3"@
}

/// The query for the payload of the row with the id `?1`, if it expires
/// after `?2`.
pub open spec fn select_live_statement(table: Seq<char>) -> Seq<char> {
    "select data from "@ + table + " where id = ?1 and expiry_date > ?2"@
}

/// The statement that deletes the row with the id `?1`.
pub open spec fn delete_statement(table: Seq<char>) -> Seq<char> {
    "delete from "@ + table + " where id = ?1"@
}

/// The statement that deletes the rows that expire before `?1`.
pub open spec fn delete_expired_statement(table: Seq<char>) -> Seq<char> {
    "delete from "@ + table + " where expiry_date < ?1"@
}

/// `head`, the table name and `tail`, in this order.
fn around(head: &str, table: &TableName, tail: &str) -> (sql: String)
    ensures
        sql@ == head@ + table@ + tail@,
        valid_table_name(table@),
{
    let mut sql = head.to_owned();
    sql.append(table.as_str());
    sql.append(tail);
    sql
}

/// The text of [`create_table_statement`] for the table.
pub fn create_table_sql(table: &TableName) -> (sql: String)
    ensures
        sql@ == create_table_statement(table@),
        valid_table_name(table@),
{
    around(
        "create table if not exists ",
        table,
        " (id text primary key not null, data blob not null, expiry_date integer not null)",
    )
}

/// The text of [`id_exists_statement`] for the table.
pub fn id_exists_sql(table: &TableName) -> (sql: String)
    ensures
        sql@ == id_exists_statement(table@),
        valid_table_name(table@),
{
    around("select exists(select 1 from ", table, " where id = ?1)")
}

/// The text of [`upsert_statement`] for the table.
pub fn upsert_sql(table: &TableName) -> (sql: String)
    ensures
        sql@ == upsert_statement(table@),
        valid_table_name(table@),
{
    around(
        "insert into ",
        table,
        " (id, data, expiry_date) values (?1, ?2, ?3) on conflict(id) do update set data = ?2, expiry_date = ?3",
    )
}

/// The text of [`select_live_statement`] for the table.
pub fn select_live_sql(table: &TableName) -> (sql: String)
    ensures
        sql@ == select_live_statement(table@),
        valid_table_name(table@),
{
    around("select data from ", table, " where id = ?1 and expiry_date > ?2")
}

/// The text of [`delete_statement`] for the table.
pub fn delete_sql(table: &TableName) -> (sql: String)
    ensures
        sql@ == delete_statement(table@),
        valid_table_name(table@),
{
    around("delete from ", table, " where id = ?1")
}

/// The text of [`delete_expired_statement`] for the table.
pub fn delete_expired_sql(table: &TableName) -> (sql: String)
    ensures
        sql@ == delete_expired_statement(table@),
        valid_table_name(table@),
{
    around("delete from ", table, " where expiry_date < ?1")
}

} // verus!
