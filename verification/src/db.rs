//! The calls into `rusqlite`, and what SQLite is taken to do with the
//! store's statements.
//!
//! Nothing in this file is proved. Each function makes one call, and its
//! contract records what SQLite documents of the statement that is handed
//! to it, in terms of [`session_tables`]. The functions take no other
//! statement than the store's own, with a valid table name in it. A
//! contract speaks only of a call that succeeded, and only of a table that
//! is a session table: SQLite may fail any statement, and a table of
//! another shape under the same name is none of the store's.
//!
//! The table name is written into a statement as it is. Where a statement
//! runs at all, SQLite reads a valid name as the name of the table: the
//! statements give it no other place to stand in, and none of them puts a
//! name before a column. With a hyphen in the name no statement runs: SQLite
//! refuses the text, or, where two hyphens make a comment of the rest,
//! `rusqlite` refuses the parameters that the statement no longer takes.

use vstd::prelude::*;
use crate::rows::{Rows, Tables, holds, no_rows, removed, swept, upserted, visible};
use crate::sql::{
    create_table_statement, delete_expired_statement, delete_statement, id_exists_statement,
    select_live_statement, upsert_statement,
};
use crate::table_name::valid_table_name;

verus! {

/// `rusqlite::Connection`, a connection to a SQLite database.
#[verifier::external_type_specification]
#[verifier::external_body]
pub struct ExConnection(rusqlite::Connection);

/// `rusqlite::Error`, the error of a call that failed.
#[verifier::external_type_specification]
#[verifier::external_body]
pub struct ExSqliteError(rusqlite::Error);

/// The session tables that the connection sees, each with its rows, under
/// the names by which a statement reaches them.
///
/// A session table is a table of the main or the temporary schema with the
/// columns `id text primary key not null`, `data blob not null` and
/// `expiry_date integer not null`, and nothing attached that acts on a
/// change of its rows. The rows are those that a statement on this
/// connection reads, so within a transaction they include what it has
/// written. The database is taken to change through this connection only.
pub uninterp spec fn session_tables(conn: rusqlite::Connection) -> Tables;

/// The names under which the connection finds some table, view or index, in
/// any schema.
pub uninterp spec fn schema_names(conn: rusqlite::Connection) -> Set<Seq<char>>;

/// Whether the connection sees a session table under `table_name`.
pub open spec fn has_table(conn: rusqlite::Connection, table_name: Seq<char>) -> bool {
    session_tables(conn).dom().contains(table_name)
}

/// The rows of the session table that the connection sees under
/// `table_name`.
pub open spec fn rows_of(conn: rusqlite::Connection, table_name: Seq<char>) -> Rows {
    session_tables(conn)[table_name]
}

/// What a query for a payload found, as mathematics.
pub open spec fn payload(found: Option<Vec<u8>>) -> Option<Seq<u8>> {
    match found {
        Some(bytes) => Some(bytes@),
        None => None,
    }
}

/// `Connection::execute` for a statement without parameters.
///
/// Of `create table if not exists`: where nothing had the name, the
/// statement makes an empty session table; where the name was a session
/// table's, it changes nothing.
#[verifier::external_body]
pub(crate) fn execute(conn: &mut rusqlite::Connection, sql: &str) -> (result: Result<
    usize,
    rusqlite::Error,
>)
    requires
        exists|table: Seq<char>|
            #![trigger create_table_statement(table)]
            valid_table_name(table) && sql@ == create_table_statement(table),
    ensures
        forall|table: Seq<char>|
            #![trigger create_table_statement(table)]
            result is Ok && valid_table_name(table) && sql@ == create_table_statement(table)
                && !schema_names(*old(conn)).contains(table) ==> holds(
                session_tables(*final(conn)),
                table,
                no_rows(),
            ),
        forall|table: Seq<char>|
            #![trigger create_table_statement(table)]
            result is Ok && valid_table_name(table) && sql@ == create_table_statement(table)
                && session_tables(*old(conn)).dom().contains(table) ==> holds(
                session_tables(*final(conn)),
                table,
                session_tables(*old(conn))[table],
            ),
{
    conn.execute(sql, ())
}

/// `Connection::execute` for a statement with an id, a payload and a time
/// as its parameters.
///
/// Of the upsert: the row is inserted, or, where the id is taken, its two
/// other columns are overwritten. No other row changes, and the count of
/// changed rows that is returned is one.
#[verifier::external_body]
pub(crate) fn execute_with_row(
    conn: &mut rusqlite::Connection,
    sql: &str,
    id: &str,
    data: &[u8],
    expiry_date: i64,
) -> (result: Result<usize, rusqlite::Error>)
    requires
        exists|table: Seq<char>|
            #![trigger upsert_statement(table)]
            valid_table_name(table) && sql@ == upsert_statement(table),
    ensures
        forall|table: Seq<char>|
            #![trigger upsert_statement(table)]
            result is Ok && valid_table_name(table) && sql@ == upsert_statement(table)
                && session_tables(*old(conn)).dom().contains(table) ==> holds(
                session_tables(*final(conn)),
                table,
                upserted(session_tables(*old(conn))[table], id@, data@, expiry_date),
            ),
        forall|table: Seq<char>|
            #![trigger upsert_statement(table)]
            valid_table_name(table) && sql@ == upsert_statement(table) && session_tables(
                *old(conn),
            ).dom().contains(table) ==> (result matches Ok(count) ==> count == 1),
{
    conn.execute(sql, (id, data, expiry_date))
}

/// `Connection::execute` for a statement with an id as its parameter.
///
/// Of the delete by id: the row with the id is gone, if there was one, and
/// no other row changes.
#[verifier::external_body]
pub(crate) fn execute_with_id(conn: &mut rusqlite::Connection, sql: &str, id: &str) -> (result:
    Result<usize, rusqlite::Error>)
    requires
        exists|table: Seq<char>|
            #![trigger delete_statement(table)]
            valid_table_name(table) && sql@ == delete_statement(table),
    ensures
        forall|table: Seq<char>|
            #![trigger delete_statement(table)]
            result is Ok && valid_table_name(table) && sql@ == delete_statement(table)
                && session_tables(*old(conn)).dom().contains(table) ==> holds(
                session_tables(*final(conn)),
                table,
                removed(session_tables(*old(conn))[table], id@),
            ),
{
    conn.execute(sql, (id,))
}

/// `Connection::execute` for a statement with a time as its parameter.
///
/// Of the delete by expiry: the rows that expire before `now` are gone, and
/// no other row changes.
#[verifier::external_body]
pub(crate) fn execute_with_time(conn: &mut rusqlite::Connection, sql: &str, now: i64) -> (result:
    Result<usize, rusqlite::Error>)
    requires
        exists|table: Seq<char>|
            #![trigger delete_expired_statement(table)]
            valid_table_name(table) && sql@ == delete_expired_statement(table),
    ensures
        forall|table: Seq<char>|
            #![trigger delete_expired_statement(table)]
            result is Ok && valid_table_name(table) && sql@ == delete_expired_statement(table)
                && session_tables(*old(conn)).dom().contains(table) ==> holds(
                session_tables(*final(conn)),
                table,
                swept(session_tables(*old(conn))[table], now),
            ),
{
    conn.execute(sql, (now,))
}

/// `Connection::query_row` for a query with an id as its parameter and a
/// truth value in its first column.
///
/// Of `select exists(..)`: whether the table has a row with the id, expired
/// or not.
#[verifier::external_body]
pub(crate) fn query_flag(conn: &rusqlite::Connection, sql: &str, id: &str) -> (result: Result<
    bool,
    rusqlite::Error,
>)
    requires
        exists|table: Seq<char>|
            #![trigger id_exists_statement(table)]
            valid_table_name(table) && sql@ == id_exists_statement(table),
    ensures
        forall|table: Seq<char>|
            #![trigger id_exists_statement(table)]
            valid_table_name(table) && sql@ == id_exists_statement(table) && session_tables(
                *conn,
            ).dom().contains(table) ==> (result matches Ok(found) ==> found == session_tables(
                *conn,
            )[table].dom().contains(id@)),
{
    conn.query_row(sql, (id,), |row| row.get(0))
}

/// `Connection::query_row` for a query with an id and a time as its
/// parameters and a payload in its first column, made optional by
/// `OptionalExtension::optional`.
///
/// Of `select data`: the payload of the row with the id if it expires after
/// `now`, and `None` where there is no such row.
#[verifier::external_body]
pub(crate) fn query_payload(conn: &rusqlite::Connection, sql: &str, id: &str, now: i64) -> (result:
    Result<Option<Vec<u8>>, rusqlite::Error>)
    requires
        exists|table: Seq<char>|
            #![trigger select_live_statement(table)]
            valid_table_name(table) && sql@ == select_live_statement(table),
    ensures
        forall|table: Seq<char>|
            #![trigger select_live_statement(table)]
            valid_table_name(table) && sql@ == select_live_statement(table) && session_tables(
                *conn,
            ).dom().contains(table) ==> (result matches Ok(found) ==> payload(found) == visible(
                session_tables(*conn)[table],
                id@,
                now,
            )),
{
    rusqlite::OptionalExtension::optional(
        conn.query_row(sql, (id, now), |row| row.get::<_, Vec<u8>>(0)),
    )
}

/// `Connection::transaction`, which begins a transaction as the connection
/// is set to begin them, and `Transaction::set_drop_behavior` with
/// `DropBehavior::Ignore`, so that the guard leaves the transaction open
/// when it goes.
///
/// To begin a transaction changes no row that the connection sees.
#[verifier::external_body]
pub(crate) fn begin_transaction(conn: &mut rusqlite::Connection) -> (result: Result<
    (),
    rusqlite::Error,
>)
    ensures
        result is Ok ==> session_tables(*final(conn)) == session_tables(*old(conn)),
{
    let mut transaction = conn.transaction()?;
    transaction.set_drop_behavior(rusqlite::DropBehavior::Ignore);
    Ok(())
}

/// `Connection::execute_batch`, for the two statements that a
/// `rusqlite::Transaction` ends with.
///
/// Of `COMMIT`: where it succeeds, the connection goes on seeing the rows
/// that it saw within the transaction. Of `ROLLBACK` nothing is claimed.
#[verifier::external_body]
pub(crate) fn execute_batch(conn: &mut rusqlite::Connection, sql: &str) -> (result: Result<
    (),
    rusqlite::Error,
>)
    requires
        sql@ == "COMMIT"@ || sql@ == "ROLLBACK"@,
    ensures
        result is Ok && sql@ == "COMMIT"@ ==> session_tables(*final(conn)) == session_tables(
            *old(conn),
        ),
{
    conn.execute_batch(sql)
}

/// The least number that the clock can read: the first second of the
/// earliest year that `time` holds, with its range at its widest.
pub const EARLIEST_CLOCK_READING: i64 = -31_619_087_596_800;

/// The greatest number that the clock can read: the last second of the
/// latest year that `time` holds, with its range at its widest.
pub const LATEST_CLOCK_READING: i64 = 31_494_784_780_799;

/// Whether `now` is a number that the clock can read.
pub open spec fn clock_reading(now: i64) -> bool {
    EARLIEST_CLOCK_READING <= now <= LATEST_CLOCK_READING
}

/// `time::OffsetDateTime::now_utc().unix_timestamp()`: the clock's reading
/// in Unix seconds.
///
/// Which second it is is not known. It is a second of a date that `time`
/// holds, and `time` holds no year beyond 999,999 either way.
#[verifier::external_body]
pub(crate) fn unix_now() -> (now: i64)
    ensures
        clock_reading(now),
{
    time::OffsetDateTime::now_utc().unix_timestamp()
}

} // verus!
