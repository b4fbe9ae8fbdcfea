//! The operations of the store, on a connection and a table name.
//!
//! Each contract says what the operation makes of the rows of the session
//! table, where the connection has one under the name, and which errors it
//! may return. Whether a statement succeeds is the database's to decide, so
//! no contract promises success; each says what holds when it comes.

use vstd::prelude::*;
use crate::codec;
use crate::codec::{decoding, encoding};
use crate::db::{
    begin_transaction, clock_reading, execute, execute_batch, execute_with_id, execute_with_row,
    execute_with_time, has_table, query_flag, query_payload, rows_of, schema_names,
    session_tables, unix_now,
};
use crate::error::RusqliteStoreError;
use crate::record::{Id, Record, RecordView, id_text};
use crate::rows::{Rows, Tables, created, holds, no_rows, removed, swept, upserted, visible};
use crate::sql::{
    create_table_sql, delete_expired_sql, delete_sql, id_exists_sql, select_live_sql, upsert_sql,
};
use crate::table_name::TableName;

verus! {

/// How many ids `unused_id` draws at most, after the one it is given.
pub const MAX_ID_DRAWS: u64 = 0xffff_ffff_ffff_ffff;

/// A successful `create`: `kept` is the record `given` under an id that no
/// row had, it has an encoding, and `after` is `before` with the row for it
/// added. The id is the given one where that was free.
pub open spec fn inserted(before: Rows, after: Rows, given: RecordView, kept: RecordView) -> bool {
    &&& kept == given.with_id(kept.id)
    &&& encoding(kept) is Some
    &&& created(before, after, id_text(kept.id), encoding(kept)->0, kept.expiry_date)
    &&& !before.dom().contains(id_text(given.id)) ==> kept.id == given.id
}

/// A successful `save`: the record has an encoding, and `after` is `before`
/// with the row for it in place of any row of the same id.
pub open spec fn saved(before: Rows, after: Rows, record: RecordView) -> bool {
    &&& encoding(record) is Some
    &&& after == upserted(before, id_text(record.id), encoding(record)->0, record.expiry_date)
}

/// A successful `delete`: `after` is `before` without the row of the id.
pub open spec fn deleted(before: Rows, after: Rows, id: i128) -> bool {
    after == removed(before, id_text(id))
}

/// What `migrate` has made of the tables when it returns `Ok`: an empty
/// session table where nothing had the name, and no change where a session
/// table had it.
pub open spec fn migrated(
    names_before: Set<Seq<char>>,
    before: Tables,
    after: Tables,
    table: Seq<char>,
) -> bool {
    &&& !names_before.contains(table) ==> holds(after, table, no_rows())
    &&& before.dom().contains(table) ==> holds(after, table, before[table])
}

/// Makes sure that the session table exists.
///
/// The statement creates the table only where the name is free, so it may be
/// run any number of times. An error is the database's.
pub fn migrate(conn: &mut rusqlite::Connection, table: &TableName) -> (result: Result<
    (),
    RusqliteStoreError,
>)
    ensures
        match result {
            Ok(()) => migrated(
                schema_names(*old(conn)),
                session_tables(*old(conn)),
                session_tables(*final(conn)),
                table@,
            ),
            Err(error) => error is Rusqlite,
        },
{
    let query = create_table_sql(table);
    match execute(conn, query.as_str()) {
        Ok(_) => Ok(()),
        Err(error) => Err(RusqliteStoreError::Rusqlite(error.to_string())),
    }
}

/// Whether a row of the table has the id, expired or not.
pub fn id_exists_with_conn(conn: &rusqlite::Connection, table_name: &TableName, id: &Id) -> (result:
    Result<bool, rusqlite::Error>)
    ensures
        result matches Ok(found) ==> (has_table(*conn, table_name@) ==> found == rows_of(
            *conn,
            table_name@,
        ).dom().contains(id_text(id.0))),
{
    let query = id_exists_sql(table_name);
    let key = id.text();
    query_flag(conn, query.as_str(), key.as_str())
}

/// Writes the row for `record` with `record_data` as its payload, in place
/// of any row that has the record's id, and returns the number of rows that
/// it has written, which is one.
pub fn save_with_conn(
    conn: &mut rusqlite::Connection,
    table_name: &TableName,
    record: &Record,
    record_data: &[u8],
) -> (result: Result<usize, rusqlite::Error>)
    ensures
        result matches Ok(count) ==> (has_table(*old(conn), table_name@) ==> {
            &&& count == 1
            &&& holds(
                session_tables(*final(conn)),
                table_name@,
                upserted(
                    rows_of(*old(conn), table_name@),
                    id_text(record.id.0),
                    record_data@,
                    record.expiry_date,
                ),
            )
        }),
{
    let query = upsert_sql(table_name);
    let key = record.id.text();
    execute_with_row(conn, query.as_str(), key.as_str(), record_data, record.expiry_date)
}

/// What a search for an unused id does once it knows whether its candidate
/// is taken.
#[derive(Clone, Copy, Debug, PartialEq, Eq, Structural)]
pub enum Step {
    /// The candidate is free: the search ends with it.
    Take(Id),
    /// The candidate is taken: another is drawn.
    DrawAgain,
    /// The candidate is taken, and no further one is drawn.
    GiveUp,
}

/// The step that follows a lookup: `candidate` is taken if no row has it,
/// and else another id is drawn, unless `draws` ids have been drawn already
/// and that is the most.
pub open spec fn step_after(candidate: Id, found: bool, draws: u64) -> Step {
    if !found {
        Step::Take(candidate)
    } else if draws == MAX_ID_DRAWS {
        Step::GiveUp
    } else {
        Step::DrawAgain
    }
}

/// Decides how a search for an unused id goes on after a lookup has told
/// whether a row has `candidate`, when `draws` ids have been drawn so far.
pub fn after_lookup(candidate: Id, found: bool, draws: u64) -> (step: Step)
    ensures
        step == step_after(candidate, found, draws),
{
    if !found {
        Step::Take(candidate)
    } else if draws == MAX_ID_DRAWS {
        Step::GiveUp
    } else {
        Step::DrawAgain
    }
}

/// Finds an id that no row of the table has: `first` if it is free, else
/// one that is drawn at random.
///
/// A row counts whether it has expired or not. Each candidate is looked up,
/// and [`after_lookup`] decides what follows. The search fails with an
/// `Other` error when a lookup fails, or when it gives up.
pub fn unused_id(conn: &rusqlite::Connection, table: &TableName, first: Id) -> (result: Result<
    Id,
    RusqliteStoreError,
>)
    ensures
        match result {
            Ok(id) => has_table(*conn, table@) ==> {
                &&& !rows_of(*conn, table@).dom().contains(id_text(id.0))
                &&& !rows_of(*conn, table@).dom().contains(id_text(first.0)) ==> id == first
            },
            Err(error) => error is Other,
        },
{
    let mut candidate = first;
    let mut draws: u64 = 0;
    loop
        invariant
            draws == 0 ==> candidate == first,
            draws > 0 && has_table(*conn, table@) ==> rows_of(*conn, table@).dom().contains(
                id_text(first.0),
            ),
        decreases MAX_ID_DRAWS - draws,
    {
        let found = match id_exists_with_conn(conn, table, &candidate) {
            Ok(found) => found,
            Err(error) => {
                return Err(RusqliteStoreError::Other(error.to_string()));
            },
        };
        match after_lookup(candidate, found, draws) {
            Step::Take(id) => {
                return Ok(id);
            },
            Step::GiveUp => {
                return Err(RusqliteStoreError::Other("no unused session id was found".to_owned()));
            },
            Step::DrawAgain => {
                draws = draws + 1;
                candidate = Id::random();
            },
        }
    }
}

/// Stores a new record under an id that no row has yet, and writes that id
/// to the record.
///
/// The search for the id and the insertion run in one transaction. On an
/// error the transaction is rolled back and the record is left as it was.
pub fn create(conn: &mut rusqlite::Connection, table: &TableName, record: &mut Record) -> (result:
    Result<(), RusqliteStoreError>)
    ensures
        final(record)@ == old(record)@.with_id(final(record).id.0),
        match result {
            Ok(()) => {
                &&& encoding(final(record)@) is Some
                &&& has_table(*old(conn), table@) ==> has_table(*final(conn), table@) && inserted(
                    rows_of(*old(conn), table@),
                    rows_of(*final(conn), table@),
                    old(record)@,
                    final(record)@,
                )
            },
            Err(error) => {
                &&& final(record).id == old(record).id
                &&& error is Encode || error is Other
                &&& error is Encode ==> exists|id: i128| encoding(old(record)@.with_id(id)) is None
            },
        },
{
    let first = record.id;
    match begin_transaction(conn) {
        Ok(()) => {},
        Err(error) => {
            return Err(RusqliteStoreError::Other(error.to_string()));
        },
    }
    let id = match unused_id(conn, table, first) {
        Ok(id) => id,
        Err(error) => {
            let _ = execute_batch(conn, "ROLLBACK");
            return Err(error);
        },
    };
    record.id = id;
    let record_data = match codec::encode(record) {
        Ok(bytes) => bytes,
        Err(error) => {
            assert(encoding(old(record)@.with_id(id.0)) is None);
            record.id = first;
            let _ = execute_batch(conn, "ROLLBACK");
            return Err(error);
        },
    };
    match save_with_conn(conn, table, record, record_data.as_slice()) {
        Ok(_) => {},
        Err(error) => {
            record.id = first;
            let _ = execute_batch(conn, "ROLLBACK");
            return Err(RusqliteStoreError::Other(error.to_string()));
        },
    }
    match execute_batch(conn, "COMMIT") {
        Ok(()) => Ok(()),
        Err(error) => {
            record.id = first;
            let _ = execute_batch(conn, "ROLLBACK");
            Err(RusqliteStoreError::Other(error.to_string()))
        },
    }
}

/// Stores the record under its own id, in place of the row that has this id
/// if there is one.
///
/// The record is encoded before the database is touched: a record without
/// an encoding gives an `Encode` error and leaves the connection alone.
/// Any other error is the database's.
pub fn save(conn: &mut rusqlite::Connection, table: &TableName, record: &Record) -> (result:
    Result<(), RusqliteStoreError>)
    ensures
        match result {
            Ok(()) => {
                &&& encoding(record@) is Some
                &&& has_table(*old(conn), table@) ==> has_table(*final(conn), table@) && saved(
                    rows_of(*old(conn), table@),
                    rows_of(*final(conn), table@),
                    record@,
                )
            },
            Err(error) => if encoding(record@) is None {
                error is Encode && *final(conn) == *old(conn)
            } else {
                error is Rusqlite
            },
        },
{
    let record_data = match codec::encode(record) {
        Ok(bytes) => bytes,
        Err(error) => {
            return Err(error);
        },
    };
    match save_with_conn(conn, table, record, record_data.as_slice()) {
        Ok(_) => Ok(()),
        Err(error) => Err(RusqliteStoreError::Rusqlite(error.to_string())),
    }
}

/// What the rows hold for a reader who asks for `id` at time `now`.
pub enum Stored {
    /// No row has the id, or the row that has it expires at `now` or before.
    Absent,
    /// The row expires after `now`, and its payload is this record.
    Present(RecordView),
    /// The row expires after `now`, and its payload is no record.
    Corrupt,
}

/// What `rows` hold for a reader who asks for `id` at time `now`.
pub open spec fn stored(rows: Rows, id: i128, now: i64) -> Stored {
    match visible(rows, id_text(id), now) {
        Some(bytes) => match decoding(bytes) {
            Some(record) => Stored::Present(record),
            None => Stored::Corrupt,
        },
        None => Stored::Absent,
    }
}

/// What `load_at` returns for the given tables: the record that is stored
/// for the reader, nothing where none is, and a `Decode` error only for a
/// payload that is no record. Any other error is the database's.
pub open spec fn loaded(
    tables: Tables,
    table: Seq<char>,
    id: i128,
    now: i64,
    result: Result<Option<Record>, RusqliteStoreError>,
) -> bool {
    match result {
        Ok(found) => tables.dom().contains(table) ==> match stored(tables[table], id, now) {
            Stored::Present(record) => found is Some && found->0@ == record,
            Stored::Absent => found is None,
            Stored::Corrupt => false,
        },
        Err(error) => {
            ||| error is Rusqlite
            ||| error is Decode && (tables.dom().contains(table) ==> stored(tables[table], id, now)
                is Corrupt)
        },
    }
}

/// Loads the record with the given id as a reader at time `now` sees it.
pub fn load_at(conn: &rusqlite::Connection, table: &TableName, id: &Id, now: i64) -> (result:
    Result<Option<Record>, RusqliteStoreError>)
    ensures
        loaded(session_tables(*conn), table@, id.0, now, result),
{
    let query = select_live_sql(table);
    let key = id.text();
    match query_payload(conn, query.as_str(), key.as_str(), now) {
        Ok(Some(bytes)) => match codec::decode(bytes.as_slice()) {
            Ok(record) => Ok(Some(record)),
            Err(error) => Err(error),
        },
        Ok(None) => Ok(None),
        Err(error) => Err(RusqliteStoreError::Rusqlite(error.to_string())),
    }
}

/// Loads the record with the given id as a reader sees it now: at a time
/// that the clock can read.
pub fn load(conn: &rusqlite::Connection, table: &TableName, id: &Id) -> (result: Result<
    Option<Record>,
    RusqliteStoreError,
>)
    ensures
        exists|now: i64|
            clock_reading(now) && loaded(session_tables(*conn), table@, id.0, now, result),
{
    let now = unix_now();
    let result = load_at(conn, table, id, now);
    assert(clock_reading(now) && loaded(session_tables(*conn), table@, id.0, now, result));
    result
}

/// Deletes the row with the given id, if there is one.
pub fn delete(conn: &mut rusqlite::Connection, table: &TableName, id: &Id) -> (result: Result<
    (),
    RusqliteStoreError,
>)
    ensures
        match result {
            Ok(()) => has_table(*old(conn), table@) ==> has_table(*final(conn), table@) && deleted(
                rows_of(*old(conn), table@),
                rows_of(*final(conn), table@),
                id.0,
            ),
            Err(error) => error is Rusqlite,
        },
{
    let query = delete_sql(table);
    let key = id.text();
    match execute_with_id(conn, query.as_str(), key.as_str()) {
        Ok(_) => Ok(()),
        Err(error) => Err(RusqliteStoreError::Rusqlite(error.to_string())),
    }
}

/// What `delete_expired_at` has made of the tables when it returns: on
/// success the rows that expire before `now` are gone and the others are
/// as they were.
pub open spec fn expired_deleted(
    before: Tables,
    after: Tables,
    table: Seq<char>,
    now: i64,
    result: Result<(), RusqliteStoreError>,
) -> bool {
    match result {
        Ok(()) => before.dom().contains(table) ==> holds(after, table, swept(before[table], now)),
        Err(error) => error is Rusqlite,
    }
}

/// Deletes the rows that have expired before `now`.
pub fn delete_expired_at(conn: &mut rusqlite::Connection, table: &TableName, now: i64) -> (result:
    Result<(), RusqliteStoreError>)
    ensures
        expired_deleted(
            session_tables(*old(conn)),
            session_tables(*final(conn)),
            table@,
            now,
            result,
        ),
{
    let query = delete_expired_sql(table);
    match execute_with_time(conn, query.as_str(), now) {
        Ok(_) => Ok(()),
        Err(error) => Err(RusqliteStoreError::Rusqlite(error.to_string())),
    }
}

/// Deletes the rows that have expired before now: before a time that the
/// clock can read.
pub fn delete_expired(conn: &mut rusqlite::Connection, table: &TableName) -> (result: Result<
    (),
    RusqliteStoreError,
>)
    ensures
        exists|now: i64|
            clock_reading(now) && expired_deleted(
                session_tables(*old(conn)),
                session_tables(*final(conn)),
                table@,
                now,
                result,
            ),
{
    let now = unix_now();
    let result = delete_expired_at(conn, table, now);
    assert(clock_reading(now) && expired_deleted(
        session_tables(*old(conn)),
        session_tables(*conn),
        table@,
        now,
        result,
    ));
    result
}

} // verus!
