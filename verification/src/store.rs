//! The store: a connection to a SQLite database and the name of the session
//! table in it.

use vstd::prelude::*;
use crate::codec::encoding;
use crate::db::{clock_reading, schema_names, session_tables};
use crate::error::SessionStoreError;
use crate::ops;
use crate::ops::{Stored, deleted, inserted, migrated, saved, stored};
use crate::record::{Id, Record};
use crate::rows::{Rows, Tables, swept};
use crate::table_name::{
    DEFAULT_TABLE_NAME, TableName, invalid_table_name_message, invalid_table_name_text,
    valid_table_name,
};

verus! {

/// A session store on one table of a SQLite database.
#[derive(Debug)]
pub struct RusqliteStore {
    conn: rusqlite::Connection,
    table_name: TableName,
}

/// What a load from the store returns for the given rows: the record that is
/// stored for the reader, nothing where none is, and a `Decode` error only
/// for a payload that is no record. Any other error is a `Backend` error.
pub open spec fn served(
    has_table: bool,
    rows: Rows,
    id: i128,
    now: i64,
    result: Result<Option<Record>, SessionStoreError>,
) -> bool {
    match result {
        Ok(found) => has_table ==> match stored(rows, id, now) {
            Stored::Present(record) => found is Some && found->0@ == record,
            Stored::Absent => found is None,
            Stored::Corrupt => false,
        },
        Err(error) => {
            ||| error is Backend
            ||| error is Decode && (has_table ==> stored(rows, id, now) is Corrupt)
        },
    }
}

/// What a sweep at `now` has made of the store's rows when it returns: on
/// success the rows that expire before `now` are gone and the others are as
/// they were. An error is a `Backend` error.
pub open spec fn cleared(
    has_table: bool,
    before: Rows,
    after: RusqliteStore,
    now: i64,
    result: Result<(), SessionStoreError>,
) -> bool {
    match result {
        Ok(()) => has_table ==> after.has_table() && after.rows() == swept(before, now),
        Err(error) => error is Backend,
    }
}

impl RusqliteStore {
    /// The name of the session table.
    pub closed spec fn table_name(&self) -> Seq<char> {
        self.table_name@
    }

    /// The session tables that the store's connection sees.
    pub closed spec fn tables(&self) -> Tables {
        session_tables(self.conn)
    }

    /// The names that are taken in the store's database.
    pub closed spec fn names(&self) -> Set<Seq<char>> {
        schema_names(self.conn)
    }

    /// Whether the store's table is there, as a session table.
    pub open spec fn has_table(&self) -> bool {
        self.tables().dom().contains(self.table_name())
    }

    /// The rows of the store's table.
    pub open spec fn rows(&self) -> Rows {
        self.tables()[self.table_name()]
    }

    /// A store on the given connection, with the default table name.
    pub fn new(conn: rusqlite::Connection) -> (store: Self)
        ensures
            store.table_name() == DEFAULT_TABLE_NAME@,
            store.tables() == session_tables(conn),
            store.names() == schema_names(conn),
    {
        Self { conn, table_name: TableName::default() }
    }

    /// The same store with another table name, if the name is valid;
    /// otherwise the message that says what a table name may hold.
    pub fn with_table_name(self, table_name: &str) -> (result: Result<Self, String>)
        ensures
            match result {
                Ok(store) => {
                    &&& valid_table_name(table_name@)
                    &&& store.table_name() == table_name@
                    &&& store.tables() == self.tables()
                    &&& store.names() == self.names()
                },
                Err(message) => {
                    &&& !valid_table_name(table_name@)
                    &&& message@ == invalid_table_name_text(table_name@)
                },
            },
    {
        match TableName::new(table_name) {
            Some(name) => Ok(Self { conn: self.conn, table_name: name }),
            None => Err(invalid_table_name_message(table_name)),
        }
    }

    /// Makes sure that the session table exists. May be run on every start.
    /// An error is the database's, and is reported as a `Backend` error.
    pub fn migrate(&mut self) -> (result: Result<(), SessionStoreError>)
        ensures
            final(self).table_name() == old(self).table_name(),
            match result {
                Ok(()) => migrated(
                    old(self).names(),
                    old(self).tables(),
                    final(self).tables(),
                    old(self).table_name(),
                ),
                Err(error) => error is Backend,
            },
    {
        match ops::migrate(&mut self.conn, &self.table_name) {
            Ok(()) => Ok(()),
            Err(error) => Err(SessionStoreError::from(error)),
        }
    }

    /// Stores a new record under an id that no row has yet, and writes that
    /// id to the record. On an error the record is left as it was.
    pub fn create(&mut self, record: &mut Record) -> (result: Result<(), SessionStoreError>)
        ensures
            final(self).table_name() == old(self).table_name(),
            final(record)@ == old(record)@.with_id(final(record).id.0),
            match result {
                Ok(()) => {
                    &&& encoding(final(record)@) is Some
                    &&& old(self).has_table() ==> final(self).has_table() && inserted(
                        old(self).rows(),
                        final(self).rows(),
                        old(record)@,
                        final(record)@,
                    )
                },
                Err(error) => {
                    &&& final(record).id == old(record).id
                    &&& error is Encode || error is Backend
                    &&& error is Encode ==> exists|id: i128|
                        encoding(old(record)@.with_id(id)) is None
                },
            },
    {
        match ops::create(&mut self.conn, &self.table_name, record) {
            Ok(()) => Ok(()),
            Err(error) => Err(SessionStoreError::from(error)),
        }
    }

    /// Stores the record under its own id, in place of the row that has
    /// this id if there is one. A record without an encoding gives an
    /// `Encode` error and changes nothing.
    pub fn save(&mut self, record: &Record) -> (result: Result<(), SessionStoreError>)
        ensures
            final(self).table_name() == old(self).table_name(),
            match result {
                Ok(()) => {
                    &&& encoding(record@) is Some
                    &&& old(self).has_table() ==> final(self).has_table() && saved(
                        old(self).rows(),
                        final(self).rows(),
                        record@,
                    )
                },
                Err(error) => if encoding(record@) is None {
                    error is Encode && final(self).tables() == old(self).tables()
                } else {
                    error is Backend
                },
            },
    {
        match ops::save(&mut self.conn, &self.table_name, record) {
            Ok(()) => Ok(()),
            Err(error) => Err(SessionStoreError::from(error)),
        }
    }

    /// Loads the record with the given id as a reader at time `now` sees
    /// it: a row that expires at `now` or before is not served.
    pub fn load_at(&self, session_id: &Id, now: i64) -> (result: Result<
        Option<Record>,
        SessionStoreError,
    >)
        ensures
            served(self.has_table(), self.rows(), session_id.0, now, result),
    {
        match ops::load_at(&self.conn, &self.table_name, session_id, now) {
            Ok(found) => Ok(found),
            Err(error) => Err(SessionStoreError::from(error)),
        }
    }

    /// Loads the record with the given id as a reader sees it now: at a
    /// time that the clock can read.
    pub fn load(&self, session_id: &Id) -> (result: Result<Option<Record>, SessionStoreError>)
        ensures
            exists|now: i64|
                clock_reading(now) && served(
                    self.has_table(),
                    self.rows(),
                    session_id.0,
                    now,
                    result,
                ),
    {
        let loaded = ops::load(&self.conn, &self.table_name, session_id);
        let result = match loaded {
            Ok(found) => Ok(found),
            Err(error) => Err(SessionStoreError::from(error)),
        };
        proof {
            let now = choose|now: i64|
                clock_reading(now) && ops::loaded(
                    self.tables(),
                    self.table_name(),
                    session_id.0,
                    now,
                    loaded,
                );
            assert(clock_reading(now) && served(
                self.has_table(),
                self.rows(),
                session_id.0,
                now,
                result,
            ));
        }
        result
    }

    /// Deletes the row with the given id, if there is one.
    pub fn delete(&mut self, session_id: &Id) -> (result: Result<(), SessionStoreError>)
        ensures
            final(self).table_name() == old(self).table_name(),
            match result {
                Ok(()) => old(self).has_table() ==> final(self).has_table() && deleted(
                    old(self).rows(),
                    final(self).rows(),
                    session_id.0,
                ),
                Err(error) => error is Backend,
            },
    {
        match ops::delete(&mut self.conn, &self.table_name, session_id) {
            Ok(()) => Ok(()),
            Err(error) => Err(SessionStoreError::from(error)),
        }
    }

    /// Deletes the rows that have expired before `now`.
    pub fn delete_expired_at(&mut self, now: i64) -> (result: Result<(), SessionStoreError>)
        ensures
            final(self).table_name() == old(self).table_name(),
            cleared(old(self).has_table(), old(self).rows(), *final(self), now, result),
    {
        match ops::delete_expired_at(&mut self.conn, &self.table_name, now) {
            Ok(()) => Ok(()),
            Err(error) => Err(SessionStoreError::from(error)),
        }
    }

    /// Deletes the rows that have expired before now: before a time that
    /// the clock can read.
    pub fn delete_expired(&mut self) -> (result: Result<(), SessionStoreError>)
        ensures
            final(self).table_name() == old(self).table_name(),
            exists|now: i64|
                clock_reading(now) && cleared(
                    old(self).has_table(),
                    old(self).rows(),
                    *final(self),
                    now,
                    result,
                ),
    {
        let deleted = ops::delete_expired(&mut self.conn, &self.table_name);
        let result = match deleted {
            Ok(()) => Ok(()),
            Err(error) => Err(SessionStoreError::from(error)),
        };
        proof {
            let now = choose|now: i64|
                clock_reading(now) && ops::expired_deleted(
                    old(self).tables(),
                    self.tables(),
                    self.table_name(),
                    now,
                    deleted,
                );
            assert(clock_reading(now) && cleared(
                old(self).has_table(),
                old(self).rows(),
                *self,
                now,
                result,
            ));
        }
        result
    }
}

} // verus!
