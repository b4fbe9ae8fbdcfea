//! The mathematical model of the session table: its rows by id, and what
//! each of the store's statements makes of them.

use vstd::prelude::*;

verus! {

/// What a row holds besides its id: the payload of the `data` column and
/// the Unix time, in seconds, of the `expiry_date` column.
pub struct Row {
    pub data: Seq<u8>,
    pub expiry_date: i64,
}

/// The rows of a session table, by the text of their `id` column.
pub type Rows = Map<Seq<char>, Row>;

/// The session tables of a database, by the names that address them.
pub type Tables = Map<Seq<char>, Rows>;

/// A table without rows.
pub open spec fn no_rows() -> Rows {
    Map::empty()
}

/// `tables` has a session table under `name`, and it holds exactly `rows`.
pub open spec fn holds(tables: Tables, name: Seq<char>, rows: Rows) -> bool {
    tables.dom().contains(name) && tables[name] == rows
}

/// The rows after the row for `id` has been inserted, or overwritten if there
/// was one.
pub open spec fn upserted(rows: Rows, id: Seq<char>, data: Seq<u8>, expiry_date: i64) -> Rows {
    rows.insert(id, Row { data, expiry_date })
}

/// The rows after a row with a new id has been added: no row had `id`
/// before, and nothing else has changed.
pub open spec fn created(
    before: Rows,
    after: Rows,
    id: Seq<char>,
    data: Seq<u8>,
    expiry_date: i64,
) -> bool {
    &&& !before.dom().contains(id)
    &&& after == upserted(before, id, data, expiry_date)
}

/// The rows after the row for `id`, if any, has been deleted.
pub open spec fn removed(rows: Rows, id: Seq<char>) -> Rows {
    rows.remove(id)
}

/// The rows that a sweep at time `now` leaves: those that expire at `now` or
/// later.
pub open spec fn swept(rows: Rows, now: i64) -> Rows {
    Map::new(|id: Seq<char>| rows.dom().contains(id) && rows[id].expiry_date >= now, |id: Seq<char>| rows[id])
}

/// The payload that a reader sees for `id` at time `now`: that of the row
/// with this id, provided it expires after `now`.
pub open spec fn visible(rows: Rows, id: Seq<char>, now: i64) -> Option<Seq<u8>> {
    if rows.dom().contains(id) && rows[id].expiry_date > now {
        Some(rows[id].data)
    } else {
        None
    }
}

} // verus!
