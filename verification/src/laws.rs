//! What holds of the store's operations taken together.
//!
//! Each law is stated over the rows before and after an operation, as the
//! operation's own contract relates them, and is proved from the model of
//! the rows and from what an encoding is.

use vstd::prelude::*;
use crate::codec::{decoding, encoding};
use crate::ops::{Stored, deleted, inserted, migrated, saved, stored};
use crate::record::{RecordView, id_text};
use crate::rows::{Row, Rows, Tables, holds, no_rows, removed, swept};

verus! {

/// The bytes that a record encodes to decode to that record.
pub proof fn lemma_encoding_round_trip(record: RecordView, bytes: Seq<u8>)
    requires
        encoding(record) == Some(bytes),
    ensures
        decoding(bytes) == Some(record),
{
}

/// A record that has been created is served under the id it was given, to
/// every reader before its expiry: it is the record that was handed in, but
/// for the id.
pub proof fn lemma_create_then_load(
    before: Rows,
    after: Rows,
    given: RecordView,
    kept: RecordView,
    now: i64,
)
    requires
        inserted(before, after, given, kept),
        kept.expiry_date > now,
    ensures
        stored(after, kept.id, now) == Stored::Present(given.with_id(kept.id)),
{
    lemma_encoding_round_trip(kept, encoding(kept)->0);
}

/// Two records created one after the other never share an id, whatever id
/// the second was handed in with, and the second leaves the row of the
/// first as it was.
pub proof fn lemma_created_ids_differ(
    start: Rows,
    between: Rows,
    end: Rows,
    first_given: RecordView,
    first_kept: RecordView,
    second_given: RecordView,
    second_kept: RecordView,
)
    requires
        inserted(start, between, first_given, first_kept),
        inserted(between, end, second_given, second_kept),
    ensures
        first_kept.id != second_kept.id,
        id_text(first_kept.id) != id_text(second_kept.id),
        end.dom().contains(id_text(first_kept.id)),
        end[id_text(first_kept.id)] == between[id_text(first_kept.id)],
        forall|now: i64| stored(end, first_kept.id, now) == stored(between, first_kept.id, now),
{
}

/// A record that has been saved is served under its id to every reader
/// before its expiry.
pub proof fn lemma_save_then_load(before: Rows, after: Rows, record: RecordView, now: i64)
    requires
        saved(before, after, record),
        record.expiry_date > now,
    ensures
        stored(after, record.id, now) == Stored::Present(record),
{
    lemma_encoding_round_trip(record, encoding(record)->0);
}

/// A row that expires at `now` or before is not served to a reader at
/// `now`, though the rows still hold it.
pub proof fn lemma_expired_row_is_not_served(rows: Rows, id: i128, now: i64)
    requires
        rows.dom().contains(id_text(id)),
        rows[id_text(id)].expiry_date <= now,
    ensures
        stored(rows, id, now) is Absent,
{
}

/// A sweep at `now` removes exactly the rows that expire before `now`, and
/// leaves every other row as it was.
pub proof fn lemma_sweep_removes_the_expired(rows: Rows, now: i64)
    ensures
        forall|id: Seq<char>| #[trigger]
            swept(rows, now).dom().contains(id) <==> rows.dom().contains(id) && !(
            rows[id].expiry_date < now),
        forall|id: Seq<char>| #[trigger]
            swept(rows, now).dom().contains(id) ==> swept(rows, now)[id] == rows[id],
{
}

/// After a delete, no reader is served a record under the id.
pub proof fn lemma_delete_then_load(before: Rows, after: Rows, id: i128, now: i64)
    requires
        deleted(before, after, id),
    ensures
        stored(after, id, now) is Absent,
{
}

/// A delete of an id that no row has changes nothing.
pub proof fn lemma_delete_of_absent_id(before: Rows, after: Rows, id: i128)
    requires
        deleted(before, after, id),
        !before.dom().contains(id_text(id)),
    ensures
        after == before,
{
    assert(removed(before, id_text(id)) =~= before);
}

/// A run of creates: the step `i` stores the record that was given as
/// `given[i]` under the id of `kept[i]`, and turns `rows[i]` into
/// `rows[i + 1]`.
pub open spec fn create_run(rows: Seq<Rows>, given: Seq<RecordView>, kept: Seq<RecordView>) -> bool {
    &&& rows.len() == kept.len() + 1
    &&& given.len() == kept.len()
    &&& forall|i: int|
        0 <= i < kept.len() ==> inserted(rows[i], rows[i + 1], given[i], #[trigger] kept[i])
}

/// Within a run of creates, the row that the step `i` has written is still
/// there, unchanged, after any later step.
proof fn lemma_created_row_stays(
    rows: Seq<Rows>,
    given: Seq<RecordView>,
    kept: Seq<RecordView>,
    i: int,
    k: int,
)
    requires
        create_run(rows, given, kept),
        0 <= i < k <= kept.len(),
    ensures
        rows[k].dom().contains(id_text(kept[i].id)),
        rows[k][id_text(kept[i].id)] == rows[i + 1][id_text(kept[i].id)],
    decreases k,
{
    assert(inserted(rows[i], rows[i + 1], given[i], kept[i]));
    if k > i + 1 {
        lemma_created_row_stays(rows, given, kept, i, k - 1);
        assert(inserted(rows[k - 1], rows[k], given[k - 1], kept[k - 1]));
    }
}

/// However many records are created one after the other, and whatever ids
/// they are handed in with, no two of them are stored under the same id,
/// and each is still stored as it was created when the run ends.
pub proof fn lemma_repeated_creates_assign_distinct_ids(
    rows: Seq<Rows>,
    given: Seq<RecordView>,
    kept: Seq<RecordView>,
    i: int,
    j: int,
)
    requires
        create_run(rows, given, kept),
        0 <= i < j < kept.len(),
    ensures
        kept[i].id != kept[j].id,
        id_text(kept[i].id) != id_text(kept[j].id),
        rows.last().dom().contains(id_text(kept[i].id)),
        rows.last()[id_text(kept[i].id)] == rows[i + 1][id_text(kept[i].id)],
{
    lemma_created_row_stays(rows, given, kept, i, j);
    assert(inserted(rows[j], rows[j + 1], given[j], kept[j]));
    lemma_created_row_stays(rows, given, kept, i, kept.len() as int);
}

/// To save a record twice is to save it once.
pub proof fn lemma_save_is_idempotent(before: Rows, once: Rows, twice: Rows, record: RecordView)
    requires
        saved(before, once, record),
        saved(once, twice, record),
    ensures
        twice == once,
{
    assert(twice =~= once);
}

/// Once `migrate` has succeeded where the name was free or a session
/// table's, a further `migrate` that succeeds changes nothing of the table.
pub proof fn lemma_migrate_again_changes_nothing(
    names_at_start: Set<Seq<char>>,
    start: Tables,
    names_once: Set<Seq<char>>,
    once: Tables,
    twice: Tables,
    table: Seq<char>,
)
    requires
        !names_at_start.contains(table) || start.dom().contains(table),
        migrated(names_at_start, start, once, table),
        migrated(names_once, once, twice, table),
    ensures
        holds(twice, table, once[table]),
        !names_at_start.contains(table) ==> holds(twice, table, no_rows()),
        start.dom().contains(table) ==> holds(twice, table, start[table]),
{
}

/// A row is sound when its payload is the encoding of a record that has the
/// row's id and the row's expiry.
pub open spec fn sound_row(id: Seq<char>, row: Row) -> bool {
    exists|record: RecordView|
        #![trigger encoding(record)]
        encoding(record) == Some(row.data) && id_text(record.id) == id && record.expiry_date
            == row.expiry_date
}

/// The rows are sound when each of them is.
pub open spec fn sound(rows: Rows) -> bool {
    forall|id: Seq<char>| #[trigger] rows.dom().contains(id) ==> sound_row(id, rows[id])
}

/// A table without rows is sound.
pub proof fn lemma_no_rows_are_sound()
    ensures
        sound(no_rows()),
{
}

/// A create keeps sound rows sound.
pub proof fn lemma_create_keeps_rows_sound(
    before: Rows,
    after: Rows,
    given: RecordView,
    kept: RecordView,
)
    requires
        sound(before),
        inserted(before, after, given, kept),
    ensures
        sound(after),
{
    let id = id_text(kept.id);
    assert forall|key: Seq<char>| #[trigger] after.dom().contains(key) implies sound_row(
        key,
        after[key],
    ) by {
        if key == id {
            assert(encoding(kept) == Some(after[id].data));
        } else {
            assert(before.dom().contains(key));
        }
    }
}

/// A save keeps sound rows sound.
pub proof fn lemma_save_keeps_rows_sound(before: Rows, after: Rows, record: RecordView)
    requires
        sound(before),
        saved(before, after, record),
    ensures
        sound(after),
{
    let id = id_text(record.id);
    assert forall|key: Seq<char>| #[trigger] after.dom().contains(key) implies sound_row(
        key,
        after[key],
    ) by {
        if key == id {
            assert(encoding(record) == Some(after[id].data));
        } else {
            assert(before.dom().contains(key));
        }
    }
}

/// A delete keeps sound rows sound.
pub proof fn lemma_delete_keeps_rows_sound(before: Rows, after: Rows, id: i128)
    requires
        sound(before),
        deleted(before, after, id),
    ensures
        sound(after),
{
    assert forall|key: Seq<char>| #[trigger] after.dom().contains(key) implies sound_row(
        key,
        after[key],
    ) by {
        assert(before.dom().contains(key));
    }
}

/// A sweep keeps sound rows sound.
pub proof fn lemma_sweep_keeps_rows_sound(rows: Rows, now: i64)
    requires
        sound(rows),
    ensures
        sound(swept(rows, now)),
{
    assert forall|key: Seq<char>| #[trigger]
        swept(rows, now).dom().contains(key) implies sound_row(key, swept(rows, now)[key]) by {
        assert(rows.dom().contains(key));
    }
}

/// Sound rows hold no payload that fails to decode: a load from them gives
/// nothing, or a record that is stored under the id asked for and has not
/// expired.
pub proof fn lemma_sound_rows_decode(rows: Rows, id: i128, now: i64)
    requires
        sound(rows),
    ensures
        !(stored(rows, id, now) is Corrupt),
        stored(rows, id, now) matches Stored::Present(record) ==> {
            &&& id_text(record.id) == id_text(id)
            &&& record.expiry_date > now
        },
{
    let key = id_text(id);
    if rows.dom().contains(key) {
        assert(sound_row(key, rows[key]));
        let record = choose|record: RecordView|
            #![trigger encoding(record)]
            encoding(record) == Some(rows[key].data) && id_text(record.id) == key
                && record.expiry_date == rows[key].expiry_date;
        lemma_encoding_round_trip(record, rows[key].data);
    }
}

} // verus!
