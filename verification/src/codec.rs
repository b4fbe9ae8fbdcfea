//! The binary form of a record, as it is kept in the `data` column.
//!
//! Records are written as MessagePack by `rmp_serde`. An encoding is handed
//! out only after it has been read back and found to give the record it was
//! made from, so whatever is stored can be loaded again.

use vstd::prelude::*;
use crate::error::RusqliteStoreError;
use crate::record::{Id, Record, RecordView};

verus! {

/// `rmp_serde::encode::Error`, the error of a value that was not written.
#[verifier::external_type_specification]
#[verifier::external_body]
pub struct ExEncodeError(rmp_serde::encode::Error);

/// `rmp_serde::decode::Error`, the error of bytes that were not read.
#[verifier::external_type_specification]
#[verifier::external_body]
pub struct ExDecodeError(rmp_serde::decode::Error);

/// The bytes that `rmp_serde::to_vec` gives for the three fields of a record,
/// or `None` where it fails.
pub uninterp spec fn msgpack_written(id: i128, data: Seq<u8>, expiry_date: i64) -> Option<Seq<u8>>;

/// The three fields that `rmp_serde::from_slice` reads from `bytes`, or
/// `None` where it fails.
pub uninterp spec fn msgpack_read(bytes: Seq<u8>) -> Option<(i128, Seq<u8>, i64)>;

/// `rmp_serde::to_vec` on the tuple of a record's fields. Serialising is a
/// function of the value alone.
#[verifier::external_body]
fn write_msgpack(id: i128, data: &Vec<u8>, expiry_date: i64) -> (result: Result<Vec<u8>, rmp_serde::encode::Error>)
    ensures
        match result {
            Ok(bytes) => msgpack_written(id, data@, expiry_date) == Some(bytes@),
            Err(_) => msgpack_written(id, data@, expiry_date) is None,
        },
{
    rmp_serde::to_vec(&(id, data, expiry_date))
}

/// `rmp_serde::from_slice` for the tuple of a record's fields. It returns an
/// error on input that is not such a tuple, and what it returns is a function
/// of the bytes alone.
#[verifier::external_body]
fn read_msgpack(bytes: &[u8]) -> (result: Result<(i128, Vec<u8>, i64), rmp_serde::decode::Error>)
    ensures
        match result {
            Ok(fields) => msgpack_read(bytes@) == Some((fields.0, fields.1@, fields.2)),
            Err(_) => msgpack_read(bytes@) is None,
        },
{
    rmp_serde::from_slice::<(i128, Vec<u8>, i64)>(bytes)
}

/// The record that `bytes` decode to, if any.
pub open spec fn decoding(bytes: Seq<u8>) -> Option<RecordView> {
    match msgpack_read(bytes) {
        Some(fields) => Some(RecordView { id: fields.0, data: fields.1, expiry_date: fields.2 }),
        None => None,
    }
}

/// The encoding of a record, if it has one: the bytes written for it,
/// provided that they decode to the record again.
pub open spec fn encoding(record: RecordView) -> Option<Seq<u8>> {
    match msgpack_written(record.id, record.data, record.expiry_date) {
        Some(bytes) => if decoding(bytes) == Some(record) {
            Some(bytes)
        } else {
            None
        },
        None => None,
    }
}

/// Whether two byte strings are the same.
fn same_bytes(a: &Vec<u8>, b: &Vec<u8>) -> (same: bool)
    ensures
        same == (a@ == b@),
{
    if a.len() != b.len() {
        return false;
    }
    let mut i: usize = 0;
    while i < a.len()
        invariant
            a.len() == b.len(),
            i <= a.len(),
            forall|j: int| 0 <= j < i ==> a@[j] == b@[j],
        decreases a.len() - i,
    {
        if a[i] != b[i] {
            return false;
        }
        i += 1;
    }
    assert(a@ =~= b@);
    true
}

/// Decodes a record from the bytes of a `data` column.
///
/// Fails with a `Decode` error exactly on the bytes that are no record.
pub fn decode(bytes: &[u8]) -> (result: Result<Record, RusqliteStoreError>)
    ensures
        match result {
            Ok(record) => decoding(bytes@) == Some(record@),
            Err(error) => error is Decode && decoding(bytes@) is None,
        },
{
    match read_msgpack(bytes) {
        Ok(fields) => Ok(Record { id: Id(fields.0), data: fields.1, expiry_date: fields.2 }),
        Err(error) => Err(RusqliteStoreError::Decode(error.to_string())),
    }
}

/// Encodes a record for the `data` column.
///
/// Succeeds exactly on the records that have an encoding, and then the bytes
/// decode to the record again. Otherwise the error is an `Encode` error;
/// where bytes were written that do not read back, it says so.
pub fn encode(record: &Record) -> (result: Result<Vec<u8>, RusqliteStoreError>)
    ensures
        match result {
            Ok(bytes) => encoding(record@) == Some(bytes@),
            Err(error) => {
                &&& encoding(record@) is None
                &&& error is Encode
                &&& msgpack_written(record.id.0, record.data@, record.expiry_date) is Some
                    ==> error->Encode_0@ == unreadable_encoding_text()
            },
        },
{
    match write_msgpack(record.id.0, &record.data, record.expiry_date) {
        Ok(bytes) => {
            let intact = match read_msgpack(bytes.as_slice()) {
                Ok(fields) => fields.0 == record.id.0 && same_bytes(&fields.1, &record.data)
                    && fields.2 == record.expiry_date,
                Err(_) => false,
            };
            if intact {
                Ok(bytes)
            } else {
                Err(RusqliteStoreError::Encode(unreadable_encoding_message()))
            }
        },
        Err(error) => Err(RusqliteStoreError::Encode(error.to_string())),
    }
}

/// The message of the error for an encoding that does not read back.
pub open spec fn unreadable_encoding_text() -> Seq<char> {
    "the encoded record does not decode to the record"@
}

fn unreadable_encoding_message() -> (message: String)
    ensures
        message@ == unreadable_encoding_text(),
{
    "the encoded record does not decode to the record".to_owned()
}

} // verus!
