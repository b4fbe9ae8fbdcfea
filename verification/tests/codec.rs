use tower_sessions_rusqlite_store::codec::{decode, encode};
use tower_sessions_rusqlite_store::{Id, Record, RusqliteStoreError};

fn samples() -> Vec<Record> {
    vec![
        Record { id: Id(1), data: vec![1, 2], expiry_date: 3 },
        Record { id: Id(0), data: vec![], expiry_date: 0 },
        Record { id: Id(-1), data: vec![200, 255], expiry_date: -5 },
        Record { id: Id(i128::MAX), data: vec![0; 3], expiry_date: i64::MAX },
        Record { id: Id(i128::MIN), data: vec![7], expiry_date: i64::MIN },
        Record { id: Id(300), data: (0..=255).collect(), expiry_date: 1_700_000_000 },
    ]
}

#[test]
fn encode_gives_the_bytes_of_the_three_fields() {
    let record = Record { id: Id(300), data: vec![7], expiry_date: 1_700_000_000 };
    assert_eq!(
        encode(&record).unwrap(),
        vec![
            147, 196, 16, 0, 0, 0, 0, 0, 0, 0, 0, 0, 0, 0, 0, 0, 0, 1, 44, 145, 7, 206, 101, 83,
            241, 0
        ]
    );
}

#[test]
fn encode_of_the_smallest_record() {
    let record = Record { id: Id(0), data: vec![], expiry_date: 0 };
    assert_eq!(
        encode(&record).unwrap(),
        vec![147, 196, 16, 0, 0, 0, 0, 0, 0, 0, 0, 0, 0, 0, 0, 0, 0, 0, 0, 144, 0]
    );
}

#[test]
fn decode_inverts_encode() {
    for record in samples() {
        let bytes = encode(&record).unwrap();
        assert_eq!(decode(&bytes).unwrap(), record);
    }
}

#[test]
fn encode_is_the_same_for_the_same_record() {
    for record in samples() {
        assert_eq!(encode(&record).unwrap(), encode(&record.clone()).unwrap());
    }
}

#[test]
fn decode_fails_on_every_truncation() {
    for record in samples() {
        let bytes = encode(&record).unwrap();
        for cut in 0..bytes.len() {
            assert!(
                matches!(decode(&bytes[..cut]), Err(RusqliteStoreError::Decode(_))),
                "{record:?} cut to {cut}"
            );
        }
    }
}

#[test]
fn decode_fails_on_bytes_that_are_no_record() {
    let no_records: [&[u8]; 6] = [
        &[],
        &[0xc1, 0xff, 0x00],
        &[0x92, 1, 2],
        &[0x93, 0xa1, b'x', 0x90, 3],
        &[0x93, 1, 2, 3],
        &[0xff; 8],
    ];
    for bytes in no_records {
        assert!(matches!(decode(bytes), Err(RusqliteStoreError::Decode(_))), "{bytes:?}");
    }
}

#[test]
fn decode_of_corrupted_bytes_does_not_give_the_record() {
    let record = Record { id: Id(77), data: vec![1, 2, 3], expiry_date: 1_700_000_000 };
    let bytes = encode(&record).unwrap();
    for at in 0..bytes.len() {
        let mut corrupted = bytes.clone();
        corrupted[at] ^= 0xff;
        match decode(&corrupted) {
            Ok(other) => assert_ne!(other, record, "byte {at}"),
            Err(error) => assert!(matches!(error, RusqliteStoreError::Decode(_)), "byte {at}"),
        }
    }
}
