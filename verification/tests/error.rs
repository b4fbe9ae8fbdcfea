use tower_sessions_rusqlite_store::{RusqliteStoreError, SessionStoreError};

#[test]
fn database_errors_are_reported_as_backend_errors() {
    assert_eq!(
        SessionStoreError::from(RusqliteStoreError::Rusqlite("locked".to_string())),
        SessionStoreError::Backend("locked".to_string())
    );
    assert_eq!(
        SessionStoreError::from(RusqliteStoreError::Other("closed".to_string())),
        SessionStoreError::Backend("closed".to_string())
    );
}

#[test]
fn codec_errors_keep_their_kind() {
    assert_eq!(
        SessionStoreError::from(RusqliteStoreError::Encode("too deep".to_string())),
        SessionStoreError::Encode("too deep".to_string())
    );
    assert_eq!(
        SessionStoreError::from(RusqliteStoreError::Decode("bad marker".to_string())),
        SessionStoreError::Decode("bad marker".to_string())
    );
}

#[test]
fn an_error_converts_through_into() {
    let error: SessionStoreError = RusqliteStoreError::Decode("x".to_string()).into();
    assert_eq!(error, SessionStoreError::Decode("x".to_string()));
}

#[test]
fn a_store_error_shows_its_message() {
    assert_eq!(RusqliteStoreError::Rusqlite("locked".to_string()).message(), "locked");
    assert_eq!(RusqliteStoreError::Encode("too deep".to_string()).message(), "too deep");
    assert_eq!(RusqliteStoreError::Decode("bad marker".to_string()).message(), "bad marker");
    assert_eq!(
        RusqliteStoreError::Other("closed".to_string()).message(),
        "Backend error: closed"
    );
}

#[test]
fn a_session_error_shows_its_kind_and_message() {
    assert_eq!(
        SessionStoreError::Encode("too deep".to_string()).message(),
        "Encoding failed with: too deep"
    );
    assert_eq!(
        SessionStoreError::Decode("bad marker".to_string()).message(),
        "Decoding failed with: bad marker"
    );
    assert_eq!(SessionStoreError::Backend("locked".to_string()).message(), "locked");
    assert_eq!(SessionStoreError::Backend(String::new()).message(), "");
}
