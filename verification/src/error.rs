//! The errors of the store, and the three kinds under which they are
//! reported to the session layer.

use vstd::prelude::*;
use vstd::std_specs::convert::FromSpecImpl;

verus! {

/// An error of the store, by where it arose. Each holds the message of
/// what failed.
#[derive(Clone, Debug, PartialEq, Eq)]
pub enum RusqliteStoreError {
    /// The database refused or failed a statement.
    Rusqlite(String),
    /// A record could not be encoded.
    Encode(String),
    /// A stored payload could not be decoded.
    Decode(String),
    /// Another failure of the backend.
    Other(String),
}

/// An error as the session layer sees it. Each holds a message.
#[derive(Clone, Debug, PartialEq, Eq)]
pub enum SessionStoreError {
    /// A record could not be encoded.
    Encode(String),
    /// A stored payload could not be decoded.
    Decode(String),
    /// The backend failed.
    Backend(String),
}

/// The kind under which an error of the store is reported: database and
/// other failures as `Backend`, the two codec failures as themselves, each
/// with its message unchanged.
pub open spec fn session_error(error: RusqliteStoreError) -> SessionStoreError {
    match error {
        RusqliteStoreError::Rusqlite(message) => SessionStoreError::Backend(message),
        RusqliteStoreError::Decode(message) => SessionStoreError::Decode(message),
        RusqliteStoreError::Encode(message) => SessionStoreError::Encode(message),
        RusqliteStoreError::Other(message) => SessionStoreError::Backend(message),
    }
}

impl From<RusqliteStoreError> for SessionStoreError {
    fn from(err: RusqliteStoreError) -> (error: SessionStoreError)
        ensures
            error == session_error(err),
    {
        match err {
            RusqliteStoreError::Rusqlite(inner) => SessionStoreError::Backend(inner),
            RusqliteStoreError::Decode(inner) => SessionStoreError::Decode(inner),
            RusqliteStoreError::Encode(inner) => SessionStoreError::Encode(inner),
            RusqliteStoreError::Other(inner) => SessionStoreError::Backend(inner),
        }
    }
}

impl FromSpecImpl<RusqliteStoreError> for SessionStoreError {
    open spec fn obeys_from_spec() -> bool {
        true
    }

    open spec fn from_spec(err: RusqliteStoreError) -> SessionStoreError {
        session_error(err)
    }
}

/// The text that a store error shows.
pub open spec fn store_error_text(error: RusqliteStoreError) -> Seq<char> {
    match error {
        RusqliteStoreError::Rusqlite(message) => message@,
        RusqliteStoreError::Encode(message) => message@,
        RusqliteStoreError::Decode(message) => message@,
        RusqliteStoreError::Other(message) => "Backend error: "@ + message@,
    }
}

/// The text that a session-layer error shows.
pub open spec fn session_error_text(error: SessionStoreError) -> Seq<char> {
    match error {
        SessionStoreError::Encode(message) => "Encoding failed with: "@ + message@,
        SessionStoreError::Decode(message) => "Decoding failed with: "@ + message@,
        SessionStoreError::Backend(message) => message@,
    }
}

impl RusqliteStoreError {
    /// The text of the error, for a reader.
    pub fn message(&self) -> (text: String)
        ensures
            text@ == store_error_text(*self),
    {
        match self {
            RusqliteStoreError::Rusqlite(message) => message.clone(),
            RusqliteStoreError::Encode(message) => message.clone(),
            RusqliteStoreError::Decode(message) => message.clone(),
            RusqliteStoreError::Other(message) => {
                let mut text = "Backend error: ".to_owned();
                text.append(message.as_str());
                text
            },
        }
    }
}

impl SessionStoreError {
    /// The text of the error, for a reader.
    pub fn message(&self) -> (text: String)
        ensures
            text@ == session_error_text(*self),
    {
        match self {
            SessionStoreError::Encode(message) => {
                let mut text = "Encoding failed with: ".to_owned();
                text.append(message.as_str());
                text
            },
            SessionStoreError::Decode(message) => {
                let mut text = "Decoding failed with: ".to_owned();
                text.append(message.as_str());
                text
            },
            SessionStoreError::Backend(message) => message.clone(),
        }
    }
}

} // verus!
