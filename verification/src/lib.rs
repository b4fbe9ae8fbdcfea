//! A session store on one table of a SQLite database, reached through a
//! single `rusqlite` connection.
//!
//! A [`Record`] is kept as one row: its [`Id`] as text, its encoding as a
//! blob, and its expiry as Unix seconds. The store creates records under
//! ids that no row has, saves and loads them by id, deletes them, and sweeps
//! out those that have expired. A row that has expired is not served, swept
//! or not.
//!
//! The contracts are stated over a model of the table, its rows by id
//! ([`rows`]). What SQLite does with the store's statements is written down
//! in [`db`] and taken on trust; everything else is proved from it, and
//! [`laws`] holds what follows for the operations together.

pub mod codec;
pub mod db;
pub mod error;
pub mod laws;
pub mod ops;
pub mod record;
pub mod rows;
pub mod sql;
pub mod store;
pub mod table_name;

pub use error::{RusqliteStoreError, SessionStoreError};
pub use record::{Id, Record};
pub use rusqlite;
pub use store::RusqliteStore;
pub use table_name::{TableName, is_valid_table_name};
