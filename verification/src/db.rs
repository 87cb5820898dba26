//! The storage subsystem: a single-writer, message-passing database
//! connector.
//!
//! All access to the database engine is serialized through one actor loop
//! that alone owns the engine handle (see [`connector`]). Callers build a
//! [`DbCommand`], hand it to a [`DbConnector`], and await the one
//! [`DbAnswer`] that comes back on a private reply channel.

pub mod connector;
pub mod laws;
pub mod queries;
pub mod schema;
pub mod store;

pub use connector::DbConnector;

use vstd::prelude::*;

use crate::common::{LocalError, WeeklyReport};
use std::ops::Range;

verus! {

/// The failure kinds of the storage subsystem.
#[derive(Clone, Copy, Debug, PartialEq, Eq, Structural)]
pub enum StorageError {
    /// The engine could not open or create the backing file.
    ConnectionFailed,
    /// A read query failed; safe to retry.
    QueryFailed,
    /// A save failed; the transaction was rolled back, so no partial
    /// data of the failed command is durable.
    WriteFailed,
    /// A read produced internally inconsistent results, for example a
    /// report row without a matching signature row. Reported instead of
    /// crashing the actor, since stored data cannot be trusted forever.
    DataCorruption,
}

/// A command for the storage actor.
pub enum DbCommand {
    /// Read the reports whose timestamp (Unix seconds) falls within the
    /// range, both bounds included.
    ///
    /// Answered with [`DbAnswer::Read`] (an empty vector when no data lies
    /// in the range) or [`DbAnswer::Failed`].
    Read(Range<i64>),
    /// Write the given weekly reports to the database, atomically.
    ///
    /// Answered with [`DbAnswer::Done`] on success or [`DbAnswer::Failed`] on
    /// failure; on failure nothing of this command is durable.
    Save { data: Vec<WeeklyReport> },
    /// Export the stored data whose timestamp falls within the range, both
    /// bounds included, as bytes, without mutating the store.
    ///
    /// Answered with [`DbAnswer::Backup`] (empty bytes when no data lies in
    /// the range) or [`DbAnswer::Failed`].
    Backup(Range<i64>),
}

/// The storage actor's reply to one [`DbCommand`].
pub enum DbAnswer {
    /// Confirmation that an operation succeeded.
    Done,
    /// Alert that the requested operation did not succeed, and why.
    Failed(StorageError),
    /// The response to a [`DbCommand::Read`].
    Read(Vec<WeeklyReport>),
    /// The response to a [`DbCommand::Backup`].
    Backup(Vec<u8>),
}

/// Creates the local database file with the schema.
///
/// Refuses to overwrite: if something already exists at `path` the answer
/// is [`LocalError::AlreadyExists`]; any engine failure is
/// [`LocalError::DbError`]. Whether creation succeeds depends on the
/// filesystem, so success cannot be promised for any input.
pub fn create_db(path: &str) -> (r: Result<(), LocalError>)
    ensures
        r matches Err(e) ==> (e is AlreadyExists || e is DbError),
{
    if store::path_exists(path) {
        return Err(LocalError::AlreadyExists);
    }
    match store::create_store(path) {
        Some(s) => {
            if store::init_schema(&s) {
                Ok(())
            } else {
                Err(LocalError::DbError)
            }
        },
        None => Err(LocalError::DbError),
    }
}

} // verus!
