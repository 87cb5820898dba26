//! The cloneable front-end to the storage actor, and the actor itself.
//!
//! A [`DbConnector`] is essentially just the sending half of a request
//! channel, so it can be freely cloned and shared; every command travels
//! with the sending half of its own private answer channel, on which exactly
//! one answer comes back. The [`StoreActor`] owns the engine handle and
//! serves requests one at a time, in the order they arrive, until every
//! connector has been dropped.

use vstd::prelude::*;

use crate::db::store;
use crate::db::store::Store;
use crate::db::{DbAnswer, DbCommand, StorageError};

verus! {

#[verifier::external_type_specification]
#[verifier::external_body]
#[verifier::reject_recursive_types(T)]
pub struct ExSender<T>(std::sync::mpsc::Sender<T>);

#[verifier::external_type_specification]
#[verifier::external_body]
#[verifier::reject_recursive_types(T)]
pub struct ExReceiver<T>(std::sync::mpsc::Receiver<T>);

/// Relies on `std::sync::mpsc::channel`: a fresh queue; what is sent on the
/// sending half arrives on the receiving half, in sending order.
#[verifier::external_body]
fn new_channel<T>() -> (std::sync::mpsc::Sender<T>, std::sync::mpsc::Receiver<T>) {
    std::sync::mpsc::channel()
}

/// Relies on `std::sync::mpsc::Sender::send`: hands the value to the
/// channel; `false` exactly when the receiving half is gone, in which case
/// the value is dropped.
#[verifier::external_body]
fn channel_send<T>(s: &std::sync::mpsc::Sender<T>, value: T) -> (r: bool) {
    s.send(value).is_ok()
}

/// Relies on `std::sync::mpsc::Receiver::recv`: blocks for the next value;
/// `None` exactly when the channel is empty and every sending half is gone.
#[verifier::external_body]
fn channel_recv<T>(r: &std::sync::mpsc::Receiver<T>) -> (v: Option<T>) {
    r.recv().ok()
}

/// Relies on `std::sync::mpsc::Sender::clone`: another sending half of the
/// same channel.
#[verifier::external_body]
fn clone_sender<T>(s: &std::sync::mpsc::Sender<T>) -> (r: std::sync::mpsc::Sender<T>) {
    s.clone()
}

/// One request for the storage actor: a command, bundled with the sending
/// half of the private channel the answer goes back on.
pub struct DbRequest {
    pub command: DbCommand,
    pub receiver: std::sync::mpsc::Sender<DbAnswer>,
}

/// Wrapper over a channel sender for convenient communication with the
/// database on a separate thread.
///
/// Because this is essentially just a sender, it can be freely cloned and
/// shared; dropping the last clone (for a given actor) ends that actor's
/// loop.
#[derive(Debug)]
pub struct DbConnector {
    sender: std::sync::mpsc::Sender<DbRequest>,
}

impl Clone for DbConnector {
    fn clone(&self) -> (r: DbConnector) {
        DbConnector { sender: clone_sender(&self.sender) }
    }
}

/// The receiving half of one answer channel: where the single reply to one
/// submitted command arrives.
pub struct AnswerHandle {
    receiver: std::sync::mpsc::Receiver<DbAnswer>,
}

impl AnswerHandle {
    /// Block until the answer to the submitted command arrives; `None` when
    /// the actor is gone without having answered.
    pub fn wait(self) -> (r: Option<DbAnswer>) {
        channel_recv(&self.receiver)
    }
}

/// The storage actor: the exclusive owner of the engine handle, together
/// with the receiving half of the request channel it serves.
pub struct StoreActor {
    store: Store,
    requests: std::sync::mpsc::Receiver<DbRequest>,
}

impl DbConnector {
    /// Open the database file at `path` and pair a fresh connector with the
    /// actor that will serve it. The caller gives the actor a thread of its
    /// own and calls [`StoreActor::serve_one`] there in a loop.
    ///
    /// Fails with [`StorageError::ConnectionFailed`] exactly when the
    /// engine cannot open the file — missing, unreadable, or not a
    /// database.
    pub fn open(path: &str) -> (r: Result<(DbConnector, StoreActor), StorageError>)
        ensures
            r matches Err(e) ==> e is ConnectionFailed,
    {
        match store::open_store(path) {
            Some(s) => Ok(Self::with_store(s)),
            None => Err(StorageError::ConnectionFailed),
        }
    }

    /// Pair a fresh connector with an actor over a brand-new empty store
    /// that lives only in memory: a store as [`crate::db::create_db`]
    /// freshly creates it, with the schema in place and no data.
    ///
    /// Fails with [`StorageError::ConnectionFailed`] exactly when the
    /// engine cannot set the store up.
    pub fn open_in_memory() -> (r: Result<(DbConnector, StoreActor), StorageError>)
        ensures
            r matches Err(e) ==> e is ConnectionFailed,
    {
        match store::memory_store() {
            Some(s) => {
                if store::init_schema(&s) {
                    Ok(Self::with_store(s))
                } else {
                    Err(StorageError::ConnectionFailed)
                }
            },
            None => Err(StorageError::ConnectionFailed),
        }
    }

    /// Pair a fresh connector with the actor that owns the given store.
    fn with_store(s: Store) -> (DbConnector, StoreActor) {
        let (sender, requests) = new_channel();
        (DbConnector { sender }, StoreActor { store: s, requests })
    }

    /// Submit one command to the actor, returning the handle on which its
    /// answer will arrive; `None` when the actor is gone.
    pub fn submit(&self, command: DbCommand) -> (r: Option<AnswerHandle>) {
        let (answer_sender, answer_receiver) = new_channel();
        let request = DbRequest { command, receiver: answer_sender };
        if channel_send(&self.sender, request) {
            Some(AnswerHandle { receiver: answer_receiver })
        } else {
            None
        }
    }
}

impl StoreActor {
    /// Serve the next request: block for it, execute it against the store,
    /// and send the one answer back on the request's private channel (a
    /// caller that dropped its handle simply misses its answer; nothing
    /// else is affected). Returns `false` exactly when every connector for
    /// this actor has been dropped and the queue is drained; the thread
    /// that owns the actor calls this in a loop until then.
    pub fn serve_one(&self) -> (more: bool) {
        match channel_recv(&self.requests) {
            Some(request) => {
                let answer = crate::db::queries::execute(&self.store, request.command);
                channel_send(&request.receiver, answer);
                true
            },
            None => false,
        }
    }
}

} // verus!
