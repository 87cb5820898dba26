//! The trusted boundary around the embedded SQL engine.
//!
//! Everything the storage subsystem asks of the engine goes through the
//! wrappers in this file; each one makes a single query or statement and
//! hands plain rows back to the verified query layer. The [`Store`] owns the
//! one live engine handle; the actor loop owns the `Store` exclusively.

use vstd::prelude::*;

use crate::db::schema::{Activity, WeeklyReport};

verus! {

#[verifier::external_type_specification]
#[verifier::external_body]
pub struct ExConnection(rusqlite::Connection);

/// The exclusively owned handle to the storage engine. All reads and writes
/// of the backing file go through the wrappers below, on whichever thread
/// owns the `Store`.
pub struct Store {
    conn: rusqlite::Connection,
}

/// Relies on `std::path::Path::exists`: whether something exists at the
/// path right now.
#[verifier::external_body]
pub(crate) fn path_exists(path: &str) -> (r: bool) {
    std::path::Path::new(path).exists()
}

/// Relies on `rusqlite::Connection::open_with_flags` with the read-write
/// flag alone: opens an existing database file, failing when it is missing
/// or unreadable.
#[verifier::external_body]
pub(crate) fn open_store(path: &str) -> (r: Option<Store>) {
    match rusqlite::Connection::open_with_flags(
        path,
        rusqlite::OpenFlags::SQLITE_OPEN_READ_WRITE,
    ) {
        Ok(conn) => Some(Store { conn }),
        Err(_) => None,
    }
}

/// Relies on `rusqlite::Connection::open`: opens a database file, creating
/// it when it is missing.
#[verifier::external_body]
pub(crate) fn create_store(path: &str) -> (r: Option<Store>) {
    match rusqlite::Connection::open(path) {
        Ok(conn) => Some(Store { conn }),
        Err(_) => None,
    }
}

/// Relies on `rusqlite::Connection::open_in_memory`: a fresh empty database
/// that lives only as long as the `Store`.
#[verifier::external_body]
pub(crate) fn memory_store() -> (r: Option<Store>) {
    match rusqlite::Connection::open_in_memory() {
        Ok(conn) => Some(Store { conn }),
        Err(_) => None,
    }
}

/// Relies on `rusqlite::Connection::execute_batch`: creates the two tables
/// of the schema; `false` when the engine refuses (for example because they
/// already exist).
#[verifier::external_body]
pub(crate) fn init_schema(s: &Store) -> (r: bool) {
    s.conn
        .execute_batch(
            "BEGIN;
             CREATE TABLE weekly_reports(timestamp INTEGER PRIMARY KEY, signed INTEGER NOT NULL, last_update INTEGER NOT NULL);
             CREATE TABLE activities(timestamp INTEGER NOT NULL REFERENCES weekly_reports(timestamp), day INTEGER NOT NULL CHECK(day >= 0 AND day <= 6), activity TEXT NOT NULL);
             COMMIT;",
        )
        .is_ok()
}

/// Relies on `rusqlite::Connection::execute_batch`: opens a transaction.
#[verifier::external_body]
pub(crate) fn begin_tx(s: &Store) -> (r: bool) {
    s.conn.execute_batch("BEGIN;").is_ok()
}

/// Relies on `rusqlite::Connection::execute_batch`: commits the open
/// transaction, making its writes durable.
#[verifier::external_body]
pub(crate) fn commit_tx(s: &Store) -> (r: bool) {
    s.conn.execute_batch("COMMIT;").is_ok()
}

/// Relies on `rusqlite::Connection::execute_batch`: rolls the open
/// transaction back, discarding its writes.
#[verifier::external_body]
pub(crate) fn rollback_tx(s: &Store) -> (r: bool) {
    s.conn.execute_batch("ROLLBACK;").is_ok()
}

/// Relies on `rusqlite::Connection::execute`: inserts one row into
/// `weekly_reports`; `false` when the engine refuses, in particular when a
/// row with the same timestamp already exists (`timestamp` is the primary
/// key).
#[verifier::external_body]
pub(crate) fn insert_report_row(s: &Store, row: &WeeklyReport) -> (r: bool) {
    s.conn
        .execute(
            "INSERT INTO weekly_reports (timestamp, signed, last_update) VALUES (?1, ?2, ?3)",
            (row.timestamp, row.signed, row.last_update),
        )
        .is_ok()
}

/// Relies on `rusqlite::Connection::execute`: inserts one row into
/// `activities`; `false` when the engine refuses, in particular when `day`
/// is outside `0..=6` (a schema check).
#[verifier::external_body]
pub(crate) fn insert_activity_row(s: &Store, row: &Activity) -> (r: bool) {
    s.conn
        .execute(
            "INSERT INTO activities (timestamp, day, activity) VALUES (?1, ?2, ?3)",
            (row.timestamp, row.day, row.activity.as_str()),
        )
        .is_ok()
}

/// What the UTF-8 encoding of a string's characters is: a function of the
/// characters alone. Backups carry activity texts in this encoding.
pub uninterp spec fn utf8_of(s: Seq<char>) -> Seq<u8>;

/// Relies on `str::as_bytes`: the UTF-8 encoding of the string, a function
/// of its characters alone; an empty string encodes to no bytes.
#[verifier::external_body]
pub(crate) fn string_bytes(s: &String) -> (r: Vec<u8>)
    ensures
        r@ == utf8_of(s@),
        s@.len() == 0 ==> r@.len() == 0,
{
    s.as_bytes().to_vec()
}

/// Relies on `rusqlite` prepare/query: selects the activity rows whose
/// timestamp lies in `[start, end]`, ordered by timestamp descending and,
/// within one timestamp, by insertion order (ascending rowid; rows are never
/// deleted, so rowids grow with insertion). The `ORDER BY` and `WHERE`
/// clauses of the statement are what the postcondition states.
#[verifier::external_body]
pub(crate) fn query_activities(s: &Store, start: i64, end: i64) -> (r: Option<Vec<Activity>>)
    ensures
        r matches Some(rows) ==> forall|i: int, j: int|
            0 <= i <= j < rows@.len() ==> rows@[i]@.timestamp >= rows@[j]@.timestamp,
        r matches Some(rows) ==> forall|i: int|
            0 <= i < rows@.len() ==> start <= #[trigger] rows@[i]@.timestamp <= end,
{
    let mut stmt = s.conn.prepare(
        "SELECT timestamp, day, activity FROM activities
         WHERE timestamp >= ?1 AND timestamp <= ?2
         ORDER BY timestamp DESC, rowid ASC",
    ).ok()?;
    let rows = stmt.query_map((start, end), |row| {
        Ok(Activity { timestamp: row.get(0)?, day: row.get(1)?, activity: row.get(2)? })
    }).ok()?;
    rows.collect::<Result<Vec<Activity>, rusqlite::Error>>().ok()
}

/// Relies on `rusqlite` prepare/query: selects the report rows whose
/// timestamp lies in `[start, end]`, ordered by timestamp descending;
/// timestamps are strictly descending because `timestamp` is the table's
/// primary key. The `ORDER BY` and `WHERE` clauses of the statement are what
/// the postcondition states.
#[verifier::external_body]
pub(crate) fn query_report_rows(s: &Store, start: i64, end: i64) -> (r: Option<
    Vec<WeeklyReport>,
>)
    ensures
        r matches Some(rows) ==> forall|i: int, j: int|
            0 <= i < j < rows@.len() ==> rows@[i]@.timestamp > rows@[j]@.timestamp,
        r matches Some(rows) ==> forall|i: int|
            0 <= i < rows@.len() ==> start <= #[trigger] rows@[i]@.timestamp <= end,
{
    let mut stmt = s.conn.prepare(
        "SELECT signed, timestamp, last_update FROM weekly_reports
         WHERE timestamp >= ?1 AND timestamp <= ?2
         ORDER BY timestamp DESC",
    ).ok()?;
    let rows = stmt.query_map((start, end), |row| {
        Ok(WeeklyReport { signed: row.get(0)?, timestamp: row.get(1)?, last_update: row.get(2)? })
    }).ok()?;
    rows.collect::<Result<Vec<WeeklyReport>, rusqlite::Error>>().ok()
}

} // verus!
