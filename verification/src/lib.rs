//! A weekly activity logbook: reports of what was done on each day of a week,
//! kept in a local store behind a single-writer actor, plus the data types of
//! the companion backend API.
//!
//! The heart of the crate is the storage subsystem under [`db`]: a
//! [`db::DbConnector`] hands commands over a channel to an actor loop that
//! alone owns the database handle, executes reads and saves against it, and
//! replies on a per-request channel.

pub mod api;
pub mod common;
pub mod db;
pub mod local;

pub use api::{ApiConfig, HealthResponse, LoginRequest, LoginResponse, LogoutResponse, UserInfo};
