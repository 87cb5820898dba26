//! The request and response shapes of the companion backend API.
//!
//! The HTTP clients that move these over the wire are thin glue around a
//! request library and live outside this crate; the shapes themselves are
//! plain data and belong to the library, so that everything that builds or
//! reads them can be checked.

pub mod auth;
pub mod handler;
pub mod invitations;
pub mod signing;

pub use auth::{LoginRequest, LoginResponse, LogoutResponse, UserInfo};
pub use handler::{ApiConfig, HealthResponse};
