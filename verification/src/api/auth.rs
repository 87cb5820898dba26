//! The authentication endpoints' request and response shapes.

use vstd::prelude::*;

verus! {

/// Refresh token request structure.
#[derive(Debug)]
pub struct RefreshTokenRequest {
    pub refresh_token: String,
}

/// Refresh token response structure (same as login).
pub type RefreshTokenResponse = LoginResponse;

/// Login request structure.
#[derive(Debug)]
pub struct LoginRequest {
    pub username: String,
    pub password: String,
}

/// Login response structure for successful authentication.
#[derive(Debug)]
pub struct LoginResponse {
    pub success: bool,
    pub message: Option<String>,
    pub access_token: Option<String>,
    pub refresh_token: Option<String>,
    pub expires_in: Option<u32>,
    pub role: Option<String>,
    pub token_type: Option<String>,
    pub user_id: Option<String>,
    pub user: Option<UserInfo>,
}

/// Logout response structure.
#[derive(Debug)]
pub struct LogoutResponse {
    pub data: Option<String>,
    pub message: Option<String>,
    pub success: bool,
}

/// User information returned in login response.
#[derive(Debug)]
pub struct UserInfo {
    pub id: String,
    pub username: String,
    pub email: Option<String>,
}

/// Error response structure.
#[derive(Debug)]
pub struct ErrorResponse {
    pub success: bool,
    pub error: String,
    pub details: Option<String>,
    pub code: u16,
}

} // verus!
