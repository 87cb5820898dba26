//! The invitation endpoints' request and response shapes.

use vstd::prelude::*;

verus! {

/// Invitation information response.
#[derive(Debug)]
pub struct InvitationResponse {
    pub email: String,
    pub first_name: String,
    pub last_name: String,
    pub role: String,
    pub expires_at: String,
    pub teacher_uuid: Option<String>,
    pub department: Option<String>,
}

/// Complete invitation request.
#[derive(Debug)]
pub struct CompleteInvitationRequest {
    pub username: String,
    pub password: String,
}

/// Success response wrapper.
#[derive(Debug)]
pub struct SuccessResponse<T> {
    pub success: bool,
    pub message: Option<String>,
    pub data: Option<T>,
}

/// Error response structure.
#[derive(Debug)]
pub struct ErrorResponse {
    pub success: bool,
    pub error: String,
    pub details: Option<String>,
    pub code: u16,
}

} // verus!
