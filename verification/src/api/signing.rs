//! The file-signing endpoints' request and response shapes.

use vstd::prelude::*;

verus! {

/// Upload record response structure.
#[derive(Debug)]
pub struct UploadRecord {
    pub upload_id: String,
    pub student_uuid: String,
    pub file_name: String,
    pub file_size: i64,
    pub content_hash: String,
    pub uploaded_at: i64,
}

/// Success response wrapper.
#[derive(Debug)]
pub struct SuccessResponse<T> {
    pub success: bool,
    pub message: Option<String>,
    pub data: Option<T>,
}

/// Error response structure.
#[derive(Debug)]
pub struct ErrorResponse {
    pub success: bool,
    pub error: String,
    pub details: Option<String>,
    pub code: u16,
}

} // verus!
