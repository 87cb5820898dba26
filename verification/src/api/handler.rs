//! The API client's configuration and the health endpoint's response shape.

use vstd::prelude::*;

verus! {

/// Configuration for the API client.
#[derive(Debug, Clone)]
pub struct ApiConfig {
    pub base_url: String,
}

impl ApiConfig {
    pub fn new(base_url: String) -> (r: ApiConfig)
        ensures
            r.base_url == base_url,
    {
        ApiConfig { base_url }
    }
}

/// Health check response structure.
#[derive(Debug, Clone)]
pub struct HealthResponse {
    pub status: String,
    pub time: String,
}

} // verus!
