//! The envelopes of successful responses.

use vstd::prelude::*;

verus! {

/// A response that carries one value.
#[derive(Clone, Debug, PartialEq, Eq)]
pub struct ApiResponse<T> {
    pub data: T,
}

/// A response that carries a list and its length.
#[derive(Clone, Debug, PartialEq, Eq)]
pub struct ApiListResponse<T> {
    pub data: Vec<T>,
    pub total: usize,
}

/// The body of the health endpoint.
#[derive(Clone, Debug, PartialEq, Eq)]
pub struct HealthResponse {
    pub status: String,
    pub version: String,
}

} // verus!
