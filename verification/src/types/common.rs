//! What every group of operations shares: the envelope of an answer and
//! the pages of a list.

use vstd::prelude::*;

verus! {

/// The envelope that the API wraps its answers in. The payload is what
/// counts: an envelope without one is a failure, whatever `success` says.
#[derive(Debug, Clone)]
pub struct ApiResponse<T> {
    pub success: bool,
    pub data: Option<T>,
    pub message: Option<String>,
    pub errors: Option<Vec<String>>,
}

/// Which page of a list to ask for, and how long a page is.
#[derive(Debug, Clone)]
pub struct PaginationParams {
    pub page: Option<u32>,
    pub per_page: Option<u32>,
}

/// One page of a list, with its place in the whole.
#[derive(Debug, Clone)]
pub struct PaginatedResponse<T> {
    pub data: Vec<T>,
    pub pagination: PaginationInfo,
}

/// Where a page stands in the whole list.
#[derive(Debug, Clone)]
pub struct PaginationInfo {
    pub current_page: u32,
    pub per_page: u32,
    pub total: u32,
    pub total_pages: u32,
}

} // verus!
