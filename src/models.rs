//! The records served and the envelopes they are answered in.

use vstd::prelude::*;

verus! {

/// The success envelope.
pub struct ApiResponse<T> {
    pub success: bool,
    pub data: T,
}

impl<T> ApiResponse<T> {
    /// Wraps `data` as a successful answer.
    pub fn ok(data: T) -> (r: ApiResponse<T>)
        ensures
            r.success,
            r.data == data,
    {
        ApiResponse { success: true, data }
    }
}

/// Where a page stands in the whole listing.
#[derive(Debug, Clone, Copy, PartialEq, Eq)]
pub struct PaginationMeta {
    pub current_page: u32,
    pub per_page: u32,
    pub total_items: i64,
    pub total_pages: u32,
}

/// A page of records with its metadata.
pub struct PaginatedResponse<T> {
    pub data: Vec<T>,
    pub meta: PaginationMeta,
}

/// One listable record.
#[derive(Debug, Clone, PartialEq, Eq)]
pub struct Item {
    pub id: i32,
    pub name: String,
}

/// The body of a failure answer.
#[derive(Debug, Clone, PartialEq, Eq)]
pub struct ErrorBody {
    pub message: String,
    pub code: u16,
}

/// The failure envelope.
#[derive(Debug, Clone, PartialEq, Eq)]
pub struct ErrorResponse {
    pub success: bool,
    pub error: ErrorBody,
}

} // verus!
