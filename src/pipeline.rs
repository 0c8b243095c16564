//! The decisions of one list request. A request is validated and resolved on
//! arrival, then waits on the record store twice (a count, then a page of
//! records) and ends answered or failed. Whoever drives it performs the store
//! action that `next_action` names and hands the outcome back.

use vstd::prelude::*;

use crate::error::ApiError;
use crate::models::{ApiResponse, Item, PaginatedResponse};
use crate::pagination::{total_pages_spec, PageQuery, Pagination, ValidatedPagination};

verus! {

/// Any failure of the record store; its cause is not kept.
#[derive(Debug, Clone, Copy, PartialEq, Eq)]
pub struct StoreError;

/// What the record store is asked to do next.
#[derive(Debug, Clone, Copy, PartialEq, Eq)]
pub enum StoreAction {
    /// Count all records.
    Count,
    /// Fetch the records of one page, in ascending id order.
    Fetch(PageQuery),
}

/// Where a list request stands.
pub enum ItemsRequest {
    /// Valid parameters; waiting for the record count.
    Counting(ValidatedPagination),
    /// Waiting for the page's records; the count is known.
    Fetching(ValidatedPagination, i64),
    /// Answered with a page.
    Responded(ApiResponse<PaginatedResponse<Item>>),
    /// Ended in an error.
    Failed(ApiError),
}

impl ItemsRequest {
    /// A request with these parameters has arrived.
    pub fn received(pagination: &Pagination) -> (r: ItemsRequest)
        ensures
            match pagination.0.outcome() {
                Ok(v) => r matches ItemsRequest::Counting(p) && p@ == v,
                Err(m) => r matches ItemsRequest::Failed(ApiError::ValidationError(e)) && e@ == m,
            },
    {
        match ValidatedPagination::from_params(&pagination.0) {
            Ok(v) => ItemsRequest::Counting(v),
            Err(e) => ItemsRequest::Failed(e),
        }
    }

    /// The store action the request waits on; none once it has ended.
    pub fn next_action(&self) -> (r: Option<StoreAction>)
        ensures
            self is Counting ==> r == Some(StoreAction::Count),
            self matches ItemsRequest::Fetching(v, _) ==> r matches Some(StoreAction::Fetch(q))
                && q.limit == v@.1 && q.offset == (v@.0 - 1) * v@.1,
            self is Responded ==> r is None,
            self is Failed ==> r is None,
    {
        match self {
            ItemsRequest::Counting(_) => Some(StoreAction::Count),
            ItemsRequest::Fetching(v, _) => Some(StoreAction::Fetch(v.resolve())),
            ItemsRequest::Responded(_) => None,
            ItemsRequest::Failed(_) => None,
        }
    }

    /// The record count has come back.
    pub fn counted(self, count: Result<i64, StoreError>) -> (r: ItemsRequest)
        requires
            self is Counting,
        ensures
            self matches ItemsRequest::Counting(v) ==> match count {
                Ok(n) => r == ItemsRequest::Fetching(v, n),
                Err(_) => r == ItemsRequest::Failed(ApiError::DatabaseError),
            },
    {
        match self {
            ItemsRequest::Counting(v) => match count {
                Ok(n) => ItemsRequest::Fetching(v, n),
                Err(_) => ItemsRequest::Failed(ApiError::DatabaseError),
            },
            other => other,
        }
    }

    /// The page's records have come back.
    pub fn fetched(self, items: Result<Vec<Item>, StoreError>) -> (r: ItemsRequest)
        requires
            self is Fetching,
        ensures
            self matches ItemsRequest::Fetching(v, total) ==> match items {
                Ok(list) => r matches ItemsRequest::Responded(resp) && resp.success
                    && resp.data.data == list && resp.data.meta.current_page == v@.0
                    && resp.data.meta.per_page == v@.1 && resp.data.meta.total_items == total
                    && resp.data.meta.total_pages == total_pages_spec(total, v@.1),
                Err(_) => r == ItemsRequest::Failed(ApiError::DatabaseError),
            },
    {
        match self {
            ItemsRequest::Fetching(v, total) => match items {
                Ok(list) => ItemsRequest::Responded(
                    ApiResponse::ok(PaginatedResponse { data: list, meta: v.meta(total) }),
                ),
                Err(_) => ItemsRequest::Failed(ApiError::DatabaseError),
            },
            other => other,
        }
    }
}

} // verus!
