//! The errors a request can end in, and how each is answered.

use vstd::prelude::*;

use crate::models::{ErrorBody, ErrorResponse};

verus! {

pub const STATUS_OK: u16 = 200;

pub const STATUS_BAD_REQUEST: u16 = 400;

pub const STATUS_INTERNAL_SERVER_ERROR: u16 = 500;

/// Every failure is terminal for its request.
#[derive(Debug, Clone, PartialEq, Eq)]
pub enum ApiError {
    /// The record store failed; its cause is never shown to the client.
    DatabaseError,
    /// The pagination parameters were malformed or out of bounds.
    ValidationError(String),
    /// The query string itself could not be read into parameters.
    QueryParseError(String),
}

/// What a client is told when the record store fails.
pub open spec fn internal_error_message() -> Seq<char> {
    "Internal server error"@
}

pub open spec fn query_parse_prefix() -> Seq<char> {
    "Invalid query parameters: "@
}

impl ApiError {
    /// The HTTP status that answers this error.
    pub open spec fn status_spec(&self) -> u16 {
        match self {
            ApiError::DatabaseError => STATUS_INTERNAL_SERVER_ERROR,
            ApiError::ValidationError(_) => STATUS_BAD_REQUEST,
            ApiError::QueryParseError(_) => STATUS_BAD_REQUEST,
        }
    }

    /// The message shown to the client.
    pub open spec fn message_spec(&self) -> Seq<char> {
        match self {
            ApiError::DatabaseError => internal_error_message(),
            ApiError::ValidationError(m) => m@,
            ApiError::QueryParseError(m) => m@,
        }
    }

    pub fn status_code(&self) -> (r: u16)
        ensures
            r == self.status_spec(),
    {
        match self {
            ApiError::DatabaseError => STATUS_INTERNAL_SERVER_ERROR,
            ApiError::ValidationError(_) => STATUS_BAD_REQUEST,
            ApiError::QueryParseError(_) => STATUS_BAD_REQUEST,
        }
    }

    pub fn message(&self) -> (r: String)
        ensures
            r@ == self.message_spec(),
    {
        match self {
            ApiError::DatabaseError => String::from_str("Internal server error"),
            ApiError::ValidationError(m) => m.clone(),
            ApiError::QueryParseError(m) => m.clone(),
        }
    }

    /// The error for a query string that the HTTP layer could not read;
    /// `detail` is the layer's own account of why.
    pub fn query_parse(detail: &str) -> (r: ApiError)
        ensures
            r matches ApiError::QueryParseError(m) && m@ == query_parse_prefix() + detail@,
    {
        let mut m = String::from_str("Invalid query parameters: ");
        m.append(detail);
        ApiError::QueryParseError(m)
    }

    /// The failure envelope: `success` is false, and the body carries the
    /// message and the status code.
    pub fn into_error_response(self) -> (r: ErrorResponse)
        ensures
            !r.success,
            r.error.message@ == self.message_spec(),
            r.error.code == self.status_spec(),
    {
        let code = self.status_code();
        let message = self.message();
        ErrorResponse { success: false, error: ErrorBody { message, code } }
    }
}

} // verus!
