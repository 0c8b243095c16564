//! A paginated list endpoint: query parameters are validated into a page and a
//! page size, resolved into a store query, and answered with a uniform envelope.

pub mod decimal;
pub mod error;
pub mod models;
pub mod pagination;
pub mod pipeline;
