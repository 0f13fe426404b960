//! Paginated listings.
//!
//! A listing answers with the total count of matching records, one page
//! of results, and the limit and offset that produced the page.

use vstd::prelude::*;

verus! {

pub struct PaginatedResponse<T> {
    pub count: i64,
    pub results: Vec<T>,
    pub limit: i64,
    pub offset: i64,
}

#[derive(Debug, Clone, Copy, PartialEq, Eq, Structural)]
pub struct PaginationParams {
    pub limit: i64,
    pub offset: i64,
}

/// The page size used when a query names none.
pub fn default_limit() -> (r: i64)
    ensures
        r == 10,
{
    10
}

/// The offset used when a query names none.
pub fn default_offset() -> (r: i64)
    ensures
        r == 0,
{
    0
}

impl PaginationParams {
    /// The parameters used when the query string holds neither field.
    pub fn new_default() -> (r: PaginationParams)
        ensures
            r.limit == 10,
            r.offset == 0,
    {
        PaginationParams { limit: default_limit(), offset: default_offset() }
    }
}

} // verus!
