//! Pagination query and result shapes.

use vstd::prelude::*;

verus! {

/// A pagination request: a 1-based page number and a page size, both
/// caller-supplied positive integers.
#[derive(Clone, Copy, PartialEq, Eq, Structural, Debug)]
pub struct PaginationQuery {
    pub page: u32,
    pub per_page: u32,
}

/// One page of results: the items at offset `(page - 1) * per_page` (fewer
/// if exhausted), the total number of stored items, and the echoed query.
#[derive(Debug)]
pub struct PaginatedResult<T> {
    pub items: Vec<T>,
    pub total: u64,
    pub page: u32,
    pub per_page: u32,
}

} // verus!
