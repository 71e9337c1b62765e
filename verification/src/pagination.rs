//! Pagination of read requests.
//!
//! A request may name a limit and an offset; the limit is capped, and both
//! default when absent.  The row count is only known once the query ran, so
//! a builder carries limit and offset until the caller supplies the count.

use vstd::prelude::*;

verus! {

/// The largest page a request may ask for, and the default.
const LIMIT: u64 = 100;

/// The default offset.
const OFFSET: u64 = 0;

/// A settled page description: how many rows there are, and the window
/// that was asked for.
#[derive(Debug)]
pub struct Pagination {
    pub count: usize,
    pub limit: u64,
    pub offset: u64,
}

/// What a request may carry.
#[derive(Debug)]
pub struct RequestQuery {
    pub from: Option<String>,
    pub limit: Option<u64>,
    pub offset: Option<u64>,
}

/// A page description still waiting for the row count.
pub struct PaginationBuilder {
    pub count: Option<usize>,
    pub limit: u64,
    pub offset: u64,
}

impl Pagination {
    /// Reads the window from a request: the limit capped at the maximum and
    /// defaulting to it, the offset defaulting to zero, the count not yet
    /// known.
    pub fn build_from_request_query(query: RequestQuery) -> (r: PaginationBuilder)
        ensures
            r.count is None,
            r.limit == match query.limit {
                Some(l) => if l < 100 {
                    l
                } else {
                    100u64
                },
                None => 100u64,
            },
            r.offset == match query.offset {
                Some(o) => o,
                None => 0u64,
            },
    {
        let limit = match query.limit {
            Some(l) => if l < LIMIT {
                l
            } else {
                LIMIT
            },
            None => LIMIT,
        };
        let offset = match query.offset {
            Some(o) => o,
            None => OFFSET,
        };
        PaginationBuilder { count: None, limit, offset }
    }
}

impl Default for PaginationBuilder {
    /// The default window: no count yet, the maximum limit, offset zero.
    fn default() -> (r: Self)
        ensures
            r.count is None,
            r.limit == 100u64,
            r.offset == 0u64,
    {
        Self { count: None, limit: LIMIT, offset: OFFSET }
    }
}

impl PaginationBuilder {
    /// Supplies the row count.
    pub fn count(self, count: usize) -> (r: Self)
        ensures
            r.count == Some(count),
            r.limit == self.limit,
            r.offset == self.offset,
    {
        PaginationBuilder { count: Some(count), limit: self.limit, offset: self.offset }
    }

    /// Settles the page; the count must have been supplied.
    pub fn build(self) -> (r: Pagination)
        requires
            self.count is Some,
        ensures
            r.count == self.count.unwrap(),
            r.limit == self.limit,
            r.offset == self.offset,
    {
        match self.count {
            Some(count) => Pagination { count, limit: self.limit, offset: self.offset },
            None => {
                assert(false);
                Pagination { count: 0, limit: self.limit, offset: self.offset }
            },
        }
    }
}

} // verus!
