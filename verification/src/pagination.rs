//! The page that a listing cuts out: a limit and an offset, both optional.

use vstd::prelude::*;

verus! {

/// The query of a listing. Both numbers are handed to storage as they are;
/// no upper bound is put on them here.
#[derive(Clone, Copy, Debug, PartialEq, Eq, Structural)]
pub struct PaginationQuery {
    pub limit: Option<i64>,
    pub offset: Option<i64>,
}

/// The page size a listing uses when the caller names none.
pub fn default_limit() -> (limit: Option<i64>)
    ensures
        limit == Some(100i64),
{
    Some(100)
}

/// The limit of a query: its own, or 100.
pub open spec fn limit_of(query: PaginationQuery) -> i64 {
    match query.limit {
        Some(limit) => limit,
        None => 100,
    }
}

/// The offset of a query: its own, or 0.
pub open spec fn offset_of(query: PaginationQuery) -> i64 {
    match query.offset {
        Some(offset) => offset,
        None => 0,
    }
}

impl PaginationQuery {
    /// The query of a request that names neither number: the default limit
    /// and no offset.
    pub fn new() -> (query: Self)
        ensures
            query.limit == Some(100i64),
            query.offset.is_none(),
    {
        PaginationQuery { limit: default_limit(), offset: None }
    }

    /// Neither number is negative.
    pub open spec fn is_non_negative(self) -> bool {
        limit_of(self) >= 0 && offset_of(self) >= 0
    }

    /// Whether the query keeps to the contract of the listing: neither number
    /// is negative.
    pub fn check(&self) -> (ok: bool)
        ensures
            ok == self.is_non_negative(),
    {
        let (limit, offset) = self.arguments();
        limit >= 0 && offset >= 0
    }

    /// The two values bound to `LIMIT ? OFFSET ?`, in that order.
    pub fn arguments(&self) -> (bound: (i64, i64))
        ensures
            bound.0 == limit_of(*self),
            bound.1 == offset_of(*self),
    {
        let limit = match self.limit {
            Some(limit) => limit,
            None => 100,
        };
        let offset = match self.offset {
            Some(offset) => offset,
            None => 0,
        };
        (limit, offset)
    }
}

} // verus!
