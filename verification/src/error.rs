//! The ways an operation on orders can fail.

use vstd::prelude::*;

verus! {

/// Why an operation did not produce its result.
#[derive(Clone, Copy, Debug, PartialEq, Eq, Structural)]
pub enum RepoError {
    /// No row matched the identifier the operation was scoped to.
    NotFound,
    /// `page` or `per_page` was below one.
    InvalidPagination,
    /// The store answered, but the answer does not have the shape of the table.
    CorruptRow,
    /// A reading statement failed, or the connection broke while it ran.
    StoreReadError,
    /// A writing statement failed, was refused by a constraint, or the
    /// connection broke while it ran.
    StoreWriteError,
    /// No connection became free within the pool's bounded wait.
    PoolExhausted,
    /// The pool could not reach the store at all.
    PoolUnavailable,
}

impl RepoError {
    /// The stable name of the error kind.
    pub open spec fn name_spec(self) -> Seq<char> {
        match self {
            RepoError::NotFound => "NotFound"@,
            RepoError::InvalidPagination => "InvalidPagination"@,
            RepoError::CorruptRow => "CorruptRow"@,
            RepoError::StoreReadError => "StoreReadError"@,
            RepoError::StoreWriteError => "StoreWriteError"@,
            RepoError::PoolExhausted => "PoolExhausted"@,
            RepoError::PoolUnavailable => "PoolUnavailable"@,
        }
    }

    /// The name of the error kind, for a minimal error body.
    pub fn name(&self) -> (text: &'static str)
        ensures
            text@ == self.name_spec(),
    {
        match self {
            RepoError::NotFound => "NotFound",
            RepoError::InvalidPagination => "InvalidPagination",
            RepoError::CorruptRow => "CorruptRow",
            RepoError::StoreReadError => "StoreReadError",
            RepoError::StoreWriteError => "StoreWriteError",
            RepoError::PoolExhausted => "PoolExhausted",
            RepoError::PoolUnavailable => "PoolUnavailable",
        }
    }

    /// Whether the caller named something that is not there or asked for
    /// something malformed, as opposed to the store or the pool failing.
    pub open spec fn is_client_fault(self) -> bool {
        self == RepoError::NotFound || self == RepoError::InvalidPagination
    }
}

} // verus!
