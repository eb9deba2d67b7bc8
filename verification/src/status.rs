//! The status a transport layer reports for each result of the repository.
//! The repository never looks at these numbers; they are kept here so that
//! every handler maps a result the same way.

use vstd::prelude::*;
use crate::error::RepoError;
use crate::repository::Outcome;

verus! {

/// The status of a request that succeeded.
pub const STATUS_OK: u16 = 200;

/// The status of a listing with a page number or a page size below one.
pub const STATUS_BAD_REQUEST: u16 = 400;

/// The status of a request that named an order that is not there.
pub const STATUS_NOT_FOUND: u16 = 404;

/// The status of a request on which the store failed or answered nonsense.
pub const STATUS_INTERNAL_ERROR: u16 = 500;

/// The status of a request for which the pool had no connection.
pub const STATUS_UNAVAILABLE: u16 = 503;

/// The status that stands for each kind of error.
pub open spec fn error_status(e: RepoError) -> u16 {
    match e {
        RepoError::NotFound => STATUS_NOT_FOUND,
        RepoError::InvalidPagination => STATUS_BAD_REQUEST,
        RepoError::CorruptRow => STATUS_INTERNAL_ERROR,
        RepoError::StoreReadError => STATUS_INTERNAL_ERROR,
        RepoError::StoreWriteError => STATUS_INTERNAL_ERROR,
        RepoError::PoolExhausted => STATUS_UNAVAILABLE,
        RepoError::PoolUnavailable => STATUS_UNAVAILABLE,
    }
}

/// The status that stands for a result: success is 200, an error has the
/// status of its kind.
pub open spec fn result_status(r: Result<Outcome, RepoError>) -> u16 {
    match r {
        Ok(_) => STATUS_OK,
        Err(e) => error_status(e),
    }
}

/// Errors the client caused are reported in the 400s, failures of the store
/// or the pool in the 500s, and no error is reported as a success.
pub proof fn law_status_classes(e: RepoError)
    ensures
        e.is_client_fault() <==> 400 <= error_status(e) < 500,
        !e.is_client_fault() <==> 500 <= error_status(e) < 600,
        error_status(e) != STATUS_OK,
{
}

impl RepoError {
    /// The status to report for this error.
    pub fn status(&self) -> (code: u16)
        ensures
            code == error_status(*self),
    {
        match self {
            RepoError::NotFound => STATUS_NOT_FOUND,
            RepoError::InvalidPagination => STATUS_BAD_REQUEST,
            RepoError::CorruptRow => STATUS_INTERNAL_ERROR,
            RepoError::StoreReadError => STATUS_INTERNAL_ERROR,
            RepoError::StoreWriteError => STATUS_INTERNAL_ERROR,
            RepoError::PoolExhausted => STATUS_UNAVAILABLE,
            RepoError::PoolUnavailable => STATUS_UNAVAILABLE,
        }
    }
}

/// The status to report for the result of a request.
pub fn status_of(r: &Result<Outcome, RepoError>) -> (code: u16)
    ensures
        code == result_status(*r),
{
    match r {
        Ok(_) => STATUS_OK,
        Err(e) => e.status(),
    }
}

} // verus!
