//! The closed set of failure kinds every repository operation reports.

use vstd::prelude::*;

verus! {

/// A repository failure. `NotFound` and `ConstraintViolation` carry the key
/// concerned, for diagnostics; `LockAcquisitionFailure` reports an
/// infrastructure fault in the surrounding locking layer, never produced by
/// the in-memory operations themselves.
#[derive(Debug)]
pub enum RepositoryError {
    NotFound(String),
    ConstraintViolation(String),
    LockAcquisitionFailure(String),
}

/// Holds when `e` is the not-found error for the key `id`.
pub open spec fn is_not_found_for(e: RepositoryError, id: Seq<char>) -> bool {
    e matches RepositoryError::NotFound(s) && s@ == id
}

/// Holds when `e` is the duplicate-key error for the key `id`.
pub open spec fn is_constraint_violation_for(e: RepositoryError, id: Seq<char>) -> bool {
    e matches RepositoryError::ConstraintViolation(s) && s@ == id
}

} // verus!
