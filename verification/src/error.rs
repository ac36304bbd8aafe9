//! The reasons for which an operation is refused.

use vstd::prelude::*;
use crate::address::DerivationError;

verus! {

/// Why an operation was refused. A refused operation changes nothing.
#[derive(Clone, Copy, Debug, PartialEq, Eq)]
pub enum Error {
    /// No custodial address could be derived.
    Derivation(DerivationError),
    /// A supplied account is not the one that the seeds derive.
    AddressMismatch,
    /// The source of a transfer holds less than the transfer needs.
    InsufficientBalance,
    /// The record to create exists already.
    RecordAlreadyExists,
    /// The record that the operation works on does not exist.
    RecordNotFound,
    /// The caller may not do this, or the authority does not sign for the source.
    UnauthorizedCaller,
}

/// What an operation reports for the outcome `next`.
pub open spec fn outcome<T>(next: Result<T, Error>) -> Result<(), Error> {
    match next {
        Ok(_) => Ok(()),
        Err(e) => Err(e),
    }
}

/// The accounts after an operation with the outcome `next`: a refused
/// operation leaves them as they were.
pub open spec fn state_after<T>(before: T, next: Result<T, Error>) -> T {
    match next {
        Ok(after) => after,
        Err(_) => before,
    }
}

} // verus!
