//! What can go wrong in an operation on the ledger.
use vstd::prelude::*;

verus! {

/// The kinds of failure. Every operation that fails leaves the ledger as it was.
#[derive(Clone, Debug, PartialEq, Eq)]
pub enum LedgerError {
    /// Malformed or out-of-range input, with a message for the user.
    Validation(String),
    /// The referenced id or plan does not exist.
    NotFound,
    /// The request contradicts the state: a completed plan, nothing to
    /// cancel, a record that is not an installment.
    DomainConflict,
    /// The ledger cannot carry out the request: its id space is used up, or
    /// a time lies outside the calendar.
    State,
}

} // verus!
