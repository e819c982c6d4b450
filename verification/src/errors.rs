use vstd::prelude::*;

verus! {

/// The errors a ledger operation can return. These are the only two failure
/// modes of the ledger; every other input is valid and succeeds.
#[derive(Clone, Copy, Debug, PartialEq, Eq)]
pub enum Error {
    /// The source account does not hold enough tokens for the request.
    InsufficientBalance,
    /// The caller's remaining allowance from the owner is smaller than the
    /// requested amount.
    InsufficientAllowance,
}

} // verus!
