use vstd::prelude::*;

verus! {

/// An account identity: an opaque, comparable, hashable fixed-size
/// identifier. The ledger assumes no further structure of it.
#[derive(Clone, Copy, Debug, PartialEq, Eq, Hash, Structural)]
pub struct AccountId(pub u64);

} // verus!
