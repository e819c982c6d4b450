use vstd::prelude::*;

use crate::account::AccountId;

verus! {

/// Event describing a movement of tokens. The initial supply grant at
/// construction carries `from: None`; every other movement names both
/// accounts. The ledger hands the event back to its caller, who forwards it
/// to whatever event sink surrounds the ledger.
#[derive(Clone, Copy, Debug, PartialEq, Eq)]
pub struct Transfer {
    pub from: Option<AccountId>,
    pub to: Option<AccountId>,
    pub value: u128,
}

/// Event describing an allowance grant: `owner` allows `spender` to move up
/// to `value` tokens out of `owner`'s balance.
#[derive(Clone, Copy, Debug, PartialEq, Eq)]
pub struct Approval {
    pub owner: AccountId,
    pub spender: AccountId,
    pub value: u128,
}

} // verus!
