//! A fungible-token ledger with a fixed total supply.
//!
//! The ledger tracks a balance for every account and an allowance for every
//! (owner, spender) pair. Accounts move tokens directly with `transfer`,
//! grant transfer rights with `approve`, and spend granted rights with
//! `transfer_from`. The sum of all balances equals the total supply fixed at
//! construction; every operation is proved to preserve that invariant.

mod account;
mod allowance_table;
mod balance_table;
mod errors;
mod events;
mod ledger;

pub use account::AccountId;
pub use errors::Error;
pub use events::Approval;
pub use events::Transfer;
pub use ledger::Erc20;
