//! The ledger state machine: balances, allowances and the fixed total
//! supply, with the three mutating operations and their contracts.

use vstd::prelude::*;

use crate::account::AccountId;
use crate::allowance_table;
use crate::balance_table;
use crate::errors::Error;
use crate::events::Approval;
use crate::events::Transfer;

verus! {

/// Every balance moved as one transfer of `value` from `from` to `to`: the
/// source lost exactly `value`, the destination gained exactly `value`, and
/// no other account changed. When `from == to` the two corrections cancel
/// and every balance is unchanged.
pub open spec fn balances_moved(pre: Erc20, post: Erc20, from: AccountId, to: AccountId, value: u128) -> bool {
    forall|a: AccountId|
        post.spec_balance_of(a) as int == pre.spec_balance_of(a) as int - (if a == from {
            value as int
        } else {
            0
        }) + (if a == to {
            value as int
        } else {
            0
        })
}

/// No balance changed.
pub open spec fn balances_unchanged(pre: Erc20, post: Erc20) -> bool {
    forall|a: AccountId| post.spec_balance_of(a) == pre.spec_balance_of(a)
}

/// No allowance changed.
pub open spec fn allowances_unchanged(pre: Erc20, post: Erc20) -> bool {
    forall|o: AccountId, s: AccountId| post.spec_allowance(o, s) == pre.spec_allowance(o, s)
}

/// The allowance of `(owner, spender)` now reads `value` — whatever it read
/// before — and every other allowance is unchanged.
pub open spec fn allowance_overwritten(
    pre: Erc20,
    post: Erc20,
    owner: AccountId,
    spender: AccountId,
    value: u128,
) -> bool {
    forall|o: AccountId, s: AccountId|
        post.spec_allowance(o, s) == (if o == owner && s == spender {
            value
        } else {
            pre.spec_allowance(o, s)
        })
}

/// The allowance of `(owner, spender)` went down by exactly `value` and
/// every other allowance is unchanged.
pub open spec fn allowance_spent(
    pre: Erc20,
    post: Erc20,
    owner: AccountId,
    spender: AccountId,
    value: u128,
) -> bool {
    forall|o: AccountId, s: AccountId|
        post.spec_allowance(o, s) as int == pre.spec_allowance(o, s) as int - (if o == owner
            && s == spender {
            value as int
        } else {
            0
        })
}

/// The construction-time data — total supply, name, symbol, decimals — is
/// unchanged.
pub open spec fn metadata_unchanged(pre: Erc20, post: Erc20) -> bool {
    &&& post.spec_total_supply() == pre.spec_total_supply()
    &&& post.spec_name() == pre.spec_name()
    &&& post.spec_symbol() == pre.spec_symbol()
    &&& post.spec_decimals() == pre.spec_decimals()
}

/// A fungible-token ledger with a fixed total supply.
///
/// The caller identity of each operation is an explicit parameter: the
/// ledger is a pure state machine, and whoever hosts it supplies the
/// identity and forwards the returned events to its event sink.
pub struct Erc20 {
    total_supply: u128,
    balances: Vec<(AccountId, u128)>,
    allowances: Vec<(AccountId, AccountId, u128)>,
    name: String,
    symbol: String,
    decimals: u8,
}

impl Erc20 {
    /// The total supply fixed at construction.
    pub closed spec fn spec_total_supply(self) -> u128 {
        self.total_supply
    }

    /// The balance of `a`: the stored amount, or zero when none is stored.
    pub closed spec fn spec_balance_of(self, a: AccountId) -> u128 {
        balance_table::lookup(self.balances@, a)
    }

    /// The allowance `owner` has granted `spender`: the stored amount, or
    /// zero when none is stored.
    pub closed spec fn spec_allowance(self, owner: AccountId, spender: AccountId) -> u128 {
        allowance_table::lookup(self.allowances@, owner, spender)
    }

    /// The sum of all stored balances.
    pub closed spec fn spec_sum_of_balances(self) -> int {
        balance_table::total(self.balances@)
    }

    pub closed spec fn spec_name(self) -> Seq<char> {
        self.name@
    }

    pub closed spec fn spec_symbol(self) -> Seq<char> {
        self.symbol@
    }

    pub closed spec fn spec_decimals(self) -> u8 {
        self.decimals
    }

    /// Well-formedness: the stored balances sum to the total supply.
    /// Construction establishes it and every operation preserves it, so it
    /// holds of every reachable ledger state.
    pub closed spec fn wf(self) -> bool {
        self.spec_sum_of_balances() == self.spec_total_supply() as int
    }

    /// Creates a ledger whose entire supply is held by `caller`, the
    /// identity performing the construction. Every other balance and every
    /// allowance starts at zero. Returns the ledger together with the
    /// supply-grant event (no source account, `caller` as destination).
    pub fn new(name: String, symbol: String, decimals: u8, total_supply: u128, caller: AccountId)
        -> (r: (Erc20, Transfer))
        ensures
            r.0.wf(),
            r.0.spec_total_supply() == total_supply,
            forall|a: AccountId|
                r.0.spec_balance_of(a) == (if a == caller { total_supply } else { 0u128 }),
            forall|o: AccountId, s: AccountId| r.0.spec_allowance(o, s) == 0u128,
            r.0.spec_name() == name@,
            r.0.spec_symbol() == symbol@,
            r.0.spec_decimals() == decimals,
            r.1 == (Transfer { from: None, to: Some(caller), value: total_supply }),
    {
        let mut balances: Vec<(AccountId, u128)> = Vec::new();
        balances.push((caller, total_supply));
        proof {
            assert(balances@.drop_first() =~= Seq::<(AccountId, u128)>::empty());
            assert(balance_table::total(balances@.drop_first()) == 0);
            assert(balance_table::total(balances@) == total_supply as int);
            assert forall|a: AccountId|
                balance_table::lookup(balances@, a)
                    == (if a == caller { total_supply } else { 0u128 }) by {
                if a != caller {
                    assert(balance_table::lookup(balances@.drop_first(), a) == 0u128);
                }
            }
        }
        let ledger = Erc20 {
            total_supply,
            balances,
            allowances: Vec::new(),
            name,
            symbol,
            decimals,
        };
        let event = Transfer { from: None, to: Some(caller), value: total_supply };
        (ledger, event)
    }

    /// Returns the total token supply.
    pub fn total_supply(&self) -> (r: u128)
        ensures
            r == self.spec_total_supply(),
    {
        self.total_supply
    }

    /// Returns the display name set at construction.
    pub fn name(&self) -> (r: String)
        ensures
            r@ == self.spec_name(),
    {
        self.name.clone()
    }

    /// Returns the ticker symbol set at construction.
    pub fn symbol(&self) -> (r: String)
        ensures
            r@ == self.spec_symbol(),
    {
        self.symbol.clone()
    }

    /// Returns the decimal precision set at construction.
    pub fn decimals(&self) -> (r: u8)
        ensures
            r == self.spec_decimals(),
    {
        self.decimals
    }

    /// Returns the account balance for the specified `owner`.
    ///
    /// Returns `0` if the account is non-existent.
    pub fn balance_of(&self, owner: AccountId) -> (r: u128)
        ensures
            r == self.spec_balance_of(owner),
    {
        self.balance_of_impl(&owner)
    }

    /// Returns the account balance for the specified `owner`.
    ///
    /// Returns `0` if the account is non-existent.
    fn balance_of_impl(&self, owner: &AccountId) -> (r: u128)
        ensures
            r == self.spec_balance_of(*owner),
    {
        balance_table::get(&self.balances, *owner)
    }

    /// Returns the amount which `spender` is still allowed to withdraw from
    /// `owner`.
    ///
    /// Returns `0` if no allowance has been set.
    pub fn allowance(&self, owner: AccountId, spender: AccountId) -> (r: u128)
        ensures
            r == self.spec_allowance(owner, spender),
    {
        self.allowance_impl(&owner, &spender)
    }

    /// Returns the amount which `spender` is still allowed to withdraw from
    /// `owner`.
    ///
    /// Returns `0` if no allowance has been set.
    fn allowance_impl(&self, owner: &AccountId, spender: &AccountId) -> (r: u128)
        ensures
            r == self.spec_allowance(*owner, *spender),
    {
        allowance_table::get(&self.allowances, *owner, *spender)
    }

    /// Transfers `value` tokens from `caller`'s own balance to `to`.
    ///
    /// Fails with `InsufficientBalance`, leaving the ledger unchanged, when
    /// `caller`'s balance is below `value`; otherwise moves the tokens and
    /// returns the transfer event. A zero value and `to == caller` are
    /// valid and succeed.
    pub fn transfer(&mut self, caller: AccountId, to: AccountId, value: u128)
        -> (r: Result<Transfer, Error>)
        requires
            old(self).wf(),
        ensures
            final(self).wf(),
            metadata_unchanged(*old(self), *final(self)),
            allowances_unchanged(*old(self), *final(self)),
            old(self).spec_balance_of(caller) < value ==> r == Err::<Transfer, Error>(
                Error::InsufficientBalance,
            ) && *final(self) == *old(self),
            old(self).spec_balance_of(caller) >= value ==> r == Ok::<Transfer, Error>(
                Transfer { from: Some(caller), to: Some(to), value },
            ) && balances_moved(*old(self), *final(self), caller, to, value),
    {
        let from = caller;
        self.transfer_from_to(&from, &to, value)
    }

    /// Sets the allowance of `(caller, spender)` to `value`, overwriting —
    /// not adding to — any previous value. Always succeeds and returns the
    /// approval event; the allowance may exceed `caller`'s balance.
    pub fn approve(&mut self, caller: AccountId, spender: AccountId, value: u128)
        -> (r: Result<Approval, Error>)
        requires
            old(self).wf(),
        ensures
            final(self).wf(),
            metadata_unchanged(*old(self), *final(self)),
            balances_unchanged(*old(self), *final(self)),
            allowance_overwritten(*old(self), *final(self), caller, spender, value),
            r == Ok::<Approval, Error>(Approval { owner: caller, spender, value }),
    {
        let owner = caller;
        allowance_table::put(&mut self.allowances, owner, spender, value);
        let event = Approval { owner, spender, value };
        Ok(event)
    }

    /// Moves `value` tokens out of `from`'s balance into `to`'s, with
    /// `caller` acting as the spender against the allowance `from` granted
    /// it.
    ///
    /// The allowance is checked first: when it is below `value` the call
    /// fails with `InsufficientAllowance`, whatever the balance. When the
    /// allowance suffices but `from`'s balance is below `value` the call
    /// fails with `InsufficientBalance`. Either failure leaves the ledger
    /// unchanged. On success the balances move as in `transfer` and the
    /// allowance of `(from, caller)` goes down by exactly `value`.
    pub fn transfer_from(&mut self, caller: AccountId, from: AccountId, to: AccountId, value: u128)
        -> (r: Result<Transfer, Error>)
        requires
            old(self).wf(),
        ensures
            final(self).wf(),
            metadata_unchanged(*old(self), *final(self)),
            old(self).spec_allowance(from, caller) < value ==> r == Err::<Transfer, Error>(
                Error::InsufficientAllowance,
            ) && *final(self) == *old(self),
            old(self).spec_allowance(from, caller) >= value && old(self).spec_balance_of(from)
                < value ==> r == Err::<Transfer, Error>(Error::InsufficientBalance) && *final(self)
                == *old(self),
            old(self).spec_allowance(from, caller) >= value && old(self).spec_balance_of(from)
                >= value ==> r == Ok::<Transfer, Error>(
                Transfer { from: Some(from), to: Some(to), value },
            ) && balances_moved(*old(self), *final(self), from, to, value) && allowance_spent(
                *old(self),
                *final(self),
                from,
                caller,
                value,
            ),
    {
        let allowance = self.allowance_impl(&from, &caller);
        if allowance < value {
            return Err(Error::InsufficientAllowance);
        }
        let moved = self.transfer_from_to(&from, &to, value);
        let event = match moved {
            Ok(event) => event,
            Err(e) => {
                return Err(e);
            },
        };
        let ghost mid = *self;
        allowance_table::put(&mut self.allowances, from, caller, allowance - value);
        proof {
            assert(self.balances == mid.balances);
            assert forall|a: AccountId|
                self.spec_balance_of(a) as int == old(self).spec_balance_of(a) as int - (if a
                    == from {
                    value as int
                } else {
                    0
                }) + (if a == to {
                    value as int
                } else {
                    0
                }) by {
                assert(self.spec_balance_of(a) == mid.spec_balance_of(a));
            }
            assert(balances_moved(*old(self), *self, from, to, value));
            assert forall|o: AccountId, s: AccountId|
                self.spec_allowance(o, s) as int == old(self).spec_allowance(o, s) as int - (if o
                    == from && s == caller {
                    value as int
                } else {
                    0
                }) by {
                assert(allowance_table::lookup(self.allowances@, o, s) == (if o == from && s
                    == caller {
                    (allowance - value) as u128
                } else {
                    allowance_table::lookup(mid.allowances@, o, s)
                }));
                assert(mid.spec_allowance(o, s) == old(self).spec_allowance(o, s));
            }
        }
        Ok(event)
    }

    /// Moves `value` tokens from `from` to `to`, failing with
    /// `InsufficientBalance` — and changing nothing — when `from`'s balance
    /// is below `value`. Crediting the destination cannot overflow: under
    /// well-formedness no balance can exceed the total supply.
    fn transfer_from_to(&mut self, from: &AccountId, to: &AccountId, value: u128)
        -> (r: Result<Transfer, Error>)
        requires
            old(self).wf(),
        ensures
            final(self).wf(),
            metadata_unchanged(*old(self), *final(self)),
            allowances_unchanged(*old(self), *final(self)),
            old(self).spec_balance_of(*from) < value ==> r == Err::<Transfer, Error>(
                Error::InsufficientBalance,
            ) && *final(self) == *old(self),
            old(self).spec_balance_of(*from) >= value ==> r == Ok::<Transfer, Error>(
                Transfer { from: Some(*from), to: Some(*to), value },
            ) && balances_moved(*old(self), *final(self), *from, *to, value),
    {
        let from_balance = self.balance_of_impl(from);
        if from_balance < value {
            return Err(Error::InsufficientBalance);
        }
        let ghost pre = *self;
        balance_table::put(&mut self.balances, *from, from_balance - value);
        let ghost mid = *self;
        let to_balance = self.balance_of_impl(to);
        proof {
            balance_table::lemma_lookup_le_total(mid.balances@, *to);
        }
        balance_table::put(&mut self.balances, *to, to_balance + value);
        proof {
            assert forall|a: AccountId|
                self.spec_balance_of(a) as int == pre.spec_balance_of(a) as int - (if a == *from {
                    value as int
                } else {
                    0
                }) + (if a == *to {
                    value as int
                } else {
                    0
                }) by {
                assert(balance_table::lookup(mid.balances@, a) == (if a == *from {
                    (from_balance - value) as u128
                } else {
                    balance_table::lookup(pre.balances@, a)
                }));
            }
        }
        Ok(Transfer { from: Some(*from), to: Some(*to), value })
    }
}

/// Law: supply conservation. In every well-formed ledger state — and
/// construction establishes well-formedness while every operation preserves
/// it, so in every reachable state — the sum over all accounts of the
/// stored balances equals the total supply.
pub proof fn lemma_supply_conserved(l: Erc20)
    requires
        l.wf(),
    ensures
        l.spec_sum_of_balances() == l.spec_total_supply() as int,
{
}

/// Law: no single account ever holds more than the total supply; this is
/// what makes crediting a destination balance free of overflow.
pub proof fn lemma_balance_le_supply(l: Erc20, a: AccountId)
    requires
        l.wf(),
    ensures
        l.spec_balance_of(a) <= l.spec_total_supply(),
{
    balance_table::lemma_lookup_le_total(l.balances@, a);
}

/// Law: approval overwrites. After two successive approvals of the same
/// (owner, spender) pair, the allowance reads the second value — not the
/// sum — whatever the first value was, and no other pair changed.
pub proof fn lemma_approve_overwrites(
    pre: Erc20,
    mid: Erc20,
    post: Erc20,
    owner: AccountId,
    spender: AccountId,
    v1: u128,
    v2: u128,
)
    requires
        allowance_overwritten(pre, mid, owner, spender, v1),
        allowance_overwritten(mid, post, owner, spender, v2),
    ensures
        post.spec_allowance(owner, spender) == v2,
        forall|o: AccountId, s: AccountId|
            !(o == owner && s == spender) ==> post.spec_allowance(o, s) == pre.spec_allowance(
                o,
                s,
            ),
{
}

} // verus!
