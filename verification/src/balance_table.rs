//! Balance storage: an association list from account to amount, with the
//! lazy-default reading discipline the ledger needs (a missing account reads
//! as zero) and a running total for the supply-conservation proof.

use vstd::prelude::*;
use vstd::pervasive::VecAdditionalExecFns;

use crate::account::AccountId;

verus! {

/// The amount stored for `k`: the value of the first entry keyed `k`, or
/// zero when no entry carries that key.
pub open spec fn lookup(s: Seq<(AccountId, u128)>, k: AccountId) -> u128
    decreases s.len(),
{
    if s.len() == 0 {
        0u128
    } else if s[0].0 == k {
        s[0].1
    } else {
        lookup(s.drop_first(), k)
    }
}

/// The sum of all stored amounts.
pub open spec fn total(s: Seq<(AccountId, u128)>) -> int
    decreases s.len(),
{
    if s.len() == 0 {
        0
    } else {
        s[0].1 + total(s.drop_first())
    }
}

proof fn lemma_total_nonneg(s: Seq<(AccountId, u128)>)
    ensures
        total(s) >= 0,
    decreases s.len(),
{
    if s.len() != 0 {
        lemma_total_nonneg(s.drop_first());
    }
}

/// No single stored amount exceeds the sum of all of them.
pub proof fn lemma_lookup_le_total(s: Seq<(AccountId, u128)>, k: AccountId)
    ensures
        lookup(s, k) as int <= total(s),
    decreases s.len(),
{
    if s.len() == 0 {
    } else if s[0].0 == k {
        lemma_total_nonneg(s.drop_first());
    } else {
        lemma_lookup_le_total(s.drop_first(), k);
    }
}

/// When no entry carries `k`, the lookup falls back to zero.
proof fn lemma_lookup_absent(s: Seq<(AccountId, u128)>, k: AccountId)
    requires
        forall|j: int| 0 <= j < s.len() ==> s[j].0 != k,
    ensures
        lookup(s, k) == 0u128,
    decreases s.len(),
{
    if s.len() != 0 {
        lemma_lookup_absent(s.drop_first(), k);
    }
}

/// When `i` is the first entry keyed `k`, the lookup reads its value.
proof fn lemma_lookup_first_match(s: Seq<(AccountId, u128)>, i: int, k: AccountId)
    requires
        0 <= i < s.len(),
        s[i].0 == k,
        forall|j: int| 0 <= j < i ==> s[j].0 != k,
    ensures
        lookup(s, k) == s[i].1,
    decreases i,
{
    if i > 0 {
        lemma_lookup_first_match(s.drop_first(), i - 1, k);
    }
}

/// Overwriting the first entry keyed `k` changes that key's reading and no
/// other.
proof fn lemma_lookup_update(s: Seq<(AccountId, u128)>, i: int, k: AccountId, value: u128, a: AccountId)
    requires
        0 <= i < s.len(),
        s[i].0 == k,
        forall|j: int| 0 <= j < i ==> s[j].0 != k,
    ensures
        lookup(s.update(i, (k, value)), a) == (if a == k {
            value
        } else {
            lookup(s, a)
        }),
    decreases i,
{
    let t = s.update(i, (k, value));
    if i == 0 {
        assert(t.drop_first() =~= s.drop_first());
    } else {
        assert(t.drop_first() =~= s.drop_first().update(i - 1, (k, value)));
        lemma_lookup_update(s.drop_first(), i - 1, k, value, a);
    }
}

/// Overwriting one entry moves the sum by the difference of the amounts.
proof fn lemma_total_update(s: Seq<(AccountId, u128)>, i: int, e: (AccountId, u128))
    requires
        0 <= i < s.len(),
    ensures
        total(s.update(i, e)) == total(s) - s[i].1 + e.1,
    decreases i,
{
    let t = s.update(i, e);
    if i == 0 {
        assert(t.drop_first() =~= s.drop_first());
    } else {
        assert(t.drop_first() =~= s.drop_first().update(i - 1, e));
        lemma_total_update(s.drop_first(), i - 1, e);
    }
}

/// Appending an entry for an absent key changes that key's reading and no
/// other.
proof fn lemma_lookup_push(s: Seq<(AccountId, u128)>, k: AccountId, value: u128, a: AccountId)
    requires
        forall|j: int| 0 <= j < s.len() ==> s[j].0 != k,
    ensures
        lookup(s.push((k, value)), a) == (if a == k {
            value
        } else {
            lookup(s, a)
        }),
    decreases s.len(),
{
    let t = s.push((k, value));
    if s.len() == 0 {
        assert(t.drop_first() =~= s);
    } else {
        assert(t.drop_first() =~= s.drop_first().push((k, value)));
        lemma_lookup_push(s.drop_first(), k, value, a);
    }
}

/// Appending an entry adds its amount to the sum.
proof fn lemma_total_push(s: Seq<(AccountId, u128)>, e: (AccountId, u128))
    ensures
        total(s.push(e)) == total(s) + e.1,
    decreases s.len(),
{
    let t = s.push(e);
    if s.len() == 0 {
        assert(t.drop_first() =~= s);
    } else {
        assert(t.drop_first() =~= s.drop_first().push(e));
        lemma_total_push(s.drop_first(), e);
    }
}

/// Reads the amount stored for `k`, zero when absent.
pub fn get(v: &Vec<(AccountId, u128)>, k: AccountId) -> (r: u128)
    ensures
        r == lookup(v@, k),
{
    let mut i: usize = 0;
    while i < v.len()
        invariant
            i <= v.len(),
            forall|j: int| 0 <= j < i ==> v@[j].0 != k,
        decreases v.len() - i,
    {
        let e: (AccountId, u128) = v[i];
        if e.0 == k {
            proof {
                lemma_lookup_first_match(v@, i as int, k);
            }
            return e.1;
        }
        i = i + 1;
    }
    proof {
        lemma_lookup_absent(v@, k);
    }
    0
}

/// Stores `value` for `k`, overwriting the entry that carries `k` or
/// appending one when none does. Every other key keeps its reading, and the
/// sum moves by exactly the difference between the new and the old amount.
pub fn put(v: &mut Vec<(AccountId, u128)>, k: AccountId, value: u128)
    ensures
        forall|a: AccountId|
            lookup(final(v)@, a) == (if a == k {
                value
            } else {
                lookup(old(v)@, a)
            }),
        total(final(v)@) == total(old(v)@) - lookup(old(v)@, k) + value,
{
    let ghost s0 = v@;
    let mut i: usize = 0;
    while i < v.len()
        invariant
            i <= v.len(),
            v@ == s0,
            s0 == old(v)@,
            forall|j: int| 0 <= j < i ==> s0[j].0 != k,
        decreases v.len() - i,
    {
        let e: (AccountId, u128) = v[i];
        if e.0 == k {
            v.set(i, (k, value));
            proof {
                assert(v@ == s0.update(i as int, (k, value)));
                lemma_lookup_first_match(s0, i as int, k);
                lemma_total_update(s0, i as int, (k, value));
                assert forall|a: AccountId|
                    lookup(v@, a) == (if a == k {
                        value
                    } else {
                        lookup(s0, a)
                    }) by {
                    lemma_lookup_update(s0, i as int, k, value, a);
                }
            }
            return;
        }
        i = i + 1;
    }
    v.push((k, value));
    proof {
        assert(v@ == s0.push((k, value)));
        lemma_lookup_absent(s0, k);
        lemma_total_push(s0, (k, value));
        assert forall|a: AccountId|
            lookup(v@, a) == (if a == k {
                value
            } else {
                lookup(s0, a)
            }) by {
            lemma_lookup_push(s0, k, value, a);
        }
    }
}

} // verus!
