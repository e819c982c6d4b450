//! Allowance storage: an association list from an (owner, spender) pair to
//! the amount the spender may still move out of the owner's balance. A
//! missing pair reads as zero.

use vstd::prelude::*;
use vstd::pervasive::VecAdditionalExecFns;

use crate::account::AccountId;

verus! {

/// The amount stored for the pair `(o, p)`: the value of the first entry
/// keyed by that pair, or zero when no entry carries it.
pub open spec fn lookup(s: Seq<(AccountId, AccountId, u128)>, o: AccountId, p: AccountId) -> u128
    decreases s.len(),
{
    if s.len() == 0 {
        0u128
    } else if s[0].0 == o && s[0].1 == p {
        s[0].2
    } else {
        lookup(s.drop_first(), o, p)
    }
}

/// When no entry carries `(o, p)`, the lookup falls back to zero.
proof fn lemma_lookup_absent(s: Seq<(AccountId, AccountId, u128)>, o: AccountId, p: AccountId)
    requires
        forall|j: int| 0 <= j < s.len() ==> !(s[j].0 == o && s[j].1 == p),
    ensures
        lookup(s, o, p) == 0u128,
    decreases s.len(),
{
    if s.len() != 0 {
        lemma_lookup_absent(s.drop_first(), o, p);
    }
}

/// When `i` is the first entry keyed `(o, p)`, the lookup reads its value.
proof fn lemma_lookup_first_match(s: Seq<(AccountId, AccountId, u128)>, i: int, o: AccountId, p: AccountId)
    requires
        0 <= i < s.len(),
        s[i].0 == o && s[i].1 == p,
        forall|j: int| 0 <= j < i ==> !(s[j].0 == o && s[j].1 == p),
    ensures
        lookup(s, o, p) == s[i].2,
    decreases i,
{
    if i > 0 {
        lemma_lookup_first_match(s.drop_first(), i - 1, o, p);
    }
}

/// Overwriting the first entry keyed `(o, p)` changes that pair's reading
/// and no other.
proof fn lemma_lookup_update(
    s: Seq<(AccountId, AccountId, u128)>,
    i: int,
    o: AccountId,
    p: AccountId,
    value: u128,
    qo: AccountId,
    qp: AccountId,
)
    requires
        0 <= i < s.len(),
        s[i].0 == o && s[i].1 == p,
        forall|j: int| 0 <= j < i ==> !(s[j].0 == o && s[j].1 == p),
    ensures
        lookup(s.update(i, (o, p, value)), qo, qp) == (if qo == o && qp == p {
            value
        } else {
            lookup(s, qo, qp)
        }),
    decreases i,
{
    let t = s.update(i, (o, p, value));
    if i == 0 {
        assert(t.drop_first() =~= s.drop_first());
    } else {
        assert(t.drop_first() =~= s.drop_first().update(i - 1, (o, p, value)));
        lemma_lookup_update(s.drop_first(), i - 1, o, p, value, qo, qp);
    }
}

/// Appending an entry for an absent pair changes that pair's reading and no
/// other.
proof fn lemma_lookup_push(
    s: Seq<(AccountId, AccountId, u128)>,
    o: AccountId,
    p: AccountId,
    value: u128,
    qo: AccountId,
    qp: AccountId,
)
    requires
        forall|j: int| 0 <= j < s.len() ==> !(s[j].0 == o && s[j].1 == p),
    ensures
        lookup(s.push((o, p, value)), qo, qp) == (if qo == o && qp == p {
            value
        } else {
            lookup(s, qo, qp)
        }),
    decreases s.len(),
{
    let t = s.push((o, p, value));
    if s.len() == 0 {
        assert(t.drop_first() =~= s);
    } else {
        assert(t.drop_first() =~= s.drop_first().push((o, p, value)));
        lemma_lookup_push(s.drop_first(), o, p, value, qo, qp);
    }
}

/// Reads the amount stored for `(o, p)`, zero when absent.
pub fn get(v: &Vec<(AccountId, AccountId, u128)>, o: AccountId, p: AccountId) -> (r: u128)
    ensures
        r == lookup(v@, o, p),
{
    let mut i: usize = 0;
    while i < v.len()
        invariant
            i <= v.len(),
            forall|j: int| 0 <= j < i ==> !(v@[j].0 == o && v@[j].1 == p),
        decreases v.len() - i,
    {
        let e: (AccountId, AccountId, u128) = v[i];
        if e.0 == o && e.1 == p {
            proof {
                lemma_lookup_first_match(v@, i as int, o, p);
            }
            return e.2;
        }
        i = i + 1;
    }
    proof {
        lemma_lookup_absent(v@, o, p);
    }
    0
}

/// Stores `value` for `(o, p)`, overwriting the entry that carries the pair
/// or appending one when none does. Every other pair keeps its reading.
pub fn put(v: &mut Vec<(AccountId, AccountId, u128)>, o: AccountId, p: AccountId, value: u128)
    ensures
        forall|qo: AccountId, qp: AccountId|
            lookup(final(v)@, qo, qp) == (if qo == o && qp == p {
                value
            } else {
                lookup(old(v)@, qo, qp)
            }),
{
    let ghost s0 = v@;
    let mut i: usize = 0;
    while i < v.len()
        invariant
            i <= v.len(),
            v@ == s0,
            s0 == old(v)@,
            forall|j: int| 0 <= j < i ==> !(s0[j].0 == o && s0[j].1 == p),
        decreases v.len() - i,
    {
        let e: (AccountId, AccountId, u128) = v[i];
        if e.0 == o && e.1 == p {
            v.set(i, (o, p, value));
            proof {
                assert(v@ == s0.update(i as int, (o, p, value)));
                assert forall|qo: AccountId, qp: AccountId|
                    lookup(v@, qo, qp) == (if qo == o && qp == p {
                        value
                    } else {
                        lookup(s0, qo, qp)
                    }) by {
                    lemma_lookup_update(s0, i as int, o, p, value, qo, qp);
                }
            }
            return;
        }
        i = i + 1;
    }
    v.push((o, p, value));
    proof {
        assert(v@ == s0.push((o, p, value)));
        assert forall|qo: AccountId, qp: AccountId|
            lookup(v@, qo, qp) == (if qo == o && qp == p {
                value
            } else {
                lookup(s0, qo, qp)
            }) by {
            lemma_lookup_push(s0, o, p, value, qo, qp);
        }
    }
}

} // verus!
