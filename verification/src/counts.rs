//! The mathematical model of the aggregate statistics: counts and sums over a
//! sequence of claim records, with the lemmas that say how one submission,
//! one verification or one payment moves them.

use vstd::prelude::*;

use crate::records::{paid, verified, Claim};

verus! {

/// How many claims in `s` are verified.
pub open spec fn verified_count(s: Seq<Claim>) -> nat
    decreases s.len(),
{
    if s.len() == 0 {
        0
    } else {
        verified_count(s.drop_last()) + if s.last().is_verified {
            1nat
        } else {
            0nat
        }
    }
}

/// How many claims in `s` are paid.
pub open spec fn paid_count(s: Seq<Claim>) -> nat
    decreases s.len(),
{
    if s.len() == 0 {
        0
    } else {
        paid_count(s.drop_last()) + if s.last().is_paid {
            1nat
        } else {
            0nat
        }
    }
}

/// The sum of `claim_amount` over exactly the paid claims in `s`.
pub open spec fn paid_amount_sum(s: Seq<Claim>) -> int
    decreases s.len(),
{
    if s.len() == 0 {
        0
    } else {
        paid_amount_sum(s.drop_last()) + if s.last().is_paid {
            s.last().claim_amount as int
        } else {
            0
        }
    }
}

/// Appending a claim that is neither verified nor paid leaves every
/// aggregate but the length unchanged.
pub proof fn lemma_counts_after_push(s: Seq<Claim>, c: Claim)
    requires
        !c.is_verified,
        !c.is_paid,
    ensures
        verified_count(s.push(c)) == verified_count(s),
        paid_count(s.push(c)) == paid_count(s),
        paid_amount_sum(s.push(c)) == paid_amount_sum(s),
{
    assert(s.push(c).drop_last() =~= s);
}

/// Verifying the claim at position `i` raises the verified count by one and
/// leaves the paid count and the paid sum unchanged.
pub proof fn lemma_counts_after_verify(s: Seq<Claim>, i: int)
    requires
        0 <= i < s.len(),
        !s[i].is_verified,
    ensures
        verified_count(s.update(i, verified(s[i]))) == verified_count(s) + 1,
        paid_count(s.update(i, verified(s[i]))) == paid_count(s),
        paid_amount_sum(s.update(i, verified(s[i]))) == paid_amount_sum(s),
    decreases s.len(),
{
    let t = s.update(i, verified(s[i]));
    if i == s.len() - 1 {
        assert(t.drop_last() =~= s.drop_last());
    } else {
        assert(t.drop_last() =~= s.drop_last().update(i, verified(s[i])));
        lemma_counts_after_verify(s.drop_last(), i);
    }
}

/// Paying the claim at position `i` raises the paid count by one, adds that
/// claim's amount to the paid sum, and leaves the verified count unchanged.
pub proof fn lemma_counts_after_pay(s: Seq<Claim>, i: int)
    requires
        0 <= i < s.len(),
        !s[i].is_paid,
    ensures
        paid_count(s.update(i, paid(s[i]))) == paid_count(s) + 1,
        verified_count(s.update(i, paid(s[i]))) == verified_count(s),
        paid_amount_sum(s.update(i, paid(s[i]))) == paid_amount_sum(s) + s[i].claim_amount,
    decreases s.len(),
{
    let t = s.update(i, paid(s[i]));
    if i == s.len() - 1 {
        assert(t.drop_last() =~= s.drop_last());
    } else {
        assert(t.drop_last() =~= s.drop_last().update(i, paid(s[i])));
        lemma_counts_after_pay(s.drop_last(), i);
    }
}

/// Extending a prefix by one claim moves each aggregate by that claim's
/// contribution.
pub proof fn lemma_counts_take_step(s: Seq<Claim>, i: int)
    requires
        0 <= i < s.len(),
    ensures
        verified_count(s.take(i + 1)) == verified_count(s.take(i)) + if s[i].is_verified {
            1int
        } else {
            0int
        },
        paid_count(s.take(i + 1)) == paid_count(s.take(i)) + if s[i].is_paid {
            1int
        } else {
            0int
        },
        paid_amount_sum(s.take(i + 1)) == paid_amount_sum(s.take(i)) + if s[i].is_paid {
            s[i].claim_amount as int
        } else {
            0int
        },
{
    assert(s.take(i + 1).drop_last() =~= s.take(i));
    assert(s.take(i + 1).last() == s[i]);
}

/// No count exceeds the number of claims.
pub proof fn lemma_counts_le_len(s: Seq<Claim>)
    ensures
        verified_count(s) <= s.len(),
        paid_count(s) <= s.len(),
    decreases s.len(),
{
    if s.len() > 0 {
        lemma_counts_le_len(s.drop_last());
    }
}

/// A claim that is not yet verified keeps the verified count strictly below
/// the number of claims.
pub proof fn lemma_verified_count_lt_len(s: Seq<Claim>, i: int)
    requires
        0 <= i < s.len(),
        !s[i].is_verified,
    ensures
        verified_count(s) < s.len(),
    decreases s.len(),
{
    if i == s.len() - 1 {
        lemma_counts_le_len(s.drop_last());
    } else {
        lemma_verified_count_lt_len(s.drop_last(), i);
    }
}

/// A claim that is not yet paid keeps the paid count strictly below the
/// number of claims.
pub proof fn lemma_paid_count_lt_len(s: Seq<Claim>, i: int)
    requires
        0 <= i < s.len(),
        !s[i].is_paid,
    ensures
        paid_count(s) < s.len(),
    decreases s.len(),
{
    if i == s.len() - 1 {
        lemma_counts_le_len(s.drop_last());
    } else {
        lemma_paid_count_lt_len(s.drop_last(), i);
    }
}

/// Where payment presupposes verification record by record, the paid count
/// cannot exceed the verified count.
pub proof fn lemma_paid_le_verified(s: Seq<Claim>)
    requires
        forall|i: int| 0 <= i < s.len() ==> (#[trigger] s[i].is_paid ==> s[i].is_verified),
    ensures
        paid_count(s) <= verified_count(s),
    decreases s.len(),
{
    if s.len() > 0 {
        assert(forall|i: int|
            0 <= i < s.drop_last().len() ==> (#[trigger] s.drop_last()[i].is_paid
                ==> s.drop_last()[i].is_verified)) by {
            assert(forall|i: int|
                0 <= i < s.drop_last().len() ==> s.drop_last()[i] == s[i]);
        }
        lemma_paid_le_verified(s.drop_last());
    }
}

} // verus!
