//! The laws of the ledger: properties that relate several operations or hold
//! of every reachable state, stated and proved once and for all.

use vstd::prelude::*;

use crate::counts::{
    lemma_counts_le_len, lemma_paid_le_verified, paid_amount_sum, paid_count, verified_count,
};
use crate::ledger::InsuranceClaimContract;
use crate::records::{paid, verified};

verus! {

/// Law: in a well-formed ledger every claim's identifier equals its 1-based
/// position in the order of submission, so all identifiers are distinct and
/// none is zero.
pub proof fn lemma_claim_ids_unique(ledger: InsuranceClaimContract)
    requires
        ledger.wf(),
    ensures
        forall|i: int|
            0 <= i < ledger.claims@.len() ==> (#[trigger] ledger.claims@[i]).claim_id == i + 1,
        forall|i: int, j: int|
            0 <= i < ledger.claims@.len() && 0 <= j < ledger.claims@.len() && i != j
                ==> (#[trigger] ledger.claims@[i]).claim_id != (#[trigger] ledger.claims@[j]).claim_id,
        forall|i: int| 0 <= i < ledger.claims@.len() ==> (#[trigger] ledger.claims@[i]).claim_id != 0,
{
}

/// Law: in a well-formed ledger the aggregate is exact — `total_claims` is
/// the number of submissions, `verified_claims` and `paid_claims` count the
/// records with the respective flag, `total_paid_amount` is the sum of the
/// amounts of exactly the paid claims — and the counters are ordered:
/// payments never exceed verifications, verifications never exceed
/// submissions.
pub proof fn lemma_stats_accurate(ledger: InsuranceClaimContract)
    requires
        ledger.wf(),
    ensures
        ledger.stats.total_claims == ledger.claims@.len(),
        ledger.stats.verified_claims == verified_count(ledger.claims@),
        ledger.stats.paid_claims == paid_count(ledger.claims@),
        ledger.stats.total_paid_amount == paid_amount_sum(ledger.claims@),
        ledger.stats.verified_claims <= ledger.stats.total_claims,
        ledger.stats.paid_claims <= ledger.stats.verified_claims,
{
    lemma_counts_le_len(ledger.claims@);
    lemma_paid_le_verified(ledger.claims@);
}

/// Law: verification happens exactly once. After a successful
/// `verify_claim(claim_id)` — whose effect on the records is the `ensures`
/// of that operation — the claim is verified, its `is_paid` flag is
/// untouched, and a second verification of the same claim is no longer
/// allowed, so it is refused.
pub proof fn lemma_verify_not_idempotent(
    pre: InsuranceClaimContract,
    post: InsuranceClaimContract,
    claim_id: u64,
)
    requires
        pre.verify_allowed(claim_id),
        post.claims@ == pre.claims@.update(claim_id - 1, verified(pre.claim_at(claim_id))),
    ensures
        post.claim_exists(claim_id),
        post.claim_at(claim_id).is_verified,
        post.claim_at(claim_id).is_paid == pre.claim_at(claim_id).is_paid,
        !post.verify_allowed(claim_id),
{
}

/// Law: payment happens exactly once, and only after verification. After a
/// successful `process_payment(claim_id)` — whose effect on the records is
/// the `ensures` of that operation — the claim is paid and still verified,
/// and a second payment of the same claim is no longer allowed, so it is
/// refused and cannot double-count.
pub proof fn lemma_payment_not_idempotent(
    pre: InsuranceClaimContract,
    post: InsuranceClaimContract,
    claim_id: u64,
)
    requires
        pre.pay_allowed(claim_id),
        post.claims@ == pre.claims@.update(claim_id - 1, paid(pre.claim_at(claim_id))),
    ensures
        post.claim_exists(claim_id),
        post.claim_at(claim_id).is_paid,
        post.claim_at(claim_id).is_verified,
        !post.pay_allowed(claim_id),
{
}

} // verus!
