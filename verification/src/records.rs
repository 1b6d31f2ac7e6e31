//! The record shapes of the ledger: individual claims, the aggregate
//! statistics singleton, the key space of the record store, and the typed
//! failures of the state transitions.

use vstd::prelude::*;

verus! {

/// One filed insurance claim.
///
/// `claim_id` is non-zero, unique, and assigned at creation; the identifying
/// text, the amount and the timestamp are immutable thereafter. The two flags
/// move strictly forward: `is_verified` from `false` to `true` once, then
/// `is_paid` from `false` to `true` once.
#[derive(Clone, Debug)]
pub struct Claim {
    pub claim_id: u64,
    pub policy_holder: String,
    pub claim_amount: u64,
    pub description: String,
    pub timestamp: u64,
    pub is_verified: bool,
    pub is_paid: bool,
}

/// The running totals over all claims: how many were filed, how many of those
/// were verified, how many of those were paid, and the sum of the amounts of
/// the paid ones.
#[derive(Clone, Copy, PartialEq, Eq, Structural, Debug)]
pub struct ClaimStats {
    pub total_claims: u64,
    pub verified_claims: u64,
    pub paid_claims: u64,
    pub total_paid_amount: u64,
}

/// The key space of the claim record store: one key per claim identifier.
pub enum ClaimBook {
    Claim(u64),
}

/// The ways a state transition can be refused. A refused transition leaves
/// the ledger unchanged.
#[derive(Clone, Copy, PartialEq, Eq, Structural, Debug)]
pub enum ClaimError {
    /// No claim with the given identifier was ever submitted.
    NotFound,
    /// The claim was already verified; verification is not idempotent.
    AlreadyVerified,
    /// Payment was requested for a claim that was never verified.
    NotVerified,
    /// The claim was already paid; payment is not idempotent.
    AlreadyPaid,
}

impl Claim {
    /// An owned copy of the record, field for field.
    pub fn duplicate(&self) -> (c: Claim)
        ensures
            c == *self,
    {
        Claim {
            claim_id: self.claim_id,
            policy_holder: self.policy_holder.clone(),
            claim_amount: self.claim_amount,
            description: self.description.clone(),
            timestamp: self.timestamp,
            is_verified: self.is_verified,
            is_paid: self.is_paid,
        }
    }
}

impl ClaimBook {
    /// The claim identifier a key stands for.
    pub open spec fn id(self) -> u64 {
        match self {
            ClaimBook::Claim(claim_id) => claim_id,
        }
    }
}

/// The reserved "no such claim" value: identifier zero, which is never
/// assigned to a real claim, placeholder text, and everything else zeroed.
pub open spec fn is_sentinel(c: Claim) -> bool {
    &&& c.claim_id == 0
    &&& c.policy_holder@ == "Not_Found"@
    &&& c.claim_amount == 0
    &&& c.description@ == "Not_Found"@
    &&& c.timestamp == 0
    &&& !c.is_verified
    &&& !c.is_paid
}

/// Builds the sentinel claim returned by lookups that find nothing.
pub fn sentinel_claim() -> (c: Claim)
    ensures
        is_sentinel(c),
{
    Claim {
        claim_id: 0,
        policy_holder: String::from_str("Not_Found"),
        claim_amount: 0,
        description: String::from_str("Not_Found"),
        timestamp: 0,
        is_verified: false,
        is_paid: false,
    }
}

/// The claim as it stands after verification: only `is_verified` changes.
pub open spec fn verified(c: Claim) -> Claim {
    Claim { is_verified: true, ..c }
}

/// The claim as it stands after payment: only `is_paid` changes.
pub open spec fn paid(c: Claim) -> Claim {
    Claim { is_paid: true, ..c }
}

/// The all-zero aggregate: what `get_claim_stats` reports before any claim
/// was ever submitted.
pub open spec fn zero_stats() -> ClaimStats {
    ClaimStats { total_claims: 0, verified_claims: 0, paid_claims: 0, total_paid_amount: 0 }
}

} // verus!
