//! The claim ledger and its four state-transition operations.
//!
//! The ledger owns the claim record store and the aggregate singleton.
//! Claim identifiers are assigned from 1 upwards with no gaps, so the claim
//! with identifier `i` is held at position `i - 1` of the store. Every
//! operation preserves [`InsuranceClaimContract::wf`], which ties the
//! aggregate to the records and pins each record's identifier to its
//! position.

use vstd::prelude::*;

use crate::counts::{
    lemma_counts_after_pay, lemma_counts_after_push, lemma_counts_after_verify, lemma_counts_le_len,
    lemma_counts_take_step, lemma_paid_count_lt_len, lemma_verified_count_lt_len, paid_amount_sum,
    paid_count, verified_count,
};
use crate::records::{
    is_sentinel, paid, sentinel_claim, verified, zero_stats, Claim, ClaimBook, ClaimError,
    ClaimStats,
};

verus! {

/// The insurance claim ledger: the record store and the running aggregate.
pub struct InsuranceClaimContract {
    /// The claim records; the claim with identifier `i` sits at position
    /// `i - 1`.
    pub claims: Vec<Claim>,
    /// The aggregate singleton kept in step with the records.
    pub stats: ClaimStats,
}

impl InsuranceClaimContract {
    /// Well-formedness: the aggregate equals the counts and the sum over the
    /// records, identifiers are the 1-based positions, and no claim is paid
    /// without being verified.
    pub open spec fn wf(self) -> bool {
        &&& self.stats.total_claims == self.claims@.len()
        &&& self.stats.verified_claims == verified_count(self.claims@)
        &&& self.stats.paid_claims == paid_count(self.claims@)
        &&& self.stats.total_paid_amount == paid_amount_sum(self.claims@)
        &&& forall|i: int|
            0 <= i < self.claims@.len() ==> (#[trigger] self.claims@[i]).claim_id == i + 1
        &&& forall|i: int|
            0 <= i < self.claims@.len() ==> ((#[trigger] self.claims@[i]).is_paid
                ==> self.claims@[i].is_verified)
    }

    /// Whether a claim with this identifier was ever submitted.
    pub open spec fn claim_exists(self, claim_id: u64) -> bool {
        1 <= claim_id <= self.claims@.len()
    }

    /// The record of an existing claim.
    pub open spec fn claim_at(self, claim_id: u64) -> Claim {
        self.claims@[claim_id - 1]
    }

    /// Whether `verify_claim(claim_id)` succeeds: the claim exists and was
    /// not verified before.
    pub open spec fn verify_allowed(self, claim_id: u64) -> bool {
        self.claim_exists(claim_id) && !self.claim_at(claim_id).is_verified
    }

    /// Whether `process_payment(claim_id)` succeeds: the claim exists, was
    /// verified, and was not paid before.
    pub open spec fn pay_allowed(self, claim_id: u64) -> bool {
        self.claim_exists(claim_id) && self.claim_at(claim_id).is_verified
            && !self.claim_at(claim_id).is_paid
    }

    /// An empty ledger: no records, and the all-zero aggregate that
    /// `get_claim_stats` reports before anything was submitted.
    pub fn new() -> (ledger: Self)
        ensures
            ledger.wf(),
            ledger.claims@ == Seq::<Claim>::empty(),
            ledger.stats == zero_stats(),
    {
        InsuranceClaimContract {
            claims: Vec::new(),
            stats: ClaimStats {
                total_claims: 0,
                verified_claims: 0,
                paid_claims: 0,
                total_paid_amount: 0,
            },
        }
    }

    /// The identifier of the last submitted claim fits in `u64`, so the
    /// record count does too.
    proof fn lemma_len_bounded(self)
        requires
            self.wf(),
        ensures
            self.claims@.len() <= u64::MAX,
    {
        if self.claims@.len() > 0 {
            assert(self.claims@[self.claims@.len() - 1].claim_id == self.claims@.len());
        }
    }

    /// Files a new claim. The new record carries the next identifier (the
    /// 1-based count of submissions so far), the given holder, amount and
    /// description, the timestamp supplied by the caller's clock, and both
    /// flags cleared. The aggregate's `total_claims` rises by one and
    /// nothing else changes.
    pub fn submit_claim(
        &mut self,
        policy_holder: String,
        claim_amount: u64,
        description: String,
        timestamp: u64,
    ) -> (claim_id: u64)
        requires
            old(self).wf(),
            old(self).claims@.len() < u64::MAX,
        ensures
            final(self).wf(),
            claim_id != 0,
            claim_id == old(self).claims@.len() + 1,
            claim_id == final(self).stats.total_claims,
            final(self).claims@ == old(self).claims@.push(
                (Claim {
                    claim_id,
                    policy_holder,
                    claim_amount,
                    description,
                    timestamp,
                    is_verified: false,
                    is_paid: false,
                }),
            ),
            final(self).stats.total_claims == old(self).stats.total_claims + 1,
            final(self).stats.verified_claims == old(self).stats.verified_claims,
            final(self).stats.paid_claims == old(self).stats.paid_claims,
            final(self).stats.total_paid_amount == old(self).stats.total_paid_amount,
    {
        let claim_count: u64 = (self.claims.len() as u64) + 1;
        let new_claim = Claim {
            claim_id: claim_count,
            policy_holder,
            claim_amount,
            description,
            timestamp,
            is_verified: false,
            is_paid: false,
        };
        proof {
            lemma_counts_after_push(self.claims@, new_claim);
        }
        self.claims.push(new_claim);
        self.stats.total_claims = self.stats.total_claims + 1;
        claim_count
    }

    /// Marks a submitted, not yet verified claim as verified and raises the
    /// aggregate's `verified_claims` by one. Refused with `NotFound` when no
    /// such claim was ever submitted and with `AlreadyVerified` when it was
    /// verified before; a refused call leaves the ledger unchanged.
    pub fn verify_claim(&mut self, claim_id: u64) -> (result: Result<(), ClaimError>)
        requires
            old(self).wf(),
        ensures
            final(self).wf(),
            old(self).verify_allowed(claim_id) ==> {
                &&& result == Ok::<(), ClaimError>(())
                &&& final(self).claims@ == old(self).claims@.update(
                    claim_id - 1,
                    verified(old(self).claim_at(claim_id)),
                )
                &&& final(self).stats.verified_claims == old(self).stats.verified_claims + 1
                &&& final(self).stats.total_claims == old(self).stats.total_claims
                &&& final(self).stats.paid_claims == old(self).stats.paid_claims
                &&& final(self).stats.total_paid_amount == old(self).stats.total_paid_amount
            },
            !old(self).claim_exists(claim_id) ==> {
                &&& result == Err::<(), ClaimError>(ClaimError::NotFound)
                &&& *final(self) == *old(self)
            },
            (old(self).claim_exists(claim_id) && old(self).claim_at(claim_id).is_verified) ==> {
                &&& result == Err::<(), ClaimError>(ClaimError::AlreadyVerified)
                &&& *final(self) == *old(self)
            },
    {
        proof {
            self.lemma_len_bounded();
        }
        let len: u64 = self.claims.len() as u64;
        if claim_id == 0 || claim_id > len {
            return Err(ClaimError::NotFound);
        }
        let idx: usize = (claim_id - 1) as usize;
        if self.claims[idx].is_verified {
            return Err(ClaimError::AlreadyVerified);
        }
        let mut updated = self.claims[idx].duplicate();
        updated.is_verified = true;
        proof {
            assert(updated == verified(self.claims@[idx as int]));
            lemma_counts_after_verify(self.claims@, idx as int);
            lemma_verified_count_lt_len(self.claims@, idx as int);
        }
        self.claims.set(idx, updated);
        self.stats.verified_claims = self.stats.verified_claims + 1;
        Ok(())
    }

    /// Settles a submitted, verified, not yet paid claim: sets `is_paid`,
    /// raises the aggregate's `paid_claims` by one and adds exactly the
    /// claim's amount to `total_paid_amount`. Refused with `NotFound` when
    /// no such claim was ever submitted, with `NotVerified` when it was
    /// never verified, and with `AlreadyPaid` when it was paid before; a
    /// refused call leaves the ledger unchanged.
    pub fn process_payment(&mut self, claim_id: u64) -> (result: Result<(), ClaimError>)
        requires
            old(self).wf(),
            old(self).pay_allowed(claim_id) ==> old(self).stats.total_paid_amount + old(
                self,
            ).claim_at(claim_id).claim_amount <= u64::MAX,
        ensures
            final(self).wf(),
            old(self).pay_allowed(claim_id) ==> {
                &&& result == Ok::<(), ClaimError>(())
                &&& final(self).claims@ == old(self).claims@.update(
                    claim_id - 1,
                    paid(old(self).claim_at(claim_id)),
                )
                &&& final(self).stats.paid_claims == old(self).stats.paid_claims + 1
                &&& final(self).stats.total_paid_amount == old(self).stats.total_paid_amount + old(
                    self,
                ).claim_at(claim_id).claim_amount
                &&& final(self).stats.total_claims == old(self).stats.total_claims
                &&& final(self).stats.verified_claims == old(self).stats.verified_claims
            },
            !old(self).claim_exists(claim_id) ==> {
                &&& result == Err::<(), ClaimError>(ClaimError::NotFound)
                &&& *final(self) == *old(self)
            },
            (old(self).claim_exists(claim_id) && !old(self).claim_at(claim_id).is_verified) ==> {
                &&& result == Err::<(), ClaimError>(ClaimError::NotVerified)
                &&& *final(self) == *old(self)
            },
            (old(self).claim_exists(claim_id) && old(self).claim_at(claim_id).is_verified && old(
                self,
            ).claim_at(claim_id).is_paid) ==> {
                &&& result == Err::<(), ClaimError>(ClaimError::AlreadyPaid)
                &&& *final(self) == *old(self)
            },
    {
        proof {
            self.lemma_len_bounded();
        }
        let len: u64 = self.claims.len() as u64;
        if claim_id == 0 || claim_id > len {
            return Err(ClaimError::NotFound);
        }
        let idx: usize = (claim_id - 1) as usize;
        if !self.claims[idx].is_verified {
            return Err(ClaimError::NotVerified);
        }
        if self.claims[idx].is_paid {
            return Err(ClaimError::AlreadyPaid);
        }
        let mut updated = self.claims[idx].duplicate();
        updated.is_paid = true;
        proof {
            assert(updated == paid(self.claims@[idx as int]));
            lemma_counts_after_pay(self.claims@, idx as int);
            lemma_paid_count_lt_len(self.claims@, idx as int);
        }
        let amount = self.claims[idx].claim_amount;
        self.claims.set(idx, updated);
        self.stats.paid_claims = self.stats.paid_claims + 1;
        self.stats.total_paid_amount = self.stats.total_paid_amount + amount;
        Ok(())
    }

    /// Pure read: the record of the claim with this identifier, or the
    /// sentinel (identifier zero, `"Not_Found"` text fields, everything else
    /// zeroed) when no such claim was ever submitted.
    pub fn view_claim(&self, claim_id: u64) -> (c: Claim)
        ensures
            self.claim_exists(claim_id) ==> c == self.claim_at(claim_id),
            !self.claim_exists(claim_id) ==> is_sentinel(c),
    {
        let key = ClaimBook::Claim(claim_id);
        match self.lookup(&key) {
            Some(found) => found.duplicate(),
            None => sentinel_claim(),
        }
    }

    /// Pure read: the aggregate singleton.
    pub fn get_claim_stats(&self) -> (stats: ClaimStats)
        ensures
            stats == self.stats,
    {
        self.stats
    }

    /// Decides at run time whether this ledger is well formed. Meant for a
    /// caller that rebuilt a ledger from records it does not trust (an
    /// outside store): the answer is proved to coincide with [`Self::wf`].
    pub fn check_wf(&self) -> (ok: bool)
        ensures
            ok == self.wf(),
    {
        let n = self.claims.len();
        let mut i: usize = 0;
        let mut vcount: u64 = 0;
        let mut pcount: u64 = 0;
        let mut psum: u64 = 0;
        let mut sum_fits: bool = true;
        let mut ids_ok: bool = true;
        let mut order_ok: bool = true;
        while i < n
            invariant
                0 <= i <= n,
                n == self.claims@.len(),
                vcount == verified_count(self.claims@.take(i as int)),
                pcount == paid_count(self.claims@.take(i as int)),
                sum_fits ==> psum == paid_amount_sum(self.claims@.take(i as int)),
                !sum_fits ==> paid_amount_sum(self.claims@.take(i as int)) > u64::MAX,
                ids_ok == (forall|j: int|
                    0 <= j < i ==> (#[trigger] self.claims@[j]).claim_id == j + 1),
                order_ok == (forall|j: int|
                    0 <= j < i ==> ((#[trigger] self.claims@[j]).is_paid
                        ==> self.claims@[j].is_verified)),
            decreases n - i,
        {
            proof {
                lemma_counts_take_step(self.claims@, i as int);
                lemma_counts_le_len(self.claims@.take(i as int));
            }
            let claim = &self.claims[i];
            if claim.is_verified {
                vcount = vcount + 1;
            }
            if claim.is_paid {
                pcount = pcount + 1;
                if sum_fits {
                    match psum.checked_add(claim.claim_amount) {
                        Some(total) => {
                            psum = total;
                        },
                        None => {
                            sum_fits = false;
                        },
                    }
                }
            }
            ids_ok = ids_ok && claim.claim_id == (i as u64) + 1;
            order_ok = order_ok && (!claim.is_paid || claim.is_verified);
            i = i + 1;
        }
        proof {
            assert(self.claims@.take(n as int) =~= self.claims@);
        }
        let counts_ok: bool = self.stats.total_claims == (n as u64) && self.stats.verified_claims
            == vcount && self.stats.paid_claims == pcount;
        let sum_ok: bool = sum_fits && self.stats.total_paid_amount == psum;
        counts_ok && sum_ok && ids_ok && order_ok
    }

    /// Looks a key up in the record store.
    fn lookup(&self, key: &ClaimBook) -> (found: Option<&Claim>)
        ensures
            match found {
                Some(c) => self.claim_exists(key.id()) && *c == self.claim_at(key.id()),
                None => !self.claim_exists(key.id()),
            },
    {
        let claim_id = match key {
            ClaimBook::Claim(claim_id) => *claim_id,
        };
        if claim_id >= 1 && claim_id <= (self.claims.len() as u64) {
            let idx: usize = (claim_id - 1) as usize;
            Some(&self.claims[idx])
        } else {
            None
        }
    }
}

} // verus!
