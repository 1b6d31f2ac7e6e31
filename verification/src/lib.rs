//! A verified record-keeping library for insurance claims.
//!
//! A [`records::Claim`] is filed with `submit_claim`, marked reviewed with
//! `verify_claim`, and settled with `process_payment`; `view_claim` and
//! `get_claim_stats` are read-only accessors. The ledger keeps one running
//! aggregate, [`records::ClaimStats`], that is proved to match the claim
//! records at all times.

pub mod counts;
pub mod laws;
pub mod ledger;
pub mod records;
