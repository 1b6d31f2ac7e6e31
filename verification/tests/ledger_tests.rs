use claim_ledger::ledger::InsuranceClaimContract;
use claim_ledger::records::ClaimError;

fn submit(ledger: &mut InsuranceClaimContract, holder: &str, amount: u64, desc: &str) -> u64 {
    ledger.submit_claim(holder.to_owned(), amount, desc.to_owned(), 1000)
}

#[test]
fn submit_assigns_sequential_ids() {
    let mut ledger = InsuranceClaimContract::new();
    let a = submit(&mut ledger, "Alice", 500, "car");
    let b = submit(&mut ledger, "Bob", 750, "roof");
    let c = submit(&mut ledger, "Carol", 10, "phone");
    assert_eq!(a, 1);
    assert_eq!(b, 2);
    assert_eq!(c, 3);
    assert!(a != b && b != c && a != c);
}

#[test]
fn submit_starts_unverified_and_unpaid() {
    let mut ledger = InsuranceClaimContract::new();
    let id = submit(&mut ledger, "Alice", 500, "car");
    assert_ne!(id, 0);
    let claim = ledger.view_claim(id);
    assert!(!claim.is_verified);
    assert!(!claim.is_paid);
}

#[test]
fn view_records_submitted_fields() {
    let mut ledger = InsuranceClaimContract::new();
    let id = ledger.submit_claim("Alice".to_owned(), 500, "car".to_owned(), 123456);
    let claim = ledger.view_claim(id);
    assert_eq!(claim.claim_id, 1);
    assert_eq!(claim.policy_holder, "Alice");
    assert_eq!(claim.claim_amount, 500);
    assert_eq!(claim.description, "car");
    assert_eq!(claim.timestamp, 123456);
}

#[test]
fn view_unsubmitted_returns_sentinel() {
    let mut ledger = InsuranceClaimContract::new();
    submit(&mut ledger, "Alice", 500, "car");
    let missing = ledger.view_claim(2);
    assert_eq!(missing.claim_id, 0);
    assert_eq!(missing.policy_holder, "Not_Found");
    assert_eq!(missing.claim_amount, 0);
    assert_eq!(missing.description, "Not_Found");
    assert_eq!(missing.timestamp, 0);
    assert!(!missing.is_verified);
    assert!(!missing.is_paid);
    let zero = ledger.view_claim(0);
    assert_eq!(zero.claim_id, 0);
    assert_eq!(zero.policy_holder, "Not_Found");
}

#[test]
fn verify_unsubmitted_claim_is_refused() {
    let mut ledger = InsuranceClaimContract::new();
    assert_eq!(ledger.verify_claim(1), Err(ClaimError::NotFound));
    submit(&mut ledger, "Alice", 500, "car");
    assert_eq!(ledger.verify_claim(7), Err(ClaimError::NotFound));
    assert_eq!(ledger.verify_claim(0), Err(ClaimError::NotFound));
}

#[test]
fn verify_sets_flag_and_leaves_payment_alone() {
    let mut ledger = InsuranceClaimContract::new();
    let id = submit(&mut ledger, "Alice", 500, "car");
    assert_eq!(ledger.verify_claim(id), Ok(()));
    let claim = ledger.view_claim(id);
    assert!(claim.is_verified);
    assert!(!claim.is_paid);
}

#[test]
fn double_verify_is_refused() {
    let mut ledger = InsuranceClaimContract::new();
    let id = submit(&mut ledger, "Alice", 500, "car");
    assert_eq!(ledger.verify_claim(id), Ok(()));
    assert_eq!(ledger.verify_claim(id), Err(ClaimError::AlreadyVerified));
    let stats = ledger.get_claim_stats();
    assert_eq!(stats.verified_claims, 1);
}

#[test]
fn payment_requires_verification() {
    let mut ledger = InsuranceClaimContract::new();
    let id = submit(&mut ledger, "Alice", 500, "car");
    assert_eq!(ledger.process_payment(id), Err(ClaimError::NotVerified));
    let claim = ledger.view_claim(id);
    assert!(!claim.is_paid);
    assert_eq!(ledger.get_claim_stats().total_paid_amount, 0);
}

#[test]
fn payment_on_unsubmitted_claim_is_refused() {
    let mut ledger = InsuranceClaimContract::new();
    assert_eq!(ledger.process_payment(1), Err(ClaimError::NotFound));
    submit(&mut ledger, "Alice", 500, "car");
    assert_eq!(ledger.process_payment(9), Err(ClaimError::NotFound));
}

#[test]
fn payment_adds_exact_amount_and_only_once() {
    let mut ledger = InsuranceClaimContract::new();
    let id = submit(&mut ledger, "Alice", 500, "car");
    assert_eq!(ledger.verify_claim(id), Ok(()));
    assert_eq!(ledger.process_payment(id), Ok(()));
    let claim = ledger.view_claim(id);
    assert!(claim.is_paid);
    assert_eq!(ledger.get_claim_stats().total_paid_amount, 500);
    assert_eq!(ledger.process_payment(id), Err(ClaimError::AlreadyPaid));
    let stats = ledger.get_claim_stats();
    assert_eq!(stats.total_paid_amount, 500);
    assert_eq!(stats.paid_claims, 1);
}

#[test]
fn stats_start_all_zero() {
    let ledger = InsuranceClaimContract::new();
    let stats = ledger.get_claim_stats();
    assert_eq!(stats.total_claims, 0);
    assert_eq!(stats.verified_claims, 0);
    assert_eq!(stats.paid_claims, 0);
    assert_eq!(stats.total_paid_amount, 0);
}

#[test]
fn stats_track_every_operation() {
    let mut ledger = InsuranceClaimContract::new();
    let a = submit(&mut ledger, "Alice", 500, "car");
    let b = submit(&mut ledger, "Bob", 750, "roof");
    submit(&mut ledger, "Carol", 10, "phone");
    assert_eq!(ledger.verify_claim(a), Ok(()));
    assert_eq!(ledger.verify_claim(b), Ok(()));
    assert_eq!(ledger.process_payment(b), Ok(()));
    let stats = ledger.get_claim_stats();
    assert_eq!(stats.total_claims, 3);
    assert_eq!(stats.verified_claims, 2);
    assert_eq!(stats.paid_claims, 1);
    assert_eq!(stats.total_paid_amount, 750);
}

#[test]
fn stats_sum_amounts_of_paid_claims_only() {
    let mut ledger = InsuranceClaimContract::new();
    let a = submit(&mut ledger, "Alice", 300, "bike");
    let b = submit(&mut ledger, "Bob", 200, "tools");
    let c = submit(&mut ledger, "Carol", 999, "piano");
    assert_eq!(ledger.verify_claim(a), Ok(()));
    assert_eq!(ledger.verify_claim(b), Ok(()));
    assert_eq!(ledger.verify_claim(c), Ok(()));
    assert_eq!(ledger.process_payment(a), Ok(()));
    assert_eq!(ledger.process_payment(b), Ok(()));
    let stats = ledger.get_claim_stats();
    assert_eq!(stats.total_paid_amount, 500);
    assert_eq!(stats.paid_claims, 2);
    assert_eq!(stats.verified_claims, 3);
}

#[test]
fn refused_transitions_leave_the_ledger_unchanged() {
    let mut ledger = InsuranceClaimContract::new();
    let id = submit(&mut ledger, "Alice", 500, "car");
    assert_eq!(ledger.process_payment(id), Err(ClaimError::NotVerified));
    assert_eq!(ledger.verify_claim(42), Err(ClaimError::NotFound));
    let stats = ledger.get_claim_stats();
    assert_eq!(stats.total_claims, 1);
    assert_eq!(stats.verified_claims, 0);
    assert_eq!(stats.paid_claims, 0);
    assert_eq!(stats.total_paid_amount, 0);
    let claim = ledger.view_claim(id);
    assert!(!claim.is_verified);
    assert!(!claim.is_paid);
}

#[test]
fn check_wf_accepts_ledgers_built_by_operations() {
    let mut ledger = InsuranceClaimContract::new();
    assert!(ledger.check_wf());
    let a = submit(&mut ledger, "Alice", 500, "car");
    let _ = submit(&mut ledger, "Bob", 750, "roof");
    assert_eq!(ledger.verify_claim(a), Ok(()));
    assert_eq!(ledger.process_payment(a), Ok(()));
    assert!(ledger.check_wf());
}

#[test]
fn check_wf_rejects_tampered_records() {
    let mut ledger = InsuranceClaimContract::new();
    let a = submit(&mut ledger, "Alice", 500, "car");
    assert_eq!(ledger.verify_claim(a), Ok(()));

    let mut wrong_count = InsuranceClaimContract { claims: ledger.claims.clone(), stats: ledger.stats };
    wrong_count.stats.total_claims = 9;
    assert!(!wrong_count.check_wf());

    let mut wrong_sum = InsuranceClaimContract { claims: ledger.claims.clone(), stats: ledger.stats };
    wrong_sum.stats.total_paid_amount = 1;
    assert!(!wrong_sum.check_wf());

    let mut wrong_id = InsuranceClaimContract { claims: ledger.claims.clone(), stats: ledger.stats };
    wrong_id.claims[0].claim_id = 5;
    assert!(!wrong_id.check_wf());

    let mut paid_unverified = InsuranceClaimContract { claims: ledger.claims.clone(), stats: ledger.stats };
    paid_unverified.claims[0].is_verified = false;
    paid_unverified.claims[0].is_paid = true;
    assert!(!paid_unverified.check_wf());
}

#[test]
fn scenario_submit_verify_pay() {
    let mut ledger = InsuranceClaimContract::new();
    let id = ledger.submit_claim("Alice".to_owned(), 500, "car".to_owned(), 1000);
    assert_eq!(id, 1);
    assert_eq!(ledger.verify_claim(1), Ok(()));
    assert!(ledger.view_claim(1).is_verified);
    assert_eq!(ledger.process_payment(1), Ok(()));
    assert!(ledger.view_claim(1).is_paid);
    assert_eq!(ledger.get_claim_stats().total_paid_amount, 500);
    assert_eq!(ledger.verify_claim(1), Err(ClaimError::AlreadyVerified));
    assert_eq!(ledger.process_payment(2), Err(ClaimError::NotFound));
}
