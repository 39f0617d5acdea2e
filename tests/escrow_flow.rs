use supi_escrow::escrow::{Escrow, EscrowError, Transfer};
use supi_escrow::service::SupiEscrow;

fn s(text: &str) -> String {
    text.to_string()
}

fn with_open_escrow() -> SupiEscrow {
    let mut svc = SupiEscrow::new();
    let r = svc.create_escrow(s("p1"), s("A"), s("B"), 100, s("T"), s("H"), &s("A"), 1000, true);
    assert!(r.is_ok());
    svc
}

#[test]
fn scenario_create_release_cancel() {
    let mut svc = SupiEscrow::new();
    let r = svc.create_escrow(s("p1"), s("A"), s("B"), 100, s("T"), s("correct"), &s("A"), 1000, true);
    assert_eq!(r, Ok(Transfer::IntoHolding { from: s("A"), token: s("T"), amount: 100 }));
    assert_eq!(svc.get_escrow(s("p1")), Ok((s("A"), s("B"), 100, true, 1000)));

    assert_eq!(svc.release_funds(s("p1"), s("wrong"), true), Err(EscrowError::InvalidOTP));
    assert_eq!(svc.get_escrow(s("p1")), Ok((s("A"), s("B"), 100, true, 1000)));

    let r = svc.release_funds(s("p1"), s("correct"), true);
    assert_eq!(r, Ok(Transfer::OutOfHolding { to: s("B"), token: s("T"), amount: 100 }));
    assert_eq!(svc.get_escrow(s("p1")), Ok((s("A"), s("B"), 100, false, 1000)));

    assert_eq!(svc.cancel_escrow(s("p1"), &s("A"), true), Err(EscrowError::AlreadyFinalized));
}

#[test]
fn inspect_after_create_shows_inputs_and_time() {
    let mut svc = SupiEscrow::new();
    svc.create_escrow(s("pay-7"), s("GA"), s("GB"), 5, s("XLM"), s("h"), &s("GA"), 42, true)
        .unwrap();
    let (sender, receiver, amount, active, ts) = svc.get_escrow(s("pay-7")).unwrap();
    assert_eq!(sender, "GA");
    assert_eq!(receiver, "GB");
    assert_eq!(amount, 5);
    assert!(active);
    assert!(ts >= 42);
    assert_eq!(ts, 42);
}

#[test]
fn stored_record_keeps_commitment_and_all_fields() {
    let svc = with_open_escrow();
    let e = svc.escrow_record(&s("p1")).unwrap();
    assert_eq!(
        e,
        Escrow {
            sender: s("A"),
            receiver: s("B"),
            amount: 100,
            token: s("T"),
            otp_hash: s("H"),
            is_active: true,
            timestamp: 1000,
        }
    );
    assert!(svc.escrow_record(&s("p2")).is_none());
}

#[test]
fn create_twice_fails_already_exists() {
    let mut svc = with_open_escrow();
    let r = svc.create_escrow(s("p1"), s("C"), s("D"), 7, s("U"), s("K"), &s("C"), 2000, true);
    assert_eq!(r, Err(EscrowError::AlreadyExists));
    assert_eq!(svc.get_escrow(s("p1")), Ok((s("A"), s("B"), 100, true, 1000)));
    let r = svc.create_escrow(s("p1"), s("A"), s("B"), 100, s("T"), s("H"), &s("A"), 1000, true);
    assert_eq!(r, Err(EscrowError::AlreadyExists));
}

#[test]
fn create_after_finalization_still_fails() {
    let mut svc = with_open_escrow();
    svc.cancel_escrow(s("p1"), &s("A"), true).unwrap();
    let r = svc.create_escrow(s("p1"), s("A"), s("B"), 100, s("T"), s("H"), &s("A"), 3000, true);
    assert_eq!(r, Err(EscrowError::AlreadyExists));
    assert_eq!(svc.get_escrow(s("p1")), Ok((s("A"), s("B"), 100, false, 1000)));
}

#[test]
fn create_by_other_identity_is_unauthorized() {
    let mut svc = SupiEscrow::new();
    let r = svc.create_escrow(s("p1"), s("A"), s("B"), 100, s("T"), s("H"), &s("B"), 1000, true);
    assert_eq!(r, Err(EscrowError::Unauthorized));
    assert!(!svc.has_escrow(&s("p1")));
}

#[test]
fn create_with_failed_deposit_writes_nothing() {
    let mut svc = SupiEscrow::new();
    let r = svc.create_escrow(s("p1"), s("A"), s("B"), 100, s("T"), s("H"), &s("A"), 1000, false);
    assert_eq!(r, Err(EscrowError::TransferFailed));
    assert_eq!(svc.get_escrow(s("p1")), Err(EscrowError::NotFound));
    let r = svc.create_escrow(s("p1"), s("A"), s("B"), 100, s("T"), s("H"), &s("A"), 1000, true);
    assert!(r.is_ok());
}

#[test]
fn wrong_code_then_right_code_succeeds() {
    let mut svc = with_open_escrow();
    assert_eq!(svc.release_funds(s("p1"), s("h"), true), Err(EscrowError::InvalidOTP));
    assert_eq!(svc.release_funds(s("p1"), s(""), true), Err(EscrowError::InvalidOTP));
    assert_eq!(svc.get_escrow(s("p1")).unwrap().3, true);
    let r = svc.release_funds(s("p1"), s("H"), true);
    assert_eq!(r, Ok(Transfer::OutOfHolding { to: s("B"), token: s("T"), amount: 100 }));
}

#[test]
fn failed_payout_leaves_escrow_active() {
    let mut svc = with_open_escrow();
    assert_eq!(svc.release_funds(s("p1"), s("H"), false), Err(EscrowError::TransferFailed));
    assert_eq!(svc.get_escrow(s("p1")).unwrap().3, true);
    assert!(svc.release_funds(s("p1"), s("H"), true).is_ok());
}

#[test]
fn no_double_payout() {
    let mut svc = with_open_escrow();
    assert!(svc.release_funds(s("p1"), s("H"), true).is_ok());
    assert_eq!(svc.release_funds(s("p1"), s("H"), true), Err(EscrowError::AlreadyFinalized));
    assert_eq!(svc.release_funds(s("p1"), s("x"), true), Err(EscrowError::AlreadyFinalized));
    assert_eq!(svc.cancel_escrow(s("p1"), &s("A"), true), Err(EscrowError::AlreadyFinalized));
    assert_eq!(svc.plan_release(&s("p1"), &s("H")), Err(EscrowError::AlreadyFinalized));
    assert_eq!(svc.get_escrow(s("p1")).unwrap().3, false);
}

#[test]
fn cancel_by_other_identity_is_unauthorized() {
    let mut svc = with_open_escrow();
    assert_eq!(svc.cancel_escrow(s("p1"), &s("B"), true), Err(EscrowError::Unauthorized));
    assert_eq!(svc.cancel_escrow(s("p1"), &s("Z"), true), Err(EscrowError::Unauthorized));
    assert_eq!(svc.get_escrow(s("p1")).unwrap().3, true);
}

#[test]
fn cancel_by_sender_refunds_once() {
    let mut svc = with_open_escrow();
    let r = svc.cancel_escrow(s("p1"), &s("A"), true);
    assert_eq!(r, Ok(Transfer::OutOfHolding { to: s("A"), token: s("T"), amount: 100 }));
    assert_eq!(svc.get_escrow(s("p1")).unwrap().3, false);
    assert_eq!(svc.cancel_escrow(s("p1"), &s("A"), true), Err(EscrowError::AlreadyFinalized));
    assert_eq!(svc.release_funds(s("p1"), s("H"), true), Err(EscrowError::AlreadyFinalized));
}

#[test]
fn failed_refund_leaves_escrow_active() {
    let mut svc = with_open_escrow();
    assert_eq!(svc.cancel_escrow(s("p1"), &s("A"), false), Err(EscrowError::TransferFailed));
    assert_eq!(svc.get_escrow(s("p1")).unwrap().3, true);
}

#[test]
fn unknown_id_is_not_found() {
    let mut svc = with_open_escrow();
    assert_eq!(svc.release_funds(s("p2"), s("H"), true), Err(EscrowError::NotFound));
    assert_eq!(svc.cancel_escrow(s("p2"), &s("A"), true), Err(EscrowError::NotFound));
    assert_eq!(svc.get_escrow(s("p2")), Err(EscrowError::NotFound));
    assert_eq!(svc.get_escrow(s("")), Err(EscrowError::NotFound));
    assert_eq!(SupiEscrow::new().get_escrow(s("p1")), Err(EscrowError::NotFound));
}

#[test]
fn plans_match_operations() {
    let svc = with_open_escrow();
    assert_eq!(
        svc.plan_create(&s("p2"), &s("A"), 3, &s("T"), &s("A")),
        Ok(Transfer::IntoHolding { from: s("A"), token: s("T"), amount: 3 })
    );
    assert_eq!(svc.plan_create(&s("p1"), &s("A"), 3, &s("T"), &s("A")), Err(EscrowError::AlreadyExists));
    assert_eq!(svc.plan_release(&s("p1"), &s("nope")), Err(EscrowError::InvalidOTP));
    assert_eq!(
        svc.plan_cancel(&s("p1"), &s("A")),
        Ok(Transfer::OutOfHolding { to: s("A"), token: s("T"), amount: 100 })
    );
    assert_eq!(svc.plan_cancel(&s("p3"), &s("A")), Err(EscrowError::NotFound));
}

#[test]
fn records_are_kept_apart() {
    let mut svc = with_open_escrow();
    svc.create_escrow(s("p2"), s("C"), s("D"), i128::MAX, s("U"), s("K"), &s("C"), u64::MAX, true)
        .unwrap();
    svc.release_funds(s("p2"), s("K"), true).unwrap();
    assert_eq!(svc.get_escrow(s("p1")), Ok((s("A"), s("B"), 100, true, 1000)));
    assert_eq!(svc.get_escrow(s("p2")), Ok((s("C"), s("D"), i128::MAX, false, u64::MAX)));
}

#[test]
fn set_escrow_replaces_or_adds() {
    let mut svc = with_open_escrow();
    let mut e = svc.escrow_record(&s("p1")).unwrap();
    e.is_active = false;
    svc.set_escrow(s("p1"), e.clone());
    assert_eq!(svc.escrow_record(&s("p1")), Some(e.clone()));
    svc.set_escrow(s("p9"), e.clone());
    assert!(svc.has_escrow(&s("p9")));
    assert_eq!(svc.release_funds(s("p9"), s("H"), true), Err(EscrowError::AlreadyFinalized));
}
