use vstd::prelude::*;
use crate::escrow::{EscrowError, TransferModel};
use crate::rules::{
    Records, cancel_plan, cancel_state, create_plan, create_state, finalized, inspect,
    release_plan, release_state, settle,
};

verus! {

/// An authorized creation under a fresh payment identifier whose deposit
/// goes through succeeds, and inspection then shows the given sender,
/// receiver and amount, an active escrow and the time of the call.
pub proof fn lemma_create_then_inspect(
    m: Records,
    payment_id: Seq<char>,
    sender: Seq<char>,
    receiver: Seq<char>,
    amount: i128,
    token: Seq<char>,
    otp_hash: Seq<char>,
    now: u64,
)
    requires
        amount > 0,
        !m.contains_key(payment_id),
    ensures
        settle(create_plan(m, payment_id, sender, amount, token, sender), true) == Ok::<
            TransferModel,
            EscrowError,
        >(TransferModel::IntoHolding { from: sender, token, amount }),
        inspect(
            create_state(m, payment_id, sender, receiver, amount, token, otp_hash, sender, now, true),
            payment_id,
        ) == Ok::<(Seq<char>, Seq<char>, i128, bool, u64), EscrowError>(
            (sender, receiver, amount, true, now),
        ),
{
}

/// Once a creation has succeeded, every later authorized creation under the
/// same payment identifier fails with `AlreadyExists` and changes nothing,
/// whatever its other fields.
pub proof fn lemma_create_twice(
    m: Records,
    payment_id: Seq<char>,
    sender: Seq<char>,
    receiver: Seq<char>,
    amount: i128,
    token: Seq<char>,
    otp_hash: Seq<char>,
    caller: Seq<char>,
    now: u64,
    transfer_ok: bool,
    sender2: Seq<char>,
    receiver2: Seq<char>,
    amount2: i128,
    token2: Seq<char>,
    otp_hash2: Seq<char>,
    now2: u64,
    transfer_ok2: bool,
)
    requires
        settle(create_plan(m, payment_id, sender, amount, token, caller), transfer_ok) is Ok,
    ensures
        ({
            let m1 = create_state(
                m,
                payment_id,
                sender,
                receiver,
                amount,
                token,
                otp_hash,
                caller,
                now,
                transfer_ok,
            );
            &&& settle(create_plan(m1, payment_id, sender2, amount2, token2, sender2), transfer_ok2)
                == Err::<TransferModel, EscrowError>(EscrowError::AlreadyExists)
            &&& create_state(
                m1,
                payment_id,
                sender2,
                receiver2,
                amount2,
                token2,
                otp_hash2,
                sender2,
                now2,
                transfer_ok2,
            ) == m1
        }),
{
}

/// A release with a wrong passcode fails with `InvalidOTP`, moves nothing and
/// leaves the records as they were, so the escrow stays active; a later
/// release with the right passcode whose payout goes through succeeds.
pub proof fn lemma_wrong_code_then_right(
    m: Records,
    payment_id: Seq<char>,
    wrong: Seq<char>,
    transfer_ok: bool,
)
    requires
        m.contains_key(payment_id),
        m[payment_id].is_active,
        wrong != m[payment_id].otp_hash,
    ensures
        settle(release_plan(m, payment_id, wrong), transfer_ok) == Err::<
            TransferModel,
            EscrowError,
        >(EscrowError::InvalidOTP),
        release_state(m, payment_id, wrong, transfer_ok) == m,
        release_state(m, payment_id, wrong, transfer_ok)[payment_id].is_active,
        settle(
            release_plan(
                release_state(m, payment_id, wrong, transfer_ok),
                payment_id,
                m[payment_id].otp_hash,
            ),
            true,
        ) is Ok,
{
}

/// A release of an active escrow with the right passcode pays the amount of
/// its token to the receiver and finalizes it; after that every release fails
/// with `AlreadyFinalized`, every cancellation fails (with `AlreadyFinalized`
/// when the sender asks), and none of them moves funds or changes a record.
pub proof fn lemma_release_once(
    m: Records,
    payment_id: Seq<char>,
    otp2: Seq<char>,
    caller: Seq<char>,
    transfer_ok2: bool,
)
    requires
        m.contains_key(payment_id),
        m[payment_id].is_active,
    ensures
        ({
            let e = m[payment_id];
            let m1 = release_state(m, payment_id, e.otp_hash, true);
            &&& settle(release_plan(m, payment_id, e.otp_hash), true) == Ok::<
                TransferModel,
                EscrowError,
            >(TransferModel::OutOfHolding { to: e.receiver, token: e.token, amount: e.amount })
            &&& m1 == m.insert(payment_id, finalized(e))
            &&& !m1[payment_id].is_active
            &&& settle(release_plan(m1, payment_id, otp2), transfer_ok2) == Err::<
                TransferModel,
                EscrowError,
            >(EscrowError::AlreadyFinalized)
            &&& release_state(m1, payment_id, otp2, transfer_ok2) == m1
            &&& settle(cancel_plan(m1, payment_id, caller), transfer_ok2) is Err
            &&& (caller == e.sender ==> settle(cancel_plan(m1, payment_id, caller), transfer_ok2)
                == Err::<TransferModel, EscrowError>(EscrowError::AlreadyFinalized))
            &&& cancel_state(m1, payment_id, caller, transfer_ok2) == m1
        }),
{
}

/// A cancellation asked by anyone but the stored sender fails with
/// `Unauthorized` and moves nothing.
pub proof fn lemma_cancel_by_other(
    m: Records,
    payment_id: Seq<char>,
    caller: Seq<char>,
    transfer_ok: bool,
)
    requires
        m.contains_key(payment_id),
        caller != m[payment_id].sender,
    ensures
        settle(cancel_plan(m, payment_id, caller), transfer_ok) == Err::<
            TransferModel,
            EscrowError,
        >(EscrowError::Unauthorized),
        cancel_state(m, payment_id, caller, transfer_ok) == m,
{
}

/// A cancellation of an active escrow by its sender refunds the amount to the
/// sender and finalizes it; a repeated cancellation fails with
/// `AlreadyFinalized` and moves nothing.
pub proof fn lemma_cancel_by_sender(m: Records, payment_id: Seq<char>, transfer_ok2: bool)
    requires
        m.contains_key(payment_id),
        m[payment_id].is_active,
    ensures
        ({
            let e = m[payment_id];
            let m1 = cancel_state(m, payment_id, e.sender, true);
            &&& settle(cancel_plan(m, payment_id, e.sender), true) == Ok::<
                TransferModel,
                EscrowError,
            >(TransferModel::OutOfHolding { to: e.sender, token: e.token, amount: e.amount })
            &&& m1 == m.insert(payment_id, finalized(e))
            &&& !m1[payment_id].is_active
            &&& settle(cancel_plan(m1, payment_id, e.sender), transfer_ok2) == Err::<
                TransferModel,
                EscrowError,
            >(EscrowError::AlreadyFinalized)
            &&& cancel_state(m1, payment_id, e.sender, transfer_ok2) == m1
        }),
{
}

/// Release, cancellation and inspection of a payment identifier with no
/// record fail with `NotFound` and change nothing.
pub proof fn lemma_unknown_id(
    m: Records,
    payment_id: Seq<char>,
    otp: Seq<char>,
    caller: Seq<char>,
    transfer_ok: bool,
)
    requires
        !m.contains_key(payment_id),
    ensures
        settle(release_plan(m, payment_id, otp), transfer_ok) == Err::<TransferModel, EscrowError>(
            EscrowError::NotFound,
        ),
        release_state(m, payment_id, otp, transfer_ok) == m,
        settle(cancel_plan(m, payment_id, caller), transfer_ok) == Err::<
            TransferModel,
            EscrowError,
        >(EscrowError::NotFound),
        cancel_state(m, payment_id, caller, transfer_ok) == m,
        inspect(m, payment_id) == Err::<(Seq<char>, Seq<char>, i128, bool, u64), EscrowError>(
            EscrowError::NotFound,
        ),
{
}

/// A finalized record is never changed again: no creation, release or
/// cancellation under its payment identifier succeeds or alters the records.
pub proof fn lemma_finalized_is_terminal(
    m: Records,
    payment_id: Seq<char>,
    sender: Seq<char>,
    receiver: Seq<char>,
    amount: i128,
    token: Seq<char>,
    otp: Seq<char>,
    caller: Seq<char>,
    now: u64,
    transfer_ok: bool,
)
    requires
        m.contains_key(payment_id),
        !m[payment_id].is_active,
    ensures
        settle(create_plan(m, payment_id, sender, amount, token, caller), transfer_ok) is Err,
        create_state(
            m,
            payment_id,
            sender,
            receiver,
            amount,
            token,
            otp,
            caller,
            now,
            transfer_ok,
        ) == m,
        settle(release_plan(m, payment_id, otp), transfer_ok) is Err,
        release_state(m, payment_id, otp, transfer_ok) == m,
        settle(cancel_plan(m, payment_id, caller), transfer_ok) is Err,
        cancel_state(m, payment_id, caller, transfer_ok) == m,
{
}

} // verus!
