use vstd::prelude::*;
use crate::escrow::{EscrowError, EscrowModel, TransferModel};

verus! {

/// The stored records, by payment identifier.
pub type Records = Map<Seq<char>, EscrowModel>;

/// The same record, finalized.
pub open spec fn finalized(e: EscrowModel) -> EscrowModel {
    EscrowModel { is_active: false, ..e }
}

/// An operation's outcome once its guards have passed or failed, given
/// whether the token ledger made the transfer that the guards allowed.
pub open spec fn settle(plan: Result<TransferModel, EscrowError>, transfer_ok: bool) -> Result<
    TransferModel,
    EscrowError,
> {
    match plan {
        Err(e) => Err(e),
        Ok(t) => if transfer_ok {
            Ok(t)
        } else {
            Err(EscrowError::TransferFailed)
        },
    }
}

/// The guards of creation, in order, and the deposit they allow.
pub open spec fn create_plan(
    m: Records,
    payment_id: Seq<char>,
    sender: Seq<char>,
    amount: i128,
    token: Seq<char>,
    caller: Seq<char>,
) -> Result<TransferModel, EscrowError> {
    if caller != sender {
        Err(EscrowError::Unauthorized)
    } else if m.contains_key(payment_id) {
        Err(EscrowError::AlreadyExists)
    } else {
        Ok(TransferModel::IntoHolding { from: sender, token, amount })
    }
}

/// The record that a successful creation writes.
pub open spec fn new_record(
    sender: Seq<char>,
    receiver: Seq<char>,
    amount: i128,
    token: Seq<char>,
    otp_hash: Seq<char>,
    now: u64,
) -> EscrowModel {
    EscrowModel { sender, receiver, amount, token, otp_hash, is_active: true, timestamp: now }
}

/// The records after a creation.
pub open spec fn create_state(
    m: Records,
    payment_id: Seq<char>,
    sender: Seq<char>,
    receiver: Seq<char>,
    amount: i128,
    token: Seq<char>,
    otp_hash: Seq<char>,
    caller: Seq<char>,
    now: u64,
    transfer_ok: bool,
) -> Records {
    if settle(create_plan(m, payment_id, sender, amount, token, caller), transfer_ok) is Ok {
        m.insert(payment_id, new_record(sender, receiver, amount, token, otp_hash, now))
    } else {
        m
    }
}

/// The guards of release, in order, and the payout they allow.
pub open spec fn release_plan(m: Records, payment_id: Seq<char>, otp: Seq<char>) -> Result<
    TransferModel,
    EscrowError,
> {
    if !m.contains_key(payment_id) {
        Err(EscrowError::NotFound)
    } else if !m[payment_id].is_active {
        Err(EscrowError::AlreadyFinalized)
    } else if otp != m[payment_id].otp_hash {
        Err(EscrowError::InvalidOTP)
    } else {
        Ok(
            TransferModel::OutOfHolding {
                to: m[payment_id].receiver,
                token: m[payment_id].token,
                amount: m[payment_id].amount,
            },
        )
    }
}

/// The records after a release.
pub open spec fn release_state(
    m: Records,
    payment_id: Seq<char>,
    otp: Seq<char>,
    transfer_ok: bool,
) -> Records {
    if settle(release_plan(m, payment_id, otp), transfer_ok) is Ok {
        m.insert(payment_id, finalized(m[payment_id]))
    } else {
        m
    }
}

/// The guards of cancellation, in order, and the refund they allow.
pub open spec fn cancel_plan(m: Records, payment_id: Seq<char>, caller: Seq<char>) -> Result<
    TransferModel,
    EscrowError,
> {
    if !m.contains_key(payment_id) {
        Err(EscrowError::NotFound)
    } else if caller != m[payment_id].sender {
        Err(EscrowError::Unauthorized)
    } else if !m[payment_id].is_active {
        Err(EscrowError::AlreadyFinalized)
    } else {
        Ok(
            TransferModel::OutOfHolding {
                to: m[payment_id].sender,
                token: m[payment_id].token,
                amount: m[payment_id].amount,
            },
        )
    }
}

/// The records after a cancellation.
pub open spec fn cancel_state(
    m: Records,
    payment_id: Seq<char>,
    caller: Seq<char>,
    transfer_ok: bool,
) -> Records {
    if settle(cancel_plan(m, payment_id, caller), transfer_ok) is Ok {
        m.insert(payment_id, finalized(m[payment_id]))
    } else {
        m
    }
}

/// What inspection shows of a record: everything but the passcode commitment.
pub open spec fn inspect(m: Records, payment_id: Seq<char>) -> Result<
    (Seq<char>, Seq<char>, i128, bool, u64),
    EscrowError,
> {
    if !m.contains_key(payment_id) {
        Err(EscrowError::NotFound)
    } else {
        let e = m[payment_id];
        Ok((e.sender, e.receiver, e.amount, e.is_active, e.timestamp))
    }
}

} // verus!
