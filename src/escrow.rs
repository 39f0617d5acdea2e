use vstd::prelude::*;

verus! {

/// Why an escrow operation was refused. Every refusal leaves the stored
/// records as they were.
#[derive(Debug, Clone, Copy, PartialEq, Eq, Structural)]
pub enum EscrowError {
    /// A record already exists for the payment identifier.
    AlreadyExists,
    /// No record exists for the payment identifier.
    NotFound,
    /// The escrow was already released or cancelled.
    AlreadyFinalized,
    /// The presented passcode does not match the stored commitment.
    InvalidOTP,
    /// The invocation is not authorized by the required identity.
    Unauthorized,
    /// The token ledger could not move the funds.
    TransferFailed,
}

/// The storage key of an escrow record.
#[derive(Debug, Clone, PartialEq, Eq)]
pub enum DataKey {
    Escrow(String),
}

impl View for DataKey {
    type V = Seq<char>;

    /// The payment identifier that the key stands for.
    open spec fn view(&self) -> Seq<char> {
        match self {
            DataKey::Escrow(p) => p@,
        }
    }
}

/// One escrow record. Account identities and the token are held in their
/// textual address form.
#[derive(Debug, Clone, PartialEq, Eq)]
pub struct Escrow {
    pub sender: String,
    pub receiver: String,
    pub amount: i128,
    pub token: String,
    pub otp_hash: String,
    pub is_active: bool,
    pub timestamp: u64,
}

/// The mathematical value of an [`Escrow`].
pub struct EscrowModel {
    pub sender: Seq<char>,
    pub receiver: Seq<char>,
    pub amount: i128,
    pub token: Seq<char>,
    pub otp_hash: Seq<char>,
    pub is_active: bool,
    pub timestamp: u64,
}

impl View for Escrow {
    type V = EscrowModel;

    open spec fn view(&self) -> EscrowModel {
        EscrowModel {
            sender: self.sender@,
            receiver: self.receiver@,
            amount: self.amount,
            token: self.token@,
            otp_hash: self.otp_hash@,
            is_active: self.is_active,
            timestamp: self.timestamp,
        }
    }
}

impl Escrow {
    /// A field-by-field copy.
    pub fn duplicate(&self) -> (r: Escrow)
        ensures
            r@ == self@,
    {
        Escrow {
            sender: self.sender.clone(),
            receiver: self.receiver.clone(),
            amount: self.amount,
            token: self.token.clone(),
            otp_hash: self.otp_hash.clone(),
            is_active: self.is_active,
            timestamp: self.timestamp,
        }
    }
}

/// A movement of tokens that an operation asks the token ledger to make.
/// The holding account is the escrow's own custody account.
#[derive(Debug, Clone, PartialEq, Eq)]
pub enum Transfer {
    /// `amount` of `token` from `from` into the holding account.
    IntoHolding { from: String, token: String, amount: i128 },
    /// `amount` of `token` from the holding account to `to`.
    OutOfHolding { to: String, token: String, amount: i128 },
}

/// The mathematical value of a [`Transfer`].
pub enum TransferModel {
    IntoHolding { from: Seq<char>, token: Seq<char>, amount: i128 },
    OutOfHolding { to: Seq<char>, token: Seq<char>, amount: i128 },
}

impl View for Transfer {
    type V = TransferModel;

    open spec fn view(&self) -> TransferModel {
        match self {
            Transfer::IntoHolding { from, token, amount } => TransferModel::IntoHolding {
                from: from@,
                token: token@,
                amount: *amount,
            },
            Transfer::OutOfHolding { to, token, amount } => TransferModel::OutOfHolding {
                to: to@,
                token: token@,
                amount: *amount,
            },
        }
    }
}

/// The value of an operation's outcome: the transfer made, or the refusal.
pub open spec fn outcome_view(r: Result<Transfer, EscrowError>) -> Result<TransferModel, EscrowError> {
    match r {
        Ok(t) => Ok(t@),
        Err(e) => Err(e),
    }
}

} // verus!
