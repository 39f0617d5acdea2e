use vstd::prelude::*;
use crate::escrow::{DataKey, Escrow, EscrowError, Transfer, outcome_view};
use crate::rules::{
    Records, cancel_plan, cancel_state, create_plan, create_state, finalized, inspect,
    release_plan, release_state, settle,
};

verus! {

/// The escrow service and the records it keeps, one per payment identifier.
///
/// Records are kept in insertion order; `keys[i]` is the key of `escrows[i]`.
pub struct SupiEscrow {
    keys: Vec<DataKey>,
    escrows: Vec<Escrow>,
    records: Ghost<Records>,
}

impl View for SupiEscrow {
    type V = Records;

    closed spec fn view(&self) -> Records {
        self.records@
    }
}

impl SupiEscrow {
    /// The two vectors line up, no payment identifier occurs twice, and the
    /// map of records is exactly what they hold.
    pub closed spec fn wf(&self) -> bool {
        &&& self.keys@.len() == self.escrows@.len()
        &&& forall|i: int, j: int|
            0 <= i < j < self.keys@.len() ==> #[trigger] self.keys@[i]@ != #[trigger] self.keys@[j]@
        &&& forall|i: int|
            0 <= i < self.keys@.len() ==> #[trigger] self.records@.contains_key(self.keys@[i]@)
                && self.records@[self.keys@[i]@] == self.escrows@[i]@
        &&& forall|k: Seq<char>|
            #[trigger] self.records@.contains_key(k) ==> exists|i: int|
                0 <= i < self.keys@.len() && #[trigger] self.keys@[i]@ == k
    }

    /// A service with no records.
    pub fn new() -> (r: SupiEscrow)
        ensures
            r.wf(),
            r@ == Map::<Seq<char>, crate::escrow::EscrowModel>::empty(),
    {
        SupiEscrow { keys: Vec::new(), escrows: Vec::new(), records: Ghost(Map::empty()) }
    }

    /// The position of the record for `payment_id`, if there is one.
    fn find(&self, payment_id: &String) -> (r: Option<usize>)
        requires
            self.wf(),
        ensures
            match r {
                Some(i) => i < self.keys@.len() && self.keys@[i as int]@ == payment_id@
                    && self@.contains_key(payment_id@)
                    && self@[payment_id@] == self.escrows@[i as int]@,
                None => !self@.contains_key(payment_id@),
            },
    {
        let mut i: usize = 0;
        while i < self.keys.len()
            invariant
                self.wf(),
                i <= self.keys@.len(),
                forall|j: int| 0 <= j < i ==> #[trigger] self.keys@[j]@ != payment_id@,
            decreases self.keys@.len() - i,
        {
            let found = match &self.keys[i] {
                DataKey::Escrow(p) => *p == *payment_id,
            };
            if found {
                assert(self.records@.contains_key(self.keys@[i as int]@));
                return Some(i);
            }
            i = i + 1;
        }
        None
    }

    /// Replaces the record at position `i`, keeping its key.
    fn replace_at(&mut self, i: usize, e: Escrow)
        requires
            old(self).wf(),
            i < old(self).keys@.len(),
        ensures
            final(self).wf(),
            final(self).keys@ == old(self).keys@,
            final(self)@ == old(self)@.insert(old(self).keys@[i as int]@, e@),
    {
        let ghost k = self.keys@[i as int]@;
        let ghost v = e@;
        self.escrows.set(i, e);
        self.records = Ghost(self.records@.insert(k, v));
        assert forall|j: int| 0 <= j < self.keys@.len() implies #[trigger] self.records@.contains_key(
            self.keys@[j]@,
        ) && self.records@[self.keys@[j]@] == self.escrows@[j]@ by {
            assert(old(self).records@.contains_key(old(self).keys@[j]@));
            if j != i {
                if j < i {
                    assert(self.keys@[j]@ != self.keys@[i as int]@);
                } else {
                    assert(self.keys@[i as int]@ != self.keys@[j]@);
                }
            }
        }
        assert forall|k2: Seq<char>| #[trigger] self.records@.contains_key(k2) implies exists|j: int|
            0 <= j < self.keys@.len() && #[trigger] self.keys@[j]@ == k2 by {
            if k2 == k {
                assert(self.keys@[i as int]@ == k2);
            } else {
                assert(old(self).records@.contains_key(k2));
            }
        }
    }

    /// Adds a record under a payment identifier that has none.
    fn push_new(&mut self, payment_id: String, e: Escrow)
        requires
            old(self).wf(),
            !old(self)@.contains_key(payment_id@),
        ensures
            final(self).wf(),
            final(self)@ == old(self)@.insert(payment_id@, e@),
    {
        let ghost k = payment_id@;
        let ghost v = e@;
        let ghost n = self.keys@.len();
        self.keys.push(DataKey::Escrow(payment_id));
        self.escrows.push(e);
        self.records = Ghost(self.records@.insert(k, v));
        assert(self.keys@[n as int]@ == k);
        assert forall|i: int, j: int| 0 <= i < j < self.keys@.len() implies #[trigger] self.keys@[i]@
            != #[trigger] self.keys@[j]@ by {
            if j == n {
                assert(old(self).records@.contains_key(old(self).keys@[i]@));
            }
        }
        assert forall|k2: Seq<char>| #[trigger] self.records@.contains_key(k2) implies exists|j: int|
            0 <= j < self.keys@.len() && #[trigger] self.keys@[j]@ == k2 by {
            if k2 == k {
                assert(self.keys@[n as int]@ == k2);
            } else {
                let j = choose|j: int| 0 <= j < old(self).keys@.len() && #[trigger] old(self).keys@[j]@ == k2;
                assert(self.keys@[j]@ == k2);
            }
        }
    }

    /// Whether a record exists for `payment_id`.
    pub fn has_escrow(&self, payment_id: &String) -> (r: bool)
        requires
            self.wf(),
        ensures
            r == self@.contains_key(payment_id@),
    {
        self.find(payment_id).is_some()
    }

    /// A copy of the record for `payment_id`, passcode commitment included,
    /// for writing it back to durable storage.
    pub fn escrow_record(&self, payment_id: &String) -> (r: Option<Escrow>)
        requires
            self.wf(),
        ensures
            match r {
                Some(e) => self@.contains_key(payment_id@) && e@ == self@[payment_id@],
                None => !self@.contains_key(payment_id@),
            },
    {
        match self.find(payment_id) {
            Some(i) => Some(self.escrows[i].duplicate()),
            None => None,
        }
    }

    /// Stores `escrow` under `payment_id`, replacing any record there: the
    /// way a record read from durable storage is brought in.
    pub fn set_escrow(&mut self, payment_id: String, escrow: Escrow)
        requires
            old(self).wf(),
        ensures
            final(self).wf(),
            final(self)@ == old(self)@.insert(payment_id@, escrow@),
    {
        match self.find(&payment_id) {
            Some(i) => self.replace_at(i, escrow),
            None => self.push_new(payment_id, escrow),
        }
    }

    /// The guards of [`SupiEscrow::create_escrow`], without effect: the
    /// deposit to make when they pass, or the refusal. The caller must be the
    /// sender, and no record may exist for `payment_id`.
    pub fn plan_create(
        &self,
        payment_id: &String,
        sender: &String,
        amount: i128,
        token: &String,
        caller: &String,
    ) -> (r: Result<Transfer, EscrowError>)
        requires
            self.wf(),
        ensures
            outcome_view(r) == create_plan(self@, payment_id@, sender@, amount, token@, caller@),
    {
        if !(*caller == *sender) {
            return Err(EscrowError::Unauthorized);
        }
        if self.has_escrow(payment_id) {
            return Err(EscrowError::AlreadyExists);
        }
        Ok(Transfer::IntoHolding { from: sender.clone(), token: token.clone(), amount })
    }

    /// Creates an active escrow stamped with `now`, once the deposit of
    /// `amount` of `token` from `sender` into holding has been made.
    ///
    /// `caller` is the identity that authorized the invocation, and
    /// `transfer_ok` tells whether the token ledger made the deposit that
    /// [`SupiEscrow::plan_create`] returned; it is read only when the guards
    /// pass. On success the deposit is returned; on any refusal nothing is
    /// written.
    pub fn create_escrow(
        &mut self,
        payment_id: String,
        sender: String,
        receiver: String,
        amount: i128,
        token: String,
        otp_hash: String,
        caller: &String,
        now: u64,
        transfer_ok: bool,
    ) -> (r: Result<Transfer, EscrowError>)
        requires
            old(self).wf(),
            amount > 0,
        ensures
            final(self).wf(),
            outcome_view(r) == settle(
                create_plan(old(self)@, payment_id@, sender@, amount, token@, caller@),
                transfer_ok,
            ),
            final(self)@ == create_state(
                old(self)@,
                payment_id@,
                sender@,
                receiver@,
                amount,
                token@,
                otp_hash@,
                caller@,
                now,
                transfer_ok,
            ),
    {
        match self.plan_create(&payment_id, &sender, amount, &token, caller) {
            Err(e) => Err(e),
            Ok(t) => {
                if !transfer_ok {
                    return Err(EscrowError::TransferFailed);
                }
                let e = Escrow {
                    sender,
                    receiver,
                    amount,
                    token,
                    otp_hash,
                    is_active: true,
                    timestamp: now,
                };
                self.push_new(payment_id, e);
                Ok(t)
            },
        }
    }

    /// The guards of [`SupiEscrow::release_funds`], without effect: the
    /// payout to make when they pass, or the refusal. The record must exist,
    /// be active, and hold `otp` as its passcode commitment.
    pub fn plan_release(&self, payment_id: &String, otp: &String) -> (r: Result<
        Transfer,
        EscrowError,
    >)
        requires
            self.wf(),
        ensures
            outcome_view(r) == release_plan(self@, payment_id@, otp@),
    {
        match self.find(payment_id) {
            None => Err(EscrowError::NotFound),
            Some(i) => {
                let e = &self.escrows[i];
                if !e.is_active {
                    Err(EscrowError::AlreadyFinalized)
                } else if !(*otp == e.otp_hash) {
                    Err(EscrowError::InvalidOTP)
                } else {
                    Ok(
                        Transfer::OutOfHolding {
                            to: e.receiver.clone(),
                            token: e.token.clone(),
                            amount: e.amount,
                        },
                    )
                }
            },
        }
    }

    /// Pays the escrowed amount out of holding to the receiver on
    /// presentation of the passcode, and finalizes the record.
    ///
    /// `transfer_ok` tells whether the token ledger made the payout that
    /// [`SupiEscrow::plan_release`] returned; it is read only when the guards
    /// pass. On any refusal the record stays as it was, so a wrong passcode
    /// or a failed payout may be retried.
    pub fn release_funds(&mut self, payment_id: String, otp: String, transfer_ok: bool) -> (r:
        Result<Transfer, EscrowError>)
        requires
            old(self).wf(),
        ensures
            final(self).wf(),
            outcome_view(r) == settle(release_plan(old(self)@, payment_id@, otp@), transfer_ok),
            final(self)@ == release_state(old(self)@, payment_id@, otp@, transfer_ok),
    {
        match self.plan_release(&payment_id, &otp) {
            Err(e) => Err(e),
            Ok(t) => {
                if !transfer_ok {
                    return Err(EscrowError::TransferFailed);
                }
                self.finalize(&payment_id);
                Ok(t)
            },
        }
    }

    /// The guards of [`SupiEscrow::cancel_escrow`], without effect: the
    /// refund to make when they pass, or the refusal. The record must exist,
    /// `caller` must be its sender, and it must be active.
    pub fn plan_cancel(&self, payment_id: &String, caller: &String) -> (r: Result<
        Transfer,
        EscrowError,
    >)
        requires
            self.wf(),
        ensures
            outcome_view(r) == cancel_plan(self@, payment_id@, caller@),
    {
        match self.find(payment_id) {
            None => Err(EscrowError::NotFound),
            Some(i) => {
                let e = &self.escrows[i];
                if !(*caller == e.sender) {
                    Err(EscrowError::Unauthorized)
                } else if !e.is_active {
                    Err(EscrowError::AlreadyFinalized)
                } else {
                    Ok(
                        Transfer::OutOfHolding {
                            to: e.sender.clone(),
                            token: e.token.clone(),
                            amount: e.amount,
                        },
                    )
                }
            },
        }
    }

    /// Refunds the escrowed amount out of holding to the sender and
    /// finalizes the record; only the sender may do so.
    ///
    /// `caller` is the identity that authorized the invocation, and
    /// `transfer_ok` tells whether the token ledger made the refund that
    /// [`SupiEscrow::plan_cancel`] returned; it is read only when the guards
    /// pass. On any refusal the record stays as it was.
    pub fn cancel_escrow(&mut self, payment_id: String, caller: &String, transfer_ok: bool) -> (r:
        Result<Transfer, EscrowError>)
        requires
            old(self).wf(),
        ensures
            final(self).wf(),
            outcome_view(r) == settle(cancel_plan(old(self)@, payment_id@, caller@), transfer_ok),
            final(self)@ == cancel_state(old(self)@, payment_id@, caller@, transfer_ok),
    {
        match self.plan_cancel(&payment_id, caller) {
            Err(e) => Err(e),
            Ok(t) => {
                if !transfer_ok {
                    return Err(EscrowError::TransferFailed);
                }
                self.finalize(&payment_id);
                Ok(t)
            },
        }
    }

    /// Marks the record for `payment_id` as no longer active.
    fn finalize(&mut self, payment_id: &String)
        requires
            old(self).wf(),
            old(self)@.contains_key(payment_id@),
        ensures
            final(self).wf(),
            final(self)@ == old(self)@.insert(payment_id@, finalized(old(self)@[payment_id@])),
    {
        match self.find(payment_id) {
            Some(i) => {
                let mut e = self.escrows[i].duplicate();
                e.is_active = false;
                self.replace_at(i, e);
            },
            None => {},
        }
    }

    /// The sender, receiver, amount, activity and creation time of the
    /// record for `payment_id`; never its passcode commitment.
    pub fn get_escrow(&self, payment_id: String) -> (r: Result<
        (String, String, i128, bool, u64),
        EscrowError,
    >)
        requires
            self.wf(),
        ensures
            match r {
                Ok((s, rc, a, act, ts)) => inspect(self@, payment_id@) == Ok::<
                    (Seq<char>, Seq<char>, i128, bool, u64),
                    EscrowError,
                >((s@, rc@, a, act, ts)),
                Err(e) => inspect(self@, payment_id@) == Err::<
                    (Seq<char>, Seq<char>, i128, bool, u64),
                    EscrowError,
                >(e),
            },
    {
        match self.find(&payment_id) {
            None => Err(EscrowError::NotFound),
            Some(i) => {
                let e = &self.escrows[i];
                Ok((e.sender.clone(), e.receiver.clone(), e.amount, e.is_active, e.timestamp))
            },
        }
    }
}

} // verus!
