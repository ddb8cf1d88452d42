//! The streaming ledger as a mathematical value, and what each operation does
//! to it.

use crate::error::Error;
use crate::streaming::records::{
    appointment_refusal, creation_refusal, dispute_refusal, pause_refusal, withdrawal_refusal,
    DataKey, GrantView, TransferView,
};
use vstd::prelude::*;

verus! {

/// The state of a streaming ledger: its grants by number, the first under 1, its
/// arbiter, where one has been appointed, and the transfers that its operations
/// have asked for and that have not been collected yet, the oldest first.
pub struct LedgerView {
    pub grants: Seq<GrantView>,
    pub arbiter: Option<Seq<char>>,
    pub transfers: Seq<TransferView>,
}

impl LedgerView {
    /// The ledger that holds no grant, has no arbiter and asks for no transfer.
    pub open spec fn empty() -> LedgerView {
        LedgerView { grants: Seq::empty(), arbiter: None, transfers: Seq::empty() }
    }

    /// The number of grants made so far, which is the number of the last one.
    pub open spec fn count(self) -> int {
        self.grants.len() as int
    }

    /// Whether the ledger holds a grant under the number `grant_id`.
    pub open spec fn has_grant(self, grant_id: int) -> bool {
        1 <= grant_id <= self.count()
    }

    /// The grant under the number `grant_id`.
    pub open spec fn grant(self, grant_id: int) -> GrantView {
        self.grants[grant_id - 1]
    }

    /// The grant under the number `grant_id`, where the ledger holds one.
    pub open spec fn grant_if_any(self, grant_id: int) -> Option<GrantView> {
        if self.has_grant(grant_id) {
            Some(self.grant(grant_id))
        } else {
            None
        }
    }

    /// Whether the ledger keeps something under `key`: the grant of that number,
    /// a count once a grant has been made, the arbiter once one is appointed.
    pub open spec fn has(self, key: DataKey) -> bool {
        match key {
            DataKey::Grant(grant_id) => self.has_grant(grant_id as int),
            DataKey::Count => self.count() > 0,
            DataKey::Arbiter => self.arbiter is Some,
        }
    }

    /// Whether no grant owes custody: every balance is no less than nothing.
    pub open spec fn solvent(self) -> bool {
        forall|i: int| 0 <= i < self.grants.len() ==> (#[trigger] self.grants[i]).balance >= 0
    }

    /// Whether `later` can be a later state of this ledger, as long as no
    /// transfer has been collected in between: every grant is still there under
    /// its number, each can have become what it is in `later`, an arbiter in
    /// office is in office still, and every transfer is still asked for, before
    /// any that has come after it.
    pub open spec fn grows_into(self, later: LedgerView) -> bool {
        &&& later.count() >= self.count()
        &&& forall|i: int|
            0 <= i < self.grants.len() ==> self.grants[i].grows_into(#[trigger] later.grants[i])
        &&& self.arbiter is Some ==> later.arbiter == self.arbiter
        &&& self.transfers.is_prefix_of(later.transfers)
    }

    /// This ledger with one more transfer asked for.
    pub open spec fn with_transfer(self, transfer: TransferView) -> LedgerView {
        LedgerView { transfers: self.transfers.push(transfer), ..self }
    }

    /// This ledger once its transfers have been collected.
    pub open spec fn without_transfers(self) -> LedgerView {
        LedgerView { transfers: Seq::empty(), ..self }
    }

    /// This ledger with a new grant under the next number.
    pub open spec fn with_new_grant(self, grant: GrantView) -> LedgerView {
        LedgerView { grants: self.grants.push(grant), ..self }
    }

    /// This ledger with the record of the grant `grant_id` replaced.
    pub open spec fn with_grant(self, grant_id: int, grant: GrantView) -> LedgerView {
        LedgerView { grants: self.grants.update(grant_id - 1, grant), ..self }
    }

    /// What appointing the arbiter does to the ledger, and what the call
    /// returns.
    ///
    /// Where the appointment is not refused, `arbiter` is in office. Where it is
    /// refused, the ledger stays as it is, and so does the arbiter.
    pub open spec fn step_set_arbiter(
        self,
        credentials: Set<Seq<char>>,
        admin: Seq<char>,
        arbiter: Seq<char>,
    ) -> (LedgerView, Result<(), Error>) {
        match appointment_refusal(self.arbiter, credentials, admin) {
            Some(refusal) => (self, Err(refusal)),
            None => (LedgerView { arbiter: Some(arbiter), ..self }, Ok(())),
        }
    }

    /// What creating a grant at `now` does to the ledger, and what the call
    /// returns.
    ///
    /// Where the creation is not refused, the ledger holds a new grant under the
    /// next number, it asks for the deposit to be moved from the admin into
    /// custody, and the call returns the grant's number. Where it is refused, the
    /// ledger stays as it is, and no number is used up.
    pub open spec fn step_create_grant(
        self,
        credentials: Set<Seq<char>>,
        admin: Seq<char>,
        grantee: Seq<char>,
        deposit: int,
        flow_rate: int,
        token: Seq<char>,
        now: int,
    ) -> (LedgerView, Result<int, Error>) {
        match creation_refusal(credentials, admin) {
            Some(refusal) => (self, Err(refusal)),
            None => (
                self.with_new_grant(
                    GrantView::fresh(admin, grantee, deposit, flow_rate, token, now),
                ).with_transfer(
                    GrantView::fresh(admin, grantee, deposit, flow_rate, token, now).deposit(),
                ),
                Ok(self.count() + 1),
            ),
        }
    }

    /// What a withdrawal at `now` does to the ledger, and what the call returns.
    ///
    /// Where the withdrawal is not refused, the call returns what is paid out.
    /// Where that is more than nothing, it has left the grant's balance, the time
    /// of the grant's last withdrawal is `now`, and the ledger asks for the amount
    /// to be moved out of custody to the grantee. Where the withdrawal is refused
    /// or pays nothing out, the ledger stays as it is and asks for no transfer.
    pub open spec fn step_withdraw(self, credentials: Set<Seq<char>>, grant_id: int, now: int) -> (
        LedgerView,
        Result<int, Error>,
    ) {
        match withdrawal_refusal(self.grant_if_any(grant_id), credentials) {
            Some(refusal) => (self, Err(refusal)),
            None => (
                if self.grant(grant_id).payout(now) > 0 {
                    self.with_grant(grant_id, self.grant(grant_id).withdrawn(now)).with_transfer(
                        self.grant(grant_id).payment(self.grant(grant_id).payout(now)),
                    )
                } else {
                    self
                },
                Ok(self.grant(grant_id).payout(now)),
            ),
        }
    }

    /// What setting the pause flag does to the ledger, and what the call
    /// returns.
    ///
    /// Where the change is not refused, the grant's pause flag is `pause_state`,
    /// and nothing else has changed. Where it is refused, the ledger stays as it
    /// is.
    pub open spec fn step_set_pause(
        self,
        credentials: Set<Seq<char>>,
        grant_id: int,
        pause_state: bool,
    ) -> (LedgerView, Result<(), Error>) {
        match pause_refusal(self.grant_if_any(grant_id), credentials) {
            Some(refusal) => (self, Err(refusal)),
            None => (self.with_grant(grant_id, self.grant(grant_id).paused(pause_state)), Ok(())),
        }
    }

    /// What setting the dispute flag does to the ledger, and what the call
    /// returns.
    ///
    /// Where the change is not refused, the grant's dispute flag is `active`, and
    /// nothing else has changed. Where it is refused, the ledger stays as it is.
    pub open spec fn step_set_dispute_state(
        self,
        credentials: Set<Seq<char>>,
        grant_id: int,
        active: bool,
    ) -> (LedgerView, Result<(), Error>) {
        match dispute_refusal(self.grant_if_any(grant_id), credentials, self.arbiter) {
            Some(refusal) => (self, Err(refusal)),
            None => (self.with_grant(grant_id, self.grant(grant_id).disputed(active)), Ok(())),
        }
    }
}

} // verus!
