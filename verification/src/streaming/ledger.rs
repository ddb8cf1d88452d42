//! The streaming ledger: the records it keeps and the operations on them.

use crate::credentials::{Address, Credentials};
use crate::error::Error;
use crate::outcome::{amounted, numbered};
use crate::streaming::laws::{
    lemma_create_grant_keeps_order, lemma_set_arbiter_keeps_order,
    lemma_set_dispute_state_keeps_order, lemma_set_pause_keeps_order, lemma_withdraw_keeps_order,
};
use crate::streaming::model::LedgerView;
use crate::streaming::records::{appoint_arbiter, DataKey, Grant, Transfer};
use vstd::prelude::*;

verus! {

/// The streaming ledger: every grant under its number, and the arbiter.
///
/// The ledger owns its records. Each operation either succeeds and changes the
/// ledger as its contract says, or fails with the reason and leaves the ledger
/// as it was. The ledger moves no funds itself: an operation that takes a
/// deposit or pays out leaves the transfer it asks for in the ledger, for
/// whoever runs the ledger to collect and carry out. Operation and transfer go
/// together: where the funds cannot be moved, the operation must not stand.
pub struct GrantContract {
    grants: Vec<Grant>,
    arbiter: Option<Address>,
    transfers: Vec<Transfer>,
}

impl View for GrantContract {
    type V = LedgerView;

    closed spec fn view(&self) -> LedgerView {
        LedgerView {
            grants: self.grants@.map_values(|g: Grant| g@),
            arbiter: match self.arbiter {
                Some(a) => Some(a@),
                None => None,
            },
            transfers: self.transfers@.map_values(|t: Transfer| t@),
        }
    }
}

impl GrantContract {
    /// A ledger that holds no grant and has no arbiter.
    pub fn new() -> (ledger: Self)
        ensures
            ledger@ == LedgerView::empty(),
    {
        let ledger = GrantContract { grants: Vec::new(), arbiter: None, transfers: Vec::new() };
        assert(ledger@.grants =~= Seq::empty());
        assert(ledger@.transfers =~= Seq::empty());
        ledger
    }

    /// The record of the grant under the number `grant_id`, if the ledger holds
    /// it.
    fn record(&self, grant_id: u64) -> (found: Option<&Grant>)
        ensures
            match found {
                Some(g) => self@.grant_if_any(grant_id as int) == Some(g@),
                None => self@.grant_if_any(grant_id as int) is None,
            },
    {
        if grant_id >= 1 && grant_id - 1 < self.grants.len() as u64 {
            Some(&self.grants[(grant_id - 1) as usize])
        } else {
            None
        }
    }

    /// Puts `after` in the place of the record of the grant `grant_id`.
    fn replace(&mut self, grant_id: u64, after: Grant)
        requires
            old(self)@.has_grant(grant_id as int),
        ensures
            final(self)@ == old(self)@.with_grant(grant_id as int, after@),
    {
        let count: usize = self.grants.len();
        assert(grant_id <= count);
        let i: usize = (grant_id - 1) as usize;
        self.grants[i] = after;
        assert(self@.grants =~= old(self)@.grants.update(grant_id - 1, after@));
    }

    /// Appoints `arbiter` as the one who may freeze grants while a dispute
    /// lasts.
    ///
    /// Fails with `AuthorizationFailure` unless `admin` has approved the call,
    /// and with `AlreadyExists` if an arbiter is in office: the arbiter is
    /// appointed once and stays.
    pub fn set_arbiter(
        &mut self,
        credentials: &Credentials,
        admin: &Address,
        arbiter: Address,
    ) -> (result: Result<(), Error>)
        ensures
            final(self)@ == old(self)@.step_set_arbiter(credentials@, admin@, arbiter@).0,
            result == old(self)@.step_set_arbiter(credentials@, admin@, arbiter@).1,
            result is Err ==> final(self)@ == old(self)@,
            old(self)@.arbiter is Some ==> result is Err,
            old(self)@.grows_into(final(self)@),
            old(self)@.solvent() ==> final(self)@.solvent(),
    {
        proof {
            lemma_set_arbiter_keeps_order(self@, credentials@, admin@, arbiter@);
        }
        match appoint_arbiter(self.arbiter.as_ref(), credentials, admin, arbiter) {
            Ok(appointed) => {
                self.arbiter = Some(appointed);
                Ok(())
            },
            Err(e) => Err(e),
        }
    }

    /// Sets the dispute flag of the grant `grant_id`. While the flag is set the
    /// grant pays nothing out.
    ///
    /// Fails with `AuthorizationFailure` unless an arbiter is in office and has
    /// approved the call, and with `NotFound` if the ledger holds no such grant.
    pub fn set_dispute_state(
        &mut self,
        credentials: &Credentials,
        grant_id: u64,
        active: bool,
    ) -> (result: Result<(), Error>)
        ensures
            final(self)@ == old(self)@.step_set_dispute_state(
                credentials@,
                grant_id as int,
                active,
            ).0,
            result == old(self)@.step_set_dispute_state(credentials@, grant_id as int, active).1,
            result is Err ==> final(self)@ == old(self)@,
            old(self)@.grows_into(final(self)@),
            old(self)@.solvent() ==> final(self)@.solvent(),
    {
        proof {
            lemma_set_dispute_state_keeps_order(self@, credentials@, grant_id as int, active);
        }
        match Grant::set_dispute_state(
            self.record(grant_id),
            credentials,
            self.arbiter.as_ref(),
            active,
        ) {
            Ok(after) => {
                self.replace(grant_id, after);
                Ok(())
            },
            Err(e) => Err(e),
        }
    }

    /// Creates a grant of `deposit` for `grantee` that flows at `flow_rate` per
    /// second from `now` on, asks for the deposit to be moved from `admin` into
    /// custody, and returns the grant's number. Deposit and rate are taken as
    /// they are: a grant with a rate or a deposit of nothing or less never pays
    /// out.
    ///
    /// Fails with `AuthorizationFailure` unless `admin` has approved the call.
    pub fn create_grant(
        &mut self,
        credentials: &Credentials,
        admin: Address,
        grantee: Address,
        deposit: i128,
        flow_rate: i128,
        token: Address,
        now: u64,
    ) -> (result: Result<u64, Error>)
        ensures
            final(self)@ == old(self)@.step_create_grant(
                credentials@,
                admin@,
                grantee@,
                deposit as int,
                flow_rate as int,
                token@,
                now as int,
            ).0,
            numbered(result) == old(self)@.step_create_grant(
                credentials@,
                admin@,
                grantee@,
                deposit as int,
                flow_rate as int,
                token@,
                now as int,
            ).1,
            result is Err ==> final(self)@ == old(self)@,
            old(self)@.grows_into(final(self)@),
            old(self)@.solvent() && deposit >= 0 ==> final(self)@.solvent(),
    {
        proof {
            lemma_create_grant_keeps_order(
                self@,
                credentials@,
                admin@,
                grantee@,
                deposit as int,
                flow_rate as int,
                token@,
                now as int,
            );
        }
        match Grant::open(credentials, admin, grantee, deposit, flow_rate, token, now) {
            Ok(grant) => {
                let transfer = grant.deposit();
                self.grants.push(grant);
                self.transfers.push(transfer);
                assert(self@.grants =~= old(self)@.grants.push(grant@));
                assert(self@.transfers =~= old(self)@.transfers.push(transfer@));
                Ok(self.grants.len() as u64)
            },
            Err(e) => Err(e),
        }
    }

    /// Withdraws from the grant `grant_id` what has flowed to its grantee by
    /// `now`, as far as the balance goes, asks for that amount to be moved out of
    /// custody to the grantee, and returns it. Where nothing is due the call
    /// succeeds, returns nothing, changes nothing and asks for no transfer.
    ///
    /// Fails with `NotFound` if the ledger holds no such grant, with
    /// `AuthorizationFailure` unless the grantee has approved the call, and with
    /// `Frozen` if the grant is paused or under dispute.
    pub fn withdraw(&mut self, credentials: &Credentials, grant_id: u64, now: u64) -> (result:
        Result<i128, Error>)
        ensures
            final(self)@ == old(self)@.step_withdraw(credentials@, grant_id as int, now as int).0,
            amounted(result) == old(self)@.step_withdraw(
                credentials@,
                grant_id as int,
                now as int,
            ).1,
            result is Err || result == Ok::<i128, Error>(0) ==> final(self)@ == old(self)@,
            old(self)@.grows_into(final(self)@),
            old(self)@.solvent() ==> final(self)@.solvent(),
    {
        proof {
            lemma_withdraw_keeps_order(self@, credentials@, grant_id as int, now as int);
        }
        match Grant::withdraw(self.record(grant_id), credentials, now) {
            Ok((after, payout)) => {
                if payout > 0 {
                    let transfer = after.payment(payout);
                    self.replace(grant_id, after);
                    self.transfers.push(transfer);
                    assert(self@.transfers =~= old(self)@.transfers.push(transfer@));
                }
                Ok(payout)
            },
            Err(e) => Err(e),
        }
    }

    /// Sets the pause flag of the grant `grant_id`. While the flag is set the
    /// grant pays nothing out.
    ///
    /// Fails with `NotFound` if the ledger holds no such grant, and with
    /// `AuthorizationFailure` unless the grant's admin has approved the call.
    pub fn set_pause(
        &mut self,
        credentials: &Credentials,
        grant_id: u64,
        pause_state: bool,
    ) -> (result: Result<(), Error>)
        ensures
            final(self)@ == old(self)@.step_set_pause(credentials@, grant_id as int, pause_state).0,
            result == old(self)@.step_set_pause(credentials@, grant_id as int, pause_state).1,
            result is Err ==> final(self)@ == old(self)@,
            old(self)@.grows_into(final(self)@),
            old(self)@.solvent() ==> final(self)@.solvent(),
    {
        proof {
            lemma_set_pause_keeps_order(self@, credentials@, grant_id as int, pause_state);
        }
        match Grant::set_pause(self.record(grant_id), credentials, pause_state) {
            Ok(after) => {
                self.replace(grant_id, after);
                Ok(())
            },
            Err(e) => Err(e),
        }
    }

    /// Collects the transfers that have been asked for since they were last
    /// collected, the oldest first, and leaves the ledger with none asked for.
    /// Nothing else changes.
    pub fn take_transfers(&mut self) -> (transfers: Vec<Transfer>)
        ensures
            final(self)@ == old(self)@.without_transfers(),
            transfers@.map_values(|t: Transfer| t@) == old(self)@.transfers,
    {
        let mut transfers: Vec<Transfer> = Vec::new();
        core::mem::swap(&mut self.transfers, &mut transfers);
        assert(self@.transfers =~= Seq::empty());
        assert(self@.grants == old(self)@.grants);
        transfers
    }

    /// A copy of the record of the grant `grant_id`. Fails with `NotFound` if
    /// the ledger holds no such grant.
    pub fn get_grant(&self, grant_id: u64) -> (result: Result<Grant, Error>)
        ensures
            match result {
                Ok(grant) => self@.grant_if_any(grant_id as int) == Some(grant@),
                Err(e) => e == Error::NotFound && self@.grant_if_any(grant_id as int) is None,
            },
    {
        match self.record(grant_id) {
            Some(grant) => Ok(grant.clone()),
            None => Err(Error::NotFound),
        }
    }

    /// The arbiter, where one has been appointed.
    pub fn get_arbiter(&self) -> (arbiter: Option<Address>)
        ensures
            match arbiter {
                Some(a) => self@.arbiter == Some(a@),
                None => self@.arbiter is None,
            },
    {
        match &self.arbiter {
            Some(a) => Some(a.clone()),
            None => None,
        }
    }

    /// Whether the ledger keeps something under `key`.
    pub fn has(&self, key: &DataKey) -> (kept: bool)
        ensures
            kept == self@.has(*key),
    {
        match key {
            DataKey::Grant(grant_id) => self.record(*grant_id).is_some(),
            DataKey::Count => self.grants.len() > 0,
            DataKey::Arbiter => self.arbiter.is_some(),
        }
    }
}

} // verus!
