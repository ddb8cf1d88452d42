//! The records of the streaming ledger, and the decisions taken on them.
//!
//! A decision takes the record that a call names, where it exists, the
//! credentials of the call and the time. It says whether the call is served and,
//! if so, what the record is afterwards and what is to be paid out. Whoever
//! keeps the records looks them up before, and stores them and moves the funds
//! after.

use crate::credentials::{Address, Credentials};
use crate::error::Error;
use crate::outcome::viewed;
use vstd::prelude::*;

verus! {

/// A deposit that flows to a grantee over time.
#[derive(Debug, PartialEq, Eq)]
pub struct Grant {
    pub admin: Address,
    pub grantee: Address,
    pub flow_rate: i128,
    pub balance: i128,
    pub last_claim_time: u64,
    pub is_paused: bool,
    pub token: Address,
    pub dispute_active: bool,
}

/// What a [`Grant`] holds, as mathematical values.
pub struct GrantView {
    pub admin: Seq<char>,
    pub grantee: Seq<char>,
    pub flow_rate: int,
    pub balance: int,
    pub last_claim_time: int,
    pub is_paused: bool,
    pub token: Seq<char>,
    pub dispute_active: bool,
}

impl View for Grant {
    type V = GrantView;

    open spec fn view(&self) -> GrantView {
        GrantView {
            admin: self.admin@,
            grantee: self.grantee@,
            flow_rate: self.flow_rate as int,
            balance: self.balance as int,
            last_claim_time: self.last_claim_time as int,
            is_paused: self.is_paused,
            token: self.token@,
            dispute_active: self.dispute_active,
        }
    }
}

impl Clone for Grant {
    fn clone(&self) -> (copy: Self)
        ensures
            copy == *self,
    {
        Grant {
            admin: self.admin.clone(),
            grantee: self.grantee.clone(),
            flow_rate: self.flow_rate,
            balance: self.balance,
            last_claim_time: self.last_claim_time,
            is_paused: self.is_paused,
            token: self.token.clone(),
            dispute_active: self.dispute_active,
        }
    }
}

/// What the ledger keeps: a grant under its number, the number of grants made so
/// far, and the arbiter.
#[derive(Clone, Copy, Debug, PartialEq, Eq, Structural)]
pub enum DataKey {
    Grant(u64),
    Count,
    Arbiter,
}

/// A movement of funds between an account and the custody of the ledger, to be
/// carried out together with the operation that asks for it.
#[derive(Debug, PartialEq, Eq)]
pub enum Transfer {
    /// `amount` of `token` goes from the account `from` into custody.
    IntoCustody { token: Address, from: Address, amount: i128 },
    /// `amount` of `token` goes out of custody to the account `to`.
    OutOfCustody { token: Address, to: Address, amount: i128 },
}

/// What a [`Transfer`] holds, as mathematical values.
pub enum TransferView {
    IntoCustody { token: Seq<char>, from: Seq<char>, amount: int },
    OutOfCustody { token: Seq<char>, to: Seq<char>, amount: int },
}

impl View for Transfer {
    type V = TransferView;

    open spec fn view(&self) -> TransferView {
        match self {
            Transfer::IntoCustody { token, from, amount } => TransferView::IntoCustody {
                token: token@,
                from: from@,
                amount: *amount as int,
            },
            Transfer::OutOfCustody { token, to, amount } => TransferView::OutOfCustody {
                token: token@,
                to: to@,
                amount: *amount as int,
            },
        }
    }
}

/// The seconds that have passed at `now` since `last_claim_time`; none if the
/// clock has gone back.
pub open spec fn seconds_passed(last_claim_time: int, now: int) -> int {
    if now > last_claim_time {
        now - last_claim_time
    } else {
        0
    }
}

impl GrantView {
    /// The record of a grant that has just been created at `now`: the deposit is
    /// its balance, its last withdrawal is at `now`, and it is neither paused nor
    /// under dispute.
    pub open spec fn fresh(
        admin: Seq<char>,
        grantee: Seq<char>,
        deposit: int,
        flow_rate: int,
        token: Seq<char>,
        now: int,
    ) -> GrantView {
        GrantView {
            admin,
            grantee,
            flow_rate,
            balance: deposit,
            last_claim_time: now,
            is_paused: false,
            token,
            dispute_active: false,
        }
    }

    /// The movement of the deposit into custody that goes with the creation of
    /// this grant.
    pub open spec fn deposit(self) -> TransferView {
        TransferView::IntoCustody { token: self.token, from: self.admin, amount: self.balance }
    }

    /// The movement of `amount` out of custody to the grantee that goes with a
    /// withdrawal from this grant.
    pub open spec fn payment(self, amount: int) -> TransferView {
        TransferView::OutOfCustody { token: self.token, to: self.grantee, amount }
    }

    /// Whether withdrawals are blocked: the grant is paused or under dispute.
    pub open spec fn frozen(self) -> bool {
        self.is_paused || self.dispute_active
    }

    /// What has flowed since the last withdrawal: the rate times the seconds
    /// passed.
    pub open spec fn amount_due(self, now: int) -> int {
        self.flow_rate * seconds_passed(self.last_claim_time, now)
    }

    /// What a withdrawal at `now` pays out: what is due, as far as the balance
    /// goes, and nothing where that is not more than nothing.
    pub open spec fn payout(self, now: int) -> int {
        let due = self.amount_due(now);
        let covered = if self.balance >= due {
            due
        } else {
            self.balance
        };
        if covered > 0 {
            covered
        } else {
            0
        }
    }

    /// The grant after a withdrawal at `now`. Where something is paid out it
    /// leaves the balance and the time of the last withdrawal moves to `now`;
    /// where nothing is paid out the grant stays as it is.
    pub open spec fn withdrawn(self, now: int) -> GrantView {
        if self.payout(now) > 0 {
            GrantView { balance: self.balance - self.payout(now), last_claim_time: now, ..self }
        } else {
            self
        }
    }

    /// This grant with its pause flag set to `pause_state`.
    pub open spec fn paused(self, pause_state: bool) -> GrantView {
        GrantView { is_paused: pause_state, ..self }
    }

    /// This grant with its dispute flag set to `active`.
    pub open spec fn disputed(self, active: bool) -> GrantView {
        GrantView { dispute_active: active, ..self }
    }

    /// Whether `later` can be a later state of this grant: admin, grantee, rate
    /// and token are the same, the balance has not gone up, and the time of the
    /// last withdrawal has not gone back.
    pub open spec fn grows_into(self, later: GrantView) -> bool {
        &&& later.admin == self.admin
        &&& later.grantee == self.grantee
        &&& later.flow_rate == self.flow_rate
        &&& later.token == self.token
        &&& later.balance <= self.balance
        &&& later.last_claim_time >= self.last_claim_time
    }
}

/// Why the creation of a grant is refused, if it is.
///
/// The admin must have approved the call.
pub open spec fn creation_refusal(credentials: Set<Seq<char>>, admin: Seq<char>) -> Option<Error> {
    if !credentials.contains(admin) {
        Some(Error::AuthorizationFailure)
    } else {
        None
    }
}

/// Why a withdrawal is refused, if it is. `grant` is the grant that the call
/// names, where it exists.
///
/// The grant must exist, its grantee must have approved the call, and the grant
/// must be neither paused nor under dispute.
pub open spec fn withdrawal_refusal(grant: Option<GrantView>, credentials: Set<Seq<char>>)
    -> Option<Error> {
    if grant is None {
        Some(Error::NotFound)
    } else if !credentials.contains(grant->0.grantee) {
        Some(Error::AuthorizationFailure)
    } else if grant->0.frozen() {
        Some(Error::Frozen)
    } else {
        None
    }
}

/// Why a change of the pause flag is refused, if it is. `grant` is the grant
/// that the call names, where it exists.
///
/// The grant must exist, and its admin must have approved the call.
pub open spec fn pause_refusal(grant: Option<GrantView>, credentials: Set<Seq<char>>) -> Option<
    Error,
> {
    if grant is None {
        Some(Error::NotFound)
    } else if !credentials.contains(grant->0.admin) {
        Some(Error::AuthorizationFailure)
    } else {
        None
    }
}

/// Why a change of the dispute flag is refused, if it is. `grant` is the grant
/// that the call names, where it exists, and `arbiter` the arbiter in office,
/// where there is one.
///
/// An arbiter must be in office and must have approved the call, and the grant
/// must exist.
pub open spec fn dispute_refusal(
    grant: Option<GrantView>,
    credentials: Set<Seq<char>>,
    arbiter: Option<Seq<char>>,
) -> Option<Error> {
    if arbiter is None || !credentials.contains(arbiter->0) {
        Some(Error::AuthorizationFailure)
    } else if grant is None {
        Some(Error::NotFound)
    } else {
        None
    }
}

/// Why the appointment of an arbiter is refused, if it is. `current` is the
/// arbiter in office, where there is one.
///
/// The admin that the call names must have approved it, and no arbiter may be in
/// office: the arbiter is appointed once.
pub open spec fn appointment_refusal(
    current: Option<Seq<char>>,
    credentials: Set<Seq<char>>,
    admin: Seq<char>,
) -> Option<Error> {
    if !credentials.contains(admin) {
        Some(Error::AuthorizationFailure)
    } else if current is Some {
        Some(Error::AlreadyExists)
    } else {
        None
    }
}

impl Grant {
    /// Decides the creation of a grant at `now` and, where it is not refused,
    /// returns the grant's first record. The deposit is then to be moved into
    /// custody.
    pub fn open(
        credentials: &Credentials,
        admin: Address,
        grantee: Address,
        deposit: i128,
        flow_rate: i128,
        token: Address,
        now: u64,
    ) -> (result: Result<Grant, Error>)
        ensures
            match result {
                Ok(grant) => {
                    &&& creation_refusal(credentials@, admin@) is None
                    &&& grant@ == GrantView::fresh(
                        admin@,
                        grantee@,
                        deposit as int,
                        flow_rate as int,
                        token@,
                        now as int,
                    )
                },
                Err(e) => creation_refusal(credentials@, admin@) == Some(e),
            },
    {
        if !credentials.carries(&admin) {
            return Err(Error::AuthorizationFailure);
        }
        Ok(
            Grant {
                admin,
                grantee,
                flow_rate,
                balance: deposit,
                last_claim_time: now,
                is_paused: false,
                token,
                dispute_active: false,
            },
        )
    }

    /// The movement of the deposit into custody that goes with the creation of
    /// this grant.
    pub fn deposit(&self) -> (transfer: Transfer)
        ensures
            transfer@ == self@.deposit(),
    {
        Transfer::IntoCustody {
            token: self.token.clone(),
            from: self.admin.clone(),
            amount: self.balance,
        }
    }

    /// The movement of `amount` out of custody to the grantee that goes with a
    /// withdrawal from this grant.
    pub fn payment(&self, amount: i128) -> (transfer: Transfer)
        ensures
            transfer@ == self@.payment(amount as int),
    {
        Transfer::OutOfCustody {
            token: self.token.clone(),
            to: self.grantee.clone(),
            amount,
        }
    }

    /// What a withdrawal at `now` pays out of this grant: what has flowed since
    /// the last withdrawal, as far as the balance goes.
    pub fn payout(&self, now: u64) -> (payout: i128)
        ensures
            payout == self@.payout(now as int),
            0 <= payout,
            payout == 0 || payout <= self.balance,
    {
        let seconds: u64 = if now > self.last_claim_time {
            now - self.last_claim_time
        } else {
            0
        };
        let covered: i128 = match self.flow_rate.checked_mul(seconds as i128) {
            Some(due) => if self.balance >= due {
                due
            } else {
                self.balance
            },
            None => {
                // What is due cannot be held in an amount: it lies beyond every
                // balance, above or below, as the rate is positive or negative.
                assert(if self.flow_rate > 0 {
                    self.flow_rate * seconds > i128::MAX
                } else {
                    self.flow_rate * seconds < i128::MIN
                }) by (nonlinear_arith)
                    requires
                        seconds >= 0,
                        self.flow_rate * seconds > i128::MAX || self.flow_rate * seconds
                            < i128::MIN,
                ;
                if self.flow_rate > 0 {
                    self.balance
                } else {
                    0
                }
            },
        };
        if covered > 0 {
            covered
        } else {
            0
        }
    }

    /// Decides a withdrawal at `now` and, where it is not refused, returns the
    /// grant's record after the withdrawal and the amount that is to be moved out
    /// of custody to the grantee. Where nothing is due, the amount is nothing and
    /// the record is as it was. `grant` is the record that the call names, where
    /// it exists.
    pub fn withdraw(grant: Option<&Grant>, credentials: &Credentials, now: u64) -> (result:
        Result<(Grant, i128), Error>)
        ensures
            match result {
                Ok((after, payout)) => {
                    &&& withdrawal_refusal(viewed(grant), credentials@) is None
                    &&& payout == grant->0@.payout(now as int)
                    &&& after@ == grant->0@.withdrawn(now as int)
                },
                Err(e) => withdrawal_refusal(viewed(grant), credentials@) == Some(e),
            },
    {
        let g = match grant {
            Some(g) => g,
            None => { return Err(Error::NotFound); },
        };
        if !credentials.carries(&g.grantee) {
            return Err(Error::AuthorizationFailure);
        }
        if g.is_paused || g.dispute_active {
            return Err(Error::Frozen);
        }
        let payout: i128 = g.payout(now);
        let mut after = g.clone();
        if payout > 0 {
            after.balance = g.balance - payout;
            after.last_claim_time = now;
        }
        Ok((after, payout))
    }

    /// Decides a change of the pause flag and, where it is not refused, returns
    /// the grant's record after it. Nothing but the flag changes. `grant` is the
    /// record that the call names, where it exists.
    pub fn set_pause(
        grant: Option<&Grant>,
        credentials: &Credentials,
        pause_state: bool,
    ) -> (result: Result<Grant, Error>)
        ensures
            match result {
                Ok(after) => {
                    &&& pause_refusal(viewed(grant), credentials@) is None
                    &&& after@ == grant->0@.paused(pause_state)
                },
                Err(e) => pause_refusal(viewed(grant), credentials@) == Some(e),
            },
    {
        let g = match grant {
            Some(g) => g,
            None => { return Err(Error::NotFound); },
        };
        if !credentials.carries(&g.admin) {
            return Err(Error::AuthorizationFailure);
        }
        let mut after = g.clone();
        after.is_paused = pause_state;
        Ok(after)
    }

    /// Decides a change of the dispute flag and, where it is not refused,
    /// returns the grant's record after it. Nothing but the flag changes. `grant`
    /// is the record that the call names, where it exists, and `arbiter` the
    /// arbiter in office, where there is one.
    pub fn set_dispute_state(
        grant: Option<&Grant>,
        credentials: &Credentials,
        arbiter: Option<&Address>,
        active: bool,
    ) -> (result: Result<Grant, Error>)
        ensures
            match result {
                Ok(after) => {
                    &&& dispute_refusal(viewed(grant), credentials@, viewed(arbiter)) is None
                    &&& after@ == grant->0@.disputed(active)
                },
                Err(e) => dispute_refusal(viewed(grant), credentials@, viewed(arbiter)) == Some(e),
            },
    {
        match arbiter {
            Some(a) => {
                if !credentials.carries(a) {
                    return Err(Error::AuthorizationFailure);
                }
            },
            None => { return Err(Error::AuthorizationFailure); },
        }
        let g = match grant {
            Some(g) => g,
            None => { return Err(Error::NotFound); },
        };
        let mut after = g.clone();
        after.dispute_active = active;
        Ok(after)
    }
}

/// Decides the appointment of `arbiter` and, where it is not refused, returns
/// the arbiter to be put in office. `current` is the arbiter in office, where
/// there is one.
pub fn appoint_arbiter(
    current: Option<&Address>,
    credentials: &Credentials,
    admin: &Address,
    arbiter: Address,
) -> (result: Result<Address, Error>)
    ensures
        match result {
            Ok(appointed) => {
                &&& appointment_refusal(viewed(current), credentials@, admin@) is None
                &&& appointed@ == arbiter@
            },
            Err(e) => appointment_refusal(viewed(current), credentials@, admin@) == Some(e),
        },
{
    if !credentials.carries(admin) {
        Err(Error::AuthorizationFailure)
    } else if current.is_some() {
        Err(Error::AlreadyExists)
    } else {
        Ok(arbiter)
    }
}

/// The number of the next grant, for a ledger that has made `count` grants so
/// far: one more than `count`. There is none once the numbers have run out.
pub fn next_grant_id(count: u64) -> (next: Option<u64>)
    ensures
        match next {
            Some(grant_id) => grant_id == count + 1,
            None => count == u64::MAX,
        },
{
    count.checked_add(1)
}

} // verus!
