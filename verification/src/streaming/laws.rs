//! What holds of the streaming ledger, whatever is done to it.

use crate::error::Error;
use crate::streaming::model::LedgerView;
use crate::streaming::records::{seconds_passed, GrantView};
use vstd::prelude::*;

verus! {

/// A withdrawal pays out no less than nothing, and where it pays something out,
/// no more than the balance.
pub proof fn lemma_payout_is_covered(grant: GrantView, now: int)
    ensures
        grant.payout(now) >= 0,
        grant.payout(now) == 0 || grant.payout(now) <= grant.balance,
        grant.withdrawn(now).balance == grant.balance - grant.payout(now),
{
}

/// A withdrawal from a grant whose balance is no less than nothing pays out no
/// more than the balance and leaves a balance of no less than nothing. At a rate
/// of no less than nothing it pays the lesser of what is due and the balance.
pub proof fn lemma_payout_within_balance(grant: GrantView, now: int)
    requires
        grant.balance >= 0,
    ensures
        0 <= grant.payout(now) <= grant.balance,
        0 <= grant.withdrawn(now).balance <= grant.balance,
        grant.flow_rate >= 0 ==> grant.payout(now) == if grant.amount_due(now) <= grant.balance {
            grant.amount_due(now)
        } else {
            grant.balance
        },
{
    if grant.flow_rate >= 0 {
        assert(grant.amount_due(now) >= 0) by (nonlinear_arith)
            requires
                grant.amount_due(now) == grant.flow_rate * seconds_passed(
                    grant.last_claim_time,
                    now,
                ),
                grant.flow_rate >= 0,
                seconds_passed(grant.last_claim_time, now) >= 0,
        ;
    }
}

/// A grant with a rate or a balance of nothing or less pays nothing out, and so
/// does any grant as long as no time has passed since the last withdrawal.
pub proof fn lemma_nothing_to_pay(grant: GrantView, now: int)
    requires
        grant.flow_rate <= 0 || grant.balance <= 0 || now <= grant.last_claim_time,
    ensures
        grant.payout(now) == 0,
        grant.withdrawn(now) == grant,
{
    if grant.flow_rate <= 0 {
        assert(grant.amount_due(now) <= 0) by (nonlinear_arith)
            requires
                grant.amount_due(now) == grant.flow_rate * seconds_passed(
                    grant.last_claim_time,
                    now,
                ),
                grant.flow_rate <= 0,
                seconds_passed(grant.last_claim_time, now) >= 0,
        ;
    }
}

/// A withdrawal that pays something out moves the time of the last withdrawal
/// forward to `now` and changes nothing but that time and the balance; one that
/// pays nothing out changes nothing.
pub proof fn lemma_withdrawal_moves_clock(grant: GrantView, now: int)
    ensures
        grant.payout(now) > 0 ==> now > grant.last_claim_time && grant.withdrawn(now) == (
        GrantView {
            balance: grant.balance - grant.payout(now),
            last_claim_time: now,
            ..grant
        }),
        grant.payout(now) <= 0 ==> grant.withdrawn(now) == grant,
{
    if grant.payout(now) > 0 {
        assert(seconds_passed(grant.last_claim_time, now) > 0) by (nonlinear_arith)
            requires
                grant.flow_rate * seconds_passed(grant.last_claim_time, now) > 0,
                seconds_passed(grant.last_claim_time, now) >= 0,
        ;
    }
}

/// While a grant is paused or under dispute, a withdrawal that its grantee has
/// approved fails with `Frozen` and leaves the ledger as it is: balance and time
/// of the last withdrawal stay.
pub proof fn lemma_frozen_pays_nothing(
    ledger: LedgerView,
    credentials: Set<Seq<char>>,
    grant_id: int,
    now: int,
)
    requires
        ledger.has_grant(grant_id),
        credentials.contains(ledger.grant(grant_id).grantee),
        ledger.grant(grant_id).is_paused || ledger.grant(grant_id).dispute_active,
    ensures
        ledger.step_withdraw(credentials, grant_id, now).0 == ledger,
        ledger.step_withdraw(credentials, grant_id, now).1 == Err::<int, Error>(Error::Frozen),
{
}

/// The arbiter is appointed once: after a successful appointment every further
/// one fails and leaves the ledger, and with it the arbiter, as it is. It fails
/// with `AlreadyExists` where the admin that the call names has approved it, and
/// with `AuthorizationFailure` where not.
pub proof fn lemma_arbiter_appointed_once(
    ledger: LedgerView,
    first: Set<Seq<char>>,
    first_admin: Seq<char>,
    first_arbiter: Seq<char>,
    second: Set<Seq<char>>,
    second_admin: Seq<char>,
    second_arbiter: Seq<char>,
)
    requires
        ledger.step_set_arbiter(first, first_admin, first_arbiter).1 is Ok,
    ensures
        ({
            let appointed = ledger.step_set_arbiter(first, first_admin, first_arbiter).0;
            let again = appointed.step_set_arbiter(second, second_admin, second_arbiter);
            &&& appointed.arbiter == Some(first_arbiter)
            &&& again.0 == appointed
            &&& again.1 == Err::<(), Error>(
                if second.contains(second_admin) {
                    Error::AlreadyExists
                } else {
                    Error::AuthorizationFailure
                },
            )
        }),
{
}

/// Appointing the arbiter takes nothing from the ledger: every grant stays as
/// it is, and an arbiter in office stays in office. Where the appointment is
/// refused, the ledger stays as it is.
pub proof fn lemma_set_arbiter_keeps_order(
    ledger: LedgerView,
    credentials: Set<Seq<char>>,
    admin: Seq<char>,
    arbiter: Seq<char>,
)
    ensures
        ledger.grows_into(ledger.step_set_arbiter(credentials, admin, arbiter).0),
        ledger.step_set_arbiter(credentials, admin, arbiter).0.grants == ledger.grants,
        ledger.step_set_arbiter(credentials, admin, arbiter).1 is Err ==> ledger.step_set_arbiter(
            credentials,
            admin,
            arbiter,
        ).0 == ledger,
        ledger.solvent() ==> ledger.step_set_arbiter(credentials, admin, arbiter).0.solvent(),
{
}

/// Creating a grant takes nothing from the ledger: every grant stays as it is
/// under its number. The count of grants goes up by one if the grant is created;
/// if the creation is refused, the ledger stays as it is. Unless the deposit is
/// less than nothing, a ledger in which no balance is less than nothing stays so.
pub proof fn lemma_create_grant_keeps_order(
    ledger: LedgerView,
    credentials: Set<Seq<char>>,
    admin: Seq<char>,
    grantee: Seq<char>,
    deposit: int,
    flow_rate: int,
    token: Seq<char>,
    now: int,
)
    ensures
        ({
            let step = ledger.step_create_grant(
                credentials,
                admin,
                grantee,
                deposit,
                flow_rate,
                token,
                now,
            );
            &&& ledger.grows_into(step.0)
            &&& step.0.count() == if step.1 is Ok {
                ledger.count() + 1
            } else {
                ledger.count()
            }
            &&& step.1 is Err ==> step.0 == ledger
            &&& ledger.solvent() && deposit >= 0 ==> step.0.solvent()
        }),
{
}

/// A withdrawal takes nothing from the ledger but what it pays out: every grant
/// stays under its number, with its admin, its grantee, its rate and its token;
/// no balance goes up and no time of a last withdrawal goes back. A ledger in
/// which no balance is less than nothing stays so. Where the withdrawal is
/// refused or pays nothing out, the ledger stays as it is, and asks for no
/// transfer; where it pays something out, the ledger asks for just that amount
/// to be moved to the grantee.
pub proof fn lemma_withdraw_keeps_order(
    ledger: LedgerView,
    credentials: Set<Seq<char>>,
    grant_id: int,
    now: int,
)
    ensures
        ledger.grows_into(ledger.step_withdraw(credentials, grant_id, now).0),
        ledger.step_withdraw(credentials, grant_id, now).0.count() == ledger.count(),
        ledger.solvent() ==> ledger.step_withdraw(credentials, grant_id, now).0.solvent(),
        ({
            let step = ledger.step_withdraw(credentials, grant_id, now);
            &&& step.1 is Err || step.1 == Ok::<int, Error>(0) ==> step.0 == ledger
            &&& step.1 is Ok && step.1->Ok_0 > 0 ==> step.0.transfers == ledger.transfers.push(
                ledger.grant(grant_id).payment(step.1->Ok_0),
            )
        }),
{
    if ledger.has_grant(grant_id) {
        lemma_withdrawal_moves_clock(ledger.grant(grant_id), now);
        if ledger.solvent() {
            lemma_payout_within_balance(ledger.grant(grant_id), now);
        }
    }
}

/// Setting the pause flag of a grant changes nothing else in the ledger, and
/// nothing at all where the change is refused.
pub proof fn lemma_set_pause_keeps_order(
    ledger: LedgerView,
    credentials: Set<Seq<char>>,
    grant_id: int,
    pause_state: bool,
)
    ensures
        ledger.grows_into(ledger.step_set_pause(credentials, grant_id, pause_state).0),
        ledger.step_set_pause(credentials, grant_id, pause_state).0.count() == ledger.count(),
        ledger.solvent() ==> ledger.step_set_pause(credentials, grant_id, pause_state).0.solvent(),
        ledger.step_set_pause(credentials, grant_id, pause_state).1 is Err
            ==> ledger.step_set_pause(credentials, grant_id, pause_state).0 == ledger,
{
}

/// Setting the dispute flag of a grant changes nothing else in the ledger, and
/// nothing at all where the change is refused.
pub proof fn lemma_set_dispute_state_keeps_order(
    ledger: LedgerView,
    credentials: Set<Seq<char>>,
    grant_id: int,
    active: bool,
)
    ensures
        ledger.grows_into(ledger.step_set_dispute_state(credentials, grant_id, active).0),
        ledger.step_set_dispute_state(credentials, grant_id, active).0.count() == ledger.count(),
        ledger.solvent() ==> ledger.step_set_dispute_state(
            credentials,
            grant_id,
            active,
        ).0.solvent(),
        ledger.step_set_dispute_state(credentials, grant_id, active).1 is Err
            ==> ledger.step_set_dispute_state(credentials, grant_id, active).0 == ledger,
{
}

} // verus!
