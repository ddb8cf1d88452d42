//! What holds of the milestone ledger, whatever is done to it.

use crate::error::Error;
use crate::milestone::model::{released_sum, EntryView, LedgerView};
use crate::milestone::records::{MilestoneStatus, MilestoneView};
use vstd::prelude::*;

verus! {

/// In a ledger that is in order a name is found where its grant stands.
pub proof fn lemma_position(ledger: LedgerView, id: Seq<char>, i: int)
    requires
        ledger.inv(),
        0 <= i < ledger.entries.len(),
        ledger.entries[i].id == id,
    ensures
        ledger.has_grant(id),
        ledger.position(id) == i,
        ledger.entry(id) == ledger.entries[i],
        ledger.grant_if_any(id) == Some(ledger.entries[i].grant),
{
}

/// In a grant that is in order a name is found where its milestone stands.
pub proof fn lemma_milestone_position(entry: EntryView, id: Seq<char>, j: int)
    requires
        entry.inv(),
        0 <= j < entry.milestones.len(),
        entry.milestones[j].0 == id,
    ensures
        entry.has_milestone(id),
        entry.milestone_position(id) == j,
        entry.milestone(id) == entry.milestones[j].1,
        entry.milestone_if_any(id) == Some(entry.milestones[j].1),
{
}

/// A milestone added at the end adds what it has released to the sum.
pub proof fn lemma_released_sum_push(
    milestones: Seq<(Seq<char>, MilestoneView)>,
    last: (Seq<char>, MilestoneView),
)
    ensures
        released_sum(milestones.push(last)) == released_sum(milestones) + last.1.released(),
{
    assert(milestones.push(last).drop_last() =~= milestones);
}

/// A milestone that is replaced takes what it had released out of the sum, and
/// the one that replaces it adds its own.
pub proof fn lemma_released_sum_update(
    milestones: Seq<(Seq<char>, MilestoneView)>,
    j: int,
    next: (Seq<char>, MilestoneView),
)
    requires
        0 <= j < milestones.len(),
    ensures
        released_sum(milestones.update(j, next)) == released_sum(milestones)
            - milestones[j].1.released() + next.1.released(),
    decreases milestones.len(),
{
    if j == milestones.len() - 1 {
        assert(milestones.update(j, next).drop_last() =~= milestones.drop_last());
    } else {
        assert(milestones.update(j, next).drop_last() =~= milestones.drop_last().update(j, next));
        lemma_released_sum_update(milestones.drop_last(), j, next);
    }
}

/// Milestones of which the released ones are worth no less than nothing have
/// released no less than nothing in all.
pub proof fn lemma_released_sum_not_negative(milestones: Seq<(Seq<char>, MilestoneView)>)
    requires
        forall|j: int| 0 <= j < milestones.len() ==> milestones[j].1.released() >= 0,
    ensures
        released_sum(milestones) >= 0,
    decreases milestones.len(),
{
    if milestones.len() > 0 {
        lemma_released_sum_not_negative(milestones.drop_last());
    }
}

/// The record of every grant in a ledger that is in order is in order.
pub proof fn lemma_records_are_valid(ledger: LedgerView, i: int)
    requires
        ledger.inv(),
        0 <= i < ledger.entries.len(),
    ensures
        ledger.entries[i].grant.valid(),
{
    lemma_released_sum_not_negative(ledger.entries[i].milestones);
}

/// Creating a grant keeps the ledger in order and takes nothing from it. Where
/// the creation is refused, the ledger stays as it is.
pub proof fn lemma_create_grant_keeps_order(
    ledger: LedgerView,
    credentials: Set<Seq<char>>,
    grant_id: Seq<char>,
    admin: Seq<char>,
    grantee: Seq<char>,
    total_amount: int,
)
    requires
        ledger.inv(),
    ensures
        ledger.step_create_grant(credentials, grant_id, admin, grantee, total_amount).0.inv(),
        ledger.grows_into(
            ledger.step_create_grant(credentials, grant_id, admin, grantee, total_amount).0,
        ),
        ({
            let step = ledger.step_create_grant(
                credentials,
                grant_id,
                admin,
                grantee,
                total_amount,
            );
            step.1 is Err ==> step.0 == ledger
        }),
{
}

/// Adding a milestone, whatever it is worth, keeps the ledger in order and takes
/// nothing from it. Where the addition is refused, the ledger stays as it is.
pub proof fn lemma_add_milestone_keeps_order(
    ledger: LedgerView,
    credentials: Set<Seq<char>>,
    grant_id: Seq<char>,
    milestone_id: Seq<char>,
    amount: int,
    description: Seq<char>,
)
    requires
        ledger.inv(),
    ensures
        ledger.step_add_milestone(credentials, grant_id, milestone_id, amount, description).0.inv(),
        ledger.grows_into(
            ledger.step_add_milestone(credentials, grant_id, milestone_id, amount, description).0,
        ),
        ({
            let step = ledger.step_add_milestone(
                credentials,
                grant_id,
                milestone_id,
                amount,
                description,
            );
            step.1 is Err ==> step.0 == ledger
        }),
{
    let step = ledger.step_add_milestone(credentials, grant_id, milestone_id, amount, description);
    if step.1 is Ok {
        let before = ledger.entry(grant_id);
        let after = before.with_milestone(milestone_id, MilestoneView::fresh(amount, description));
        lemma_released_sum_push(before.milestones, after.milestones.last());
        assert(after.inv());
    }
}

/// Approving a milestone keeps the ledger in order, so that the grant has then
/// released what its released milestones are worth and no more than its total,
/// and takes nothing from it: what the grant has released has not gone down.
/// Where the approval is refused, the ledger stays as it is.
pub proof fn lemma_approve_milestone_keeps_order(
    ledger: LedgerView,
    credentials: Set<Seq<char>>,
    grant_id: Seq<char>,
    milestone_id: Seq<char>,
)
    requires
        ledger.inv(),
    ensures
        ledger.step_approve_milestone(credentials, grant_id, milestone_id).0.inv(),
        ledger.grows_into(ledger.step_approve_milestone(credentials, grant_id, milestone_id).0),
        ({
            let step = ledger.step_approve_milestone(credentials, grant_id, milestone_id);
            step.1 is Err ==> step.0 == ledger
        }),
{
    let step = ledger.step_approve_milestone(credentials, grant_id, milestone_id);
    if step.1 is Ok {
        let before = ledger.entry(grant_id);
        let j = before.milestone_position(milestone_id);
        let after = before.with_approval(milestone_id);
        lemma_released_sum_update(before.milestones, j, after.milestones[j]);
        assert(after.inv());
    }
}

/// The amounts that a grant with a total of no less than nothing has released
/// never add up to more than that total.
pub proof fn lemma_released_within_total(ledger: LedgerView, grant_id: Seq<char>)
    requires
        ledger.inv(),
        ledger.has_grant(grant_id),
        ledger.entry(grant_id).grant.total_amount >= 0,
    ensures
        released_sum(ledger.entry(grant_id).milestones) == ledger.entry(
            grant_id,
        ).grant.released_amount,
        0 <= released_sum(ledger.entry(grant_id).milestones) <= ledger.entry(
            grant_id,
        ).grant.total_amount,
{
    lemma_released_sum_not_negative(ledger.entry(grant_id).milestones);
}

/// A grant with a total of less than nothing releases nothing: it has released
/// nothing so far, and no approval of any of its milestones succeeds.
pub proof fn lemma_total_below_nothing_releases_nothing(
    ledger: LedgerView,
    credentials: Set<Seq<char>>,
    grant_id: Seq<char>,
    milestone_id: Seq<char>,
)
    requires
        ledger.inv(),
        ledger.has_grant(grant_id),
        ledger.entry(grant_id).grant.total_amount < 0,
    ensures
        ledger.entry(grant_id).grant.released_amount == 0,
        released_sum(ledger.entry(grant_id).milestones) == 0,
        ledger.step_approve_milestone(credentials, grant_id, milestone_id).1 is Err,
{
    let entry = ledger.entry(grant_id);
    lemma_released_sum_not_negative(entry.milestones);
}

/// A milestone that is worth less than nothing is never released: its approval
/// is refused and leaves the ledger as it is. Where grant and milestone exist,
/// the grant's admin has approved the call and the milestone is not released,
/// the refusal is `ExceedsTotal`.
pub proof fn lemma_amount_below_nothing_is_not_released(
    ledger: LedgerView,
    credentials: Set<Seq<char>>,
    grant_id: Seq<char>,
    milestone_id: Seq<char>,
)
    requires
        ledger.has_milestone(grant_id, milestone_id),
        ledger.entry(grant_id).milestone(milestone_id).amount < 0,
    ensures
        ledger.step_approve_milestone(credentials, grant_id, milestone_id).0 == ledger,
        ledger.step_approve_milestone(credentials, grant_id, milestone_id).1 is Err,
        credentials.contains(ledger.entry(grant_id).grant.admin) && ledger.entry(
            grant_id,
        ).milestone(milestone_id).status != MilestoneStatus::Released
            ==> ledger.step_approve_milestone(credentials, grant_id, milestone_id).1 == Err::<
            int,
            Error,
        >(Error::ExceedsTotal),
{
}

/// A grant that has released its whole total releases no more: the approval of
/// any further milestone that is worth more than nothing fails with
/// `ExceedsTotal` and leaves the ledger as it is.
pub proof fn lemma_full_grant_releases_no_more(
    ledger: LedgerView,
    credentials: Set<Seq<char>>,
    grant_id: Seq<char>,
    milestone_id: Seq<char>,
)
    requires
        ledger.has_milestone(grant_id, milestone_id),
        credentials.contains(ledger.entry(grant_id).grant.admin),
        ledger.entry(grant_id).grant.released_amount == ledger.entry(grant_id).grant.total_amount,
        ledger.entry(grant_id).milestone(milestone_id).status != MilestoneStatus::Released,
        ledger.entry(grant_id).milestone(milestone_id).amount > 0,
    ensures
        ledger.step_approve_milestone(credentials, grant_id, milestone_id).0 == ledger,
        ledger.step_approve_milestone(credentials, grant_id, milestone_id).1 == Err::<int, Error>(
            Error::ExceedsTotal,
        ),
{
}

/// A milestone is approved once: after a successful approval every further
/// approval of the same milestone fails and leaves the ledger as it is. It fails
/// with `AlreadyReleased` where the grant's admin has approved the call, and with
/// `AuthorizationFailure` where not.
pub proof fn lemma_approved_once(
    ledger: LedgerView,
    first: Set<Seq<char>>,
    second: Set<Seq<char>>,
    grant_id: Seq<char>,
    milestone_id: Seq<char>,
)
    requires
        ledger.inv(),
        ledger.step_approve_milestone(first, grant_id, milestone_id).1 is Ok,
    ensures
        ({
            let approved = ledger.step_approve_milestone(first, grant_id, milestone_id).0;
            let again = approved.step_approve_milestone(second, grant_id, milestone_id);
            &&& again.0 == approved
            &&& again.1 == Err::<int, Error>(
                if second.contains(ledger.entry(grant_id).grant.admin) {
                    Error::AlreadyReleased
                } else {
                    Error::AuthorizationFailure
                },
            )
        }),
{
    let approved = ledger.step_approve_milestone(first, grant_id, milestone_id).0;
    let i = ledger.position(grant_id);
    let before = ledger.entry(grant_id);
    let j = before.milestone_position(milestone_id);
    let after = before.with_approval(milestone_id);
    lemma_approve_milestone_keeps_order(ledger, first, grant_id, milestone_id);
    assert(approved.entries[i] == after);
    lemma_position(approved, grant_id, i);
    assert(after.milestones[j].0 == milestone_id);
    lemma_milestone_position(after, milestone_id, j);
}

} // verus!
