//! The milestone ledger as a mathematical value, and what each operation does
//! to it.

use crate::error::Error;
use crate::milestone::records::{
    addition_refusal, approval_refusal, creation_refusal, EventView, GrantView, MilestoneStatus,
    MilestoneView,
};
use vstd::prelude::*;

verus! {

/// The amounts of the released milestones among `milestones`, added up.
pub open spec fn released_sum(milestones: Seq<(Seq<char>, MilestoneView)>) -> int
    decreases milestones.len(),
{
    if milestones.len() == 0 {
        0
    } else {
        released_sum(milestones.drop_last()) + milestones.last().1.released()
    }
}

/// A grant in the ledger: its name, its record, and its milestones by name, in
/// the order in which they were added.
pub struct EntryView {
    pub id: Seq<char>,
    pub grant: GrantView,
    pub milestones: Seq<(Seq<char>, MilestoneView)>,
}

impl EntryView {
    /// The entry of a grant that has just been created: it has no milestone.
    pub open spec fn fresh(id: Seq<char>, grant: GrantView) -> EntryView {
        EntryView { id, grant, milestones: Seq::empty() }
    }

    /// Whether the grant has a milestone named `id`.
    pub open spec fn has_milestone(self, id: Seq<char>) -> bool {
        exists|j: int| 0 <= j < self.milestones.len() && self.milestones[j].0 == id
    }

    /// Where the milestone named `id` stands among the grant's milestones.
    pub open spec fn milestone_position(self, id: Seq<char>) -> int {
        choose|j: int| 0 <= j < self.milestones.len() && self.milestones[j].0 == id
    }

    /// The milestone named `id`.
    pub open spec fn milestone(self, id: Seq<char>) -> MilestoneView {
        self.milestones[self.milestone_position(id)].1
    }

    /// The milestone named `id`, where the grant has one.
    pub open spec fn milestone_if_any(self, id: Seq<char>) -> Option<MilestoneView> {
        if self.has_milestone(id) {
            Some(self.milestone(id))
        } else {
            None
        }
    }

    /// This entry with a new milestone at its end.
    pub open spec fn with_milestone(self, id: Seq<char>, milestone: MilestoneView) -> EntryView {
        EntryView { milestones: self.milestones.push((id, milestone)), ..self }
    }

    /// This entry after the milestone named `id` has been approved: the milestone
    /// is released and its amount is added to what the grant has released.
    pub open spec fn with_approval(self, id: Seq<char>) -> EntryView {
        EntryView {
            grant: self.grant.after_release(self.milestone(id).amount),
            milestones: self.milestones.update(
                self.milestone_position(id),
                (id, self.milestone(id).approved()),
            ),
            ..self
        }
    }

    /// What holds of every grant in a ledger: no two milestones share a name,
    /// each is pending or released, no released milestone is worth less than
    /// nothing, the grant has released exactly what its released milestones are
    /// worth, and that is nothing or no more than its total.
    pub open spec fn inv(self) -> bool {
        &&& forall|j: int, k: int|
            0 <= j < k < self.milestones.len() ==> self.milestones[j].0 != self.milestones[k].0
        &&& forall|j: int| 0 <= j < self.milestones.len() ==> self.milestones[j].1.released() >= 0
        &&& forall|j: int|
            0 <= j < self.milestones.len() ==> self.milestones[j].1.status
                != MilestoneStatus::Approved
        &&& self.grant.released_amount == released_sum(self.milestones)
        &&& self.grant.released_amount == 0 || self.grant.released_amount
            <= self.grant.total_amount
    }

    /// Whether `later` can be a later state of this grant: admin, grantee and
    /// total are the same, nothing that was released has been taken back, every
    /// milestone is still there with its name, amount and description, and a
    /// milestone that was released is released still.
    pub open spec fn grows_into(self, later: EntryView) -> bool {
        &&& later.id == self.id
        &&& later.grant.admin == self.grant.admin
        &&& later.grant.grantee == self.grant.grantee
        &&& later.grant.total_amount == self.grant.total_amount
        &&& later.grant.released_amount >= self.grant.released_amount
        &&& later.milestones.len() >= self.milestones.len()
        &&& forall|j: int|
            0 <= j < self.milestones.len() ==> {
                &&& (#[trigger] later.milestones[j]).0 == self.milestones[j].0
                &&& later.milestones[j].1.amount == self.milestones[j].1.amount
                &&& later.milestones[j].1.description == self.milestones[j].1.description
                &&& self.milestones[j].1.status == MilestoneStatus::Released
                    ==> later.milestones[j].1.status == MilestoneStatus::Released
            }
    }
}

/// The state of a milestone ledger: its grants, in the order in which they were
/// created, and the events that have happened and have not been collected yet,
/// the oldest first.
pub struct LedgerView {
    pub entries: Seq<EntryView>,
    pub events: Seq<EventView>,
}

impl LedgerView {
    /// The ledger that holds no grant and has no event to make known.
    pub open spec fn empty() -> LedgerView {
        LedgerView { entries: Seq::empty(), events: Seq::empty() }
    }

    /// Whether the ledger holds a grant named `id`.
    pub open spec fn has_grant(self, id: Seq<char>) -> bool {
        exists|i: int| 0 <= i < self.entries.len() && self.entries[i].id == id
    }

    /// Where the grant named `id` stands in the ledger.
    pub open spec fn position(self, id: Seq<char>) -> int {
        choose|i: int| 0 <= i < self.entries.len() && self.entries[i].id == id
    }

    /// The entry of the grant named `id`.
    pub open spec fn entry(self, id: Seq<char>) -> EntryView {
        self.entries[self.position(id)]
    }

    /// The record of the grant named `id`, where the ledger holds one.
    pub open spec fn grant_if_any(self, id: Seq<char>) -> Option<GrantView> {
        if self.has_grant(id) {
            Some(self.entry(id).grant)
        } else {
            None
        }
    }

    /// Whether the ledger holds the grant `grant_id` and that grant the milestone
    /// `milestone_id`.
    pub open spec fn has_milestone(self, grant_id: Seq<char>, milestone_id: Seq<char>) -> bool {
        self.has_grant(grant_id) && self.entry(grant_id).has_milestone(milestone_id)
    }

    /// The record of the milestone `milestone_id` of the grant `grant_id`, where
    /// the ledger holds one.
    pub open spec fn milestone_if_any(self, grant_id: Seq<char>, milestone_id: Seq<char>)
        -> Option<MilestoneView> {
        if self.has_grant(grant_id) {
            self.entry(grant_id).milestone_if_any(milestone_id)
        } else {
            None
        }
    }

    /// What holds of every ledger: no two grants share a name, and each grant is
    /// in order.
    pub open spec fn inv(self) -> bool {
        &&& forall|i: int, k: int|
            0 <= i < k < self.entries.len() ==> self.entries[i].id != self.entries[k].id
        &&& forall|i: int| 0 <= i < self.entries.len() ==> (#[trigger] self.entries[i]).inv()
    }

    /// Whether `later` can be a later state of this ledger, as long as no event
    /// has been collected in between: every grant is still there, each can have
    /// become what it is in `later`, and every event is still to be made known,
    /// before any that has come after it.
    pub open spec fn grows_into(self, later: LedgerView) -> bool {
        &&& later.entries.len() >= self.entries.len()
        &&& forall|i: int|
            0 <= i < self.entries.len() ==> self.entries[i].grows_into(
                #[trigger] later.entries[i],
            )
        &&& self.events.is_prefix_of(later.events)
    }

    /// This ledger with a new grant at its end.
    pub open spec fn with_grant(self, entry: EntryView) -> LedgerView {
        LedgerView { entries: self.entries.push(entry), ..self }
    }

    /// This ledger with the entry of the grant named `id` replaced.
    pub open spec fn with_entry(self, id: Seq<char>, entry: EntryView) -> LedgerView {
        LedgerView { entries: self.entries.update(self.position(id), entry), ..self }
    }

    /// This ledger with one more event to make known.
    pub open spec fn with_event(self, event: EventView) -> LedgerView {
        LedgerView { events: self.events.push(event), ..self }
    }

    /// This ledger once its events have been collected.
    pub open spec fn without_events(self) -> LedgerView {
        LedgerView { events: Seq::empty(), ..self }
    }

    /// What creating a grant does to the ledger, and what the call returns.
    ///
    /// Where the creation is not refused, the ledger holds a new grant that has
    /// released nothing and has no milestone, the creation is an event to make
    /// known, and the call returns the grant's name. Where it is refused, the
    /// ledger stays as it is.
    pub open spec fn step_create_grant(
        self,
        credentials: Set<Seq<char>>,
        grant_id: Seq<char>,
        admin: Seq<char>,
        grantee: Seq<char>,
        total_amount: int,
    ) -> (LedgerView, Result<Seq<char>, Error>) {
        match creation_refusal(credentials, self.has_grant(grant_id), admin) {
            Some(refusal) => (self, Err(refusal)),
            None => (
                self.with_grant(
                    EntryView::fresh(grant_id, GrantView::fresh(admin, grantee, total_amount)),
                ).with_event(EventView::GrantCreated { grant_id }),
                Ok(grant_id),
            ),
        }
    }

    /// What adding a milestone does to the ledger, and what the call returns.
    ///
    /// Where the addition is not refused, the grant has a new pending milestone,
    /// the addition is an event to make known, and the call returns the
    /// milestone's name. Where it is refused, the ledger stays as it is.
    pub open spec fn step_add_milestone(
        self,
        credentials: Set<Seq<char>>,
        grant_id: Seq<char>,
        milestone_id: Seq<char>,
        amount: int,
        description: Seq<char>,
    ) -> (LedgerView, Result<Seq<char>, Error>) {
        match addition_refusal(
            self.grant_if_any(grant_id),
            credentials,
            self.has_milestone(grant_id, milestone_id),
        ) {
            Some(refusal) => (self, Err(refusal)),
            None => (
                self.with_entry(
                    grant_id,
                    self.entry(grant_id).with_milestone(
                        milestone_id,
                        MilestoneView::fresh(amount, description),
                    ),
                ).with_event(EventView::MilestoneCreated { grant_id, milestone_id }),
                Ok(milestone_id),
            ),
        }
    }

    /// What approving a milestone does to the ledger, and what the call returns.
    ///
    /// Where the approval is not refused, the milestone is released, its amount
    /// is added to what the grant has released, the release is an event to make
    /// known, and the call returns the amount. Where it is refused, the ledger
    /// stays as it is.
    pub open spec fn step_approve_milestone(
        self,
        credentials: Set<Seq<char>>,
        grant_id: Seq<char>,
        milestone_id: Seq<char>,
    ) -> (LedgerView, Result<int, Error>) {
        match approval_refusal(
            self.grant_if_any(grant_id),
            credentials,
            self.milestone_if_any(grant_id, milestone_id),
        ) {
            Some(refusal) => (self, Err(refusal)),
            None => (
                self.with_entry(
                    grant_id,
                    self.entry(grant_id).with_approval(milestone_id),
                ).with_event(
                    EventView::MilestoneReleased {
                        grant_id,
                        milestone_id,
                        amount: self.entry(grant_id).milestone(milestone_id).amount,
                    },
                ),
                Ok(self.entry(grant_id).milestone(milestone_id).amount),
            ),
        }
    }
}

} // verus!
