//! The milestone ledger: the records it keeps and the operations on them.

use crate::credentials::{Address, Credentials};
use crate::error::Error;
use crate::milestone::laws::{
    lemma_add_milestone_keeps_order, lemma_approve_milestone_keeps_order,
    lemma_create_grant_keeps_order, lemma_milestone_position, lemma_position,
    lemma_records_are_valid,
};
use crate::milestone::model::{released_sum, EntryView, LedgerView};
use crate::milestone::records::{Event, Grant, GrantView, Milestone, MilestoneView, Symbol};
use crate::outcome::{amounted, named};
use vstd::prelude::*;

verus! {

/// A milestone under its name.
struct MilestoneEntry {
    id: Symbol,
    milestone: Milestone,
}

/// A grant under its name, with its milestones in the order in which they were
/// added.
struct GrantEntry {
    id: Symbol,
    grant: Grant,
    milestones: Vec<MilestoneEntry>,
}

impl View for GrantEntry {
    type V = EntryView;

    closed spec fn view(&self) -> EntryView {
        EntryView {
            id: self.id@,
            grant: self.grant@,
            milestones: self.milestones@.map_values(|m: MilestoneEntry| (m.id@, m.milestone@)),
        }
    }
}

impl GrantEntry {
    /// Where the milestone named `milestone_id` stands, if the grant has it.
    fn find(&self, milestone_id: &Symbol) -> (found: Option<usize>)
        ensures
            match found {
                Some(j) => {
                    &&& j < self.milestones@.len()
                    &&& self@.milestones[j as int] == (
                        milestone_id@,
                        self.milestones@[j as int].milestone@,
                    )
                },
                None => !self@.has_milestone(milestone_id@),
            },
            self@.milestones.len() == self.milestones@.len(),
    {
        let mut j: usize = 0;
        while j < self.milestones.len()
            invariant
                j <= self.milestones@.len(),
                self@.milestones.len() == self.milestones@.len(),
                forall|k: int| 0 <= k < j ==> self@.milestones[k].0 != milestone_id@,
            decreases self.milestones@.len() - j,
        {
            if self.milestones[j].id == *milestone_id {
                return Some(j);
            }
            j += 1;
        }
        None
    }
}

/// The milestone ledger: every grant with its milestones.
///
/// The ledger owns its records. Each operation either succeeds and changes the
/// ledger as its contract says, or fails with the reason and leaves the ledger
/// as it was. What an operation has to make known it leaves as an event in the
/// ledger, for whoever runs the ledger to collect and publish.
pub struct GrantContract {
    entries: Vec<GrantEntry>,
    events: Vec<Event>,
}

impl View for GrantContract {
    type V = LedgerView;

    closed spec fn view(&self) -> LedgerView {
        LedgerView {
            entries: self.entries@.map_values(|e: GrantEntry| e@),
            events: self.events@.map_values(|e: Event| e@),
        }
    }
}

impl GrantContract {
    /// Whether the ledger is in order. Every ledger that this module hands out
    /// is, and every operation keeps it so.
    pub open spec fn wf(&self) -> bool {
        self@.inv()
    }

    /// A ledger that holds no grant.
    pub fn new() -> (ledger: Self)
        ensures
            ledger.wf(),
            ledger@ == LedgerView::empty(),
    {
        let ledger = GrantContract { entries: Vec::new(), events: Vec::new() };
        assert(ledger@.entries =~= Seq::empty());
        assert(ledger@.events =~= Seq::empty());
        ledger
    }

    /// Where the grant named `grant_id` stands, if the ledger holds it.
    fn find(&self, grant_id: &Symbol) -> (found: Option<usize>)
        requires
            self.wf(),
        ensures
            match found {
                Some(i) => {
                    &&& i < self.entries@.len()
                    &&& self@.has_grant(grant_id@)
                    &&& self@.position(grant_id@) == i
                    &&& self@.entry(grant_id@) == self.entries@[i as int]@
                    &&& self.entries@[i as int]@.inv()
                    &&& self.entries@[i as int].grant@.valid()
                },
                None => !self@.has_grant(grant_id@),
            },
    {
        let mut i: usize = 0;
        while i < self.entries.len()
            invariant
                self.wf(),
                i <= self.entries@.len(),
                self@.entries.len() == self.entries@.len(),
                forall|k: int| 0 <= k < i ==> self@.entries[k].id != grant_id@,
            decreases self.entries@.len() - i,
        {
            if self.entries[i].id == *grant_id {
                proof {
                    lemma_position(self@, grant_id@, i as int);
                    lemma_records_are_valid(self@, i as int);
                }
                return Some(i);
            }
            i += 1;
        }
        None
    }

    /// Creates the grant `grant_id` of `total_amount` for `grantee`, with `admin`
    /// as the one who approves its milestones, leaves the creation as an event,
    /// and returns the grant's name. The total is taken as it is: a grant with a
    /// total of less than nothing never releases anything.
    ///
    /// Fails with `AuthorizationFailure` unless `admin` has approved the call,
    /// and with `AlreadyExists` if the ledger holds a grant of that name.
    pub fn create_grant(
        &mut self,
        credentials: &Credentials,
        grant_id: Symbol,
        admin: Address,
        grantee: Address,
        total_amount: i128,
    ) -> (result: Result<Symbol, Error>)
        requires
            old(self).wf(),
        ensures
            final(self).wf(),
            final(self)@ == old(self)@.step_create_grant(
                credentials@,
                grant_id@,
                admin@,
                grantee@,
                total_amount as int,
            ).0,
            named(result) == old(self)@.step_create_grant(
                credentials@,
                grant_id@,
                admin@,
                grantee@,
                total_amount as int,
            ).1,
            result is Err ==> final(self)@ == old(self)@,
            old(self)@.grows_into(final(self)@),
    {
        proof {
            lemma_create_grant_keeps_order(
                self@,
                credentials@,
                grant_id@,
                admin@,
                grantee@,
                total_amount as int,
            );
        }
        let taken = self.find(&grant_id).is_some();
        match Grant::open(credentials, taken, admin, grantee, total_amount) {
            Ok(grant) => {
                let id = grant_id.clone();
                let event = Event::GrantCreated { grant_id: grant_id.clone() };
                let entry = GrantEntry { id: grant_id, grant, milestones: Vec::new() };
                assert(entry@.milestones =~= Seq::empty());
                self.entries.push(entry);
                self.events.push(event);
                assert(self@.entries =~= old(self)@.entries.push(entry@));
                assert(self@.events =~= old(self)@.events.push(event@));
                Ok(id)
            },
            Err(e) => Err(e),
        }
    }

    /// Adds the milestone `milestone_id`, worth `amount`, to the grant
    /// `grant_id`, leaves the addition as an event, and returns the milestone's
    /// name. The milestone starts out pending.
    ///
    /// The amount is taken as it is. A milestone that is worth less than nothing
    /// can be added, but its approval is refused.
    ///
    /// Fails with `NotFound` if the ledger holds no such grant, with
    /// `AuthorizationFailure` unless the grant's admin has approved the call, and
    /// with `AlreadyExists` if the grant has a milestone of that name.
    pub fn add_milestone(
        &mut self,
        credentials: &Credentials,
        grant_id: &Symbol,
        milestone_id: Symbol,
        amount: i128,
        description: String,
    ) -> (result: Result<Symbol, Error>)
        requires
            old(self).wf(),
        ensures
            final(self).wf(),
            final(self)@ == old(self)@.step_add_milestone(
                credentials@,
                grant_id@,
                milestone_id@,
                amount as int,
                description@,
            ).0,
            named(result) == old(self)@.step_add_milestone(
                credentials@,
                grant_id@,
                milestone_id@,
                amount as int,
                description@,
            ).1,
            result is Err ==> final(self)@ == old(self)@,
            old(self)@.grows_into(final(self)@),
    {
        proof {
            lemma_add_milestone_keeps_order(
                self@,
                credentials@,
                grant_id@,
                milestone_id@,
                amount as int,
                description@,
            );
        }
        let found = self.find(grant_id);
        let (grant, taken) = match found {
            Some(i) => (
                Some(&self.entries[i].grant),
                self.entries[i].find(&milestone_id).is_some(),
            ),
            None => (None, false),
        };
        match Milestone::plan(grant, credentials, taken, amount, description) {
            Ok(milestone) => {
                let i: usize = found.unwrap();
                let id = milestone_id.clone();
                let event = Event::MilestoneCreated {
                    grant_id: grant_id.clone(),
                    milestone_id: milestone_id.clone(),
                };
                let ghost added = self@.entries[i as int].with_milestone(
                    milestone_id@,
                    milestone@,
                );
                self.entries[i].milestones.push(MilestoneEntry { id: milestone_id, milestone });
                self.events.push(event);
                proof {
                    assert(self.entries@[i as int]@.milestones =~= added.milestones);
                    assert(self@.entries =~= old(self)@.entries.update(i as int, added));
                    assert(self@.events =~= old(self)@.events.push(event@));
                }
                Ok(id)
            },
            Err(e) => Err(e),
        }
    }

    /// Approves the milestone `milestone_id` of the grant `grant_id`: releases
    /// its amount, leaves the release as an event, and returns the amount.
    ///
    /// Fails with `NotFound` if the ledger holds no such grant, with
    /// `AuthorizationFailure` unless the grant's admin has approved the call, with
    /// `NotFound` if the grant has no such milestone, with `AlreadyReleased` if
    /// the milestone has been released, and with `ExceedsTotal` if its amount
    /// would take the grant past its total or is less than nothing.
    pub fn approve_milestone(
        &mut self,
        credentials: &Credentials,
        grant_id: &Symbol,
        milestone_id: &Symbol,
    ) -> (result: Result<i128, Error>)
        requires
            old(self).wf(),
        ensures
            final(self).wf(),
            final(self)@ == old(self)@.step_approve_milestone(
                credentials@,
                grant_id@,
                milestone_id@,
            ).0,
            amounted(result) == old(self)@.step_approve_milestone(
                credentials@,
                grant_id@,
                milestone_id@,
            ).1,
            result is Err ==> final(self)@ == old(self)@,
            old(self)@.grows_into(final(self)@),
    {
        proof {
            lemma_approve_milestone_keeps_order(self@, credentials@, grant_id@, milestone_id@);
        }
        let found = self.find(grant_id);
        let (grant, milestone, place) = match found {
            Some(i) => {
                let entry = &self.entries[i];
                match entry.find(milestone_id) {
                    Some(j) => {
                        proof {
                            lemma_milestone_position(entry@, milestone_id@, j as int);
                        }
                        (Some(&entry.grant), Some(&entry.milestones[j].milestone), Some((i, j)))
                    },
                    None => (Some(&entry.grant), None, None),
                }
            },
            None => (None, None, None),
        };
        match Grant::release(grant, credentials, milestone) {
            Ok((after, released)) => {
                let (i, j): (usize, usize) = place.unwrap();
                let amount: i128 = released.amount;
                let event = Event::MilestoneReleased {
                    grant_id: grant_id.clone(),
                    milestone_id: milestone_id.clone(),
                    amount,
                };
                let ghost approved = self@.entries[i as int].with_approval(milestone_id@);
                self.entries[i].grant = after;
                self.entries[i].milestones[j].milestone = released;
                self.events.push(event);
                proof {
                    assert(self.entries@[i as int]@.milestones =~= approved.milestones);
                    assert(self@.entries =~= old(self)@.entries.update(i as int, approved));
                    assert(self@.events =~= old(self)@.events.push(event@));
                }
                Ok(amount)
            },
            Err(e) => Err(e),
        }
    }

    /// Collects the events that have happened since they were last collected,
    /// the oldest first, and leaves the ledger with none to make known. Nothing
    /// else changes.
    pub fn take_events(&mut self) -> (events: Vec<Event>)
        requires
            old(self).wf(),
        ensures
            final(self).wf(),
            final(self)@ == old(self)@.without_events(),
            events@.map_values(|e: Event| e@) == old(self)@.events,
    {
        let mut events: Vec<Event> = Vec::new();
        core::mem::swap(&mut self.events, &mut events);
        assert(self@.events =~= Seq::empty());
        assert(self@.entries == old(self)@.entries);
        events
    }

    /// The grant `grant_id`: its admin, its grantee, its total and what it has
    /// released. Fails with `NotFound` if the ledger holds no such grant.
    pub fn get_grant(&self, grant_id: &Symbol) -> (result: Result<
        (Address, Address, i128, i128),
        Error,
    >)
        requires
            self.wf(),
        ensures
            match result {
                Ok((admin, grantee, total_amount, released_amount)) => {
                    &&& self@.has_grant(grant_id@)
                    &&& self@.entry(grant_id@).grant == GrantView {
                        admin: admin@,
                        grantee: grantee@,
                        total_amount: total_amount as int,
                        released_amount: released_amount as int,
                    }
                },
                Err(e) => e == Error::NotFound && !self@.has_grant(grant_id@),
            },
    {
        match self.find(grant_id) {
            Some(i) => {
                let grant = &self.entries[i].grant;
                Ok(
                    (
                        grant.admin.clone(),
                        grant.grantee.clone(),
                        grant.total_amount,
                        grant.released_amount,
                    ),
                )
            },
            None => Err(Error::NotFound),
        }
    }

    /// The milestone `milestone_id` of the grant `grant_id`: its amount, the
    /// number of its status (0 while it is pending, 2 once it is released) and
    /// its description. Fails with `NotFound` if the ledger holds no such grant
    /// or the grant no such milestone.
    pub fn get_milestone(&self, grant_id: &Symbol, milestone_id: &Symbol) -> (result: Result<
        (i128, u32, String),
        Error,
    >)
        requires
            self.wf(),
        ensures
            match result {
                Ok((amount, status, description)) => {
                    &&& self@.has_milestone(grant_id@, milestone_id@)
                    &&& self@.entry(grant_id@).milestone(milestone_id@) == MilestoneView {
                        amount: amount as int,
                        status: self@.entry(grant_id@).milestone(milestone_id@).status,
                        description: description@,
                    }
                    &&& status == self@.entry(grant_id@).milestone(milestone_id@).status.code_of()
                    &&& status == 0 || status == 2
                },
                Err(e) => e == Error::NotFound && !self@.has_milestone(grant_id@, milestone_id@),
            },
    {
        let i = match self.find(grant_id) {
            Some(i) => i,
            None => { return Err(Error::NotFound); },
        };
        let entry = &self.entries[i];
        match entry.find(milestone_id) {
            Some(j) => {
                proof {
                    lemma_milestone_position(entry@, milestone_id@, j as int);
                }
                let milestone = &entry.milestones[j].milestone;
                Ok((milestone.amount, milestone.status.code(), milestone.description.clone()))
            },
            None => Err(Error::NotFound),
        }
    }

    /// What the grant `grant_id` has released so far, which is what its released
    /// milestones are worth. Fails with `NotFound` if the ledger holds no such
    /// grant.
    pub fn get_released_amount(&self, grant_id: &Symbol) -> (result: Result<i128, Error>)
        requires
            self.wf(),
        ensures
            match result {
                Ok(released) => {
                    &&& self@.has_grant(grant_id@)
                    &&& released == self@.entry(grant_id@).grant.released_amount
                    &&& released == released_sum(self@.entry(grant_id@).milestones)
                },
                Err(e) => e == Error::NotFound && !self@.has_grant(grant_id@),
            },
    {
        match self.find(grant_id) {
            Some(i) => Ok(self.entries[i].grant.released_amount),
            None => Err(Error::NotFound),
        }
    }

    /// What the grant `grant_id` may still release: its total less what it has
    /// released. Fails with `NotFound` if the ledger holds no such grant.
    pub fn get_remaining_amount(&self, grant_id: &Symbol) -> (result: Result<i128, Error>)
        requires
            self.wf(),
        ensures
            match result {
                Ok(remaining) => {
                    &&& self@.has_grant(grant_id@)
                    &&& remaining == self@.entry(grant_id@).grant.total_amount - self@.entry(
                        grant_id@,
                    ).grant.released_amount
                },
                Err(e) => e == Error::NotFound && !self@.has_grant(grant_id@),
            },
    {
        match self.find(grant_id) {
            Some(i) => {
                let grant = &self.entries[i].grant;
                Ok(grant.total_amount - grant.released_amount)
            },
            None => Err(Error::NotFound),
        }
    }
}

} // verus!
