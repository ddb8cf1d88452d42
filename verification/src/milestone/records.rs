//! The records of the milestone ledger, and the decisions taken on them.
//!
//! A decision takes the records that a call names, as far as they exist, and the
//! credentials of the call. It says whether the call is served and, if so, what
//! the records are afterwards. Whoever keeps the records looks them up before
//! and stores them after.

use crate::credentials::{Address, Credentials};
use crate::error::Error;
use crate::outcome::viewed;
use vstd::prelude::*;

verus! {

/// The name of a grant or of a milestone.
pub type Symbol = String;

/// How far a milestone has come. A milestone is created `Pending` and goes to
/// `Released` when it is approved; nothing here ever leaves one `Approved`.
#[derive(Clone, Copy, Debug, PartialEq, Eq, Structural)]
pub enum MilestoneStatus {
    Pending,
    Approved,
    Released,
}

impl MilestoneStatus {
    /// The number that stands for this status wherever a status is handed out.
    pub open spec fn code_of(self) -> u32 {
        match self {
            MilestoneStatus::Pending => 0,
            MilestoneStatus::Approved => 1,
            MilestoneStatus::Released => 2,
        }
    }

    /// The number that stands for this status: 0, 1 or 2.
    pub fn code(self) -> (code: u32)
        ensures
            code == self.code_of(),
    {
        match self {
            MilestoneStatus::Pending => 0,
            MilestoneStatus::Approved => 1,
            MilestoneStatus::Released => 2,
        }
    }
}

/// A fund committed to a grantee and released by its admin.
#[derive(Debug, PartialEq, Eq)]
pub struct Grant {
    pub admin: Address,
    pub grantee: Address,
    pub total_amount: i128,
    pub released_amount: i128,
}

/// What a [`Grant`] holds, as mathematical values.
pub struct GrantView {
    pub admin: Seq<char>,
    pub grantee: Seq<char>,
    pub total_amount: int,
    pub released_amount: int,
}

impl View for Grant {
    type V = GrantView;

    open spec fn view(&self) -> GrantView {
        GrantView {
            admin: self.admin@,
            grantee: self.grantee@,
            total_amount: self.total_amount as int,
            released_amount: self.released_amount as int,
        }
    }
}

impl Clone for Grant {
    fn clone(&self) -> (copy: Self)
        ensures
            copy == *self,
    {
        Grant {
            admin: self.admin.clone(),
            grantee: self.grantee.clone(),
            total_amount: self.total_amount,
            released_amount: self.released_amount,
        }
    }
}

/// A tranche of a grant that its admin releases by approving it.
#[derive(Debug, PartialEq, Eq)]
pub struct Milestone {
    pub amount: i128,
    pub status: MilestoneStatus,
    pub description: String,
}

/// What a [`Milestone`] holds, as mathematical values.
pub struct MilestoneView {
    pub amount: int,
    pub status: MilestoneStatus,
    pub description: Seq<char>,
}

impl View for Milestone {
    type V = MilestoneView;

    open spec fn view(&self) -> MilestoneView {
        MilestoneView {
            amount: self.amount as int,
            status: self.status,
            description: self.description@,
        }
    }
}

impl Clone for Milestone {
    fn clone(&self) -> (copy: Self)
        ensures
            copy == *self,
    {
        Milestone {
            amount: self.amount,
            status: self.status,
            description: self.description.clone(),
        }
    }
}

/// Something that has happened in the ledger and is to be made known.
#[derive(Debug, PartialEq, Eq)]
pub enum Event {
    /// A grant has been created.
    GrantCreated { grant_id: Symbol },
    /// A milestone has been added to a grant.
    MilestoneCreated { grant_id: Symbol, milestone_id: Symbol },
    /// A milestone has been approved and its amount released.
    MilestoneReleased { grant_id: Symbol, milestone_id: Symbol, amount: i128 },
}

/// What an [`Event`] holds, as mathematical values.
pub enum EventView {
    GrantCreated { grant_id: Seq<char> },
    MilestoneCreated { grant_id: Seq<char>, milestone_id: Seq<char> },
    MilestoneReleased { grant_id: Seq<char>, milestone_id: Seq<char>, amount: int },
}

impl View for Event {
    type V = EventView;

    open spec fn view(&self) -> EventView {
        match self {
            Event::GrantCreated { grant_id } => EventView::GrantCreated { grant_id: grant_id@ },
            Event::MilestoneCreated { grant_id, milestone_id } => EventView::MilestoneCreated {
                grant_id: grant_id@,
                milestone_id: milestone_id@,
            },
            Event::MilestoneReleased {
                grant_id,
                milestone_id,
                amount,
            } => EventView::MilestoneReleased {
                grant_id: grant_id@,
                milestone_id: milestone_id@,
                amount: *amount as int,
            },
        }
    }
}

impl GrantView {
    /// The record of a grant that has just been created: it has released nothing.
    pub open spec fn fresh(admin: Seq<char>, grantee: Seq<char>, total_amount: int) -> GrantView {
        GrantView { admin, grantee, total_amount, released_amount: 0 }
    }

    /// Whether the record is in order: what it has released is no less than
    /// nothing and, unless it is nothing, no more than the total. (A grant whose
    /// total is less than nothing never releases anything.)
    pub open spec fn valid(self) -> bool {
        &&& self.released_amount >= 0
        &&& self.released_amount == 0 || self.released_amount <= self.total_amount
    }

    /// This grant after `amount` more has been released.
    pub open spec fn after_release(self, amount: int) -> GrantView {
        GrantView { released_amount: self.released_amount + amount, ..self }
    }
}

impl MilestoneView {
    /// The record of a milestone that has just been added: it is pending.
    pub open spec fn fresh(amount: int, description: Seq<char>) -> MilestoneView {
        MilestoneView { amount, status: MilestoneStatus::Pending, description }
    }

    /// What this milestone adds to the released amount of its grant.
    pub open spec fn released(self) -> int {
        if self.status == MilestoneStatus::Released {
            self.amount
        } else {
            0
        }
    }

    /// This milestone once it has been approved.
    pub open spec fn approved(self) -> MilestoneView {
        MilestoneView { status: MilestoneStatus::Released, ..self }
    }
}

/// Why the creation of a grant is refused, if it is. `taken` says whether a
/// grant of that name exists.
///
/// The admin must have approved the call, and the name must be free.
pub open spec fn creation_refusal(credentials: Set<Seq<char>>, taken: bool, admin: Seq<char>)
    -> Option<Error> {
    if !credentials.contains(admin) {
        Some(Error::AuthorizationFailure)
    } else if taken {
        Some(Error::AlreadyExists)
    } else {
        None
    }
}

/// Why the addition of a milestone is refused, if it is. `grant` is the grant
/// that the call names, where it exists, and `taken` says whether that grant has
/// a milestone of that name.
///
/// The grant must exist, its admin must have approved the call, and the name
/// must be free.
pub open spec fn addition_refusal(
    grant: Option<GrantView>,
    credentials: Set<Seq<char>>,
    taken: bool,
) -> Option<Error> {
    if grant is None {
        Some(Error::NotFound)
    } else if !credentials.contains(grant->0.admin) {
        Some(Error::AuthorizationFailure)
    } else if taken {
        Some(Error::AlreadyExists)
    } else {
        None
    }
}

/// Why the approval of a milestone is refused, if it is. `grant` and `milestone`
/// are the records that the call names, where they exist.
///
/// The grant must exist, its admin must have approved the call, the milestone
/// must exist and not be released yet, and its amount must lie between nothing
/// and what the grant may still release. Landing exactly on the total is
/// allowed. An amount of less than nothing is refused like one that is too
/// large, with `ExceedsTotal`: what a grant has released never goes down.
pub open spec fn approval_refusal(
    grant: Option<GrantView>,
    credentials: Set<Seq<char>>,
    milestone: Option<MilestoneView>,
) -> Option<Error> {
    if grant is None {
        Some(Error::NotFound)
    } else if !credentials.contains(grant->0.admin) {
        Some(Error::AuthorizationFailure)
    } else if milestone is None {
        Some(Error::NotFound)
    } else if milestone->0.status == MilestoneStatus::Released {
        Some(Error::AlreadyReleased)
    } else if milestone->0.amount < 0 || grant->0.released_amount + milestone->0.amount
        > grant->0.total_amount {
        Some(Error::ExceedsTotal)
    } else {
        None
    }
}

impl Grant {
    /// Tells whether the record is in order.
    pub fn is_valid(&self) -> (valid: bool)
        ensures
            valid == self@.valid(),
    {
        self.released_amount >= 0 && (self.released_amount == 0 || self.released_amount
            <= self.total_amount)
    }

    /// What the grant may still release: its total less what it has released.
    /// There is none where the difference cannot be held in an amount, which
    /// does not happen to a record that is in order.
    pub fn remaining_amount(&self) -> (remaining: Option<i128>)
        ensures
            match remaining {
                Some(amount) => amount == self.total_amount - self.released_amount,
                None => !(i128::MIN <= self.total_amount - self.released_amount <= i128::MAX),
            },
            self@.valid() ==> remaining is Some,
    {
        self.total_amount.checked_sub(self.released_amount)
    }

    /// Decides the creation of a grant and, where it is not refused, returns the
    /// grant's first record. `taken` says whether a grant of that name exists.
    pub fn open(
        credentials: &Credentials,
        taken: bool,
        admin: Address,
        grantee: Address,
        total_amount: i128,
    ) -> (result: Result<Grant, Error>)
        ensures
            match result {
                Ok(grant) => {
                    &&& creation_refusal(credentials@, taken, admin@) is None
                    &&& grant@ == GrantView::fresh(admin@, grantee@, total_amount as int)
                    &&& grant@.valid()
                },
                Err(e) => creation_refusal(credentials@, taken, admin@) == Some(e),
            },
    {
        if !credentials.carries(&admin) {
            Err(Error::AuthorizationFailure)
        } else if taken {
            Err(Error::AlreadyExists)
        } else {
            Ok(Grant { admin, grantee, total_amount, released_amount: 0 })
        }
    }

    /// Decides the approval of a milestone and, where it is not refused, returns
    /// the records of the grant and of the milestone after the release: the
    /// milestone is released, and its amount has been added to what the grant
    /// has released. `grant` and `milestone` are the records that the call
    /// names, where they exist.
    pub fn release(
        grant: Option<&Grant>,
        credentials: &Credentials,
        milestone: Option<&Milestone>,
    ) -> (result: Result<(Grant, Milestone), Error>)
        ensures
            match result {
                Ok((after, released)) => {
                    &&& approval_refusal(viewed(grant), credentials@, viewed(milestone)) is None
                    &&& after@ == grant->0@.after_release(milestone->0.amount as int)
                    &&& released@ == milestone->0@.approved()
                    &&& grant->0@.valid() ==> after@.valid()
                },
                Err(e) => approval_refusal(viewed(grant), credentials@, viewed(milestone)) == Some(
                    e,
                ),
            },
    {
        let g = match grant {
            Some(g) => g,
            None => { return Err(Error::NotFound); },
        };
        if !credentials.carries(&g.admin) {
            return Err(Error::AuthorizationFailure);
        }
        let m = match milestone {
            Some(m) => m,
            None => { return Err(Error::NotFound); },
        };
        match m.status {
            MilestoneStatus::Released => { return Err(Error::AlreadyReleased); },
            _ => {},
        }
        if m.amount < 0 {
            return Err(Error::ExceedsTotal);
        }
        // The amount is no less than nothing: a sum that cannot be held is
        // beyond every total.
        match g.released_amount.checked_add(m.amount) {
            Some(released_amount) if released_amount <= g.total_amount => {
                let mut after = g.clone();
                after.released_amount = released_amount;
                let mut released = m.clone();
                released.status = MilestoneStatus::Released;
                Ok((after, released))
            },
            _ => Err(Error::ExceedsTotal),
        }
    }
}

impl Milestone {
    /// Decides the addition of a milestone and, where it is not refused, returns
    /// the milestone's first record. `grant` is the record of the grant that the
    /// call names, where it exists, and `taken` says whether that grant has a
    /// milestone of that name.
    ///
    /// The amount is taken as it is. A milestone that is worth less than nothing
    /// can be added, but not approved.
    pub fn plan(
        grant: Option<&Grant>,
        credentials: &Credentials,
        taken: bool,
        amount: i128,
        description: String,
    ) -> (result: Result<Milestone, Error>)
        ensures
            match result {
                Ok(milestone) => {
                    &&& addition_refusal(viewed(grant), credentials@, taken) is None
                    &&& milestone@ == MilestoneView::fresh(amount as int, description@)
                },
                Err(e) => addition_refusal(viewed(grant), credentials@, taken) == Some(e),
            },
    {
        let g = match grant {
            Some(g) => g,
            None => { return Err(Error::NotFound); },
        };
        if !credentials.carries(&g.admin) {
            Err(Error::AuthorizationFailure)
        } else if taken {
            Err(Error::AlreadyExists)
        } else {
            Ok(Milestone { amount, status: MilestoneStatus::Pending, description })
        }
    }
}

} // verus!
