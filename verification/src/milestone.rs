//! Grants that are released milestone by milestone.
//!
//! A grant commits a total amount to a grantee. Its admin adds milestones, each
//! worth an amount, and approves them one by one. Approving a milestone releases
//! its amount at once, and no grant ever releases more than its total.

pub mod laws;
pub mod ledger;
pub mod model;
pub mod records;

pub use ledger::GrantContract;
pub use model::{EntryView, LedgerView};
pub use records::{
    Event, EventView, Grant, GrantView, Milestone, MilestoneStatus, MilestoneView, Symbol,
};
