//! Grants that are streamed to their grantee at a rate per second.
//!
//! A grant holds a deposit in custody. Its grantee withdraws what has flowed
//! since the last withdrawal, as far as the balance goes. The grant's admin may
//! pause it, and the ledger's arbiter may freeze it while a dispute lasts: a
//! grant that is paused or under dispute pays nothing out.

pub mod laws;
pub mod ledger;
pub mod model;
pub mod records;

pub use ledger::GrantContract;
pub use model::LedgerView;
pub use records::{
    appoint_arbiter, next_grant_id, DataKey, Grant, GrantView, Transfer, TransferView,
};
