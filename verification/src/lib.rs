//! Accounting for grants that are paid out by approved milestones or streamed
//! over time, and the vesting arithmetic behind them.
//!
//! - [`vesting`] computes how much of a total is claimable at a given time.
//! - [`milestone`] is the ledger of grants that are released milestone by
//!   milestone, with a cap on what each grant releases.
//! - [`streaming`] is the ledger of grants that flow to their grantee at a rate
//!   per second, and that their admin or an arbiter can freeze.
//! - [`credentials`] says who has approved a call, and [`error`] why a call is
//!   refused.
//!
//! The library decides and keeps books. It reads no clock, verifies no
//! signature, moves no funds and publishes nothing: the time and the
//! credentials of a call come in as arguments, and the transfers and events that
//! an operation gives rise to are left in the ledger for whoever runs it.

pub mod credentials;
pub mod error;
pub mod milestone;
pub mod outcome;
pub mod streaming;
pub mod vesting;
