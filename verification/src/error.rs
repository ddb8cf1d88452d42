use vstd::prelude::*;

verus! {

/// Why an operation on a grant was refused.
#[derive(Clone, Copy, Debug, PartialEq, Eq, Structural)]
pub enum Error {
    /// The call does not carry the credential of the principal that must approve it.
    AuthorizationFailure,
    /// The grant or milestone that the call names does not exist.
    NotFound,
    /// An entry with this identifier has been created before.
    AlreadyExists,
    /// The milestone has been released already.
    AlreadyReleased,
    /// The milestone's amount is not one that the grant may release: it would
    /// take the grant past its total, or it is less than nothing.
    ExceedsTotal,
    /// Withdrawals are blocked by a pause or a dispute.
    Frozen,
}

} // verus!
