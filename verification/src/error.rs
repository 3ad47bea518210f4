//! The error taxonomy of the activity layer.

use vstd::prelude::*;

verus! {

/// Every way an inbound activity or actor payload can be rejected.
///
/// `Unresolvable` is the one transient class (the caller may retry the
/// fetch); all other variants are permanent rejections of the payload.
#[derive(Clone, Copy, Debug, PartialEq, Eq, Structural)]
pub enum FederationError {
    /// A wire-level vote carried an integer other than 1 or -1.
    InvalidVoteMagnitude,
    /// A referenced remote object could not be fetched or decoded.
    Unresolvable,
    /// The actor's canonical id lives on a different authority than the
    /// one the payload was delivered for.
    DomainMismatch,
    /// The moderation policy matched a free-text field of the payload.
    ProhibitedContent,
    /// A required envelope field is missing or structurally invalid.
    MalformedEnvelope,
    /// The actor's canonical id fails the local acceptance policy.
    IdentityRejected,
}

impl FederationError {
    /// Whether the caller may usefully retry after this error: only a
    /// failed remote fetch is transient, every other rejection is final.
    pub open spec fn spec_is_transient(self) -> bool {
        self is Unresolvable
    }

    /// Transient errors may be retried by the caller; permanent ones not.
    pub fn is_transient(&self) -> (r: bool)
        ensures
            r == self.spec_is_transient(),
    {
        matches!(self, FederationError::Unresolvable)
    }
}

} // verus!
