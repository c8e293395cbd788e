//! Cooperative cancellation.
//!
//! A [`CancellationToken`] is a boolean flag whose lifecycle spans one
//! completion or execution request. Setting it requests early termination;
//! running operations check it cooperatively at their own suspension points,
//! so setting the token never force-preempts anything.

use vstd::prelude::*;

verus! {

/// A cooperative cancellation flag for one completion or execution request.
#[derive(Clone, Copy, PartialEq, Eq, Structural, Debug)]
pub struct CancellationToken {
    cancelled: bool,
}

impl CancellationToken {
    /// Whether cancellation has been requested.
    pub closed spec fn spec_is_set(self) -> bool {
        self.cancelled
    }

    /// The token as it stands after a cancellation request.
    pub closed spec fn spec_set(self) -> CancellationToken {
        CancellationToken { cancelled: true }
    }

    /// A fresh token with no cancellation requested.
    pub fn new() -> (token: CancellationToken)
        ensures
            !token.spec_is_set(),
    {
        CancellationToken { cancelled: false }
    }

    /// Requests early termination of the operation holding this token.
    pub fn set(&mut self)
        ensures
            *final(self) == old(self).spec_set(),
            final(self).spec_is_set(),
    {
        self.cancelled = true;
    }

    /// Checks the flag; operations call this cooperatively.
    pub fn is_set(&self) -> (set: bool)
        ensures
            set == self.spec_is_set(),
    {
        self.cancelled
    }
}

/// Cancellation is idempotent: requesting cancellation twice leaves the token
/// exactly as one request does, so a second request changes nothing further.
pub proof fn lemma_cancel_idempotent(token: CancellationToken)
    ensures
        token.spec_set().spec_set() == token.spec_set(),
        token.spec_set().spec_is_set(),
{
}

} // verus!
