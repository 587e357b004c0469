//! Counting failed attempts to reconnect, so that each wait can be longer
//! than the one before.

use vstd::prelude::*;

verus! {

/// The number of attempts that have failed in a row.
pub struct Backoff {
    attempts: u16,
}

impl Backoff {
    /// The attempts that have failed since the last success.
    pub closed spec fn attempts(&self) -> nat {
        self.attempts as nat
    }

    /// The count after one more failure: it stops at the largest value it can
    /// hold.
    pub open spec fn bumped(attempts: nat) -> nat {
        if attempts < u16::MAX {
            attempts + 1
        } else {
            attempts
        }
    }

    pub fn new() -> (backoff: Backoff)
        ensures
            backoff.attempts() == 0,
    {
        Self { attempts: 0 }
    }

    /// A success starts the count anew.
    pub fn success(&mut self)
        ensures
            final(self).attempts() == 0,
    {
        self.attempts = 0
    }

    /// Records one more failure and returns the number of failures before
    /// it, which is the exponent of the delay to wait.
    pub fn failure(&mut self) -> (before: u16)
        ensures
            before == old(self).attempts(),
            final(self).attempts() == Self::bumped(old(self).attempts()),
    {
        let before = self.attempts;
        self.attempts = self.attempts.saturating_add(1);
        before
    }
}


} // verus!
