//! Shared handler container and its lock discipline.
//!
//! User-supplied handler state is shared between the registration call site
//! and the dispatchers the host invokes, and is mutated exclusively under a
//! mutual-exclusion lock that every dispatcher acquires fresh per call and
//! releases before returning control to the host.  The container is modelled
//! with an explicit lock flag: `lock` is the blocking acquisition, `try_lock`
//! the non-blocking one that surfaces contention as a distinct `WouldBlock`
//! outcome, and `unlock` the release that the dispatch functions guarantee
//! on every exit path.
//!
//! The flag and the guarded value are exposed to specifications; executable
//! code is expected to go through the protocol functions below.

use crate::error::Error;
use vstd::prelude::*;

verus! {

/// A mutual-exclusion container for user handler state.
pub struct Mutex<T> {
    /// Whether the lock is currently held.
    pub locked: bool,
    /// The guarded handler state.
    pub value: T,
}

impl<T> Mutex<T> {
    /// A fresh, unlocked container guarding `value`.
    pub fn new(value: T) -> (r: Self)
        ensures
            !r.locked,
            r.value == value,
    {
        Mutex { locked: false, value }
    }

    /// Blocks the calling thread until exclusive access is obtained.  In
    /// this model a caller that already holds the lock would deadlock, so
    /// the precondition encodes the discipline that the lock is acquired
    /// fresh on every callback invocation and never held across one.
    pub fn lock(&mut self)
        requires
            !old(self).locked,
        ensures
            final(self).locked,
            final(self).value == old(self).value,
    {
        self.locked = true;
    }

    /// Never blocks: when the lock is already held the `WouldBlock` outcome
    /// is returned and the container is left exactly as it was; otherwise
    /// the lock is acquired.  Used on paths that must not stall the
    /// instrumented program.
    pub fn try_lock(&mut self) -> (r: Result<(), Error>)
        ensures
            old(self).locked ==> r == Err::<(), Error>(Error::WouldBlock)
                && *final(self) == *old(self),
            !old(self).locked ==> r == Ok::<(), Error>(())
                && final(self).locked
                && final(self).value == old(self).value,
    {
        if self.locked {
            Err(Error::WouldBlock)
        } else {
            self.locked = true;
            Ok(())
        }
    }

    /// Releases the lock.
    pub fn unlock(&mut self)
        requires
            old(self).locked,
        ensures
            !final(self).locked,
            final(self).value == old(self).value,
    {
        self.locked = false;
    }
}

} // verus!
