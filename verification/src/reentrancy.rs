//! The per-contract lock that refuses a nested call while an invocation that
//! moves funds is still running.

use vstd::prelude::*;

verus! {

/// Proof that the lock was taken by the running invocation.
pub struct ReentrancyGuard {
    held: bool,
}

/// Whether a stored lock flag says another invocation holds the lock; an
/// absent flag means the lock is free.
pub open spec fn lock_is_held(stored: Option<bool>) -> bool {
    stored == Some(true)
}

impl ReentrancyGuard {
    pub closed spec fn holds(&self) -> bool {
        self.held
    }

    /// Whether the stored lock flag refuses entry.
    pub fn is_locked(stored: Option<bool>) -> (r: bool)
        ensures
            r == lock_is_held(stored),
    {
        match stored {
            Some(b) => b,
            None => false,
        }
    }

    /// Take the lock for the running invocation; only possible when nobody
    /// holds it.
    pub fn new(stored: Option<bool>) -> (g: Self)
        requires
            !lock_is_held(stored),
        ensures
            g.holds(),
    {
        ReentrancyGuard { held: true }
    }

    /// The flag to store while the guard is held.
    pub fn stored_flag(&self) -> (flag: bool)
        ensures
            flag == self.holds(),
    {
        self.held
    }

    /// Give the lock back at the end of the invocation: the flag to store.
    pub fn release(self) -> (flag: bool)
        ensures
            !flag,
            !lock_is_held(Some(flag)),
    {
        false
    }
}

} // verus!
