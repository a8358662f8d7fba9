//! A non-blocking runtime exclusivity guard.
//!
//! The guard is a borrow flag that admits at most one outstanding
//! acquisition. Acquiring a guard that is already held fails immediately —
//! there is no waiting, backoff or retry — and leaves the guard unchanged,
//! so contention can never corrupt the guarded state.

use vstd::prelude::*;

verus! {

/// A borrow flag guarding exclusive access to one shared entity.
pub struct AccessGuard {
    held: bool,
}

/// The transition an acquisition attempt makes: on a free guard it succeeds
/// and leaves the guard held; on a held guard it fails and changes nothing.
pub open spec fn acquire_step(pre: AccessGuard, post: AccessGuard, ok: bool) -> bool {
    if pre.is_held() {
        !ok && post == pre
    } else {
        ok && post.is_held()
    }
}

impl AccessGuard {
    /// Whether an acquisition is currently outstanding.
    pub closed spec fn is_held(self) -> bool {
        self.held
    }

    /// A fresh guard with no outstanding acquisition.
    pub fn new() -> (g: Self)
        ensures
            !g.is_held(),
    {
        AccessGuard { held: false }
    }

    /// Whether an acquisition is currently outstanding, at run time.
    pub fn held(&self) -> (r: bool)
        ensures
            r == self.is_held(),
    {
        self.held
    }

    /// Attempts to acquire the guard. Never blocks: on contention it returns
    /// `false` at once and the guard is untouched.
    pub fn try_acquire(&mut self) -> (ok: bool)
        ensures
            acquire_step(*old(self), *final(self), ok),
    {
        if self.held {
            false
        } else {
            self.held = true;
            true
        }
    }

    /// Releases the guard, making it acquirable again.
    pub fn release(&mut self)
        ensures
            !final(self).is_held(),
    {
        self.held = false;
    }
}

/// At most one acquisition of a guard can be outstanding at any instant:
/// of two consecutive acquisition attempts with no release in between, at
/// most the first can succeed, and the failed attempt leaves the guard
/// exactly as it found it.
pub proof fn lemma_guard_exclusive(g0: AccessGuard, g1: AccessGuard, ok1: bool, g2: AccessGuard, ok2: bool)
    requires
        acquire_step(g0, g1, ok1),
        acquire_step(g1, g2, ok2),
    ensures
        ok1 ==> !ok2,
        ok1 ==> g2 == g1,
{
}

} // verus!
