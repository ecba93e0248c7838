//! Scoped use of the shell's object-model runtime.
//!
//! Every execution context that talks to the shell must initialize the
//! object-model runtime once before its first call and tear it down
//! exactly once when it is done — never twice, never while the context
//! still uses it. [`ComLibrary`] is that obligation as a guard value:
//! holding an active guard stands for the initialized runtime, and
//! [`ComLibrary::release`] spends the guard, so a second teardown of
//! the same guard is ruled out by its contract. The platform
//! initialization and teardown calls themselves are made by the
//! unverified driver around this guard, one pair per context.

use vstd::prelude::*;

verus! {

/// Guard for one execution context's use of the shell runtime.
pub struct ComLibrary {
    active: bool,
}

impl ComLibrary {
    /// Whether the context's runtime is initialized and not yet torn
    /// down.
    pub closed spec fn is_active(&self) -> bool {
        self.active
    }

    /// Records the context's one-time initialization and yields the
    /// active guard.
    pub fn init() -> (guard: ComLibrary)
        ensures
            guard.is_active(),
    {
        ComLibrary { active: true }
    }

    /// Records the matching teardown. The guard must still be active,
    /// so the teardown can be recorded at most once per guard.
    pub fn release(&mut self)
        requires
            old(self).is_active(),
        ensures
            !final(self).is_active(),
    {
        self.active = false;
    }

    /// Whether the guard is still active.
    pub fn active(&self) -> (b: bool)
        ensures
            b == self.is_active(),
    {
        self.active
    }
}

} // verus!
