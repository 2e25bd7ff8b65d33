//! The process-wide one-time initialization guard.
//!
//! The native library must be initialized exactly once, before any other
//! native call. The guard below is the state machine of that requirement:
//! `initialize` records a call and says whether the native initialization
//! routine must run now, `has_initialized` reads the state, and
//! `assert_initialized` is the precondition every handle operation stands
//! behind. The surrounding program holds one guard for the whole process
//! and serializes first calls (a once-primitive); under that discipline the
//! laws proved here say the native routine runs exactly once and the state
//! never reverts to uninitialized.

use vstd::prelude::*;

verus! {

/// One step of the guard: a call always leaves the guard initialized, and
/// the native initialization routine runs exactly when the guard was not
/// yet initialized. The first component is the state after the call, the
/// second whether the native routine runs.
pub open spec fn init_step(initialized: bool) -> (bool, bool) {
    (true, !initialized)
}

/// The state of the one-time initialization requirement.
#[derive(Debug)]
pub struct InitGuard {
    initialized: bool,
}

impl InitGuard {
    /// Whether the native initialization routine has run.
    pub closed spec fn is_initialized(&self) -> bool {
        self.initialized
    }

    /// The guard as it stands at process start: nothing initialized yet.
    pub fn new() -> (g: InitGuard)
        ensures
            !g.is_initialized(),
    {
        InitGuard { initialized: false }
    }

    /// Record a call of the initialization entry point. The result says
    /// whether the native initialization routine must run now; it is `true`
    /// on the first call only, so repeated calls are no-ops.
    pub fn initialize(&mut self) -> (run_native: bool)
        ensures
            ((final(self).is_initialized(), run_native)) == init_step(
                old(self).is_initialized(),
            ),
            final(self).is_initialized(),
            run_native == !old(self).is_initialized(),
    {
        let run_native = !self.initialized;
        self.initialized = true;
        run_native
    }

    /// Whether `initialize` has completed; never blocks, never fails.
    pub fn has_initialized(&self) -> (r: bool)
        ensures
            r == self.is_initialized(),
    {
        self.initialized
    }

    /// The readiness precondition of every native operation: verified
    /// callers must prove initialization happened before touching a native
    /// handle. An unverified caller must test `has_initialized` first and
    /// treat a `false` as a programmer error, stopping the operation rather
    /// than reaching native code in an uninitialized process.
    pub fn assert_initialized(&self)
        requires
            self.is_initialized(),
    {
    }
}

/// Law: however often the guard is driven, the native initialization
/// routine runs at most once. A call from any state leaves the guard
/// initialized; a second call changes nothing and does not run the routine;
/// and from an initialized state no call ever runs it again — the state
/// never reverts to uninitialized.
pub proof fn lemma_initialize_at_most_once(s: bool)
    ensures
        init_step(s).0,
        init_step(init_step(s).0).0 == init_step(s).0,
        !init_step(init_step(s).0).1,
        s ==> !init_step(s).1,
{
}

} // verus!
