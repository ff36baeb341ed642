//! The pluggable task-execution capability.
use vstd::prelude::*;

verus! {

/// A nullary, side-effecting, unit-returning unit of work, runnable as it
/// stands; what the orchestrator hands to an executor.
pub trait Job: Send {
    /// Performs the work.
    fn call(self: Box<Self>);
}

/// Accepts jobs and runs each to completion on some execution context,
/// independent of the caller; fire and forget, with no ordering guarantee
/// between two jobs given to the same executor.
pub trait Executor: Send {
    /// How many jobs this executor has been handed so far. The default
    /// leaves the count unspecified; an executor that wants callers to
    /// reason about its intake overrides it, as the library's own executor
    /// does, and an implementation owes the count stated on `spawn`.
    open spec fn spawned(&self) -> nat {
        arbitrary()
    }

    /// Hands one job over for asynchronous execution: the executor takes in
    /// exactly one more job.
    fn spawn(&mut self, f: Box<dyn Job>)
        ensures
            final(self).spawned() == old(self).spawned() + 1,
    ;
}

/// An executor that runs each job immediately on the calling thread, before
/// `spawn` returns: the simplest cooperative strategy, and a deterministic
/// one.
pub struct InlineExecutor {
    taken: Ghost<nat>,
}

impl Default for InlineExecutor {
    fn default() -> (r: Self)
        ensures
            r.spawned() == 0,
    {
        InlineExecutor { taken: Ghost(0) }
    }
}

impl Executor for InlineExecutor {
    closed spec fn spawned(&self) -> nat {
        self.taken@
    }

    fn spawn(&mut self, f: Box<dyn Job>) {
        self.taken = Ghost(self.taken@ + 1);
        f.call();
    }
}

} // verus!
