//! The task-execution capability.

use vstd::prelude::*;

verus! {

/// An executor of asynchronous work.
///
/// `execute` takes ownership of one unit of work and returns at once; the
/// executor schedules it for independent progress. Nothing is promised
/// about ordering among submitted units, about when the work starts, or
/// about its outcome: the work reports its own result through its own
/// channel, never through the executor.
pub trait Executor<Fut> {
    /// Place the unit of work into the executor to be run.
    fn execute(&self, fut: Fut);
}

} // verus!
