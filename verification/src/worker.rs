use vstd::prelude::*;

verus! {

/// Lifecycle of the countdown worker, as the engine tracks it.  The real
/// worker is a background task that wakes once per second and decrements the
/// shared counter; the engine never blocks on it and only ever signals it
/// through its cancellation flag.
#[derive(Clone, Copy, PartialEq, Eq, Structural, Debug)]
pub enum WorkerState {
    /// No worker exists: none was started yet, or the last one was joined.
    Absent,
    /// A worker is alive and counting the shared counter down.
    Running,
    /// The cancellation flag is set.  The worker will observe it within one
    /// tick, stop touching the counter, and raise its completion flag; it
    /// still has to be joined.
    Canceled,
}

/// One second of countdown: the value the shared counter takes after a
/// worker wake-up, clamped at zero.  The worker never counts past zero —
/// deciding what a reading of zero means is the engine's job, not the
/// worker's.
pub open spec fn step_down(remaining: u32) -> u32 {
    if remaining > 0 {
        (remaining - 1) as u32
    } else {
        0
    }
}

/// The decrement the worker applies to the shared counter on each wake-up,
/// inside the counter's critical section.
pub fn countdown_step(remaining: u32) -> (r: u32)
    ensures
        r == step_down(remaining),
{
    if remaining > 0 {
        remaining - 1
    } else {
        0
    }
}

} // verus!
