//! The outer loop's state machine: one cycle runs, then the scheduler rests
//! for the fixed interval before the next cycle may start — whatever the
//! cycle's outcome was.

use vstd::prelude::*;

verus! {

/// Seconds between the end of one cycle and the start of the next.
pub const CYCLE_INTERVAL_SECS: u64 = 1800;

/// `Running`: a select-and-publish cycle is executing. `Idle`: the scheduler
/// waits for the interval to elapse.
#[derive(PartialEq, Eq, Structural, Clone, Copy, Debug)]
pub enum SchedulerState {
    Running,
    Idle,
}

/// `CycleFinished(ok)` reports the end of a cycle and whether it succeeded;
/// `IntervalElapsed` reports that the wait is over.
#[derive(PartialEq, Eq, Structural, Clone, Copy, Debug)]
pub enum SchedulerEvent {
    CycleFinished(bool),
    IntervalElapsed,
}

/// A finished cycle always puts the scheduler to rest, success or failure
/// alike; only an elapsed interval starts the next cycle. An event that does
/// not apply to the current state leaves it unchanged.
pub open spec fn spec_scheduler_next(s: SchedulerState, e: SchedulerEvent) -> SchedulerState {
    match (s, e) {
        (SchedulerState::Running, SchedulerEvent::CycleFinished(_)) => SchedulerState::Idle,
        (SchedulerState::Idle, SchedulerEvent::IntervalElapsed) => SchedulerState::Running,
        (state, _) => state,
    }
}

/// The scheduler's transition on one event.
pub fn scheduler_next(s: SchedulerState, e: SchedulerEvent) -> (r: SchedulerState)
    ensures
        r == spec_scheduler_next(s, e),
{
    match (s, e) {
        (SchedulerState::Running, SchedulerEvent::CycleFinished(_)) => SchedulerState::Idle,
        (SchedulerState::Idle, SchedulerEvent::IntervalElapsed) => SchedulerState::Running,
        (state, _) => state,
    }
}

/// After a completed cycle the scheduler is idle, whether the cycle succeeded
/// or failed: two cycles never run back-to-back with no wait between them.
pub proof fn lemma_cycle_always_rests(ok: bool)
    ensures
        spec_scheduler_next(SchedulerState::Running, SchedulerEvent::CycleFinished(ok))
            == SchedulerState::Idle,
{
}

/// The only event that moves the scheduler from rest into a new cycle is the
/// elapsed interval: the next cycle cannot start before the wait is over.
pub proof fn lemma_only_timer_starts_cycle(e: SchedulerEvent)
    ensures
        spec_scheduler_next(SchedulerState::Idle, e) == SchedulerState::Running
            ==> e == SchedulerEvent::IntervalElapsed,
{
}

} // verus!
