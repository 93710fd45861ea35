use vstd::prelude::*;
use crate::cycle::CycleSummary;
use crate::error::CollectError;

verus! {

/// The pause between the end of one cycle and the start of the next, in
/// milliseconds, unless the caller chooses another.
pub const POLL_INTERVAL_MS: u64 = 60000;

/// The two states of the collection loop.
#[derive(Debug, Clone, Copy, PartialEq, Eq, Structural)]
pub enum LoopState {
    /// Waiting for the pause to run out.
    Idle,
    /// A cycle of fetching, decoding, mapping and writing is under way.
    Collecting,
}

/// What the loop is told.
#[derive(Debug, Clone, PartialEq, Eq)]
pub enum LoopEvent {
    /// The pause has run out.
    WaitExpired,
    /// The cycle ran through all its points; some writes may have failed.
    CycleCompleted(CycleSummary),
    /// The cycle was given up because fetching or decoding failed.
    CycleAborted(CollectError),
}

/// What the loop asks for next.
#[derive(Debug, Clone, Copy, PartialEq, Eq, Structural)]
pub enum LoopAction {
    /// Run one cycle now.
    Collect,
    /// Pause for this many milliseconds, counted from now.
    Wait(u64),
}

/// What each state is engaged in: pausing while idle, a cycle while
/// collecting.
pub open spec fn pending(state: LoopState, wait_ms: u64) -> LoopAction {
    match state {
        LoopState::Idle => LoopAction::Wait(wait_ms),
        LoopState::Collecting => LoopAction::Collect,
    }
}

/// The transition of the loop. A cycle that ends, completed or aborted,
/// always leads to a pause of `wait_ms`; a pause that runs out always leads
/// to a cycle. An event that does not belong to the current state leaves
/// the state as it is and asks again for what that state is engaged in.
pub open spec fn next_turn(state: LoopState, event: LoopEvent, wait_ms: u64) -> (
    LoopState,
    LoopAction,
) {
    match (state, event) {
        (LoopState::Idle, LoopEvent::WaitExpired) => (LoopState::Collecting, LoopAction::Collect),
        (LoopState::Collecting, LoopEvent::CycleCompleted(_)) => (
            LoopState::Idle,
            LoopAction::Wait(wait_ms),
        ),
        (LoopState::Collecting, LoopEvent::CycleAborted(_)) => (
            LoopState::Idle,
            LoopAction::Wait(wait_ms),
        ),
        _ => (state, pending(state, wait_ms)),
    }
}

/// What startup yields for each outcome of putting the process into the
/// background.
pub open spec fn launch_outcome(backgrounded: Result<(), String>) -> Result<
    (LoopState, LoopAction),
    CollectError,
> {
    match backgrounded {
        Ok(_) => Ok((LoopState::Collecting, LoopAction::Collect)),
        Err(reason) => Err(CollectError::Supervisor(reason)),
    }
}

/// Starts the loop once the process has been put into the background. If
/// that failed (the pid file is held by a running instance, say) the loop
/// never starts and no cycle is asked for; otherwise the first cycle runs
/// at once.
pub fn launch(backgrounded: Result<(), String>) -> (r: Result<
    (LoopState, LoopAction),
    CollectError,
>)
    ensures
        r == launch_outcome(backgrounded),
{
    match backgrounded {
        Ok(_) => Ok((LoopState::Collecting, LoopAction::Collect)),
        Err(reason) => Err(CollectError::Supervisor(reason)),
    }
}

/// One turn of the collection loop: from the current state and what just
/// happened to the next state and what to do now. The pause is counted from
/// the end of the cycle, not from a fixed grid.
pub fn fetch_main(state: LoopState, event: LoopEvent, wait_ms: u64) -> (r: (LoopState, LoopAction))
    ensures
        r == next_turn(state, event, wait_ms),
{
    match state {
        LoopState::Idle => match event {
            LoopEvent::WaitExpired => (LoopState::Collecting, LoopAction::Collect),
            _ => (LoopState::Idle, LoopAction::Wait(wait_ms)),
        },
        LoopState::Collecting => match event {
            LoopEvent::WaitExpired => (LoopState::Collecting, LoopAction::Collect),
            _ => (LoopState::Idle, LoopAction::Wait(wait_ms)),
        },
    }
}

/// No failure ends the loop: a cycle that is aborted, for whatever reason,
/// and a cycle that completes with failed writes both lead to the next
/// pause, exactly as a cycle without failures does.
pub proof fn failures_never_stop_the_loop(
    error: CollectError,
    summary: CycleSummary,
    wait_ms: u64,
)
    ensures
        next_turn(LoopState::Collecting, LoopEvent::CycleAborted(error), wait_ms) == (
            LoopState::Idle,
            LoopAction::Wait(wait_ms),
        ),
        next_turn(LoopState::Collecting, LoopEvent::CycleCompleted(summary), wait_ms) == (
            LoopState::Idle,
            LoopAction::Wait(wait_ms),
        ),
{
}

/// The loop has no terminal state: from each state some event leads to the
/// other one.
pub proof fn loop_has_no_terminal_state(state: LoopState, wait_ms: u64)
    ensures
        exists|event: LoopEvent| (#[trigger] next_turn(state, event, wait_ms)).0 != state,
{
    let summary = CycleSummary { attempted: 0, succeeded: 0, failed: 0 };
    match state {
        LoopState::Idle => {
            assert(next_turn(state, LoopEvent::WaitExpired, wait_ms).0 != state);
        },
        LoopState::Collecting => {
            assert(next_turn(state, LoopEvent::CycleCompleted(summary), wait_ms).0 != state);
        },
    }
}

/// A failed startup never asks for a cycle: no request is made before the
/// process owns its pid file.
pub proof fn failed_startup_collects_nothing(reason: String)
    ensures
        launch_outcome(Err(reason)) == Err::<(LoopState, LoopAction), CollectError>(
            CollectError::Supervisor(reason),
        ),
{
}

} // verus!
