//! The broadcast scheduler's state machine. The loop around it does
//! the waiting and the sending; this machine decides, from the current
//! state and one event, what to do next. A withdrawal is always sent
//! before the first announcement, a failed announcement never stops
//! the schedule, and an interrupt leads to one final withdrawal.

use vstd::prelude::*;

verus! {

/// Where the scheduler stands.
#[derive(Clone, Copy, Debug, PartialEq, Eq, Structural)]
pub enum SchedulerState {
    /// Not started; nothing has been sent.
    Idle,
    /// Announcing on every tick.
    Running,
    /// Shut down; nothing more will be sent.
    Terminating,
}

/// What just happened.
#[derive(Clone, Copy, Debug, PartialEq, Eq, Structural)]
pub enum SchedulerEvent {
    /// The scheduler is asked to start.
    Start,
    /// The periodic timer fired.
    Tick,
    /// An announcement attempt finished; `ok` tells whether the fetch
    /// and the send both succeeded.
    Announced { ok: bool },
    /// A termination signal arrived.
    Interrupt,
}

/// What the surrounding loop must do next.
#[derive(Clone, Copy, Debug, PartialEq, Eq, Structural)]
pub enum SchedulerAction {
    /// Send a multicast ByeBye withdrawal.
    SendByeBye,
    /// Fetch fresh endpoint identity and send a multicast Alive.
    SendAlive,
    /// Wait for the next event.
    Wait,
    /// Stop all work and exit.
    Stop,
}

/// The transition relation: from a state and an event to the next
/// state and the action owed.
pub open spec fn scheduler_step_spec(s: SchedulerState, e: SchedulerEvent) -> (
    SchedulerState,
    SchedulerAction,
) {
    match (s, e) {
        // Starting sends the initial withdrawal, clearing stale cache
        // entries on listening devices, before any announcement.
        (SchedulerState::Idle, SchedulerEvent::Start) => (
            SchedulerState::Running,
            SchedulerAction::SendByeBye,
        ),
        (SchedulerState::Idle, SchedulerEvent::Interrupt) => (
            SchedulerState::Terminating,
            SchedulerAction::Stop,
        ),
        (SchedulerState::Idle, _) => (SchedulerState::Idle, SchedulerAction::Wait),
        // Every tick announces; the outcome of an announcement, good
        // or bad, leaves the schedule in place.
        (SchedulerState::Running, SchedulerEvent::Tick) => (
            SchedulerState::Running,
            SchedulerAction::SendAlive,
        ),
        (SchedulerState::Running, SchedulerEvent::Announced { .. }) => (
            SchedulerState::Running,
            SchedulerAction::Wait,
        ),
        (SchedulerState::Running, SchedulerEvent::Interrupt) => (
            SchedulerState::Terminating,
            SchedulerAction::SendByeBye,
        ),
        (SchedulerState::Running, SchedulerEvent::Start) => (
            SchedulerState::Running,
            SchedulerAction::Wait,
        ),
        (SchedulerState::Terminating, _) => (SchedulerState::Terminating, SchedulerAction::Stop),
    }
}

/// Takes one step of the scheduler's state machine.
pub fn scheduler_step(s: SchedulerState, e: SchedulerEvent) -> (r: (
    SchedulerState,
    SchedulerAction,
))
    ensures
        r == scheduler_step_spec(s, e),
{
    match (s, e) {
        (SchedulerState::Idle, SchedulerEvent::Start) => (
            SchedulerState::Running,
            SchedulerAction::SendByeBye,
        ),
        (SchedulerState::Idle, SchedulerEvent::Interrupt) => (
            SchedulerState::Terminating,
            SchedulerAction::Stop,
        ),
        (SchedulerState::Idle, _) => (SchedulerState::Idle, SchedulerAction::Wait),
        (SchedulerState::Running, SchedulerEvent::Tick) => (
            SchedulerState::Running,
            SchedulerAction::SendAlive,
        ),
        (SchedulerState::Running, SchedulerEvent::Announced { .. }) => (
            SchedulerState::Running,
            SchedulerAction::Wait,
        ),
        (SchedulerState::Running, SchedulerEvent::Interrupt) => (
            SchedulerState::Terminating,
            SchedulerAction::SendByeBye,
        ),
        (SchedulerState::Running, SchedulerEvent::Start) => (
            SchedulerState::Running,
            SchedulerAction::Wait,
        ),
        (SchedulerState::Terminating, _) => (SchedulerState::Terminating, SchedulerAction::Stop),
    }
}

/// A failed announcement never silences the schedule: whatever one
/// attempt's outcome, the scheduler is still running, and the next
/// tick sends another Alive.
pub proof fn lemma_retry_after_failed_tick(ok: bool)
    ensures
        scheduler_step_spec(
            SchedulerState::Running,
            SchedulerEvent::Announced { ok },
        ).0 == SchedulerState::Running,
        scheduler_step_spec(
            scheduler_step_spec(SchedulerState::Running, SchedulerEvent::Announced { ok }).0,
            SchedulerEvent::Tick,
        ).1 == SchedulerAction::SendAlive,
{
}

/// The withdrawal comes first: no event takes the idle scheduler
/// straight to announcing, and the one step that starts it sends a
/// ByeBye before any Alive.
pub proof fn lemma_byebye_precedes_alive(e: SchedulerEvent)
    ensures
        scheduler_step_spec(SchedulerState::Idle, e).1 != SchedulerAction::SendAlive,
        scheduler_step_spec(SchedulerState::Idle, SchedulerEvent::Start).1
            == SchedulerAction::SendByeBye,
{
}

/// Once terminating, the scheduler never sends again.
pub proof fn lemma_terminating_is_final(e: SchedulerEvent)
    ensures
        scheduler_step_spec(SchedulerState::Terminating, e) == (
            SchedulerState::Terminating,
            SchedulerAction::Stop,
        ),
{
}

} // verus!
