use dlnaproxy::config::{effective_period_secs, verbosity_level, Verbosity};
use dlnaproxy::scheduler::{scheduler_step, SchedulerAction, SchedulerEvent, SchedulerState};

#[test]
fn start_sends_byebye_before_any_alive() {
    let (state, action) = scheduler_step(SchedulerState::Idle, SchedulerEvent::Start);
    assert_eq!(state, SchedulerState::Running);
    assert_eq!(action, SchedulerAction::SendByeBye);
}

#[test]
fn idle_ignores_ticks() {
    let (state, action) = scheduler_step(SchedulerState::Idle, SchedulerEvent::Tick);
    assert_eq!(state, SchedulerState::Idle);
    assert_eq!(action, SchedulerAction::Wait);
}

#[test]
fn every_tick_announces() {
    let (state, action) = scheduler_step(SchedulerState::Running, SchedulerEvent::Tick);
    assert_eq!(state, SchedulerState::Running);
    assert_eq!(action, SchedulerAction::SendAlive);
}

#[test]
fn failed_announce_does_not_stop_the_schedule() {
    let (state, action) =
        scheduler_step(SchedulerState::Running, SchedulerEvent::Announced { ok: false });
    assert_eq!(state, SchedulerState::Running);
    assert_eq!(action, SchedulerAction::Wait);
    let (state2, action2) = scheduler_step(state, SchedulerEvent::Tick);
    assert_eq!(state2, SchedulerState::Running);
    assert_eq!(action2, SchedulerAction::SendAlive);
}

#[test]
fn successful_announce_waits_for_the_next_tick() {
    let (state, action) =
        scheduler_step(SchedulerState::Running, SchedulerEvent::Announced { ok: true });
    assert_eq!(state, SchedulerState::Running);
    assert_eq!(action, SchedulerAction::Wait);
}

#[test]
fn interrupt_sends_a_final_byebye() {
    let (state, action) = scheduler_step(SchedulerState::Running, SchedulerEvent::Interrupt);
    assert_eq!(state, SchedulerState::Terminating);
    assert_eq!(action, SchedulerAction::SendByeBye);
}

#[test]
fn terminating_only_stops() {
    for event in [
        SchedulerEvent::Start,
        SchedulerEvent::Tick,
        SchedulerEvent::Announced { ok: true },
        SchedulerEvent::Announced { ok: false },
        SchedulerEvent::Interrupt,
    ] {
        let (state, action) = scheduler_step(SchedulerState::Terminating, event);
        assert_eq!(state, SchedulerState::Terminating);
        assert_eq!(action, SchedulerAction::Stop);
    }
}

#[test]
fn period_defaults_to_895_seconds() {
    assert_eq!(effective_period_secs(None), 895);
    assert_eq!(effective_period_secs(Some(30)), 30);
}

#[test]
fn verbosity_counts_map_to_levels() {
    assert_eq!(verbosity_level(None), Verbosity::Warn);
    assert_eq!(verbosity_level(Some(0)), Verbosity::Warn);
    assert_eq!(verbosity_level(Some(1)), Verbosity::Info);
    assert_eq!(verbosity_level(Some(2)), Verbosity::Debug);
    assert_eq!(verbosity_level(Some(3)), Verbosity::Trace);
    assert_eq!(verbosity_level(Some(255)), Verbosity::Trace);
}
