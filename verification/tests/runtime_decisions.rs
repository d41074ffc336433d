use space_convergence::runtime::{
    activity_result, begin_pass, next_delay_kind, on_pass_event, on_wait_event, start_state,
    Command, DelayKind, PassAction, PassEvent, Presence, RuntimeError, WaitAction, WaitEvent,
};

#[test]
fn runtime_runs_on_start_pauses_resumes_and_shuts_down() {
    let state = start_state();
    let (state, run) = begin_pass(state);
    assert!(run);
    let (state, action) = on_pass_event(state, PassEvent::Finished { failed: false });
    assert_eq!(action, PassAction::Ended { failed: false, ack_pause: false });
    assert_eq!(next_delay_kind(state.paused, false), DelayKind::Scheduled);

    let (state, action) = on_wait_event(state, WaitEvent::Command(Command::Pause));
    assert_eq!(action, WaitAction::Continue { ack: true });
    assert!(state.paused);
    let (state, run) = begin_pass(state);
    assert!(!run);
    assert_eq!(next_delay_kind(state.paused, false), DelayKind::Regular);

    let (state, action) = on_wait_event(state, WaitEvent::Command(Command::Resume));
    assert_eq!(action, WaitAction::Continue { ack: true });
    let (state, run) = begin_pass(state);
    assert!(run);

    let (_, action) = on_wait_event(state, WaitEvent::Command(Command::Shutdown));
    assert_eq!(action, WaitAction::Stop { ack: true });
}

#[test]
fn runtime_pause_interrupts_an_inflight_network_pass() {
    let (state, run) = begin_pass(start_state());
    assert!(run);
    let (state, action) = on_pass_event(state, PassEvent::Command(Command::Pause));
    assert_eq!(action, PassAction::Ended { failed: false, ack_pause: true });
    assert!(state.paused && state.run_now);
    let (state, run) = begin_pass(state);
    assert!(!run);
    let (state, _) = on_wait_event(state, WaitEvent::Command(Command::Resume));
    let (_, run) = begin_pass(state);
    assert!(run);
}

#[test]
fn failed_pass_waits_for_the_first_retry_delay() {
    let (state, _) = begin_pass(start_state());
    let (state, action) = on_pass_event(state, PassEvent::Finished { failed: true });
    assert_eq!(action, PassAction::Ended { failed: true, ack_pause: false });
    assert_eq!(next_delay_kind(state.paused, true), DelayKind::Retry);
}

#[test]
fn resume_during_a_pass_is_only_acknowledged() {
    let (state, _) = begin_pass(start_state());
    let (after, action) = on_pass_event(state, PassEvent::Command(Command::Resume));
    assert_eq!(action, PassAction::Continue { ack: true });
    assert_eq!(after, state);
    let (_, action) = on_pass_event(state, PassEvent::Command(Command::Closed));
    assert_eq!(action, PassAction::Stop { ack: false });
}

#[test]
fn wake_presence_and_announcements_request_a_pass() {
    let (state, _) = begin_pass(start_state());
    assert!(!state.run_now);
    assert!(on_wait_event(state, WaitEvent::Wake).0.run_now);
    assert!(on_wait_event(state, WaitEvent::Timer).0.run_now);
    assert!(on_wait_event(state, WaitEvent::Presence(Presence::Online)).0.run_now);
    assert!(on_wait_event(state, WaitEvent::Presence(Presence::Lagged)).0.run_now);
    assert!(!on_wait_event(state, WaitEvent::Presence(Presence::Offline)).0.run_now);
    let closed = on_wait_event(state, WaitEvent::Presence(Presence::Closed)).0;
    assert!(!closed.presence_open && !closed.run_now);
    assert!(on_wait_event(state, WaitEvent::AnnouncementChange { ok: true }).0.run_now);
    let ended = on_wait_event(state, WaitEvent::AnnouncementChange { ok: false }).0;
    assert!(!ended.announcement_changes_open);
    assert_eq!(on_wait_event(state, WaitEvent::Command(Command::Closed)).1, WaitAction::Stop { ack: false });
}

#[test]
fn pause_and_resume_report_a_stopped_runtime() {
    assert_eq!(activity_result(true, true), Ok(()));
    assert_eq!(activity_result(false, false), Err(RuntimeError::Stopped));
    assert_eq!(activity_result(true, false), Err(RuntimeError::Stopped));
}
