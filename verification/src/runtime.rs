//! The decisions of the membership gossip runtime: when a reconcile pass
//! runs, how pause, resume and shutdown commands act during a pass and while
//! waiting, and which delay the runtime waits for.
use vstd::prelude::*;

verus! {

/// What the runtime remembers between passes.
#[derive(Debug, Clone, Copy, PartialEq, Eq, Structural)]
pub struct RuntimeState {
    pub paused: bool,
    pub presence_open: bool,
    pub announcement_changes_open: bool,
    pub run_now: bool,
}

/// The state the runtime starts in: running, with a pass due at once.
pub open spec fn initial_state() -> RuntimeState {
    RuntimeState { paused: false, presence_open: true, announcement_changes_open: true, run_now: true }
}

/// The state the runtime starts in.
pub fn start_state() -> (state: RuntimeState)
    ensures
        state == initial_state(),
{
    RuntimeState { paused: false, presence_open: true, announcement_changes_open: true, run_now: true }
}

/// Whether a reconcile pass starts now.
pub open spec fn pass_due(state: RuntimeState) -> bool {
    state.run_now && !state.paused
}

/// Starts a pass when one is due; the pass is then no longer due.
pub fn begin_pass(state: RuntimeState) -> (result: (RuntimeState, bool))
    ensures
        result.1 == pass_due(state),
        result.1 ==> result.0 == (RuntimeState { run_now: false, ..state }),
        !result.1 ==> result.0 == state,
{
    if state.run_now && !state.paused {
        (RuntimeState { run_now: false, ..state }, true)
    } else {
        (state, false)
    }
}

/// A command sent to the runtime, or the closing of the command channel.
#[derive(Debug, Clone, Copy, PartialEq, Eq, Structural)]
pub enum Command {
    Pause,
    Resume,
    Shutdown,
    Closed,
}

/// What happened while a pass was running.
#[derive(Debug, Clone, Copy, PartialEq, Eq, Structural)]
pub enum PassEvent {
    /// The pass finished; `failed` says whether it failed.
    Finished { failed: bool },
    Command(Command),
}

/// What the runtime does after an event during a pass.
#[derive(Debug, Clone, Copy, PartialEq, Eq, Structural)]
pub enum PassAction {
    /// Keep waiting for the pass; acknowledge the command first when `ack`.
    Continue { ack: bool },
    /// The pass is over. `failed` says whether it failed; `ack_pause` says
    /// whether a pause is acknowledged once the pass is dropped.
    Ended { failed: bool, ack_pause: bool },
    /// Stop the runtime; acknowledge the command first when `ack`.
    Stop { ack: bool },
}

/// How the runtime reacts to an event during a pass: a finished pass ends
/// it; a pause abandons the pass, pauses, and keeps a pass due for when the
/// runtime resumes; a resume is only acknowledged; shutdown and a closed
/// channel stop the runtime.
pub open spec fn pass_model(state: RuntimeState, event: PassEvent) -> (RuntimeState, PassAction) {
    match event {
        PassEvent::Finished { failed } => (state, PassAction::Ended { failed, ack_pause: false }),
        PassEvent::Command(Command::Pause) => (
            RuntimeState { paused: true, run_now: true, ..state },
            PassAction::Ended { failed: false, ack_pause: true },
        ),
        PassEvent::Command(Command::Resume) => (state, PassAction::Continue { ack: true }),
        PassEvent::Command(Command::Shutdown) => (state, PassAction::Stop { ack: true }),
        PassEvent::Command(Command::Closed) => (state, PassAction::Stop { ack: false }),
    }
}

/// Decides how the runtime reacts to an event during a pass.
pub fn on_pass_event(state: RuntimeState, event: PassEvent) -> (result: (RuntimeState, PassAction))
    ensures
        result == pass_model(state, event),
{
    match event {
        PassEvent::Finished { failed } => (state, PassAction::Ended { failed, ack_pause: false }),
        PassEvent::Command(Command::Pause) => (
            RuntimeState { paused: true, run_now: true, ..state },
            PassAction::Ended { failed: false, ack_pause: true },
        ),
        PassEvent::Command(Command::Resume) => (state, PassAction::Continue { ack: true }),
        PassEvent::Command(Command::Shutdown) => (state, PassAction::Stop { ack: true }),
        PassEvent::Command(Command::Closed) => (state, PassAction::Stop { ack: false }),
    }
}

/// Which delay the runtime waits for before its next pass.
#[derive(Debug, Clone, Copy, PartialEq, Eq, Structural)]
pub enum DelayKind {
    /// The regular reconcile interval of the device.
    Regular,
    /// The first retry delay, after a failed pass.
    Retry,
    /// The delay until the next scheduled candidate or batch.
    Scheduled,
}

/// The delay a paused runtime, a failed pass, or a normal pass waits for.
pub open spec fn delay_model(paused: bool, pass_failed: bool) -> DelayKind {
    if paused {
        DelayKind::Regular
    } else if pass_failed {
        DelayKind::Retry
    } else {
        DelayKind::Scheduled
    }
}

/// Chooses the delay before the next pass.
pub fn next_delay_kind(paused: bool, pass_failed: bool) -> (kind: DelayKind)
    ensures
        kind == delay_model(paused, pass_failed),
{
    if paused {
        DelayKind::Regular
    } else if pass_failed {
        DelayKind::Retry
    } else {
        DelayKind::Scheduled
    }
}

/// A presence change the runtime observed.
#[derive(Debug, Clone, Copy, PartialEq, Eq, Structural)]
pub enum Presence {
    Online,
    Offline,
    /// Events were missed.
    Lagged,
    /// The presence stream ended.
    Closed,
}

/// What happened while the runtime was waiting.
#[derive(Debug, Clone, Copy, PartialEq, Eq, Structural)]
pub enum WaitEvent {
    Command(Command),
    /// Something asked for a pass.
    Wake,
    Presence(Presence),
    /// The announcement material changed (`ok`) or its stream ended.
    AnnouncementChange { ok: bool },
    /// The delay elapsed.
    Timer,
}

/// Whether the runtime listens for `event` in `state`: commands always; the
/// rest only while running, and presence and announcement changes only while
/// their streams are open.
pub open spec fn wait_event_enabled(state: RuntimeState, event: WaitEvent) -> bool {
    match event {
        WaitEvent::Command(_) => true,
        WaitEvent::Wake | WaitEvent::Timer => !state.paused,
        WaitEvent::Presence(_) => !state.paused && state.presence_open,
        WaitEvent::AnnouncementChange { .. } => !state.paused && state.announcement_changes_open,
    }
}

/// Whether the runtime listens for `event` in `state`.
pub fn listens_for(state: RuntimeState, event: WaitEvent) -> (enabled: bool)
    ensures
        enabled == wait_event_enabled(state, event),
{
    match event {
        WaitEvent::Command(_) => true,
        WaitEvent::Wake | WaitEvent::Timer => !state.paused,
        WaitEvent::Presence(_) => !state.paused && state.presence_open,
        WaitEvent::AnnouncementChange { .. } => !state.paused && state.announcement_changes_open,
    }
}

/// What the runtime does after an event while waiting.
#[derive(Debug, Clone, Copy, PartialEq, Eq, Structural)]
pub enum WaitAction {
    /// Go round the loop again; acknowledge the command first when `ack`.
    Continue { ack: bool },
    /// Stop the runtime; acknowledge the command first when `ack`.
    Stop { ack: bool },
}

/// How the runtime reacts to an event while waiting: pause and resume switch
/// the runtime off and on (a resume makes a pass due), shutdown and a closed
/// channel stop it, and a wake, an online peer, missed presence events, an
/// announcement change or the elapsed delay make a pass due; ended streams
/// are no longer listened to.
pub open spec fn wait_model(state: RuntimeState, event: WaitEvent) -> (RuntimeState, WaitAction) {
    match event {
        WaitEvent::Command(Command::Pause) => (RuntimeState { paused: true, ..state }, WaitAction::Continue { ack: true }),
        WaitEvent::Command(Command::Resume) => (
            RuntimeState { paused: false, run_now: true, ..state },
            WaitAction::Continue { ack: true },
        ),
        WaitEvent::Command(Command::Shutdown) => (state, WaitAction::Stop { ack: true }),
        WaitEvent::Command(Command::Closed) => (state, WaitAction::Stop { ack: false }),
        WaitEvent::Wake | WaitEvent::Timer => (RuntimeState { run_now: true, ..state }, WaitAction::Continue { ack: false }),
        WaitEvent::Presence(p) => match p {
            Presence::Online | Presence::Lagged => (
                RuntimeState { run_now: true, ..state },
                WaitAction::Continue { ack: false },
            ),
            Presence::Offline => (state, WaitAction::Continue { ack: false }),
            Presence::Closed => (RuntimeState { presence_open: false, ..state }, WaitAction::Continue { ack: false }),
        },
        WaitEvent::AnnouncementChange { ok } => if ok {
            (RuntimeState { run_now: true, ..state }, WaitAction::Continue { ack: false })
        } else {
            (RuntimeState { announcement_changes_open: false, ..state }, WaitAction::Continue { ack: false })
        },
    }
}

/// Decides how the runtime reacts to an event while waiting.
pub fn on_wait_event(state: RuntimeState, event: WaitEvent) -> (result: (RuntimeState, WaitAction))
    requires
        wait_event_enabled(state, event),
    ensures
        result == wait_model(state, event),
{
    match event {
        WaitEvent::Command(Command::Pause) => (RuntimeState { paused: true, ..state }, WaitAction::Continue { ack: true }),
        WaitEvent::Command(Command::Resume) => (
            RuntimeState { paused: false, run_now: true, ..state },
            WaitAction::Continue { ack: true },
        ),
        WaitEvent::Command(Command::Shutdown) => (state, WaitAction::Stop { ack: true }),
        WaitEvent::Command(Command::Closed) => (state, WaitAction::Stop { ack: false }),
        WaitEvent::Wake | WaitEvent::Timer => (RuntimeState { run_now: true, ..state }, WaitAction::Continue { ack: false }),
        WaitEvent::Presence(p) => match p {
            Presence::Online | Presence::Lagged => (
                RuntimeState { run_now: true, ..state },
                WaitAction::Continue { ack: false },
            ),
            Presence::Offline => (state, WaitAction::Continue { ack: false }),
            Presence::Closed => (RuntimeState { presence_open: false, ..state }, WaitAction::Continue { ack: false }),
        },
        WaitEvent::AnnouncementChange { ok } => if ok {
            (RuntimeState { run_now: true, ..state }, WaitAction::Continue { ack: false })
        } else {
            (RuntimeState { announcement_changes_open: false, ..state }, WaitAction::Continue { ack: false })
        },
    }
}

/// The runtime no longer takes commands.
#[derive(Debug, Clone, Copy, PartialEq, Eq, Structural)]
pub enum RuntimeError {
    Stopped,
}

/// The outcome of asking the runtime to pause or resume: the command and its
/// acknowledgment must both get through, else the runtime is stopped.
pub open spec fn activity_model(sent: bool, acknowledged: bool) -> Result<(), RuntimeError> {
    if sent && acknowledged {
        Ok(())
    } else {
        Err(RuntimeError::Stopped)
    }
}

/// Whether a pause or resume took effect: the runtime accepted the command
/// (`sent`) and acknowledged it (`acknowledged`); otherwise the runtime is
/// stopped.
pub fn activity_result(sent: bool, acknowledged: bool) -> (result: Result<(), RuntimeError>)
    ensures
        result == activity_model(sent, acknowledged),
{
    if sent && acknowledged {
        Ok(())
    } else {
        Err(RuntimeError::Stopped)
    }
}

} // verus!
