//! The session supervisor: the outer reconnect cycle
//! `Authenticating -> Connecting -> Running -> BackingOff -> Authenticating`,
//! with no terminal state. The embedding loop performs each decided action
//! (authenticate, open the session, race the event path against the
//! watchdog, sleep the backoff) and hands the result back as the next event.

use vstd::prelude::*;
use crate::watchdog::stale;

verus! {

/// How one running session ended. All three are recovered identically.
#[derive(Clone, Copy, PartialEq, Eq, Structural, Debug)]
pub enum SessionOutcome {
    /// The peer closed the session cleanly.
    CleanClose,
    /// The session ended with a protocol error or an explicit kick.
    ProtocolError,
    /// The liveness watchdog triggered; no peer error was available.
    WatchdogTriggered,
}

/// The supervisor's phase in its endless cycle.
#[derive(Clone, Copy, PartialEq, Eq, Structural, Debug)]
pub enum Phase {
    Authenticating,
    Connecting,
    Running,
    BackingOff,
}

/// What the embedding loop reports back after performing the current action.
#[derive(Clone, Copy, PartialEq, Eq, Structural, Debug)]
pub enum SupervisorEvent {
    /// Credentials were acquired.
    AuthSucceeded,
    /// Credential acquisition failed; recovered locally, never fatal.
    AuthFailed,
    /// The session opened.
    ConnectSucceeded,
    /// The session could not be opened or was rejected.
    ConnectFailed,
    /// The running session ended, however it ended.
    SessionEnded(SessionOutcome),
    /// The fixed backoff delay elapsed.
    BackoffElapsed,
}

/// What the embedding loop must do next.
#[derive(Clone, Copy, PartialEq, Eq, Structural, Debug)]
pub enum Action {
    /// Acquire credentials from the identity provider.
    Authenticate,
    /// Open a session with the acquired credentials.
    Connect,
    /// Run the event-processing path racing the watchdog.
    RunSession,
    /// Sleep exactly this many milliseconds, then report `BackoffElapsed`.
    Wait(u64),
}

/// Which event can answer which phase: each phase has exactly one action
/// outstanding, and only that action's results are meaningful replies.
pub open spec fn expects(phase: Phase, event: SupervisorEvent) -> bool {
    match phase {
        Phase::Authenticating => event == SupervisorEvent::AuthSucceeded || event
            == SupervisorEvent::AuthFailed,
        Phase::Connecting => event == SupervisorEvent::ConnectSucceeded || event
            == SupervisorEvent::ConnectFailed,
        Phase::Running => event matches SupervisorEvent::SessionEnded(_),
        Phase::BackingOff => event == SupervisorEvent::BackoffElapsed,
    }
}

/// The transition table of the supervisor. Every failure and every session
/// end, of any kind, leads to `BackingOff` with a wait of exactly
/// `backoff_ms`; the backoff elapsing restarts authentication; the cycle has
/// no terminal state.
pub open spec fn spec_step(phase: Phase, event: SupervisorEvent, backoff_ms: u64) -> (Phase,
    Action) {
    match (phase, event) {
        (Phase::Authenticating, SupervisorEvent::AuthSucceeded) => (Phase::Connecting, Action::Connect),
        (Phase::Authenticating, _) => (Phase::BackingOff, Action::Wait(backoff_ms)),
        (Phase::Connecting, SupervisorEvent::ConnectSucceeded) => (Phase::Running, Action::RunSession),
        (Phase::Connecting, _) => (Phase::BackingOff, Action::Wait(backoff_ms)),
        (Phase::Running, _) => (Phase::BackingOff, Action::Wait(backoff_ms)),
        (Phase::BackingOff, _) => (Phase::Authenticating, Action::Authenticate),
    }
}

/// Advance the supervisor by one event and decide the next action.
pub fn step(phase: Phase, event: SupervisorEvent, backoff_ms: u64) -> (r: (Phase, Action))
    requires
        expects(phase, event),
    ensures
        r == spec_step(phase, event, backoff_ms),
{
    match (phase, event) {
        (Phase::Authenticating, SupervisorEvent::AuthSucceeded) => (
            Phase::Connecting,
            Action::Connect,
        ),
        (Phase::Authenticating, _) => (Phase::BackingOff, Action::Wait(backoff_ms)),
        (Phase::Connecting, SupervisorEvent::ConnectSucceeded) => (
            Phase::Running,
            Action::RunSession,
        ),
        (Phase::Connecting, _) => (Phase::BackingOff, Action::Wait(backoff_ms)),
        (Phase::Running, _) => (Phase::BackingOff, Action::Wait(backoff_ms)),
        (Phase::BackingOff, _) => (Phase::Authenticating, Action::Authenticate),
    }
}

/// After any session termination — clean close, protocol error or watchdog
/// trigger — and likewise after an authentication or connection failure, the
/// supervisor backs off for exactly the configured delay, no more and no
/// less, and the delay elapsing leads straight back to authenticating.
pub proof fn lemma_backoff_after_termination(outcome: SessionOutcome, backoff_ms: u64)
    ensures
        spec_step(Phase::Running, SupervisorEvent::SessionEnded(outcome), backoff_ms) == (
            Phase::BackingOff,
            Action::Wait(backoff_ms),
        ),
        spec_step(Phase::Authenticating, SupervisorEvent::AuthFailed, backoff_ms) == (
            Phase::BackingOff,
            Action::Wait(backoff_ms),
        ),
        spec_step(Phase::Connecting, SupervisorEvent::ConnectFailed, backoff_ms) == (
            Phase::BackingOff,
            Action::Wait(backoff_ms),
        ),
        spec_step(Phase::BackingOff, SupervisorEvent::BackoffElapsed, backoff_ms) == (
            Phase::Authenticating,
            Action::Authenticate,
        ),
{
}

/// Staleness forces a restart: once the window has elapsed with no activity,
/// it stays elapsed at every later poll (staleness is monotone in time while
/// no event arrives), any poll then triggers the watchdog, and the
/// supervisor's answer to the trigger is to back off and reconnect. So the
/// session is torn down at the first poll after the window elapses — within
/// one polling interval — even with zero protocol errors reported.
pub proof fn lemma_staleness_forces_restart(
    now: u64,
    later: u64,
    last_activity: u64,
    window_ms: u64,
    backoff_ms: u64,
)
    requires
        stale(now, last_activity, window_ms),
        later >= now,
    ensures
        stale(later, last_activity, window_ms),
        spec_step(
            Phase::Running,
            SupervisorEvent::SessionEnded(SessionOutcome::WatchdogTriggered),
            backoff_ms,
        ) == (Phase::BackingOff, Action::Wait(backoff_ms)),
{
}

} // verus!
