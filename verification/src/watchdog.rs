//! The liveness watchdog: an independent poll loop that observes the shared
//! activity timestamp and signals staleness when no inbound event has arrived
//! within the configured window.

use vstd::prelude::*;

verus! {

/// Watchdog state for one supervision cycle: `Triggered` is terminal.
#[derive(Clone, Copy, PartialEq, Eq, Structural, Debug)]
pub enum WatchdogState {
    Armed,
    Triggered,
}

/// A session is stale when strictly more than `window_ms` milliseconds have
/// passed since the last inbound activity.
pub open spec fn stale(now: u64, last_activity: u64, window_ms: u64) -> bool {
    now - last_activity > window_ms
}

/// The liveness watchdog with its explicit timing configuration. It never
/// reads or writes message state; it only compares timestamps it is handed.
pub struct Watchdog {
    pub state: WatchdogState,
    /// How often the embedding loop polls, in milliseconds.
    pub poll_interval_ms: u64,
    /// The staleness window, in milliseconds.
    pub window_ms: u64,
}

impl Watchdog {
    pub open spec fn wf(self) -> bool {
        self.poll_interval_ms >= 1
    }

    /// A freshly armed watchdog with the given timing configuration.
    pub fn new(poll_interval_ms: u64, window_ms: u64) -> (w: Watchdog)
        requires
            poll_interval_ms >= 1,
        ensures
            w.wf(),
            w.state == WatchdogState::Armed,
            w.poll_interval_ms == poll_interval_ms,
            w.window_ms == window_ms,
    {
        Watchdog { state: WatchdogState::Armed, poll_interval_ms, window_ms }
    }

    /// One poll: compare the time since the last activity against the window
    /// and trigger exactly when the session is stale. Only an armed watchdog
    /// polls; `Triggered` ends its supervision cycle.
    pub fn poll(&mut self, now: u64, last_activity: u64) -> (triggered: bool)
        requires
            old(self).state == WatchdogState::Armed,
        ensures
            triggered == stale(now, last_activity, old(self).window_ms),
            final(self).state == (if triggered {
                WatchdogState::Triggered
            } else {
                WatchdogState::Armed
            }),
            final(self).poll_interval_ms == old(self).poll_interval_ms,
            final(self).window_ms == old(self).window_ms,
    {
        let triggered = now > last_activity && now - last_activity > self.window_ms;
        if triggered {
            self.state = WatchdogState::Triggered;
        }
        triggered
    }
}

} // verus!
