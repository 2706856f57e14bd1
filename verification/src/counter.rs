//! The threshold counter: accumulates countable events and fires exactly once
//! when the configured threshold is reached, resetting in the same step.

use vstd::prelude::*;
use crate::state::SessionState;

verus! {

/// A progress observation is emitted every this many recorded events, purely
/// for diagnostics.
pub const PROGRESS_INTERVAL: u32 = 50;

/// Result of recording one countable event.
#[derive(Clone, Copy, PartialEq, Eq, Structural, Debug)]
pub struct RecordOutcome {
    /// The new count reached the threshold; the counter was reset to zero in
    /// the same step, so the announcement fires exactly once.
    pub fired: bool,
    /// The recorded total landed on a progress-report boundary.
    pub progress: bool,
}

/// Record one countable event: increment the count by one, report whether the
/// threshold was reached, and reset to zero in the same step when it was.
/// The dedup memory and the activity timestamp are untouched.
pub fn record(state: &mut SessionState) -> (r: RecordOutcome)
    requires
        old(state).wf(),
    ensures
        final(state).wf(),
        r.fired == (old(state).message_count + 1 == old(state).threshold),
        r.fired ==> final(state).message_count == 0,
        !r.fired ==> final(state).message_count == old(state).message_count + 1,
        r.progress == ((old(state).message_count + 1) % (PROGRESS_INTERVAL as int) == 0),
        final(state).last_message == old(state).last_message,
        final(state).last_activity == old(state).last_activity,
        final(state).threshold == old(state).threshold,
{
    state.message_count = state.message_count + 1;
    let progress = state.message_count % PROGRESS_INTERVAL == 0;
    let fired = state.message_count >= state.threshold;
    if fired {
        state.message_count = 0;
    }
    RecordOutcome { fired, progress }
}

} // verus!
