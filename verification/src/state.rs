//! Shared session state: the counter, the dedup memory and the activity
//! timestamp that the event path and the watchdog both observe.

use vstd::prelude::*;

verus! {

/// Mathematical model of the chat-processing state: the running count, the
/// most recently accepted chat line, and the fixed announcement threshold.
/// The activity timestamp is kept out of the model on purpose: classification
/// and counting never depend on it.
pub ghost struct ChatModel {
    pub count: int,
    pub last: Seq<u8>,
    pub threshold: int,
}

impl ChatModel {
    /// The counter invariant: the threshold is at least one, and outside the
    /// instant of firing the count stays strictly below it.
    pub open spec fn wf(self) -> bool {
        &&& 1 <= self.threshold
        &&& 0 <= self.count < self.threshold
    }
}

/// State shared across reconnects within one process lifetime. Created once
/// at startup and handed by the embedding program to every session cycle.
pub struct SessionState {
    /// Countable chat events accumulated since the last announcement.
    pub message_count: u32,
    /// The most recently accepted chat line, used only for adjacent-duplicate
    /// suppression.
    pub last_message: Vec<u8>,
    /// Timestamp (milliseconds) of the last inbound event of any kind.
    pub last_activity: u64,
    /// Number of countable events that triggers one announcement; fixed at
    /// startup, at least one.
    pub threshold: u32,
}

impl SessionState {
    pub open spec fn wf(self) -> bool {
        &&& 1 <= self.threshold
        &&& self.message_count < self.threshold
    }

    pub open spec fn model(self) -> ChatModel {
        ChatModel {
            count: self.message_count as int,
            last: self.last_message@,
            threshold: self.threshold as int,
        }
    }

    /// Fresh state: empty dedup memory, zero count, activity set to `now`.
    pub fn new(threshold: u32, now: u64) -> (s: SessionState)
        requires
            threshold >= 1,
        ensures
            s.wf(),
            s.message_count == 0,
            s.last_message@ == Seq::<u8>::empty(),
            s.last_activity == now,
            s.threshold == threshold,
    {
        SessionState { message_count: 0, last_message: Vec::new(), last_activity: now, threshold }
    }

    /// Refresh the activity timestamp, as the event path does on every
    /// inbound event; nothing else changes.
    pub fn touch(&mut self, now: u64)
        ensures
            *final(self) == (SessionState { last_activity: now, ..*old(self) }),
    {
        self.last_activity = now;
    }
}

} // verus!
