//! The event-processing path of one session: classification, counting and
//! the threshold-triggered announcement decision, as one verified step, plus
//! the laws that hold of whole event sequences.

use vstd::prelude::*;
use vstd::arithmetic::div_mod::{lemma_add_mod_noop_right, lemma_mod_self_0, lemma_small_mod};
use crate::classify::{classify, is_reserved_prefixed, spec_classify, spec_dedup_after, Classification, InboundEvent};
use crate::counter::{record, PROGRESS_INTERVAL};
use crate::state::{ChatModel, SessionState};

verus! {

/// What the embedding loop must do after one event was processed.
#[derive(Clone, Copy, PartialEq, Eq, Structural, Debug)]
pub enum EventOutcome {
    /// Keep the session running; nothing further to do.
    Continue,
    /// A disconnect signal was seen: abort this session and let the
    /// supervisor recover.
    Disconnect,
    /// The threshold was reached: attempt one announcement, then keep the
    /// session running.
    Announce,
}

/// Everything one processing step decided.
#[derive(Clone, Copy, PartialEq, Eq, Structural, Debug)]
pub struct Processed {
    pub outcome: EventOutcome,
    pub classification: Classification,
    /// A diagnostics progress report is due (countable events only).
    pub progress: bool,
}

/// One step of the event-processing path over the model: classify against the
/// dedup memory, update it, and on a countable event advance the counter,
/// firing and resetting exactly when the threshold is reached.
pub open spec fn spec_process(m: ChatModel, event: InboundEvent) -> (ChatModel, EventOutcome) {
    let c = spec_classify(m.last, event);
    let updated = spec_dedup_after(m.last, event);
    if c == Classification::DisconnectSignal {
        (ChatModel { count: m.count, last: updated, threshold: m.threshold }, EventOutcome::Disconnect)
    } else if c == Classification::Countable {
        if m.count + 1 == m.threshold {
            (ChatModel { count: 0, last: updated, threshold: m.threshold }, EventOutcome::Announce)
        } else {
            (
                ChatModel { count: m.count + 1, last: updated, threshold: m.threshold },
                EventOutcome::Continue,
            )
        }
    } else {
        (ChatModel { count: m.count, last: updated, threshold: m.threshold }, EventOutcome::Continue)
    }
}

/// Process one inbound event: refresh the activity timestamp, classify the
/// event (updating the dedup memory), and count it when countable. The state
/// and the outcome change exactly as `spec_process` says on the model.
pub fn process_event(state: &mut SessionState, event: InboundEvent, now: u64) -> (p: Processed)
    requires
        old(state).wf(),
    ensures
        final(state).wf(),
        final(state).last_activity == now,
        final(state).model() == spec_process(old(state).model(), event).0,
        p.outcome == spec_process(old(state).model(), event).1,
        p.classification == spec_classify(old(state).last_message@, event),
        p.progress == (p.classification == Classification::Countable
            && (old(state).message_count + 1) % (PROGRESS_INTERVAL as int) == 0),
{
    let c = classify(state, event, now);
    match c {
        Classification::Countable => {
            let r = record(state);
            let outcome = if r.fired {
                EventOutcome::Announce
            } else {
                EventOutcome::Continue
            };
            Processed { outcome, classification: c, progress: r.progress }
        },
        Classification::DisconnectSignal => Processed {
            outcome: EventOutcome::Disconnect,
            classification: c,
            progress: false,
        },
        _ => Processed { outcome: EventOutcome::Continue, classification: c, progress: false },
    }
}

/// The model after processing a whole sequence of events, in arrival order.
pub open spec fn spec_run(m: ChatModel, events: Seq<InboundEvent>) -> ChatModel
    decreases events.len(),
{
    if events.len() == 0 {
        m
    } else {
        spec_run(spec_process(m, events[0]).0, events.drop_first())
    }
}

/// How many events of the sequence are classified countable along the run
/// (countable: a chat line that is neither an adjacent duplicate nor
/// reserved-prefixed, judged against the dedup memory as it evolves).
pub open spec fn spec_countable_total(m: ChatModel, events: Seq<InboundEvent>) -> int
    decreases events.len(),
{
    if events.len() == 0 {
        0
    } else {
        (if spec_classify(m.last, events[0]) == Classification::Countable {
            1int
        } else {
            0int
        }) + spec_countable_total(spec_process(m, events[0]).0, events.drop_first())
    }
}

/// One processing step preserves well-formedness and the threshold, and moves
/// the count to (old count + countable increment) modulo the threshold.
pub proof fn lemma_process_step(m: ChatModel, event: InboundEvent)
    requires
        m.wf(),
    ensures
        spec_process(m, event).0.wf(),
        spec_process(m, event).0.threshold == m.threshold,
        spec_process(m, event).0.count == (m.count
            + (if spec_classify(m.last, event) == Classification::Countable {
                1int
            } else {
                0int
            })) % m.threshold,
{
    let next = spec_process(m, event).0;
    if spec_classify(m.last, event) == Classification::Countable {
        if m.count + 1 == m.threshold {
            lemma_mod_self_0(m.threshold);
            assert(next.count == (m.count + 1) % m.threshold);
        } else {
            lemma_small_mod((m.count + 1) as nat, m.threshold as nat);
        }
    } else {
        lemma_small_mod(m.count as nat, m.threshold as nat);
    }
}

/// Over any sequence of inbound events, the count after processing equals
/// (initial count + number of countable events) modulo the threshold, and it
/// never exceeds threshold - 1 outside the instant of firing.
pub proof fn lemma_run_count(m: ChatModel, events: Seq<InboundEvent>)
    requires
        m.wf(),
    ensures
        spec_run(m, events).wf(),
        spec_run(m, events).threshold == m.threshold,
        spec_run(m, events).count == (m.count + spec_countable_total(m, events)) % m.threshold,
        spec_countable_total(m, events) >= 0,
    decreases events.len(),
{
    if events.len() == 0 {
        lemma_small_mod(m.count as nat, m.threshold as nat);
    } else {
        let e = events[0];
        let m1 = spec_process(m, e).0;
        let k: int = if spec_classify(m.last, e) == Classification::Countable {
            1
        } else {
            0
        };
        lemma_process_step(m, e);
        lemma_run_count(m1, events.drop_first());
        let rest: int = spec_countable_total(m1, events.drop_first());
        // ((m.count + k) % T + rest) % T == (m.count + k + rest) % T
        lemma_add_mod_noop_right(rest, m.count + k, m.threshold);
    }
}

/// Duplicate suppression is idempotent: after any chat line is processed, the
/// same line fed again immediately is classified a duplicate, and a second
/// step on it changes neither the count nor the dedup memory.
pub proof fn lemma_duplicate_suppressed(m: ChatModel, text: Vec<u8>)
    ensures
        ({
            let m1 = spec_process(m, InboundEvent::Chat(text)).0;
            &&& spec_classify(m1.last, InboundEvent::Chat(text)) == Classification::Duplicate
            &&& spec_process(m1, InboundEvent::Chat(text)).0 == m1
        }),
{
}

/// A reserved-prefixed chat line is never counted: it is classified either
/// duplicate or ignore, and the count is unchanged by its step.
pub proof fn lemma_prefixed_never_counted(m: ChatModel, text: Vec<u8>)
    requires
        is_reserved_prefixed(text@),
    ensures
        spec_classify(m.last, InboundEvent::Chat(text)) != Classification::Countable,
        spec_process(m, InboundEvent::Chat(text)).0.count == m.count,
{
}

/// A reserved-prefixed line does not block a later non-prefixed line through
/// the dedup memory: the two can never be equal, so the later line is
/// classified countable.
pub proof fn lemma_prefixed_does_not_block(m: ChatModel, marked: Vec<u8>, plain: Vec<u8>)
    requires
        is_reserved_prefixed(marked@),
        !is_reserved_prefixed(plain@),
    ensures
        ({
            let m1 = spec_process(m, InboundEvent::Chat(marked)).0;
            spec_classify(m1.last, InboundEvent::Chat(plain)) == Classification::Countable
        }),
{
    assert(plain@ != marked@);
}

/// When a step fires the announcement, the counter is already reset to zero
/// in that same step and the session stays open: whatever the fact store then
/// returns, the state needs no further repair and no disconnect is implied.
pub proof fn lemma_fire_resets_and_keeps_session(m: ChatModel, event: InboundEvent)
    requires
        m.wf(),
        spec_process(m, event).1 == EventOutcome::Announce,
    ensures
        spec_process(m, event).0.count == 0,
        spec_process(m, event).1 != EventOutcome::Disconnect,
{
}

} // verus!
