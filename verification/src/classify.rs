//! Event classification: one inbound event becomes `Ignore`, `Duplicate`,
//! `DisconnectSignal` or `Countable`, with the dedup memory updated as a side
//! effect of the duplicate check.

use vstd::prelude::*;
use crate::state::SessionState;

verus! {

/// First byte of both reserved marker prefixes (`&`).
pub const MARKER_HEAD: u8 = 38;

/// Second byte of the whisper-channel marker (`d`).
pub const MARKER_WHISPER: u8 = 100;

/// Second byte of the command-channel marker (`5`).
pub const MARKER_COMMAND: u8 = 53;

/// One inbound event, decoded by the protocol collaborator into a tagged
/// variant before the core ever sees it.
pub enum InboundEvent {
    /// The peer signalled a disconnect or kick.
    Disconnect,
    /// A chat line, as raw bytes.
    Chat(Vec<u8>),
    /// Any other protocol event; it only refreshes the activity timestamp.
    Other,
}

/// What the classifier decided about one event.
#[derive(Clone, Copy, PartialEq, Eq, Structural, Debug)]
pub enum Classification {
    Ignore,
    Duplicate,
    DisconnectSignal,
    Countable,
}

/// A chat line beginning with either reserved marker (whisper or command
/// channel) is never counted.
pub open spec fn is_reserved_prefixed(s: Seq<u8>) -> bool {
    &&& s.len() >= 2
    &&& s[0] == MARKER_HEAD
    &&& (s[1] == MARKER_WHISPER || s[1] == MARKER_COMMAND)
}

/// How one event is classified, given the dedup memory `last`:
/// a disconnect signal wins unconditionally; a chat line equal to `last` is a
/// duplicate; a remaining chat line is ignored when reserved-prefixed and
/// countable otherwise; everything else is ignored.
pub open spec fn spec_classify(last: Seq<u8>, event: InboundEvent) -> Classification {
    match event {
        InboundEvent::Disconnect => Classification::DisconnectSignal,
        InboundEvent::Other => Classification::Ignore,
        InboundEvent::Chat(text) => if text@ == last {
            Classification::Duplicate
        } else if is_reserved_prefixed(text@) {
            Classification::Ignore
        } else {
            Classification::Countable
        },
    }
}

/// The dedup memory after one event: every chat line leaves its own text
/// stored (a duplicate stores the value it already equals; a fresh line,
/// reserved-prefixed or not, replaces it before any further filtering);
/// other events leave it alone.
pub open spec fn spec_dedup_after(last: Seq<u8>, event: InboundEvent) -> Seq<u8> {
    match event {
        InboundEvent::Chat(text) => text@,
        _ => last,
    }
}

/// Byte-wise equality of two chat lines.
fn bytes_eq(a: &Vec<u8>, b: &Vec<u8>) -> (r: bool)
    ensures
        r == (a@ == b@),
{
    if a.len() != b.len() {
        return false;
    }
    let n: usize = a.len();
    let mut i: usize = 0;
    while i < n
        invariant
            n == a@.len() == b@.len(),
            0 <= i <= n,
            forall|j: int| 0 <= j < i ==> a@[j] == b@[j],
        decreases n - i,
    {
        if a[i] != b[i] {
            return false;
        }
        i = i + 1;
    }
    proof {
        assert(a@ =~= b@);
    }
    true
}

/// Whether a chat line begins with one of the two reserved markers.
fn reserved_prefixed(text: &Vec<u8>) -> (r: bool)
    ensures
        r == is_reserved_prefixed(text@),
{
    text.len() >= 2 && text[0] == MARKER_HEAD && (text[1] == MARKER_WHISPER || text[1] == MARKER_COMMAND)
}

/// Classify one inbound event. Every call refreshes `last_activity` to
/// `now` — the sole mechanism feeding the watchdog — and a fresh chat line
/// replaces the dedup memory before the reserved-prefix filter runs.
pub fn classify(state: &mut SessionState, event: InboundEvent, now: u64) -> (c: Classification)
    ensures
        c == spec_classify(old(state).last_message@, event),
        final(state).last_message@ == spec_dedup_after(old(state).last_message@, event),
        final(state).last_activity == now,
        final(state).message_count == old(state).message_count,
        final(state).threshold == old(state).threshold,
{
    state.touch(now);
    match event {
        InboundEvent::Disconnect => Classification::DisconnectSignal,
        InboundEvent::Other => Classification::Ignore,
        InboundEvent::Chat(text) => {
            if bytes_eq(&text, &state.last_message) {
                Classification::Duplicate
            } else {
                let prefixed = reserved_prefixed(&text);
                state.last_message = text;
                if prefixed {
                    Classification::Ignore
                } else {
                    Classification::Countable
                }
            }
        },
    }
}

} // verus!
