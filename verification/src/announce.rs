//! The announcement decision: what, if anything, is sent after the threshold
//! fires, given what the fact store returned. The lookup itself is I/O and
//! stays with the embedding program; this module decides from its result.

use vstd::prelude::*;

verus! {

/// The fact store failed transiently. Recovered at the trigger: the
/// announcement is skipped, nothing retries, and the session stays open.
#[derive(Clone, Copy, PartialEq, Eq, Structural, Debug)]
pub struct StorageError;

/// The fixed label prepended to every announcement: the bytes of
/// `Cat Fact: `.
pub open spec fn announce_label() -> Seq<u8> {
    seq![67u8, 97u8, 116u8, 32u8, 70u8, 97u8, 99u8, 116u8, 58u8, 32u8]
}

/// Build the outbound chat line for one fact: the fixed label followed by
/// the fact's bytes.
pub fn format_announcement(fact: Vec<u8>) -> (out: Vec<u8>)
    ensures
        out@ == announce_label() + fact@,
{
    let mut out: Vec<u8> = Vec::new();
    out.push(67);
    out.push(97);
    out.push(116);
    out.push(32);
    out.push(70);
    out.push(97);
    out.push(99);
    out.push(116);
    out.push(58);
    out.push(32);
    let mut tail = fact;
    out.append(&mut tail);
    proof {
        assert(out@ =~= announce_label() + fact@);
    }
    out
}

/// Decide the outbound message from the fact store's answer: a fact becomes
/// the labelled announcement; no fact, or a storage failure, means nothing
/// is sent and nothing is retried until the next threshold crossing.
pub fn announcement_for(fetched: Result<Option<Vec<u8>>, StorageError>) -> (msg: Option<Vec<u8>>)
    ensures
        match fetched {
            Ok(Some(fact)) => msg matches Some(out) && out@ == announce_label() + fact@,
            Ok(None) => msg is None,
            Err(_) => msg is None,
        },
{
    match fetched {
        Ok(Some(fact)) => Some(format_announcement(fact)),
        Ok(None) => None,
        Err(_) => None,
    }
}

} // verus!
