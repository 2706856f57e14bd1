use rust_bot::announce::{announcement_for, format_announcement, StorageError};
use rust_bot::classify::InboundEvent;
use rust_bot::pipeline::{process_event, EventOutcome};
use rust_bot::state::SessionState;

fn chat(text: &str) -> InboundEvent {
    InboundEvent::Chat(text.as_bytes().to_vec())
}

#[test]
fn announcement_carries_the_fixed_label() {
    let out = format_announcement(b"cats sleep a lot".to_vec());
    assert_eq!(out, b"Cat Fact: cats sleep a lot".to_vec());
}

#[test]
fn empty_fact_is_just_the_label() {
    let out = format_announcement(Vec::new());
    assert_eq!(out, b"Cat Fact: ".to_vec());
}

#[test]
fn fact_found_becomes_a_labelled_message() {
    let msg = announcement_for(Ok(Some(b"a fact".to_vec())));
    assert_eq!(msg, Some(b"Cat Fact: a fact".to_vec()));
}

#[test]
fn no_fact_sends_nothing() {
    let msg = announcement_for(Ok(None));
    assert_eq!(msg, None);
}

#[test]
fn storage_error_sends_nothing() {
    let msg = announcement_for(Err(StorageError));
    assert_eq!(msg, None);
}

#[test]
fn storage_failure_at_the_trigger_leaves_the_session_running() {
    // Reach the threshold, have the fact store fail, and check that the
    // counter was reset anyway and the session keeps processing events.
    let mut state = SessionState::new(2, 0);
    process_event(&mut state, chat("one"), 1);
    let p = process_event(&mut state, chat("two"), 2);
    assert_eq!(p.outcome, EventOutcome::Announce);
    assert_eq!(state.message_count, 0);

    let msg = announcement_for(Err(StorageError));
    assert_eq!(msg, None);

    let after = process_event(&mut state, chat("three"), 3);
    assert_eq!(after.outcome, EventOutcome::Continue);
    assert_eq!(state.message_count, 1);
}
