use rust_bot::classify::{classify, Classification, InboundEvent};
use rust_bot::state::SessionState;

fn chat(text: &str) -> InboundEvent {
    InboundEvent::Chat(text.as_bytes().to_vec())
}

#[test]
fn disconnect_signal_wins_unconditionally() {
    let mut state = SessionState::new(10, 0);
    let c = classify(&mut state, InboundEvent::Disconnect, 77);
    assert_eq!(c, Classification::DisconnectSignal);
    assert_eq!(state.last_activity, 77);
    assert_eq!(state.message_count, 0);
}

#[test]
fn non_chat_non_disconnect_is_ignored() {
    let mut state = SessionState::new(10, 0);
    let c = classify(&mut state, InboundEvent::Other, 5);
    assert_eq!(c, Classification::Ignore);
    assert_eq!(state.last_activity, 5);
    assert!(state.last_message.is_empty());
}

#[test]
fn fresh_chat_line_is_countable_and_stored() {
    let mut state = SessionState::new(10, 0);
    let c = classify(&mut state, chat("hello world"), 3);
    assert_eq!(c, Classification::Countable);
    assert_eq!(state.last_message, b"hello world".to_vec());
    assert_eq!(state.last_activity, 3);
}

#[test]
fn identical_line_twice_yields_one_countable() {
    let mut state = SessionState::new(10, 0);
    let first = classify(&mut state, chat("same line"), 1);
    let second = classify(&mut state, chat("same line"), 2);
    assert_eq!(first, Classification::Countable);
    assert_eq!(second, Classification::Duplicate);
    assert_eq!(state.last_message, b"same line".to_vec());
    assert_eq!(state.last_activity, 2);
}

#[test]
fn whisper_prefix_is_ignored() {
    let mut state = SessionState::new(10, 0);
    let c = classify(&mut state, chat("&dpssst"), 1);
    assert_eq!(c, Classification::Ignore);
}

#[test]
fn command_prefix_is_ignored() {
    let mut state = SessionState::new(10, 0);
    let c = classify(&mut state, chat("&5do the thing"), 1);
    assert_eq!(c, Classification::Ignore);
}

#[test]
fn prefixed_line_still_updates_dedup_memory() {
    let mut state = SessionState::new(10, 0);
    let first = classify(&mut state, chat("&dtwice"), 1);
    let second = classify(&mut state, chat("&dtwice"), 2);
    assert_eq!(first, Classification::Ignore);
    assert_eq!(second, Classification::Duplicate);
    assert_eq!(state.last_message, b"&dtwice".to_vec());
}

#[test]
fn prefixed_line_does_not_block_later_plain_line() {
    let mut state = SessionState::new(10, 0);
    let marked = classify(&mut state, chat("&dhello"), 1);
    let plain = classify(&mut state, chat("hello"), 2);
    assert_eq!(marked, Classification::Ignore);
    assert_eq!(plain, Classification::Countable);
}

#[test]
fn ampersand_alone_is_countable() {
    let mut state = SessionState::new(10, 0);
    let c = classify(&mut state, chat("&x not reserved"), 1);
    assert_eq!(c, Classification::Countable);
    let mut state2 = SessionState::new(10, 0);
    let c2 = classify(&mut state2, chat("&"), 1);
    assert_eq!(c2, Classification::Countable);
}

#[test]
fn empty_line_first_matches_empty_dedup_memory() {
    let mut state = SessionState::new(10, 0);
    let c = classify(&mut state, chat(""), 1);
    assert_eq!(c, Classification::Duplicate);
    assert_eq!(state.message_count, 0);
}
