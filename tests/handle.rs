use mcdcbot::events::{
    ChatMessage, MinecraftServerEvent, MinecraftServerEventType, MinecraftServerStopReason,
    MinecraftServerStopReasons,
};
use mcdcbot::handle::{HandleState, StopReasonError};

fn chat(text: &str) -> MinecraftServerEvent {
    MinecraftServerEvent {
        event: MinecraftServerEventType::ChatMessage(ChatMessage {
            author: "Bob".to_string(),
            message: text.to_string(),
        }),
    }
}

fn ended(code: i32) -> MinecraftServerStopReason {
    MinecraftServerStopReason {
        reason: MinecraftServerStopReasons::ProcessEnded(Some(code)),
    }
}

#[test]
fn events_are_handed_out_once_in_order() {
    let mut h = HandleState::new();
    h.update(vec![chat("a"), chat("b")], None);
    h.update(vec![chat("c")], None);
    assert_eq!(h.handle_new_events(), vec![chat("a"), chat("b"), chat("c")]);
    assert!(h.handle_new_events().is_empty());
}

#[test]
fn not_finished_while_process_lives_then_finished_for_good() {
    let mut h = HandleState::new();
    for _ in 0..5 {
        h.update(vec![chat("x")], None);
        assert!(!h.is_finished());
    }
    h.update(Vec::new(), Some(ended(0)));
    assert!(h.is_finished());
    for _ in 0..3 {
        h.update(Vec::new(), None);
        assert!(h.is_finished());
    }
}

#[test]
fn stop_reason_only_after_end_and_only_once() {
    let mut h = HandleState::new();
    assert_eq!(h.get_stop_reason(), Err(StopReasonError::NotFinished));
    h.update(Vec::new(), Some(ended(3)));
    assert_eq!(h.get_stop_reason(), Ok(ended(3)));
    assert_eq!(h.get_stop_reason(), Err(StopReasonError::AlreadyTaken));
}

#[test]
fn second_end_is_ignored() {
    let mut h = HandleState::new();
    h.update(Vec::new(), Some(ended(1)));
    h.update(Vec::new(), Some(ended(2)));
    assert_eq!(h.get_stop_reason(), Ok(ended(1)));
}
