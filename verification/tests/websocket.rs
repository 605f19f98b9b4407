use gpu_charts::websocket::{is_open, ReadyState, WsEvent, WsMessage};

#[test]
fn ready_states_from_standard_numbers() {
    assert_eq!(ReadyState::from(0), ReadyState::Connecting);
    assert_eq!(ReadyState::from(1), ReadyState::Open);
    assert_eq!(ReadyState::from(2), ReadyState::Closing);
    assert_eq!(ReadyState::from(3), ReadyState::Closed);
    assert_eq!(ReadyState::from(42), ReadyState::Closed);
    assert!(is_open(ReadyState::from(1)));
    assert!(!is_open(ReadyState::Closing));
}

#[test]
fn events_carry_their_payloads() {
    let e = WsEvent::Message(WsMessage::Text("hi".to_string()));
    assert_eq!(e, WsEvent::Message(WsMessage::Text("hi".to_string())));
    assert_ne!(WsEvent::Close(1000, "bye".to_string()), WsEvent::Open);
}
