//! WebSocket states, messages and events as seen by browser clients.
use vstd::prelude::*;

verus! {

/// WebSocket ready states, numbered 0 to 3 by the WebSocket standard.
#[derive(Debug, Clone, Copy, PartialEq, Eq, Structural)]
pub enum ReadyState {
    Connecting,
    Open,
    Closing,
    Closed,
}

/// The state a standard ready-state number denotes; unknown numbers count as closed.
pub open spec fn ready_state_of(value: u16) -> ReadyState {
    if value == 0 {
        ReadyState::Connecting
    } else if value == 1 {
        ReadyState::Open
    } else if value == 2 {
        ReadyState::Closing
    } else {
        ReadyState::Closed
    }
}

impl From<u16> for ReadyState {
    fn from(value: u16) -> (r: ReadyState) {
        match value {
            0 => ReadyState::Connecting,
            1 => ReadyState::Open,
            2 => ReadyState::Closing,
            _ => ReadyState::Closed,
        }
    }
}

impl vstd::std_specs::convert::FromSpecImpl<u16> for ReadyState {
    open spec fn obeys_from_spec() -> bool {
        true
    }

    open spec fn from_spec(v: u16) -> ReadyState {
        ready_state_of(v)
    }
}

/// Is a connection in this ready state open?
pub fn is_open(state: ReadyState) -> (r: bool)
    ensures
        r == (state == ReadyState::Open),
{
    state == ReadyState::Open
}

/// A WebSocket message.
#[derive(Debug, Clone, PartialEq, Eq)]
pub enum WsMessage {
    Text(String),
    Binary(Vec<u8>),
}

/// A WebSocket event.
#[derive(Debug, Clone, PartialEq, Eq)]
pub enum WsEvent {
    Open,
    Message(WsMessage),
    Error(String),
    /// Close code and reason.
    Close(u16, String),
}

} // verus!
