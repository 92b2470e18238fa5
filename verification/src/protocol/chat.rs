//! Chat message shapes.

use vstd::prelude::*;

verus! {

/// An incoming chat message.
#[derive(Debug, Clone, PartialEq)]
pub struct ChatMessageEvent {
    pub from_id: u64,
    pub group_id: String,
    pub thread: String,
    pub message: String,
}

/// Whether a user is writing.
#[derive(Debug, Clone, Copy, PartialEq, Eq, Structural)]
pub enum ChatState {
    UserWritingStart,
    UserWritingEnd,
}

/// A change of a user's chat state.
#[derive(Debug, Clone, PartialEq)]
pub struct ChatStateUpdateEvent {
    pub user_id: u64,
    pub state: ChatState,
}

/// Sends a chat message.
#[derive(Debug, Clone, PartialEq)]
pub struct SendChatMessage {
    pub from_id: u64,
    pub to_id: u64,
    pub thread: String,
    pub message: String,
    pub group_id: String,
}

} // verus!
