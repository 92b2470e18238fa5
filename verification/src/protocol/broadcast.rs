//! Game-broadcast message shapes.

use vstd::prelude::*;

verus! {

/// A change of the broadcast state, pushed by the server.
#[derive(Debug, Clone, PartialEq)]
pub struct BroadcastEvent {
    pub state: BroadcastState,
}

/// Starts broadcasting.
#[derive(Debug, Clone, PartialEq)]
pub struct BroadcastStart;

/// The state of the broadcast facility.
#[derive(Debug, Clone, Copy, PartialEq, Eq, Structural)]
pub enum BroadcastState {
    DialogOpen,
    DialogClosed,
    AccountlinkdialogOpen,
    AccountDisconnected,
    Started,
    Stopped,
    Blocked,
    StartPending,
    Error,
}

/// The current broadcast status.
#[derive(Debug, Clone, PartialEq)]
pub struct BroadcastStatus {
    pub status: i32,
}

/// Stops broadcasting.
#[derive(Debug, Clone, PartialEq)]
pub struct BroadcastStop;

/// Requests the current broadcast status.
#[derive(Debug, Clone, PartialEq)]
pub struct GetBroadcastStatus;

} // verus!
