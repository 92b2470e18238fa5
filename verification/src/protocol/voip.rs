//! Voice-chat message shapes.

use vstd::prelude::*;

verus! {

/// Turns voice chat on or off.
#[derive(Debug, Clone, PartialEq)]
pub struct EnableVoip {
    pub enable: bool,
}

/// The mute relationship between the user and a peer.
#[derive(Debug, Clone, Copy, PartialEq, Eq, Structural)]
pub enum EnumMuteState {
    Unspecified,
    Unmuted,
    MutedLocally,
    MutedRemotely,
    MutedLocallyAndRemotely,
}

/// Requests the voice-chat status.
#[derive(Debug, Clone, PartialEq)]
pub struct GetVoipStatus;

/// The voice-chat status.
#[derive(Debug, Clone, PartialEq)]
pub struct GetVoipStatusResponse {
    pub available: bool,
    pub active: bool,
}

/// The mute state of one user.
#[derive(Debug, Clone, PartialEq)]
pub struct MuteState {
    pub state: EnumMuteState,
    pub user_id: u64,
}

/// Mutes or unmutes a user.
#[derive(Debug, Clone, PartialEq)]
pub struct MuteUser {
    pub b_mute: bool,
    pub group_id: String,
    pub user_id: u64,
}

/// Requests the mute states within a group.
#[derive(Debug, Clone, PartialEq)]
pub struct QueryMuteState {
    pub group_id: String,
}

/// The mute states within the queried group.
#[derive(Debug, Clone, PartialEq)]
pub struct QueryMuteStateResponse {
    pub mute_state_array: Vec<MuteState>,
}

/// Voice-channel and speaking state changes.
#[derive(Debug, Clone, Copy, PartialEq, Eq, Structural)]
pub enum VoipStatus {
    Unknown,
    ChannelDisconnected,
    ChannelConnecting,
    ChannelConnected,
    UserTalkingStart,
    UserTalkingEnd,
    UserMutedLocally,
    UserMutedRemotely,
    UserUnmutedLocally,
    UserUnmutedRemotely,
    UserJoined,
    UserLeft,
    Unavailable,
}

/// A voice-chat state change concerning one user.
#[derive(Debug, Clone, PartialEq)]
pub struct VoipStatusEvent {
    pub status: VoipStatus,
    pub user_id: u64,
}

} // verus!
