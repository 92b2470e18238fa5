//! Presence message shapes.

use crate::protocol::friends::Friend;
use vstd::prelude::*;

verus! {

/// The current user's own presence changed.
#[derive(Debug, Clone, PartialEq)]
pub struct CurrentUserPresenceEvent {
    pub user_id: u64,
    pub presence: Presence,
    pub title: String,
    pub title_id: String,
    pub multiplayer_id: String,
    pub rich_presence: String,
    pub game_presence: String,
    pub session_id: String,
    pub group: String,
    pub group_id: String,
}

/// Requests the presence of a user.
#[derive(Debug, Clone, PartialEq)]
pub struct GetPresence {
    pub user_id: u64,
}

/// The presence of the queried user.
#[derive(Debug, Clone, PartialEq)]
pub struct GetPresenceResponse {
    pub user_id: u64,
    pub presence: Presence,
    pub title: String,
    pub title_id: String,
    pub multiplayer_id: String,
    pub rich_presence: String,
    pub game_presence: String,
    pub session_id: String,
    pub group: String,
    pub group_id: String,
}

/// Requests the presence visibility of a user.
#[derive(Debug, Clone, PartialEq)]
pub struct GetPresenceVisibility {
    pub user_id: u64,
}

/// Whether the queried user's presence is visible.
#[derive(Debug, Clone, PartialEq)]
pub struct GetPresenceVisibilityResponse {
    pub visible: bool,
}

/// Brings the session online.
#[derive(Debug, Clone, PartialEq)]
pub struct GoOnline;

/// The connection's online state changed.
#[derive(Debug, Clone, PartialEq)]
pub struct OnlineStatusEvent {
    pub is_online: bool,
}

/// A user's presence on the platform.
#[derive(Debug, Clone, Copy, PartialEq, Eq, Structural)]
pub enum Presence {
    Unknown,
    Offline,
    Online,
    Ingame,
    Busy,
    Idle,
    Joinable,
    JoinableInviteOnly,
}

/// A user's presence changed.
#[derive(Debug, Clone, PartialEq)]
pub struct PresenceEvent {
    pub userid: u64,
}

/// The current user's presence visibility changed.
#[derive(Debug, Clone, PartialEq)]
pub struct PresenceVisibilityEvent {
    pub visible: bool,
}

/// Queries the presence of a set of users.
#[derive(Debug, Clone, PartialEq)]
pub struct QueryPresence {
    pub user_id: u64,
    pub users: Vec<u64>,
}

/// The presence of the queried users.
#[derive(Debug, Clone, PartialEq)]
pub struct QueryPresenceResponse {
    pub friends: Vec<Friend>,
}

/// Sets the current user's presence.
#[derive(Debug, Clone, PartialEq)]
pub struct SetPresence {
    pub user_id: u64,
    pub presence: Presence,
    pub rich_presence: String,
    pub game_presence: String,
    pub session_id: String,
}

/// Sets the current user's presence visibility.
#[derive(Debug, Clone, PartialEq)]
pub struct SetPresenceVisibility {
    pub user_id: u64,
    pub visible: bool,
}

/// Subscribes to presence updates of a set of users.
#[derive(Debug, Clone, PartialEq)]
pub struct SubscribePresence {
    pub user_id: u64,
    pub users: Vec<u64>,
}

/// Unsubscribes from presence updates of a set of users.
#[derive(Debug, Clone, PartialEq)]
pub struct UnsubscribePresence {
    pub user_id: u64,
    pub users: Vec<u64>,
}

} // verus!
