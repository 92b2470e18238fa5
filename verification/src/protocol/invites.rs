//! Invitation message shapes.

use crate::protocol::groups::GroupType;
use vstd::prelude::*;

verus! {

/// Accepts a friend request.
#[derive(Debug, Clone, PartialEq)]
pub struct AcceptFriendInvite {
    pub user_id: u64,
    pub other_id: u64,
}

/// Accepts a game or group invitation.
#[derive(Debug, Clone, PartialEq)]
pub struct AcceptInvite {
    pub user_id: u64,
    pub other_id: u64,
}

/// An invitation into a group, pushed by the server.
#[derive(Debug, Clone, PartialEq)]
pub struct GroupInviteEvent {
    pub group_name: String,
    pub group_id: String,
    pub group_type: GroupType,
    pub from_id: u64,
}

/// Invites users into the current group.
#[derive(Debug, Clone, PartialEq)]
pub struct InviteUsersToGroup {
    pub user_id: u64,
    pub friend_id: Vec<u64>,
}

/// An invitation into a multiplayer session.
#[derive(Debug, Clone, PartialEq)]
pub struct MultiplayerInvite {
    pub group_id: String,
    pub group_name: String,
    pub multiplayer_id: String,
    pub initial: bool,
    pub from: u64,
    pub session_information: String,
}

/// A multiplayer invitation waiting to be acted on.
#[derive(Debug, Clone, PartialEq)]
pub struct MultiplayerInvitePending {
    pub multiplayer_id: String,
    pub group_name: String,
    pub group_id: String,
    pub from: u64,
}

/// Invites group members into a game session.
#[derive(Debug, Clone, PartialEq)]
pub struct SendGroupGameInvite {
    pub user_id: u64,
    pub message: String,
    pub invitees: Vec<u64>,
}

/// Sends an invitation to a set of users.
#[derive(Debug, Clone, PartialEq)]
pub struct SendInvite {
    pub user_id: u64,
    pub invitation: String,
    pub invitees: Vec<u64>,
}

/// A user was invited, pushed by the server.
#[derive(Debug, Clone, PartialEq)]
pub struct UserInvitedEvent {
    pub user_id: u64,
}

} // verus!
