//! Friends-list message shapes.

use crate::protocol::presence::Presence;
use vstd::prelude::*;

verus! {

/// Records players recently met in game.
#[derive(Debug, Clone, PartialEq)]
pub struct AddRecentPlayers {
    pub user_id: u64,
    pub player: Vec<u64>,
}

/// One friend and their presence.
#[derive(Debug, Clone, PartialEq)]
pub struct Friend {
    pub user_id: u64,
    pub persona_id: u64,
    pub persona: String,
    pub avatar_id: String,
    pub group: String,
    pub group_id: String,
    pub presence: Presence,
    pub state: FriendState,
    pub title_id: String,
    pub title: String,
    pub multiplayer_id: String,
    pub rich_presence: String,
    pub game_presence: String,
}

/// The relationship between two users.
#[derive(Debug, Clone, Copy, PartialEq, Eq, Structural)]
pub enum FriendState {
    Unknown,
    NotFriends,
    Mutual,
    Invited,
    Declined,
    Request,
}

/// The relationship state of one queried user.
#[derive(Debug, Clone, PartialEq)]
pub struct FriendStatus {
    pub friend_id: u64,
    pub state: FriendState,
}

/// A change in the friends list, pushed by the server.
#[derive(Debug, Clone, PartialEq)]
pub struct FriendsEvent {
    pub value: i32,
}

/// Asks which of the given users are friends.
#[derive(Debug, Clone, PartialEq)]
pub struct QueryAreFriends {
    pub user_id: u64,
    pub friends: Vec<u64>,
}

/// The relationship states of the queried users.
#[derive(Debug, Clone, PartialEq)]
pub struct QueryAreFriendsResponse {
    pub users: Vec<FriendStatus>,
}

/// Requests the friends list of a user.
#[derive(Debug, Clone, PartialEq)]
pub struct QueryFriends {
    pub user_id: u64,
}

/// The friends of the queried user.
#[derive(Debug, Clone, PartialEq)]
pub struct QueryFriendsResponse {
    pub friends: Vec<Friend>,
}

/// Removes a friend.
#[derive(Debug, Clone, PartialEq)]
pub struct RemoveFriend {
    pub user_id: u64,
    pub user_to_remove: u64,
}

/// Sends a friend request.
#[derive(Debug, Clone, PartialEq)]
pub struct RequestFriend {
    pub user_id: u64,
    pub user_to_add: u64,
}

} // verus!
