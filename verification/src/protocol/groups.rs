//! Group (party) message shapes.

use crate::protocol::friends::Friend;
use vstd::prelude::*;

verus! {

/// Creates a group.
#[derive(Debug, Clone, PartialEq)]
pub struct CreateGroup {
    pub user_id: u64,
    pub group_name: String,
    pub group_type: GroupType,
}

/// Joins a group.
#[derive(Debug, Clone, PartialEq)]
pub struct EnterGroup {
    pub user_id: u64,
    pub group_id: String,
}

/// Requests information about a group.
#[derive(Debug, Clone, PartialEq)]
pub struct GetGroupInfo {
    pub user_id: u64,
    pub group_id: String,
}

/// A user entered a group.
#[derive(Debug, Clone, PartialEq)]
pub struct GroupEnterEvent {
    pub group_info: GroupInfo,
}

/// The membership of a group changed.
#[derive(Debug, Clone, PartialEq)]
pub struct GroupEvent {
    pub members: Vec<Friend>,
}

/// Information about one group. A server that omits the size limit means the
/// documented default below.
#[derive(Debug, Clone, PartialEq)]
pub struct GroupInfo {
    pub group_name: String,
    pub group_id: String,
    pub group_type: GroupType,
    pub can_invite_new_members: bool,
    pub can_remove_members: bool,
    pub can_send_game_invites: bool,
    pub max_group_size: i32,
}

impl GroupInfo {
    /// Default group size limit when the server omits the field.
    pub fn default_max_group_size() -> (r: i32)
        ensures
            r == 16,
    {
        16i32
    }
}

/// A user left a group.
#[derive(Debug, Clone, PartialEq)]
pub struct GroupLeaveEvent {
    pub group_id: String,
}

/// Whether a group is open to everyone.
#[derive(Debug, Clone, Copy, PartialEq, Eq, Structural)]
pub enum GroupType {
    Public,
    Private,
}

/// Leaves the current group.
#[derive(Debug, Clone, PartialEq)]
pub struct LeaveGroup {
    pub user_id: u64,
}

/// Requests the members of a group.
#[derive(Debug, Clone, PartialEq)]
pub struct QueryGroup {
    pub user_id: u64,
    pub group_id: String,
}

/// The members of the queried group.
#[derive(Debug, Clone, PartialEq)]
pub struct QueryGroupResponse {
    pub members: Vec<Friend>,
}

/// Removes users from a group.
#[derive(Debug, Clone, PartialEq)]
pub struct RemoveUsersFromGroup {
    pub user_id: u64,
    pub friend_id: Vec<u64>,
}

} // verus!
