//! Permission message shapes.

use vstd::prelude::*;

verus! {

/// Asks whether a user holds a permission.
#[derive(Debug, Clone, PartialEq)]
pub struct CheckPermission {
    pub user_id: u64,
    pub permission_id: Permission,
}

/// The access level of the queried permission.
#[derive(Debug, Clone, PartialEq)]
pub struct CheckPermissionResponse {
    pub access: Access,
}

/// The access levels a permission can resolve to.
#[derive(Debug, Clone, Copy, PartialEq, Eq, Structural)]
pub enum Access {
    Unknown,
    Denied,
    Granted,
    FriendsOnly,
}

/// The permissions that can be checked.
#[derive(Debug, Clone, Copy, PartialEq, Eq, Structural)]
pub enum Permission {
    Multiplayer,
    Purchase,
    Trial,
}

} // verus!
