//! User and block-list message shapes.

use vstd::prelude::*;

verus! {

/// The block list changed, pushed by the server.
#[derive(Debug, Clone, PartialEq)]
pub struct BlockListUpdated;

/// Blocks a user.
#[derive(Debug, Clone, PartialEq)]
pub struct BlockUser {
    pub user_id: u64,
    pub user_id_to_block: u64,
}

/// Requests the block list.
#[derive(Debug, Clone, PartialEq)]
pub struct GetBlockList;

/// The blocked users.
#[derive(Debug, Clone, PartialEq)]
pub struct GetBlockListResponse {
    pub return_value: String,
    pub user: Vec<User>,
}

/// Unblocks a user.
#[derive(Debug, Clone, PartialEq)]
pub struct UnblockUser {
    pub user_id: u64,
    pub user_id_to_unblock: u64,
}

/// One platform user.
#[derive(Debug, Clone, PartialEq)]
pub struct User {
    pub eaid: String,
    pub mail: String,
    pub user_id: u64,
    pub persona_id: u64,
}

} // verus!
