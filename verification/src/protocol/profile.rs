//! Profile message shapes.

use crate::protocol::user::User;
use vstd::prelude::*;

verus! {

/// Requests the profile of a local user slot.
#[derive(Debug, Clone, PartialEq)]
pub struct GetProfile {
    pub index: i32,
}

/// The profile of the queried user.
#[derive(Debug, Clone, PartialEq)]
pub struct GetProfileResponse {
    pub user_index: i32,
    pub user_id: u64,
    pub persona_id: u64,
    pub persona: String,
    pub avatar_id: String,
    pub country: String,
    pub is_under_age: bool,
    pub is_subscriber: bool,
    pub is_trial_subscriber: bool,
    pub subscriber_level: i32,
    pub geo_country: String,
    pub commerce_country: String,
    pub commerce_currency: String,
    pub is_steam_subscriber: bool,
}

/// Looks a user up by mail address or platform identifier.
#[derive(Debug, Clone, PartialEq)]
pub struct GetUserProfileByEmailorEaid {
    pub key_word: String,
}

/// The users matching the lookup.
#[derive(Debug, Clone, PartialEq)]
pub struct GetUserProfileByEmailorEaidResponse {
    pub return_value: String,
    pub user: Vec<User>,
}

/// A profile attribute changed.
#[derive(Debug, Clone, PartialEq)]
pub struct ProfileEvent {
    pub changed: ProfileStateChange,
    pub user_id: u64,
}

/// Which profile attribute changed.
#[derive(Debug, Clone, Copy, PartialEq, Eq, Structural)]
pub enum ProfileStateChange {
    Unknown,
    Eaid,
    Avatar,
    Subscription,
}

} // verus!
