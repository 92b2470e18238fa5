//! Achievement message shapes.

use crate::protocol::common::Event;
use vstd::prelude::*;

verus! {

/// One achievement and its progress.
#[derive(Debug, Clone, PartialEq)]
pub struct Achievement {
    pub id: String,
    pub name: String,
    pub progress: i32,
    pub total: i32,
    pub count: i32,
    pub description: String,
    pub how_to: String,
    pub image_id: String,
    pub grant_date: String,
    pub expiration: String,
}

/// The achievements of one game.
#[derive(Debug, Clone, PartialEq)]
pub struct AchievementSet {
    pub name: String,
    pub game_name: String,
    pub achievement: Vec<Achievement>,
}

/// A collection of achievement sets.
#[derive(Debug, Clone, PartialEq)]
pub struct AchievementSets {
    pub achievement_set: Vec<AchievementSet>,
}

/// Grants progress on one achievement.
#[derive(Debug, Clone, PartialEq)]
pub struct GrantAchievement {
    pub user_id: u64,
    pub persona_id: u64,
    pub achievement_id: i32,
    pub progress: i32,
    pub achievement_code: String,
}

/// Posts a batch of achievement-related events.
#[derive(Debug, Clone, PartialEq)]
pub struct PostAchievementEvents {
    pub user_id: u64,
    pub persona_id: u64,
    pub events: Vec<Event>,
}

/// Queries achievements for a user.
#[derive(Debug, Clone, PartialEq)]
pub struct QueryAchievements {
    pub user_id: u64,
    pub persona_id: u64,
    pub all: bool,
    pub game_id: Vec<String>,
}

} // verus!
