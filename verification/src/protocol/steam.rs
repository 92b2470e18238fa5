//! Steam-bridge message shapes.

use vstd::prelude::*;

verus! {

/// Sets the locale reported to Steam.
#[derive(Debug, Clone, PartialEq)]
pub struct SetSteamLocale {
    pub language: String,
}

/// Telemetry on achievement synchronisation failures.
#[derive(Debug, Clone, PartialEq)]
pub struct SteamAchievementErrorTelemetry {
    pub valid_stats: bool,
    pub set_stat: bool,
    pub get_stat: bool,
}

/// An achievement unlocked on Steam.
#[derive(Debug, Clone, PartialEq)]
pub struct SteamAchievementEvent {
    pub achievement_id: String,
    pub points: i32,
}

/// A request to open the Steam overlay on a store page.
#[derive(Debug, Clone, PartialEq)]
pub struct SteamActivateOverlayToStoreEvent {
    pub app_id: String,
    pub offer_id: String,
    pub is_base_game: bool,
    pub flag: SteamOverlayToStoreFlag,
}

/// How the store page is opened.
#[derive(Debug, Clone, Copy, PartialEq, Eq, Structural)]
pub enum SteamOverlayToStoreFlag {
    NoAction,
    Addtocart,
    Addtocartandshow,
}

/// Confirms a purchase made through Steam.
#[derive(Debug, Clone, PartialEq)]
pub struct SteamPurchaseConfirmation {
    pub app_id: i32,
    pub order_id: u64,
    pub authorized: bool,
}

} // verus!
