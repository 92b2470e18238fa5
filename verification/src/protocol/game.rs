//! Game and content message shapes.

use vstd::prelude::*;

verus! {

/// The lifecycle state of installable content.
#[derive(Debug, Clone, Copy, PartialEq, Eq, Structural)]
pub enum ContentState {
    Unknown,
    ReadyToDownload,
    ServerQueued,
    Downloading,
    DownloadPaused,
    ReadyToActivate,
    ReadyToDecrypt,
    Decrypting,
    ReadyToUnpack,
    Unpacking,
    ReadyToInstall,
    Installing,
    ReadyToPlay,
    ReadyToUse,
    Installed,
    WaitingToDownload,
    WaitingToDecrypt,
    DownloadExpired,
    DecryptExpired,
    InvalidContent,
    Playing,
    FinalizingDownload,
    PreparingDownload,
    Updating,
    Verifying,
    ReadyToUpdate,
    UpdatePaused,
    DownloadQueued,
}

/// One piece of downloadable content.
#[derive(Debug, Clone, PartialEq)]
pub struct Dlc {
    pub name: String,
    pub id: String,
    pub installed: bool,
}

/// Which facts about a game can be asked for.
#[derive(Debug, Clone, Copy, PartialEq, Eq, Structural)]
pub enum GameInfo {
    Uptodate,
    Languages,
    Freetrial,
    Expiration,
    ExpirationDuration,
    InstalledVersion,
    InstalledLanguage,
    AvailableVersion,
    DisplayName,
    FullgamePurchased,
    FullgameIsReleased,
    FullgameReleaseDate,
    MaxGroupSize,
    EntitlementSource,
}

/// A message sent between running games.
#[derive(Debug, Clone, PartialEq)]
pub struct GameMessageEvent {
    pub game_id: String,
    pub message: String,
}

/// Requests every known fact about the current game.
#[derive(Debug, Clone, PartialEq)]
pub struct GetAllGameInfo;

/// Every known fact about the current game.
#[derive(Debug, Clone, PartialEq)]
pub struct GetAllGameInfoResponse {
    pub up_to_date: bool,
    pub languages: String,
    pub free_trial: bool,
    pub full_game_purchased: bool,
    pub full_game_released: bool,
    pub full_game_release_date: String,
    pub expiration: String,
    pub system_time: String,
    pub has_expiration: bool,
    pub installed_version: String,
    pub installed_language: String,
    pub available_version: String,
    pub display_name: String,
    pub max_group_size: i32,
    pub entitlement_source: String,
}

/// Queries the content owned by a user.
#[derive(Debug, Clone, PartialEq)]
pub struct QueryContent {
    pub user_id: u64,
    pub multiplayer_id: String,
    pub content_type: i32,
    pub game_id: Vec<String>,
}

/// Restarts the running game.
#[derive(Debug, Clone, PartialEq)]
pub struct RestartGame {
    pub user_id: u64,
    pub options: RestartOptions,
}

/// How to restart the game.
#[derive(Debug, Clone, Copy, PartialEq, Eq, Structural)]
pub enum RestartOptions {
    Normal,
    ForceUpdateForGame,
}

/// Sends a message to another game.
#[derive(Debug, Clone, PartialEq)]
pub struct SendGameMessage {
    pub game_id: String,
    pub message: String,
}

/// Launches a game.
#[derive(Debug, Clone, PartialEq)]
pub struct StartGame {
    pub game_id: String,
    pub multiplayer_id: String,
    pub command_line: String,
}

} // verus!
