//! Message shapes shared across service domains.

use vstd::prelude::*;

verus! {

/// Generic status response: a signed 32-bit status code plus free text.
/// Code `0` is success, `1` is pending, other positive values are warnings,
/// and any negative value is a hard error.
#[derive(Debug, Clone, PartialEq)]
pub struct ErrorSuccess {
    pub code: i32,
    pub description: String,
}

/// A named event record with free-form parameters.
#[derive(Debug, Clone, PartialEq)]
pub struct Event {
    pub event_id: String,
    pub attributes: Vec<EventParam>,
}

/// One name/value pair of an event record.
#[derive(Debug, Clone, PartialEq)]
pub struct EventParam {
    pub name: String,
    pub value: String,
}

/// The logical service domains requests are conceptually addressed to.
#[derive(Debug, Clone, Copy, PartialEq, Eq, Structural)]
pub enum Facility {
    Sdk,
    Profile,
    Presence,
    Friends,
    Commerce,
    RecentPlayer,
    Igo,
    Misc,
    Login,
    Utility,
    Xmpp,
    Chat,
    IgoEvent,
    EalsEvents,
    LoginEvent,
    InviteEvent,
    ProfileEvent,
    PresenceEvent,
    FriendsEvent,
    CommerceEvent,
    ChatEvent,
    DownloadEvent,
    Permission,
    Resources,
    BlockedUsers,
    BlockedUserEvent,
    GetUserId,
    OnlineStatusEvent,
    Achievement,
    AchievementEvent,
    BroadcastEvent,
    ProgressiveInstallation,
    ProgressiveInstallationEvent,
    Content,
}

/// A hosted image resource.
#[derive(Debug, Clone, PartialEq)]
pub struct Image {
    pub image_id: String,
    pub width: i32,
    pub height: i32,
    pub resource_path: String,
}

/// Requests an image by identifier and size.
#[derive(Debug, Clone, PartialEq)]
pub struct QueryImage {
    pub image_id: String,
    pub width: i32,
    pub height: i32,
}

/// The images matching a query.
#[derive(Debug, Clone, PartialEq)]
pub struct QueryImageResponse {
    pub result: i32,
    pub images: Vec<Image>,
}

} // verus!
