//! In-game overlay message shapes.

use vstd::prelude::*;

verus! {

/// The overlay came up or went down.
#[derive(Debug, Clone, PartialEq)]
pub struct IgoEvent {
    pub state: IgoState,
}

/// Whether the overlay is showing.
#[derive(Debug, Clone, Copy, PartialEq, Eq, Structural)]
pub enum IgoState {
    Down,
    Up,
}

/// The overlay cannot be shown.
#[derive(Debug, Clone, PartialEq)]
pub struct IgoUnavailable {
    pub reason: i32,
}

/// The windows the overlay can open.
#[derive(Debug, Clone, Copy, PartialEq, Eq, Structural)]
pub enum IgoWindow {
    Login,
    Profile,
    Recent,
    Feedback,
    Friends,
    FriendRequest,
    Chat,
    ComposeChat,
    Invite,
    Achievements,
    Store,
    CodeRedemption,
    Checkout,
    Blocked,
    Browser,
    FindFriends,
    ChangeAvatar,
    Gamedetails,
    Broadcast,
    Upsell,
}

/// Asks the game to minimise itself.
#[derive(Debug, Clone, PartialEq)]
pub struct MinimizeRequest;

/// Shows or hides the overlay.
#[derive(Debug, Clone, PartialEq)]
pub struct ShowIgo {
    pub b_show: bool,
}

/// Opens one overlay window with its arguments. A request that omits the
/// show flag means the documented default below.
#[derive(Debug, Clone, PartialEq)]
pub struct ShowIgoWindow {
    pub user_id: u64,
    pub window_id: IgoWindow,
    pub show: bool,
    pub flags: i32,
    pub content_id: String,
    pub target_id: Vec<u64>,
    pub string: String,
    pub args: Vec<String>,
    pub master_title_ids: Vec<String>,
    pub categories: Vec<String>,
    pub offers: Vec<String>,
}

impl ShowIgoWindow {
    /// Default show flag when the request omits the field.
    pub fn default_show() -> (r: bool)
        ensures
            r == true,
    {
        true
    }
}

} // verus!
