//! The message catalog and the wire envelope.
//!
//! An envelope (`Lsx`) wraps exactly one of `Request`, `Response` or `Event`.
//! The request `id` is the decimal form of the correlator's numeric ID and is
//! the sole join key between a sent request and its eventual response. Each
//! request variant has exactly one statically known expected response
//! variant, recorded by [`RequestBody::expected_response`].

pub mod achievements;
pub mod auth;
pub mod broadcast;
pub mod chat;
pub mod chunk;
pub mod commerce;
pub mod common;
pub mod entitlements;
pub mod errors;
pub mod friends;
pub mod game;
pub mod groups;
pub mod invites;
pub mod overlay;
pub mod permissions;
pub mod presence;
pub mod profile;
pub mod steam;
pub mod system;
pub mod user;
pub mod voip;

use vstd::prelude::*;

verus! {

/// The top-level wire envelope.
#[derive(Debug, Clone, PartialEq)]
pub struct Lsx {
    pub message: Message,
}

/// The three kinds of message an envelope can carry.
#[derive(Debug, Clone, PartialEq)]
pub enum Message {
    Request(Request),
    Response(Response),
    Event(Event),
}

/// A request addressed to a recipient service, joined to its response by
/// `id`.
#[derive(Debug, Clone, PartialEq)]
pub struct Request {
    pub id: String,
    pub recipient: String,
    pub body: RequestBody,
}

/// A response carrying the `id` of the request it answers.
#[derive(Debug, Clone, PartialEq)]
pub struct Response {
    pub id: String,
    pub sender: String,
    pub body: ResponseBody,
}

/// A server-pushed event, outside any request/response pair.
#[derive(Debug, Clone, PartialEq)]
pub struct Event {
    pub sender: String,
    pub body: EventBody,
}

/// Every request shape of the catalog.
#[derive(Debug, Clone, PartialEq)]
pub enum RequestBody {
    AcceptFriendInvite(invites::AcceptFriendInvite),
    AcceptInvite(invites::AcceptInvite),
    AddRecentPlayers(friends::AddRecentPlayers),
    AreChunksInstalled(chunk::AreChunksInstalled),
    BlockUser(user::BlockUser),
    BroadcastStart(broadcast::BroadcastStart),
    BroadcastStop(broadcast::BroadcastStop),
    ChallengeResponse(auth::ChallengeResponse),
    CheckPermission(permissions::CheckPermission),
    Checkout(commerce::Checkout),
    ConsumeEntitlement(entitlements::ConsumeEntitlement),
    CreateChunk(chunk::CreateChunk),
    CreateGroup(groups::CreateGroup),
    EnableVoip(voip::EnableVoip),
    EnterGroup(groups::EnterGroup),
    ExtendTrial(entitlements::ExtendTrial),
    GetAllGameInfo(game::GetAllGameInfo),
    GetAuthCode(auth::GetAuthCode),
    GetBlockList(user::GetBlockList),
    GetBroadcastStatus(broadcast::GetBroadcastStatus),
    GetChunkPriority(chunk::GetChunkPriority),
    GetConfig(system::GetConfig),
    GetGroupInfo(groups::GetGroupInfo),
    GetInternetConnectedState(system::GetInternetConnectedState),
    GetPresence(presence::GetPresence),
    GetPresenceVisibility(presence::GetPresenceVisibility),
    GetProfile(profile::GetProfile),
    GetSettings(system::GetSettings),
    GetUserProfileByEmailorEaid(profile::GetUserProfileByEmailorEaid),
    GetUtcTime(system::GetUtcTime),
    GetVoipStatus(voip::GetVoipStatus),
    GetWalletBalance(commerce::GetWalletBalance),
    GoOnline(presence::GoOnline),
    GrantAchievement(achievements::GrantAchievement),
    InviteUsersToGroup(invites::InviteUsersToGroup),
    IsFileDownloaded(chunk::IsFileDownloaded),
    IsProgressiveInstallationAvailable(chunk::IsProgressiveInstallationAvailable),
    LeaveGroup(groups::LeaveGroup),
    MuteUser(voip::MuteUser),
    PostAchievementEvents(achievements::PostAchievementEvents),
    QueryAchievements(achievements::QueryAchievements),
    QueryAreFriends(friends::QueryAreFriends),
    QueryChunkFiles(chunk::QueryChunkFiles),
    QueryChunkStatus(chunk::QueryChunkStatus),
    QueryContent(game::QueryContent),
    QueryEntitlements(entitlements::QueryEntitlements),
    QueryFriends(friends::QueryFriends),
    QueryGroup(groups::QueryGroup),
    QueryImage(common::QueryImage),
    QueryManifest(entitlements::QueryManifest),
    QueryMuteState(voip::QueryMuteState),
    QueryOffers(commerce::QueryOffers),
    QueryPresence(presence::QueryPresence),
    RemoveFriend(friends::RemoveFriend),
    RemoveUsersFromGroup(groups::RemoveUsersFromGroup),
    RequestFriend(friends::RequestFriend),
    RestartGame(game::RestartGame),
    SendChatMessage(chat::SendChatMessage),
    SendGameMessage(game::SendGameMessage),
    SendGroupGameInvite(invites::SendGroupGameInvite),
    SendInvite(invites::SendInvite),
    SetChunkPriority(chunk::SetChunkPriority),
    SetPresence(presence::SetPresence),
    SetPresenceVisibility(presence::SetPresenceVisibility),
    SetSteamLocale(steam::SetSteamLocale),
    ShowIgo(overlay::ShowIgo),
    ShowIgoWindow(overlay::ShowIgoWindow),
    StartGame(game::StartGame),
    SteamAchievementErrorTelemetry(steam::SteamAchievementErrorTelemetry),
    SteamPurchaseConfirmation(steam::SteamPurchaseConfirmation),
    SubscribePresence(presence::SubscribePresence),
    UnblockUser(user::UnblockUser),
    UnsubscribePresence(presence::UnsubscribePresence),
}

/// Every response shape of the catalog.
#[derive(Debug, Clone, PartialEq)]
pub enum ResponseBody {
    Achievement(achievements::Achievement),
    AchievementSets(achievements::AchievementSets),
    AreChunksInstalledResponse(chunk::AreChunksInstalledResponse),
    AuthCode(auth::AuthCode),
    BroadcastStatus(broadcast::BroadcastStatus),
    ChallengeAccepted(auth::ChallengeAccepted),
    CheckPermissionResponse(permissions::CheckPermissionResponse),
    ConsumeEntitlementResponse(entitlements::ConsumeEntitlementResponse),
    CreateChunkResponse(chunk::CreateChunkResponse),
    ErrorSuccess(common::ErrorSuccess),
    ExtendTrialResponse(entitlements::ExtendTrialResponse),
    GetAllGameInfoResponse(game::GetAllGameInfoResponse),
    GetBlockListResponse(user::GetBlockListResponse),
    GetChunkPriorityResponse(chunk::GetChunkPriorityResponse),
    GetConfigResponse(system::GetConfigResponse),
    GetPresenceResponse(presence::GetPresenceResponse),
    GetPresenceVisibilityResponse(presence::GetPresenceVisibilityResponse),
    GetProfileResponse(profile::GetProfileResponse),
    GetSettingsResponse(system::GetSettingsResponse),
    GetUserProfileByEmailorEaidResponse(profile::GetUserProfileByEmailorEaidResponse),
    GetUtcTimeResponse(system::GetUtcTimeResponse),
    GetVoipStatusResponse(voip::GetVoipStatusResponse),
    GetWalletBalanceResponse(commerce::GetWalletBalanceResponse),
    GroupEnterEvent(groups::GroupEnterEvent),
    GroupInfo(groups::GroupInfo),
    InternetConnectedState(system::InternetConnectedState),
    IsFileDownloadedResponse(chunk::IsFileDownloadedResponse),
    IsProgressiveInstallationAvailableResponse(chunk::IsProgressiveInstallationAvailableResponse),
    QueryAreFriendsResponse(friends::QueryAreFriendsResponse),
    QueryChunkFilesResponse(chunk::QueryChunkFilesResponse),
    QueryEntitlementsResponse(entitlements::QueryEntitlementsResponse),
    QueryFriendsResponse(friends::QueryFriendsResponse),
    QueryGroupResponse(groups::QueryGroupResponse),
    QueryImageResponse(common::QueryImageResponse),
    QueryManifestResponse(entitlements::QueryManifestResponse),
    QueryMuteStateResponse(voip::QueryMuteStateResponse),
    QueryPresenceResponse(presence::QueryPresenceResponse),
}

/// Every event shape of the catalog.
#[derive(Debug, Clone, PartialEq)]
pub enum EventBody {
    AchievementSets(achievements::AchievementSets),
    BlockListUpdated(user::BlockListUpdated),
    BroadcastEvent(broadcast::BroadcastEvent),
    Challenge(auth::Challenge),
    ChatMessageEvent(chat::ChatMessageEvent),
    ChatStateUpdateEvent(chat::ChatStateUpdateEvent),
    CurrentUserPresenceEvent(presence::CurrentUserPresenceEvent),
    FriendsEvent(friends::FriendsEvent),
    GameMessageEvent(game::GameMessageEvent),
    GetPresenceResponse(presence::GetPresenceResponse),
    GroupEnterEvent(groups::GroupEnterEvent),
    GroupEvent(groups::GroupEvent),
    GroupInviteEvent(invites::GroupInviteEvent),
    GroupLeaveEvent(groups::GroupLeaveEvent),
    IgoEvent(overlay::IgoEvent),
    IgoUnavailable(overlay::IgoUnavailable),
    Login(auth::Login),
    MinimizeRequest(overlay::MinimizeRequest),
    MultiplayerInvite(invites::MultiplayerInvite),
    MultiplayerInvitePending(invites::MultiplayerInvitePending),
    OnlineStatusEvent(presence::OnlineStatusEvent),
    PresenceEvent(presence::PresenceEvent),
    PresenceVisibilityEvent(presence::PresenceVisibilityEvent),
    ProfileEvent(profile::ProfileEvent),
    PurchaseEvent(commerce::PurchaseEvent),
    QueryEntitlementsResponse(entitlements::QueryEntitlementsResponse),
    QueryFriendsResponse(friends::QueryFriendsResponse),
    RestoreRequest(system::RestoreRequest),
    SteamAchievementEvent(steam::SteamAchievementEvent),
    SteamActivateOverlayToStoreEvent(steam::SteamActivateOverlayToStoreEvent),
    UserInvitedEvent(invites::UserInvitedEvent),
    VoipStatusEvent(voip::VoipStatusEvent),
}

/// The tag of a response shape: what kind of response a body is, with the
/// payload stripped. A few tags name shapes that only ever occur as the
/// expected answer of a request.
#[derive(Debug, Clone, Copy, PartialEq, Eq, Structural)]
pub enum ResponseTag {
    Achievement,
    AchievementSets,
    AreChunksInstalledResponse,
    AuthCode,
    BroadcastStatus,
    ChallengeAccepted,
    CheckPermissionResponse,
    ConsumeEntitlementResponse,
    CreateChunkResponse,
    ErrorSuccess,
    ExtendTrialResponse,
    GetAllGameInfoResponse,
    GetBlockListResponse,
    GetChunkPriorityResponse,
    GetConfigResponse,
    GetPresenceResponse,
    GetPresenceVisibilityResponse,
    GetProfileResponse,
    GetSettingsResponse,
    GetUserProfileByEmailorEaidResponse,
    GetUtcTimeResponse,
    GetVoipStatusResponse,
    GetWalletBalanceResponse,
    GroupEnterEvent,
    GroupInfo,
    InternetConnectedState,
    IsFileDownloadedResponse,
    IsProgressiveInstallationAvailableResponse,
    QueryAreFriendsResponse,
    QueryChunkFilesResponse,
    QueryChunkStatusResponse,
    QueryContentResponse,
    QueryEntitlementsResponse,
    QueryFriendsResponse,
    QueryGroupResponse,
    QueryImageResponse,
    QueryManifestResponse,
    QueryMuteStateResponse,
    QueryOffersResponse,
    QueryPresenceResponse,
}

impl ResponseBody {
    /// The tag of this body.
    pub open spec fn spec_tag(&self) -> ResponseTag {
        match self {
            ResponseBody::Achievement(_) => ResponseTag::Achievement,
            ResponseBody::AchievementSets(_) => ResponseTag::AchievementSets,
            ResponseBody::AreChunksInstalledResponse(_) => ResponseTag::AreChunksInstalledResponse,
            ResponseBody::AuthCode(_) => ResponseTag::AuthCode,
            ResponseBody::BroadcastStatus(_) => ResponseTag::BroadcastStatus,
            ResponseBody::ChallengeAccepted(_) => ResponseTag::ChallengeAccepted,
            ResponseBody::CheckPermissionResponse(_) => ResponseTag::CheckPermissionResponse,
            ResponseBody::ConsumeEntitlementResponse(_) => ResponseTag::ConsumeEntitlementResponse,
            ResponseBody::CreateChunkResponse(_) => ResponseTag::CreateChunkResponse,
            ResponseBody::ErrorSuccess(_) => ResponseTag::ErrorSuccess,
            ResponseBody::ExtendTrialResponse(_) => ResponseTag::ExtendTrialResponse,
            ResponseBody::GetAllGameInfoResponse(_) => ResponseTag::GetAllGameInfoResponse,
            ResponseBody::GetBlockListResponse(_) => ResponseTag::GetBlockListResponse,
            ResponseBody::GetChunkPriorityResponse(_) => ResponseTag::GetChunkPriorityResponse,
            ResponseBody::GetConfigResponse(_) => ResponseTag::GetConfigResponse,
            ResponseBody::GetPresenceResponse(_) => ResponseTag::GetPresenceResponse,
            ResponseBody::GetPresenceVisibilityResponse(_) => ResponseTag::GetPresenceVisibilityResponse,
            ResponseBody::GetProfileResponse(_) => ResponseTag::GetProfileResponse,
            ResponseBody::GetSettingsResponse(_) => ResponseTag::GetSettingsResponse,
            ResponseBody::GetUserProfileByEmailorEaidResponse(_) => ResponseTag::GetUserProfileByEmailorEaidResponse,
            ResponseBody::GetUtcTimeResponse(_) => ResponseTag::GetUtcTimeResponse,
            ResponseBody::GetVoipStatusResponse(_) => ResponseTag::GetVoipStatusResponse,
            ResponseBody::GetWalletBalanceResponse(_) => ResponseTag::GetWalletBalanceResponse,
            ResponseBody::GroupEnterEvent(_) => ResponseTag::GroupEnterEvent,
            ResponseBody::GroupInfo(_) => ResponseTag::GroupInfo,
            ResponseBody::InternetConnectedState(_) => ResponseTag::InternetConnectedState,
            ResponseBody::IsFileDownloadedResponse(_) => ResponseTag::IsFileDownloadedResponse,
            ResponseBody::IsProgressiveInstallationAvailableResponse(_) => ResponseTag::IsProgressiveInstallationAvailableResponse,
            ResponseBody::QueryAreFriendsResponse(_) => ResponseTag::QueryAreFriendsResponse,
            ResponseBody::QueryChunkFilesResponse(_) => ResponseTag::QueryChunkFilesResponse,
            ResponseBody::QueryEntitlementsResponse(_) => ResponseTag::QueryEntitlementsResponse,
            ResponseBody::QueryFriendsResponse(_) => ResponseTag::QueryFriendsResponse,
            ResponseBody::QueryGroupResponse(_) => ResponseTag::QueryGroupResponse,
            ResponseBody::QueryImageResponse(_) => ResponseTag::QueryImageResponse,
            ResponseBody::QueryManifestResponse(_) => ResponseTag::QueryManifestResponse,
            ResponseBody::QueryMuteStateResponse(_) => ResponseTag::QueryMuteStateResponse,
            ResponseBody::QueryPresenceResponse(_) => ResponseTag::QueryPresenceResponse,
        }
    }

    /// Returns the tag of this body.
    pub fn tag(&self) -> (t: ResponseTag)
        ensures
            t == self.spec_tag(),
    {
        match self {
            ResponseBody::Achievement(_) => ResponseTag::Achievement,
            ResponseBody::AchievementSets(_) => ResponseTag::AchievementSets,
            ResponseBody::AreChunksInstalledResponse(_) => ResponseTag::AreChunksInstalledResponse,
            ResponseBody::AuthCode(_) => ResponseTag::AuthCode,
            ResponseBody::BroadcastStatus(_) => ResponseTag::BroadcastStatus,
            ResponseBody::ChallengeAccepted(_) => ResponseTag::ChallengeAccepted,
            ResponseBody::CheckPermissionResponse(_) => ResponseTag::CheckPermissionResponse,
            ResponseBody::ConsumeEntitlementResponse(_) => ResponseTag::ConsumeEntitlementResponse,
            ResponseBody::CreateChunkResponse(_) => ResponseTag::CreateChunkResponse,
            ResponseBody::ErrorSuccess(_) => ResponseTag::ErrorSuccess,
            ResponseBody::ExtendTrialResponse(_) => ResponseTag::ExtendTrialResponse,
            ResponseBody::GetAllGameInfoResponse(_) => ResponseTag::GetAllGameInfoResponse,
            ResponseBody::GetBlockListResponse(_) => ResponseTag::GetBlockListResponse,
            ResponseBody::GetChunkPriorityResponse(_) => ResponseTag::GetChunkPriorityResponse,
            ResponseBody::GetConfigResponse(_) => ResponseTag::GetConfigResponse,
            ResponseBody::GetPresenceResponse(_) => ResponseTag::GetPresenceResponse,
            ResponseBody::GetPresenceVisibilityResponse(_) => ResponseTag::GetPresenceVisibilityResponse,
            ResponseBody::GetProfileResponse(_) => ResponseTag::GetProfileResponse,
            ResponseBody::GetSettingsResponse(_) => ResponseTag::GetSettingsResponse,
            ResponseBody::GetUserProfileByEmailorEaidResponse(_) => ResponseTag::GetUserProfileByEmailorEaidResponse,
            ResponseBody::GetUtcTimeResponse(_) => ResponseTag::GetUtcTimeResponse,
            ResponseBody::GetVoipStatusResponse(_) => ResponseTag::GetVoipStatusResponse,
            ResponseBody::GetWalletBalanceResponse(_) => ResponseTag::GetWalletBalanceResponse,
            ResponseBody::GroupEnterEvent(_) => ResponseTag::GroupEnterEvent,
            ResponseBody::GroupInfo(_) => ResponseTag::GroupInfo,
            ResponseBody::InternetConnectedState(_) => ResponseTag::InternetConnectedState,
            ResponseBody::IsFileDownloadedResponse(_) => ResponseTag::IsFileDownloadedResponse,
            ResponseBody::IsProgressiveInstallationAvailableResponse(_) => ResponseTag::IsProgressiveInstallationAvailableResponse,
            ResponseBody::QueryAreFriendsResponse(_) => ResponseTag::QueryAreFriendsResponse,
            ResponseBody::QueryChunkFilesResponse(_) => ResponseTag::QueryChunkFilesResponse,
            ResponseBody::QueryEntitlementsResponse(_) => ResponseTag::QueryEntitlementsResponse,
            ResponseBody::QueryFriendsResponse(_) => ResponseTag::QueryFriendsResponse,
            ResponseBody::QueryGroupResponse(_) => ResponseTag::QueryGroupResponse,
            ResponseBody::QueryImageResponse(_) => ResponseTag::QueryImageResponse,
            ResponseBody::QueryManifestResponse(_) => ResponseTag::QueryManifestResponse,
            ResponseBody::QueryMuteStateResponse(_) => ResponseTag::QueryMuteStateResponse,
            ResponseBody::QueryPresenceResponse(_) => ResponseTag::QueryPresenceResponse,
        }
    }
}

impl RequestBody {
    /// The statically known tag of the response this request expects.
    pub open spec fn spec_expected_response(&self) -> ResponseTag {
        match self {
            RequestBody::AcceptFriendInvite(_) => ResponseTag::ErrorSuccess,
            RequestBody::AcceptInvite(_) => ResponseTag::ErrorSuccess,
            RequestBody::AddRecentPlayers(_) => ResponseTag::ErrorSuccess,
            RequestBody::AreChunksInstalled(_) => ResponseTag::AreChunksInstalledResponse,
            RequestBody::BlockUser(_) => ResponseTag::ErrorSuccess,
            RequestBody::BroadcastStart(_) => ResponseTag::ErrorSuccess,
            RequestBody::BroadcastStop(_) => ResponseTag::ErrorSuccess,
            RequestBody::ChallengeResponse(_) => ResponseTag::ChallengeAccepted,
            RequestBody::CheckPermission(_) => ResponseTag::CheckPermissionResponse,
            RequestBody::Checkout(_) => ResponseTag::ErrorSuccess,
            RequestBody::ConsumeEntitlement(_) => ResponseTag::ConsumeEntitlementResponse,
            RequestBody::CreateChunk(_) => ResponseTag::CreateChunkResponse,
            RequestBody::CreateGroup(_) => ResponseTag::GroupEnterEvent,
            RequestBody::EnableVoip(_) => ResponseTag::ErrorSuccess,
            RequestBody::EnterGroup(_) => ResponseTag::GroupInfo,
            RequestBody::ExtendTrial(_) => ResponseTag::ExtendTrialResponse,
            RequestBody::GetAllGameInfo(_) => ResponseTag::GetAllGameInfoResponse,
            RequestBody::GetAuthCode(_) => ResponseTag::AuthCode,
            RequestBody::GetBlockList(_) => ResponseTag::GetBlockListResponse,
            RequestBody::GetBroadcastStatus(_) => ResponseTag::BroadcastStatus,
            RequestBody::GetChunkPriority(_) => ResponseTag::GetChunkPriorityResponse,
            RequestBody::GetConfig(_) => ResponseTag::GetConfigResponse,
            RequestBody::GetGroupInfo(_) => ResponseTag::GroupEnterEvent,
            RequestBody::GetInternetConnectedState(_) => ResponseTag::InternetConnectedState,
            RequestBody::GetPresence(_) => ResponseTag::GetPresenceResponse,
            RequestBody::GetPresenceVisibility(_) => ResponseTag::GetPresenceVisibilityResponse,
            RequestBody::GetProfile(_) => ResponseTag::GetProfileResponse,
            RequestBody::GetSettings(_) => ResponseTag::GetSettingsResponse,
            RequestBody::GetUserProfileByEmailorEaid(_) => ResponseTag::GetUserProfileByEmailorEaidResponse,
            RequestBody::GetUtcTime(_) => ResponseTag::GetUtcTimeResponse,
            RequestBody::GetVoipStatus(_) => ResponseTag::GetVoipStatusResponse,
            RequestBody::GetWalletBalance(_) => ResponseTag::GetWalletBalanceResponse,
            RequestBody::GoOnline(_) => ResponseTag::ErrorSuccess,
            RequestBody::GrantAchievement(_) => ResponseTag::Achievement,
            RequestBody::InviteUsersToGroup(_) => ResponseTag::ErrorSuccess,
            RequestBody::IsFileDownloaded(_) => ResponseTag::IsFileDownloadedResponse,
            RequestBody::IsProgressiveInstallationAvailable(_) => ResponseTag::IsProgressiveInstallationAvailableResponse,
            RequestBody::LeaveGroup(_) => ResponseTag::ErrorSuccess,
            RequestBody::MuteUser(_) => ResponseTag::ErrorSuccess,
            RequestBody::PostAchievementEvents(_) => ResponseTag::ErrorSuccess,
            RequestBody::QueryAchievements(_) => ResponseTag::AchievementSets,
            RequestBody::QueryAreFriends(_) => ResponseTag::QueryAreFriendsResponse,
            RequestBody::QueryChunkFiles(_) => ResponseTag::QueryChunkFilesResponse,
            RequestBody::QueryChunkStatus(_) => ResponseTag::QueryChunkStatusResponse,
            RequestBody::QueryContent(_) => ResponseTag::QueryContentResponse,
            RequestBody::QueryEntitlements(_) => ResponseTag::QueryEntitlementsResponse,
            RequestBody::QueryFriends(_) => ResponseTag::QueryFriendsResponse,
            RequestBody::QueryGroup(_) => ResponseTag::QueryGroupResponse,
            RequestBody::QueryImage(_) => ResponseTag::QueryImageResponse,
            RequestBody::QueryManifest(_) => ResponseTag::QueryManifestResponse,
            RequestBody::QueryMuteState(_) => ResponseTag::QueryMuteStateResponse,
            RequestBody::QueryOffers(_) => ResponseTag::QueryOffersResponse,
            RequestBody::QueryPresence(_) => ResponseTag::QueryPresenceResponse,
            RequestBody::RemoveFriend(_) => ResponseTag::ErrorSuccess,
            RequestBody::RemoveUsersFromGroup(_) => ResponseTag::ErrorSuccess,
            RequestBody::RequestFriend(_) => ResponseTag::ErrorSuccess,
            RequestBody::RestartGame(_) => ResponseTag::ErrorSuccess,
            RequestBody::SendChatMessage(_) => ResponseTag::ErrorSuccess,
            RequestBody::SendGameMessage(_) => ResponseTag::ErrorSuccess,
            RequestBody::SendGroupGameInvite(_) => ResponseTag::ErrorSuccess,
            RequestBody::SendInvite(_) => ResponseTag::ErrorSuccess,
            RequestBody::SetChunkPriority(_) => ResponseTag::ErrorSuccess,
            RequestBody::SetPresence(_) => ResponseTag::ErrorSuccess,
            RequestBody::SetPresenceVisibility(_) => ResponseTag::ErrorSuccess,
            RequestBody::SetSteamLocale(_) => ResponseTag::ErrorSuccess,
            RequestBody::ShowIgo(_) => ResponseTag::ErrorSuccess,
            RequestBody::ShowIgoWindow(_) => ResponseTag::ErrorSuccess,
            RequestBody::StartGame(_) => ResponseTag::ErrorSuccess,
            RequestBody::SteamAchievementErrorTelemetry(_) => ResponseTag::ErrorSuccess,
            RequestBody::SteamPurchaseConfirmation(_) => ResponseTag::ErrorSuccess,
            RequestBody::SubscribePresence(_) => ResponseTag::ErrorSuccess,
            RequestBody::UnblockUser(_) => ResponseTag::ErrorSuccess,
            RequestBody::UnsubscribePresence(_) => ResponseTag::ErrorSuccess,
        }
    }

    /// Returns the tag of the response this request expects: the static
    /// request-to-response registry of the catalog.
    pub fn expected_response(&self) -> (t: ResponseTag)
        ensures
            t == self.spec_expected_response(),
    {
        match self {
            RequestBody::AcceptFriendInvite(_) => ResponseTag::ErrorSuccess,
            RequestBody::AcceptInvite(_) => ResponseTag::ErrorSuccess,
            RequestBody::AddRecentPlayers(_) => ResponseTag::ErrorSuccess,
            RequestBody::AreChunksInstalled(_) => ResponseTag::AreChunksInstalledResponse,
            RequestBody::BlockUser(_) => ResponseTag::ErrorSuccess,
            RequestBody::BroadcastStart(_) => ResponseTag::ErrorSuccess,
            RequestBody::BroadcastStop(_) => ResponseTag::ErrorSuccess,
            RequestBody::ChallengeResponse(_) => ResponseTag::ChallengeAccepted,
            RequestBody::CheckPermission(_) => ResponseTag::CheckPermissionResponse,
            RequestBody::Checkout(_) => ResponseTag::ErrorSuccess,
            RequestBody::ConsumeEntitlement(_) => ResponseTag::ConsumeEntitlementResponse,
            RequestBody::CreateChunk(_) => ResponseTag::CreateChunkResponse,
            RequestBody::CreateGroup(_) => ResponseTag::GroupEnterEvent,
            RequestBody::EnableVoip(_) => ResponseTag::ErrorSuccess,
            RequestBody::EnterGroup(_) => ResponseTag::GroupInfo,
            RequestBody::ExtendTrial(_) => ResponseTag::ExtendTrialResponse,
            RequestBody::GetAllGameInfo(_) => ResponseTag::GetAllGameInfoResponse,
            RequestBody::GetAuthCode(_) => ResponseTag::AuthCode,
            RequestBody::GetBlockList(_) => ResponseTag::GetBlockListResponse,
            RequestBody::GetBroadcastStatus(_) => ResponseTag::BroadcastStatus,
            RequestBody::GetChunkPriority(_) => ResponseTag::GetChunkPriorityResponse,
            RequestBody::GetConfig(_) => ResponseTag::GetConfigResponse,
            RequestBody::GetGroupInfo(_) => ResponseTag::GroupEnterEvent,
            RequestBody::GetInternetConnectedState(_) => ResponseTag::InternetConnectedState,
            RequestBody::GetPresence(_) => ResponseTag::GetPresenceResponse,
            RequestBody::GetPresenceVisibility(_) => ResponseTag::GetPresenceVisibilityResponse,
            RequestBody::GetProfile(_) => ResponseTag::GetProfileResponse,
            RequestBody::GetSettings(_) => ResponseTag::GetSettingsResponse,
            RequestBody::GetUserProfileByEmailorEaid(_) => ResponseTag::GetUserProfileByEmailorEaidResponse,
            RequestBody::GetUtcTime(_) => ResponseTag::GetUtcTimeResponse,
            RequestBody::GetVoipStatus(_) => ResponseTag::GetVoipStatusResponse,
            RequestBody::GetWalletBalance(_) => ResponseTag::GetWalletBalanceResponse,
            RequestBody::GoOnline(_) => ResponseTag::ErrorSuccess,
            RequestBody::GrantAchievement(_) => ResponseTag::Achievement,
            RequestBody::InviteUsersToGroup(_) => ResponseTag::ErrorSuccess,
            RequestBody::IsFileDownloaded(_) => ResponseTag::IsFileDownloadedResponse,
            RequestBody::IsProgressiveInstallationAvailable(_) => ResponseTag::IsProgressiveInstallationAvailableResponse,
            RequestBody::LeaveGroup(_) => ResponseTag::ErrorSuccess,
            RequestBody::MuteUser(_) => ResponseTag::ErrorSuccess,
            RequestBody::PostAchievementEvents(_) => ResponseTag::ErrorSuccess,
            RequestBody::QueryAchievements(_) => ResponseTag::AchievementSets,
            RequestBody::QueryAreFriends(_) => ResponseTag::QueryAreFriendsResponse,
            RequestBody::QueryChunkFiles(_) => ResponseTag::QueryChunkFilesResponse,
            RequestBody::QueryChunkStatus(_) => ResponseTag::QueryChunkStatusResponse,
            RequestBody::QueryContent(_) => ResponseTag::QueryContentResponse,
            RequestBody::QueryEntitlements(_) => ResponseTag::QueryEntitlementsResponse,
            RequestBody::QueryFriends(_) => ResponseTag::QueryFriendsResponse,
            RequestBody::QueryGroup(_) => ResponseTag::QueryGroupResponse,
            RequestBody::QueryImage(_) => ResponseTag::QueryImageResponse,
            RequestBody::QueryManifest(_) => ResponseTag::QueryManifestResponse,
            RequestBody::QueryMuteState(_) => ResponseTag::QueryMuteStateResponse,
            RequestBody::QueryOffers(_) => ResponseTag::QueryOffersResponse,
            RequestBody::QueryPresence(_) => ResponseTag::QueryPresenceResponse,
            RequestBody::RemoveFriend(_) => ResponseTag::ErrorSuccess,
            RequestBody::RemoveUsersFromGroup(_) => ResponseTag::ErrorSuccess,
            RequestBody::RequestFriend(_) => ResponseTag::ErrorSuccess,
            RequestBody::RestartGame(_) => ResponseTag::ErrorSuccess,
            RequestBody::SendChatMessage(_) => ResponseTag::ErrorSuccess,
            RequestBody::SendGameMessage(_) => ResponseTag::ErrorSuccess,
            RequestBody::SendGroupGameInvite(_) => ResponseTag::ErrorSuccess,
            RequestBody::SendInvite(_) => ResponseTag::ErrorSuccess,
            RequestBody::SetChunkPriority(_) => ResponseTag::ErrorSuccess,
            RequestBody::SetPresence(_) => ResponseTag::ErrorSuccess,
            RequestBody::SetPresenceVisibility(_) => ResponseTag::ErrorSuccess,
            RequestBody::SetSteamLocale(_) => ResponseTag::ErrorSuccess,
            RequestBody::ShowIgo(_) => ResponseTag::ErrorSuccess,
            RequestBody::ShowIgoWindow(_) => ResponseTag::ErrorSuccess,
            RequestBody::StartGame(_) => ResponseTag::ErrorSuccess,
            RequestBody::SteamAchievementErrorTelemetry(_) => ResponseTag::ErrorSuccess,
            RequestBody::SteamPurchaseConfirmation(_) => ResponseTag::ErrorSuccess,
            RequestBody::SubscribePresence(_) => ResponseTag::ErrorSuccess,
            RequestBody::UnblockUser(_) => ResponseTag::ErrorSuccess,
            RequestBody::UnsubscribePresence(_) => ResponseTag::ErrorSuccess,
        }
    }
}

} // verus!
