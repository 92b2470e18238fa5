//! Authentication and handshake message shapes.

use vstd::prelude::*;

verus! {

/// An authentication code handed back by the service.
#[derive(Debug, Clone, PartialEq)]
pub struct AuthCode {
    pub value: String,
}

/// The server's opening handshake challenge.
#[derive(Debug, Clone, PartialEq)]
pub struct Challenge {
    pub key: String,
    pub version: String,
    pub build: String,
}

/// The server's confirmation that the challenge response was accepted.
#[derive(Debug, Clone, PartialEq)]
pub struct ChallengeAccepted {
    pub response: String,
}

/// The client's answer to the handshake challenge, carrying the computed
/// response token and the session metadata.
#[derive(Debug, Clone, PartialEq)]
pub struct ChallengeResponse {
    pub response: String,
    pub key: String,
    pub protocol_version: String,
    pub content_id: String,
    pub title: String,
    pub multiplayer_id: String,
    pub language: String,
    pub sdk_version: String,
}

/// Requests an authentication code for a client.
#[derive(Debug, Clone, PartialEq)]
pub struct GetAuthCode {
    pub user_id: u64,
    pub client_id: String,
}

/// A login state change pushed by the server.
#[derive(Debug, Clone, PartialEq)]
pub struct Login {
    pub is_logged_in: bool,
    pub user_index: i32,
    pub login_reason_code: LoginReasonCode,
}

/// Why the login state changed.
#[derive(Debug, Clone, Copy, PartialEq, Eq, Structural)]
pub enum LoginReasonCode {
    Undefined,
    UserInitiated,
    AlreadyOnline,
    NetworkError,
    InvalidCredentials,
    AccesstokenRefreshError,
}

} // verus!
