//! The challenge/response handshake that authenticates a session.
//!
//! The engine waits for an event carrying a challenge, answers it with a
//! challenge-response request addressed to the authentication service — the
//! one frame sent as plaintext XML, never encrypted — and then waits for the
//! acceptance. Answering the challenge silently rotates the session key, so
//! every later frame uses the rotated key. Any other response to the
//! challenge is fatal: no session is exposed after a failed handshake.

use crate::crypto::{aes_enc_bytes, challenge_seed, spec_key_from_seed, Crypto, CryptoError};
use crate::hexcode::hex_chars_of;
use crate::protocol::auth::ChallengeResponse;
use crate::protocol::{EventBody, Lsx, Message, Request, RequestBody, ResponseBody};
use vstd::prelude::*;
use vstd::string::StringExecFns;
use vstd::utf8::encode_utf8;

verus! {

/// The session metadata sent along with the challenge response.
#[derive(Debug, Clone, PartialEq)]
pub struct ClientConfig {
    /// The content identifier of the connecting title. Required.
    pub content_id: String,
    /// The display language.
    pub language: String,
    /// The multiplayer identifier.
    pub multiplayer_id: String,
    /// The display title.
    pub title: String,
    /// Overrides the reported SDK version; the fixed default is used when
    /// absent.
    pub sdk_version: Option<String>,
}

impl ClientConfig {
    /// The SDK version the handshake reports: the override, or the fixed
    /// default.
    pub open spec fn spec_sdk_version(&self) -> Seq<char> {
        match self.sdk_version {
            Some(s) => s@,
            None => "9.10.1.7"@,
        }
    }

    /// Returns the SDK version the handshake reports.
    pub fn effective_sdk_version(&self) -> (r: String)
        ensures
            r@ == self.spec_sdk_version(),
    {
        match &self.sdk_version {
            Some(s) => s.clone(),
            None => String::from_str("9.10.1.7"),
        }
    }
}

/// Where the handshake stands.
#[derive(Debug, Clone, Copy, PartialEq, Eq, Structural)]
pub enum HandshakeState {
    /// Nothing authenticated yet: reading frames until a challenge arrives.
    AwaitingChallenge,
    /// The response was sent: reading frames until the server answers it.
    AwaitingAccepted,
    /// Terminal success: the session is authenticated.
    Authenticated,
    /// Terminal failure: connection establishment is aborted.
    Failed,
}

/// Why the handshake failed.
#[derive(Debug, Clone, Copy, PartialEq, Eq, Structural)]
pub enum HandshakeError {
    /// Computing the response token failed; fatal during the handshake.
    Crypto(CryptoError),
    /// The server answered the challenge response with something other than
    /// an acceptance.
    UnexpectedResponse,
}

/// What the caller must do after feeding one message to the engine.
#[derive(Debug, Clone, PartialEq)]
pub enum HandshakeAction {
    /// The message does not advance the handshake: keep reading.
    Ignore,
    /// Send this envelope as plaintext XML — the one unencrypted frame — and
    /// keep reading.
    SendChallengeResponse(Lsx),
    /// The handshake is complete.
    Authenticated,
    /// The handshake failed; abort the connection.
    Fail(HandshakeError),
}

/// The handshake state machine. Feed it every message read from the stream
/// until it answers `Authenticated` or `Fail`.
pub struct HandshakeEngine {
    state: HandshakeState,
}

impl HandshakeEngine {
    /// Where the handshake stands.
    pub closed spec fn spec_state(&self) -> HandshakeState {
        self.state
    }

    /// Creates an engine waiting for the server's challenge.
    pub fn new() -> (r: HandshakeEngine)
        ensures
            r.spec_state() == HandshakeState::AwaitingChallenge,
    {
        HandshakeEngine { state: HandshakeState::AwaitingChallenge }
    }

    /// The current state, for inspection.
    pub fn state(&self) -> (r: HandshakeState)
        ensures
            r == self.spec_state(),
    {
        self.state
    }

    /// Advances the handshake by one inbound message.
    ///
    /// Waiting for the challenge, any message that is not an event carrying
    /// a challenge is ignored. The challenge is answered by a request with
    /// ID `"0"` to the fixed authentication recipient, carrying the echoed
    /// challenge key, the response token computed from it under the
    /// pre-handshake key, and the session metadata; computing the token
    /// rotates `crypto`'s key. Waiting for the acceptance, any message that
    /// is not a response is ignored; a response that is not an acceptance is
    /// a fatal failure.
    pub fn on_message(&mut self, msg: Message, crypto: &mut Crypto, config: &ClientConfig) -> (r:
        HandshakeAction)
        requires
            old(crypto).wf(),
        ensures
            final(crypto).wf(),
            match old(self).spec_state() {
                HandshakeState::AwaitingChallenge => match msg {
                    Message::Event(ev) => match ev.body {
                        EventBody::Challenge(ch) => {
                            if ch.key@.len() > 0 {
                                &&& final(self).spec_state() == HandshakeState::AwaitingAccepted
                                &&& r matches HandshakeAction::SendChallengeResponse(lsx)
                                    && lsx.message matches Message::Request(req) && {
                                    &&& req.id@ == "0"@
                                    &&& req.recipient@ == "EALS"@
                                    &&& req.body matches RequestBody::ChallengeResponse(cr) && {
                                        &&& cr.response@ == hex_chars_of(
                                            aes_enc_bytes(
                                                old(crypto).spec_key(),
                                                encode_utf8(ch.key@),
                                            ),
                                        )
                                        &&& cr.key == ch.key
                                        &&& cr.protocol_version@ == "2"@
                                        &&& cr.content_id == config.content_id
                                        &&& cr.language == config.language
                                        &&& cr.multiplayer_id == config.multiplayer_id
                                        &&& cr.title == config.title
                                        &&& cr.sdk_version@ == config.spec_sdk_version()
                                        &&& final(crypto).spec_key() == spec_key_from_seed(
                                            challenge_seed(cr.response@),
                                        )
                                    }
                                }
                            } else {
                                &&& final(self).spec_state() == HandshakeState::Failed
                                &&& r == HandshakeAction::Fail(
                                    HandshakeError::Crypto(CryptoError::EmptyInput),
                                )
                                &&& *final(crypto) == *old(crypto)
                            }
                        },
                        _ => {
                            &&& final(self).spec_state() == old(self).spec_state()
                            &&& r == HandshakeAction::Ignore
                            &&& *final(crypto) == *old(crypto)
                        },
                    },
                    _ => {
                        &&& final(self).spec_state() == old(self).spec_state()
                        &&& r == HandshakeAction::Ignore
                        &&& *final(crypto) == *old(crypto)
                    },
                },
                HandshakeState::AwaitingAccepted => match msg {
                    Message::Response(resp) => match resp.body {
                        ResponseBody::ChallengeAccepted(_) => {
                            &&& final(self).spec_state() == HandshakeState::Authenticated
                            &&& r == HandshakeAction::Authenticated
                            &&& *final(crypto) == *old(crypto)
                        },
                        _ => {
                            &&& final(self).spec_state() == HandshakeState::Failed
                            &&& r == HandshakeAction::Fail(HandshakeError::UnexpectedResponse)
                            &&& *final(crypto) == *old(crypto)
                        },
                    },
                    _ => {
                        &&& final(self).spec_state() == old(self).spec_state()
                        &&& r == HandshakeAction::Ignore
                        &&& *final(crypto) == *old(crypto)
                    },
                },
                _ => {
                    &&& final(self).spec_state() == old(self).spec_state()
                    &&& r == HandshakeAction::Ignore
                    &&& *final(crypto) == *old(crypto)
                },
            },
    {
        match self.state {
            HandshakeState::AwaitingChallenge => {
                match msg {
                    Message::Event(ev) => match ev.body {
                        EventBody::Challenge(ch) => {
                            let token = match crypto.prepare_challenge_response(ch.key.as_str()) {
                                Ok(token) => token,
                                Err(e) => {
                                    self.state = HandshakeState::Failed;
                                    return HandshakeAction::Fail(HandshakeError::Crypto(e));
                                },
                            };
                            let body = ChallengeResponse {
                                response: token,
                                key: ch.key,
                                protocol_version: String::from_str("2"),
                                content_id: config.content_id.clone(),
                                title: config.title.clone(),
                                multiplayer_id: config.multiplayer_id.clone(),
                                language: config.language.clone(),
                                sdk_version: config.effective_sdk_version(),
                            };
                            let request = Request {
                                id: String::from_str("0"),
                                recipient: String::from_str("EALS"),
                                body: RequestBody::ChallengeResponse(body),
                            };
                            self.state = HandshakeState::AwaitingAccepted;
                            HandshakeAction::SendChallengeResponse(
                                Lsx { message: Message::Request(request) },
                            )
                        },
                        _ => HandshakeAction::Ignore,
                    },
                    _ => HandshakeAction::Ignore,
                }
            },
            HandshakeState::AwaitingAccepted => {
                match msg {
                    Message::Response(resp) => match resp.body {
                        ResponseBody::ChallengeAccepted(_) => {
                            self.state = HandshakeState::Authenticated;
                            HandshakeAction::Authenticated
                        },
                        _ => {
                            self.state = HandshakeState::Failed;
                            HandshakeAction::Fail(HandshakeError::UnexpectedResponse)
                        },
                    },
                    _ => HandshakeAction::Ignore,
                }
            },
            _ => HandshakeAction::Ignore,
        }
    }
}

} // verus!
