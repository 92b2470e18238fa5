use origin_sdk::crypto::Crypto;
use origin_sdk::handshake::{
    ClientConfig, HandshakeAction, HandshakeEngine, HandshakeError, HandshakeState,
};
use origin_sdk::protocol::auth::{Challenge, ChallengeAccepted};
use origin_sdk::protocol::common::ErrorSuccess;
use origin_sdk::protocol::{Event, EventBody, Message, RequestBody, Response, ResponseBody};

fn test_config() -> ClientConfig {
    ClientConfig {
        content_id: "Origin.OFR.50.0001000".to_string(),
        language: "en_US".to_string(),
        multiplayer_id: String::new(),
        title: String::new(),
        sdk_version: None,
    }
}

fn challenge_event(key: &str) -> Message {
    Message::Event(Event {
        sender: "EALS".to_string(),
        body: EventBody::Challenge(Challenge {
            key: key.to_string(),
            version: "1".to_string(),
            build: "release".to_string(),
        }),
    })
}

#[test]
fn test_handshake_success() {
    let mut engine = HandshakeEngine::new();
    let mut crypto = Crypto::new(0);
    let config = test_config();
    assert_eq!(engine.state(), HandshakeState::AwaitingChallenge);

    // The scripted server first sends Challenge { key: "ABCD" }.
    let action = engine.on_message(challenge_event("ABCD"), &mut crypto, &config);
    let lsx = match action {
        HandshakeAction::SendChallengeResponse(lsx) => lsx,
        other => panic!("expected a challenge response to send, got {:?}", other),
    };
    assert_eq!(engine.state(), HandshakeState::AwaitingAccepted);

    // The request echoes the challenge key and carries the computed token.
    let req = match lsx.message {
        Message::Request(req) => req,
        other => panic!("expected a request envelope, got {:?}", other),
    };
    assert_eq!(req.id, "0");
    assert_eq!(req.recipient, "EALS");
    let cr = match req.body {
        RequestBody::ChallengeResponse(cr) => cr,
        other => panic!("expected a challenge response body, got {:?}", other),
    };
    assert_eq!(cr.key, "ABCD");
    assert_eq!(cr.response, "d7bb16f2fa9fda67b2e8bfaa336cba87");
    assert_eq!(cr.protocol_version, "2");
    assert_eq!(cr.sdk_version, "9.10.1.7");
    assert_eq!(cr.content_id, "Origin.OFR.50.0001000");

    // Answering the challenge rotated the session key.
    assert_ne!(
        crypto.key().as_slice(),
        [0, 1, 2, 3, 4, 5, 6, 7, 8, 9, 10, 11, 12, 13, 14, 15]
    );

    // After receiving the request, the server replies ChallengeAccepted.
    let accepted = Message::Response(Response {
        id: "0".to_string(),
        sender: "EALS".to_string(),
        body: ResponseBody::ChallengeAccepted(ChallengeAccepted {
            response: "ok".to_string(),
        }),
    });
    let action = engine.on_message(accepted, &mut crypto, &config);
    assert_eq!(action, HandshakeAction::Authenticated);
    assert_eq!(engine.state(), HandshakeState::Authenticated);
}

#[test]
fn test_sdk_version_override() {
    let mut engine = HandshakeEngine::new();
    let mut crypto = Crypto::new(0);
    let mut config = test_config();
    config.sdk_version = Some("9.9.9.9".to_string());

    let action = engine.on_message(challenge_event("ABCD"), &mut crypto, &config);
    let HandshakeAction::SendChallengeResponse(lsx) = action else {
        panic!("expected a challenge response to send");
    };
    let Message::Request(req) = lsx.message else {
        panic!("expected a request envelope");
    };
    let RequestBody::ChallengeResponse(cr) = req.body else {
        panic!("expected a challenge response body");
    };
    assert_eq!(cr.sdk_version, "9.9.9.9");
}

#[test]
fn test_handshake_empty_challenge_key_fails() {
    let mut engine = HandshakeEngine::new();
    let mut crypto = Crypto::new(0);
    let config = test_config();

    let action = engine.on_message(challenge_event(""), &mut crypto, &config);
    assert!(matches!(
        action,
        HandshakeAction::Fail(HandshakeError::Crypto(_))
    ));
    assert_eq!(engine.state(), HandshakeState::Failed);
    // No session state leaked: the key is still the pre-handshake key.
    assert_eq!(
        crypto.key().as_slice(),
        [0, 1, 2, 3, 4, 5, 6, 7, 8, 9, 10, 11, 12, 13, 14, 15]
    );
}

#[test]
fn test_handshake_unexpected_response_fails() {
    let mut engine = HandshakeEngine::new();
    let mut crypto = Crypto::new(0);
    let config = test_config();

    let action = engine.on_message(challenge_event("ABCD"), &mut crypto, &config);
    assert!(matches!(action, HandshakeAction::SendChallengeResponse(_)));

    // A server that replies with any other response tag fails the handshake.
    let wrong = Message::Response(Response {
        id: "0".to_string(),
        sender: "EALS".to_string(),
        body: ResponseBody::ErrorSuccess(ErrorSuccess {
            code: 0,
            description: "not an acceptance".to_string(),
        }),
    });
    let action = engine.on_message(wrong, &mut crypto, &config);
    assert_eq!(
        action,
        HandshakeAction::Fail(HandshakeError::UnexpectedResponse)
    );
    assert_eq!(engine.state(), HandshakeState::Failed);
}

#[test]
fn test_handshake_ignores_unrelated_messages() {
    let mut engine = HandshakeEngine::new();
    let mut crypto = Crypto::new(0);
    let config = test_config();

    // Anything that is not an event carrying a challenge is ignored while
    // waiting for the challenge.
    let unrelated = Message::Response(Response {
        id: "5".to_string(),
        sender: "EALS".to_string(),
        body: ResponseBody::ErrorSuccess(ErrorSuccess {
            code: 0,
            description: String::new(),
        }),
    });
    let action = engine.on_message(unrelated, &mut crypto, &config);
    assert_eq!(action, HandshakeAction::Ignore);
    assert_eq!(engine.state(), HandshakeState::AwaitingChallenge);

    // While waiting for the acceptance, events are ignored too.
    engine.on_message(challenge_event("ABCD"), &mut crypto, &config);
    let action = engine.on_message(challenge_event("ABCD"), &mut crypto, &config);
    assert_eq!(action, HandshakeAction::Ignore);
    assert_eq!(engine.state(), HandshakeState::AwaitingAccepted);
}
