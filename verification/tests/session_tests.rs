use origin_sdk::crypto::Crypto;
use origin_sdk::protocol::common::ErrorSuccess;
use origin_sdk::protocol::system::{GetInternetConnectedState, InternetConnectedState};
use origin_sdk::protocol::{Event, EventBody, Message, RequestBody, Response, ResponseBody,
    ResponseTag};
use origin_sdk::protocol::presence::OnlineStatusEvent;
use origin_sdk::session::{
    build_request, decode_incoming, dispatch_message, encode_outgoing, extract_response,
    classify_code, parse_decimal, u64_to_decimal, Dispatch, ExtractError, FrameOutcome,
    StatusClass,
};

#[test]
fn test_decimal_round_trip() {
    for n in [0u64, 1, 9, 10, 42, 1337, 1_000_000, u64::MAX] {
        let s = u64_to_decimal(n);
        assert_eq!(s, n.to_string());
        assert_eq!(parse_decimal(&s), Some(n));
    }
}

#[test]
fn test_parse_decimal_rejects_bad_input() {
    assert_eq!(parse_decimal(""), None);
    assert_eq!(parse_decimal("12a"), None);
    assert_eq!(parse_decimal("-5"), None);
    assert_eq!(parse_decimal(" 5"), None);
    assert_eq!(parse_decimal("99999999999999999999999"), None);
    assert_eq!(parse_decimal("18446744073709551615"), Some(u64::MAX));
    assert_eq!(parse_decimal("18446744073709551616"), None);
}

#[test]
fn test_build_request() {
    let lsx = build_request(
        17,
        RequestBody::GetInternetConnectedState(GetInternetConnectedState),
    );
    let req = match lsx.message {
        Message::Request(req) => req,
        other => panic!("expected a request envelope, got {:?}", other),
    };
    assert_eq!(req.id, "17");
    assert_eq!(req.recipient, "EbisuSDK");
    assert!(matches!(req.body, RequestBody::GetInternetConnectedState(_)));
}

#[test]
fn test_encode_decode_payload_round_trip() {
    let crypto = Crypto::new(1337);
    let xml = "<LSX><Request id=\"1\"/></LSX>".to_string();
    let payload = encode_outgoing(&crypto, xml.clone()).expect("encode");

    // The payload is hexadecimal ASCII: twice the ciphertext length, and
    // nothing like the plaintext.
    assert_eq!(payload.len(), 2 * 32);
    assert!(payload
        .iter()
        .all(|b| b.is_ascii_digit() || (b'a'..=b'f').contains(b)));

    match decode_incoming(&crypto, &payload) {
        FrameOutcome::Xml(s) => assert_eq!(s, xml),
        other => panic!("expected decoded text, got {:?}", other),
    }
}

#[test]
fn test_decode_incoming_skips_and_rejects() {
    let crypto = Crypto::new(0);
    assert_eq!(decode_incoming(&crypto, b""), FrameOutcome::Empty);
    assert!(matches!(
        decode_incoming(&crypto, b"zz"),
        FrameOutcome::Malformed(_)
    ));
    assert!(matches!(
        decode_incoming(&crypto, b"abc"),
        FrameOutcome::Malformed(_)
    ));
    // Well-formed hex that is not a valid ciphertext: skipped, not fatal.
    assert!(matches!(
        decode_incoming(&crypto, b"abcd"),
        FrameOutcome::Malformed(_)
    ));
}

#[test]
fn test_dispatch_routes_by_kind() {
    let event = Message::Event(Event {
        sender: "EALS".to_string(),
        body: EventBody::OnlineStatusEvent(OnlineStatusEvent { is_online: true }),
    });
    assert!(matches!(dispatch_message(event), Dispatch::DeliverEvent(_)));

    let response = Message::Response(Response {
        id: "41".to_string(),
        sender: "EbisuSDK".to_string(),
        body: ResponseBody::InternetConnectedState(InternetConnectedState { connected: 1 }),
    });
    match dispatch_message(response) {
        Dispatch::Resolve { id, response } => {
            assert_eq!(id, 41);
            assert_eq!(response.id, "41");
        }
        other => panic!("expected resolution by ID, got {:?}", other),
    }

    let bad_id = Message::Response(Response {
        id: "not-a-number".to_string(),
        sender: "EbisuSDK".to_string(),
        body: ResponseBody::InternetConnectedState(InternetConnectedState { connected: 1 }),
    });
    assert!(matches!(dispatch_message(bad_id), Dispatch::MalformedId(_)));
}

#[test]
fn test_extract_matching_tag() {
    let body = ResponseBody::InternetConnectedState(InternetConnectedState { connected: 1 });
    let out = extract_response(ResponseTag::InternetConnectedState, body.clone());
    assert_eq!(out, Ok(body));
}

#[test]
fn test_extract_mismatched_tag_fails() {
    let body = ResponseBody::InternetConnectedState(InternetConnectedState { connected: 1 });
    let out = extract_response(ResponseTag::GetProfileResponse, body);
    assert_eq!(out, Err(ExtractError::WrongResponseType));
}

#[test]
fn test_extract_negative_code_surfaces_platform_error() {
    // A hard error short-circuits extraction whatever was expected.
    let body = ResponseBody::ErrorSuccess(ErrorSuccess {
        code: -1610612733,
        description: "x".to_string(),
    });
    match extract_response(ResponseTag::GetProfileResponse, body) {
        Err(ExtractError::Platform { code, description }) => {
            assert_eq!(code, -1610612733);
            assert_eq!(description, "x");
        }
        other => panic!("expected a platform error, got {:?}", other),
    }
}

#[test]
fn test_extract_pending_is_not_an_error() {
    // Pending to a request expecting another type: extraction proceeds
    // rather than failing.
    let body = ResponseBody::ErrorSuccess(ErrorSuccess {
        code: 1,
        description: "pending".to_string(),
    });
    let out = extract_response(ResponseTag::GetProfileResponse, body.clone());
    assert_eq!(out, Ok(body));
}

#[test]
fn test_extract_success_code_only_for_status_requests() {
    let body = ResponseBody::ErrorSuccess(ErrorSuccess {
        code: 0,
        description: String::new(),
    });
    // Accepted when a status envelope is what the request expects.
    assert_eq!(
        extract_response(ResponseTag::ErrorSuccess, body.clone()),
        Ok(body.clone())
    );
    // Not transparently accepted for a differently-typed request.
    assert_eq!(
        extract_response(ResponseTag::GetProfileResponse, body),
        Err(ExtractError::WrongResponseType)
    );
}

#[test]
fn test_classify_code() {
    assert_eq!(classify_code(0), StatusClass::Success);
    assert_eq!(classify_code(1), StatusClass::Pending);
    assert_eq!(classify_code(2), StatusClass::Warning);
    assert_eq!(classify_code(0x40000000), StatusClass::Warning);
    assert_eq!(classify_code(-1), StatusClass::Error);
    assert_eq!(classify_code(i32::MIN), StatusClass::Error);
}
