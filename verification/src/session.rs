//! The request path and the reader path of an authenticated session.
//!
//! Outbound: a request envelope is built with the correlator's ID in decimal
//! and the fixed recipient, serialized to XML outside the library, then
//! encrypted and hex-encoded here into the frame payload. Inbound: a frame is
//! hex-decoded and decrypted here into XML text, parsed outside the library,
//! and the resulting message is routed to the event channel or, by its ID, to
//! the correlator. A malformed frame is skipped, never fatal.

use crate::crypto::{aes_enc_bytes, spec_decrypt, Crypto, CryptoError};
use crate::hexcode::{encode_utf8_ascii, hex_chars_of, hex_decode, hex_decode_ok, hex_decoded,
    hex_encode};
use crate::protocol::{Event, Lsx, Message, Request, RequestBody, Response, ResponseBody,
    ResponseTag};
use vstd::prelude::*;
use vstd::string::{StrSliceExecFns, StringExecFns};
use vstd::utf8::encode_utf8;

verus! {

/// The well-known local TCP port the platform's IPC service listens on.
pub const DEFAULT_PORT: u16 = 3216;

/// The decimal digit for a value below ten.
pub open spec fn decimal_digit(d: u64) -> char {
    match d {
        0u64 => '0',
        1u64 => '1',
        2u64 => '2',
        3u64 => '3',
        4u64 => '4',
        5u64 => '5',
        6u64 => '6',
        7u64 => '7',
        8u64 => '8',
        9u64 => '9',
        _ => '0',
    }
}

/// The decimal form of a number, most significant digit first, no sign and
/// no leading zero.
pub open spec fn spec_decimal(n: u64) -> Seq<char>
    decreases n,
{
    if n < 10 {
        seq![decimal_digit(n)]
    } else {
        spec_decimal(n / 10).push(decimal_digit(n % 10))
    }
}

/// Whether `c` is a decimal digit.
pub open spec fn is_decimal_digit(c: char) -> bool {
    48 <= c as u32 <= 57
}

/// The value of a decimal digit.
pub open spec fn digit_value(c: char) -> int {
    c as u32 - 48
}

/// Whether `t` is a non-empty string of decimal digits.
pub open spec fn is_decimal_string(t: Seq<char>) -> bool {
    t.len() > 0 && forall|i: int| 0 <= i < t.len() ==> is_decimal_digit(#[trigger] t[i])
}

/// The number a digit string denotes.
pub open spec fn decimal_value(t: Seq<char>) -> int
    decreases t.len(),
{
    if t.len() == 0 {
        0
    } else {
        decimal_value(t.drop_last()) * 10 + digit_value(t.last())
    }
}

/// One digit as a string slice.
fn digit_str(d: u64) -> (r: &'static str)
    requires
        d < 10,
    ensures
        r@ == seq![decimal_digit(d)],
{
    proof {
        reveal_strlit("0");
        reveal_strlit("1");
        reveal_strlit("2");
        reveal_strlit("3");
        reveal_strlit("4");
        reveal_strlit("5");
        reveal_strlit("6");
        reveal_strlit("7");
        reveal_strlit("8");
        reveal_strlit("9");
    }
    match d {
        0 => "0",
        1 => "1",
        2 => "2",
        3 => "3",
        4 => "4",
        5 => "5",
        6 => "6",
        7 => "7",
        8 => "8",
        _ => "9",
    }
}

/// Writes a request ID in decimal, as it travels in the envelope's `id`
/// attribute.
pub fn u64_to_decimal(n: u64) -> (s: String)
    ensures
        s@ == spec_decimal(n),
    decreases n,
{
    if n < 10 {
        digit_str(n).to_owned()
    } else {
        let mut s = u64_to_decimal(n / 10);
        s.append(digit_str(n % 10));
        s
    }
}

/// A digit string is worth at least any of its prefixes.
proof fn lemma_decimal_prefix_bound(t: Seq<char>, j: int)
    requires
        0 <= j <= t.len(),
        forall|i: int| 0 <= i < t.len() ==> is_decimal_digit(#[trigger] t[i]),
    ensures
        decimal_value(t) >= decimal_value(t.take(j)),
        decimal_value(t) >= 0,
    decreases t.len() - j,
{
    if j == t.len() {
        assert(t.take(j) =~= t);
        lemma_decimal_nonneg(t);
    } else {
        lemma_decimal_prefix_bound(t, j + 1);
        assert(t.take(j + 1).drop_last() =~= t.take(j));
        assert(t.take(j + 1).last() == t[j]);
        lemma_decimal_nonneg(t.take(j));
    }
}

/// A digit string never denotes a negative number.
proof fn lemma_decimal_nonneg(t: Seq<char>)
    requires
        forall|i: int| 0 <= i < t.len() ==> is_decimal_digit(#[trigger] t[i]),
    ensures
        decimal_value(t) >= 0,
    decreases t.len(),
{
    if t.len() > 0 {
        lemma_decimal_nonneg(t.drop_last());
    }
}

/// The digit written for a value below ten reads back as that value.
proof fn lemma_decimal_digit_value(d: u64)
    requires
        d < 10,
    ensures
        is_decimal_digit(decimal_digit(d)),
        digit_value(decimal_digit(d)) == d,
{
    if d == 0 {
        assert(decimal_digit(d) == '0' && '0' as u32 == 48);
    } else if d == 1 {
        assert(decimal_digit(d) == '1' && '1' as u32 == 49);
    } else if d == 2 {
        assert(decimal_digit(d) == '2' && '2' as u32 == 50);
    } else if d == 3 {
        assert(decimal_digit(d) == '3' && '3' as u32 == 51);
    } else if d == 4 {
        assert(decimal_digit(d) == '4' && '4' as u32 == 52);
    } else if d == 5 {
        assert(decimal_digit(d) == '5' && '5' as u32 == 53);
    } else if d == 6 {
        assert(decimal_digit(d) == '6' && '6' as u32 == 54);
    } else if d == 7 {
        assert(decimal_digit(d) == '7' && '7' as u32 == 55);
    } else if d == 8 {
        assert(decimal_digit(d) == '8' && '8' as u32 == 56);
    } else {
        assert(decimal_digit(d) == '9' && '9' as u32 == 57);
    }
}

/// Writing a number in decimal and reading the digits back yields the
/// number: the id a request carries joins it to its response exactly.
pub proof fn lemma_decimal_round_trip(n: u64)
    ensures
        is_decimal_string(spec_decimal(n)),
        decimal_value(spec_decimal(n)) == n,
    decreases n,
{
    if n < 10 {
        lemma_decimal_digit_value(n);
        let t = spec_decimal(n);
        assert(t =~= seq![decimal_digit(n)]);
        assert(t.drop_last() =~= Seq::<char>::empty());
        assert(decimal_value(Seq::<char>::empty()) == 0);
        assert(decimal_value(t) == decimal_value(t.drop_last()) * 10 + digit_value(t.last()));
    } else {
        lemma_decimal_round_trip(n / 10);
        lemma_decimal_digit_value(n % 10);
        let t = spec_decimal(n);
        assert(t.drop_last() =~= spec_decimal(n / 10));
        assert(decimal_value(t) == decimal_value(spec_decimal(n / 10)) * 10 + digit_value(
            decimal_digit(n % 10),
        ));
        assert(n == (n / 10) * 10 + (n % 10));
        assert forall|i: int| 0 <= i < t.len() implies is_decimal_digit(#[trigger] t[i]) by {
            if i < t.len() - 1 {
                assert(t[i] == spec_decimal(n / 10)[i]);
            }
        }
    }
}

/// Reads a request ID back from its decimal form: the number the digits
/// denote, or nothing when the text is not all digits, is empty, or denotes
/// a number too large for the ID width.
pub fn parse_decimal(s: &str) -> (r: Option<u64>)
    ensures
        match r {
            Some(n) => is_decimal_string(s@) && decimal_value(s@) == n,
            None => !is_decimal_string(s@) || decimal_value(s@) > u64::MAX,
        },
{
    let len = s.unicode_len();
    if len == 0 {
        return None;
    }
    let mut acc: u64 = 0;
    let mut i: usize = 0;
    while i < len
        invariant
            0 < len == s@.len(),
            i <= len,
            forall|j: int| 0 <= j < i ==> is_decimal_digit(#[trigger] s@[j]),
            acc == decimal_value(s@.take(i as int)),
        decreases len - i,
    {
        let c = s.get_char(i);
        let u = c as u32;
        if u < 48 || u > 57 {
            return None;
        }
        let d = (u - 48) as u64;
        proof {
            assert(s@.take(i + 1).drop_last() =~= s@.take(i as int));
            assert(s@.take(i + 1).last() == s@[i as int]);
        }
        let m = match acc.checked_mul(10) {
            Some(m) => m,
            None => {
                proof {
                    if forall|j: int| 0 <= j < s@.len() ==> is_decimal_digit(#[trigger] s@[j]) {
                        lemma_decimal_prefix_bound(s@, i + 1);
                    }
                }
                return None;
            },
        };
        let v = match m.checked_add(d) {
            Some(v) => v,
            None => {
                proof {
                    if forall|j: int| 0 <= j < s@.len() ==> is_decimal_digit(#[trigger] s@[j]) {
                        lemma_decimal_prefix_bound(s@, i + 1);
                    }
                }
                return None;
            },
        };
        acc = v;
        i = i + 1;
    }
    proof {
        assert(s@.take(len as int) =~= s@);
    }
    Some(acc)
}

/// Builds the envelope of one outbound request: the decimal ID, the fixed
/// universal recipient, and the body. The platform routes every facility
/// through this one recipient service.
pub fn build_request(id: u64, body: RequestBody) -> (lsx: Lsx)
    ensures
        lsx.message matches Message::Request(req) && req.id@ == spec_decimal(id) && req.recipient@
            == "EbisuSDK"@ && req.body == body,
{
    let request = Request { id: u64_to_decimal(id), recipient: String::from_str("EbisuSDK"), body };
    Lsx { message: Message::Request(request) }
}

/// Turns serialized XML into the payload of one steady-state frame: the
/// hexadecimal form of the ciphertext, as ASCII bytes. The payload never
/// holds a NUL, so framing it keeps its boundary exact, and decoding it
/// under the same key yields the XML text back.
pub fn encode_outgoing(crypto: &Crypto, xml: String) -> (r: Result<Vec<u8>, CryptoError>)
    requires
        crypto.wf(),
    ensures
        r is Ok <==> xml@.len() > 0,
        r is Err ==> r == Err::<Vec<u8>, CryptoError>(CryptoError::EmptyInput),
        r matches Ok(payload) ==> {
            &&& payload@ == encode_utf8_ascii(
                hex_chars_of(aes_enc_bytes(crypto.spec_key(), encode_utf8(xml@))),
            )
            &&& payload@.len() > 0
            &&& forall|j: int| 0 <= j < payload@.len() ==> #[trigger] payload@[j] != 0
            &&& spec_decrypt(
                crypto.spec_key(),
                aes_enc_bytes(crypto.spec_key(), encode_utf8(xml@)),
            ) == Some(xml@)
        },
{
    let ct = match crypto.encrypt(xml) {
        Ok(ct) => ct,
        Err(e) => {
            return Err(e);
        },
    };
    let token = hex_encode(ct.as_slice());
    proof {
        crate::hexcode::lemma_hex_chars_ascii(ct@);
        crate::hexcode::lemma_encode_utf8_ascii(token@);
        vstd::utf8::is_ascii_chars_nat_bound(token@);
        assert forall|j: int| 0 <= j < token@.len() implies (#[trigger] token@[j]) as u8 != 0 by {
            assert(48 <= token@[j] as u32 <= 102);
            assert((token@[j] as nat) < 128);
        }
    }
    Ok(token.as_str().as_bytes_vec())
}

/// Why an inbound frame was set aside instead of decoded.
#[derive(Debug, Clone, Copy, PartialEq, Eq, Structural)]
pub enum DecodeFailure {
    /// The frame is not well-formed hexadecimal.
    InvalidHex,
    /// The ciphertext did not decrypt to UTF-8 text under the session key.
    Crypto(CryptoError),
}

/// What one inbound frame decodes to.
#[derive(Debug, Clone, PartialEq)]
pub enum FrameOutcome {
    /// The frame was empty: skipped, not malformed.
    Empty,
    /// The decoded XML text, ready to parse.
    Xml(String),
    /// The frame was malformed: logged and skipped, never fatal.
    Malformed(DecodeFailure),
}

/// Decodes one inbound frame: skips an empty frame, hex-decodes, and
/// decrypts under the session key.
pub fn decode_incoming(crypto: &Crypto, payload: &[u8]) -> (r: FrameOutcome)
    requires
        crypto.wf(),
    ensures
        payload@.len() == 0 ==> r == FrameOutcome::Empty,
        payload@.len() > 0 && !hex_decode_ok(payload@) ==> r == FrameOutcome::Malformed(
            DecodeFailure::InvalidHex,
        ),
        payload@.len() > 0 && hex_decode_ok(payload@) ==> match spec_decrypt(
            crypto.spec_key(),
            hex_decoded(payload@),
        ) {
            Some(text) => r matches FrameOutcome::Xml(s) && s@ == text,
            None => r matches FrameOutcome::Malformed(f) && f matches DecodeFailure::Crypto(_),
        },
{
    if payload.len() == 0 {
        return FrameOutcome::Empty;
    }
    let bytes = match hex_decode(payload) {
        Some(b) => b,
        None => {
            return FrameOutcome::Malformed(DecodeFailure::InvalidHex);
        },
    };
    proof {
        assert(payload@.len() % 2 == 0);
        assert(bytes@.len() > 0);
    }
    match crypto.decrypt(bytes) {
        Ok(s) => FrameOutcome::Xml(s),
        Err(e) => FrameOutcome::Malformed(DecodeFailure::Crypto(e)),
    }
}

/// Where the reader routes one parsed inbound message.
#[derive(Debug, Clone, PartialEq)]
pub enum Dispatch {
    /// An event: forwarded onto the event channel.
    DeliverEvent(Event),
    /// A response whose ID parsed: resolved against the correlator.
    Resolve { id: u64, response: Response },
    /// A response whose ID is not a decimal number of the ID width: dropped.
    MalformedId(Response),
    /// Anything else is ignored by the reader.
    Ignored,
}

/// Routes one parsed inbound message: events to the event channel, responses
/// to the correlator under their numeric ID, anything else nowhere.
pub fn dispatch_message(msg: Message) -> (d: Dispatch)
    ensures
        match msg {
            Message::Event(ev) => d == Dispatch::DeliverEvent(ev),
            Message::Response(resp) => {
                if is_decimal_string(resp.id@) && decimal_value(resp.id@) <= u64::MAX {
                    d matches Dispatch::Resolve { id, response } && id == decimal_value(resp.id@)
                        && response == resp
                } else {
                    d == Dispatch::MalformedId(resp)
                }
            },
            Message::Request(_) => d == Dispatch::Ignored,
        },
{
    match msg {
        Message::Event(ev) => Dispatch::DeliverEvent(ev),
        Message::Response(resp) => match parse_decimal(resp.id.as_str()) {
            Some(id) => Dispatch::Resolve { id, response: resp },
            None => Dispatch::MalformedId(resp),
        },
        Message::Request(_) => Dispatch::Ignored,
    }
}

/// How a response failed to answer what its request expected.
#[derive(Debug, Clone, PartialEq)]
pub enum ExtractError {
    /// The body is neither the expected shape nor a status envelope that may
    /// stand in for it.
    WrongResponseType,
    /// The platform answered with a hard error: a negative status code and
    /// its description.
    Platform { code: i32, description: String },
}

/// How a status code is classed.
#[derive(Debug, Clone, Copy, PartialEq, Eq, Structural)]
pub enum StatusClass {
    /// Zero: plain success.
    Success,
    /// One: the request is pending; treated as success and logged.
    Pending,
    /// Above one: a warning; logged, but the call does not fail.
    Warning,
    /// Negative: a hard error surfaced to the caller.
    Error,
}

/// Classes a status code: zero success, one pending, other positive values
/// warnings, negative values hard errors.
pub fn classify_code(code: i32) -> (r: StatusClass)
    ensures
        r == StatusClass::Success <==> code == 0,
        r == StatusClass::Pending <==> code == 1,
        r == StatusClass::Warning <==> code > 1,
        r == StatusClass::Error <==> code < 0,
{
    if code < 0 {
        StatusClass::Error
    } else if code == 0 {
        StatusClass::Success
    } else if code == 1 {
        StatusClass::Pending
    } else {
        StatusClass::Warning
    }
}

/// Applies the response-extraction rule shared by every typed request.
///
/// A status envelope with a negative code is a hard failure carrying the
/// platform's code and description, whatever was expected. A status envelope
/// with code zero stands for the expected response only when the request
/// expected a status envelope. Pending and warning codes never themselves
/// fail the call: the envelope is handed through for the caller to log.
/// Any other body must match the expected tag exactly.
pub fn extract_response(expected: ResponseTag, body: ResponseBody) -> (r: Result<
    ResponseBody,
    ExtractError,
>)
    ensures
        match body {
            ResponseBody::ErrorSuccess(es) => {
                if es.code < 0 {
                    r matches Err(e) && e matches ExtractError::Platform { code, description }
                        && code == es.code && description == es.description
                } else if expected == ResponseTag::ErrorSuccess || es.code >= 1 {
                    r == Ok::<ResponseBody, ExtractError>(ResponseBody::ErrorSuccess(es))
                } else {
                    r == Err::<ResponseBody, ExtractError>(ExtractError::WrongResponseType)
                }
            },
            _ => {
                if body.spec_tag() == expected {
                    r == Ok::<ResponseBody, ExtractError>(body)
                } else {
                    r == Err::<ResponseBody, ExtractError>(ExtractError::WrongResponseType)
                }
            },
        },
{
    match body {
        ResponseBody::ErrorSuccess(es) => {
            if es.code < 0 {
                Err(ExtractError::Platform { code: es.code, description: es.description })
            } else if es.code >= 1 {
                Ok(ResponseBody::ErrorSuccess(es))
            } else {
                if expected == ResponseTag::ErrorSuccess {
                    Ok(ResponseBody::ErrorSuccess(es))
                } else {
                    Err(ExtractError::WrongResponseType)
                }
            }
        },
        other => {
            let tag = other.tag();
            if tag == expected {
                Ok(other)
            } else {
                Err(ExtractError::WrongResponseType)
            }
        },
    }
}

} // verus!
