//! Hexadecimal encoding and decoding of byte strings, as used on the wire:
//! every steady-state frame is the hex form of an encrypted payload.
//!
//! The conversions themselves are done by the `hex` crate; this module pins
//! their behaviour down with exact specifications.

use vstd::prelude::*;

verus! {

/// The lowercase hexadecimal digit for a value below 16.
pub open spec fn hex_digit_char(v: u8) -> char {
    match v {
        0u8 => '0',
        1u8 => '1',
        2u8 => '2',
        3u8 => '3',
        4u8 => '4',
        5u8 => '5',
        6u8 => '6',
        7u8 => '7',
        8u8 => '8',
        9u8 => '9',
        10u8 => 'a',
        11u8 => 'b',
        12u8 => 'c',
        13u8 => 'd',
        14u8 => 'e',
        15u8 => 'f',
        _ => '0',
    }
}

/// The lowercase hexadecimal form of a byte string: two digits per byte,
/// high nibble first.
pub open spec fn hex_chars_of(b: Seq<u8>) -> Seq<char> {
    Seq::new(
        2 * b.len(),
        |i: int|
            if i % 2 == 0 {
                hex_digit_char((b[i / 2] / 16) as u8)
            } else {
                hex_digit_char((b[i / 2] % 16) as u8)
            },
    )
}

/// Whether `b` is the ASCII code of a hexadecimal digit, in either case.
pub open spec fn is_hex_digit_byte(b: u8) -> bool {
    (48 <= b <= 57) || (97 <= b <= 102) || (65 <= b <= 70)
}

/// The value of the hexadecimal digit with ASCII code `b`.
pub open spec fn hex_digit_val(b: u8) -> u8 {
    if 48 <= b <= 57 {
        (b - 48) as u8
    } else if 97 <= b <= 102 {
        (b - 87) as u8
    } else {
        (b - 55) as u8
    }
}

/// Whether a byte string is well-formed hexadecimal: even length, every byte
/// a digit.
pub open spec fn hex_decode_ok(s: Seq<u8>) -> bool {
    s.len() % 2 == 0 && forall|i: int| 0 <= i < s.len() ==> is_hex_digit_byte(#[trigger] s[i])
}

/// The byte string denoted by well-formed hexadecimal text.
pub open spec fn hex_decoded(s: Seq<u8>) -> Seq<u8> {
    Seq::new(
        s.len() / 2,
        |i: int| (hex_digit_val(s[2 * i]) * 16 + hex_digit_val(s[2 * i + 1])) as u8,
    )
}

/// Relies on `hex::encode`: the result is the lowercase hexadecimal form of
/// the input, two digits per byte, high nibble first.
#[verifier::external_body]
pub(crate) fn hex_encode(bytes: &[u8]) -> (r: String)
    ensures
        r@ == hex_chars_of(bytes@),
{
    hex::encode(bytes)
}

/// Relies on `hex::decode`: it succeeds exactly on even-length strings of
/// hexadecimal digits (either case) and returns the bytes they denote.
#[verifier::external_body]
pub(crate) fn hex_decode(data: &[u8]) -> (r: Option<Vec<u8>>)
    ensures
        match r {
            Some(v) => hex_decode_ok(data@) && v@ == hex_decoded(data@),
            None => !hex_decode_ok(data@),
        },
{
    hex::decode(data).ok()
}

/// Hexadecimal text is printable ASCII: every digit character is below
/// `0x80` and none is the NUL frame terminator.
pub proof fn lemma_hex_chars_ascii(b: Seq<u8>)
    ensures
        vstd::utf8::is_ascii_chars(hex_chars_of(b)),
        forall|i: int|
            0 <= i < hex_chars_of(b).len() ==> 48 <= (#[trigger] hex_chars_of(b)[i]) as u32 <= 102,
{
    assert forall|i: int| 0 <= i < hex_chars_of(b).len() implies '\0' <= #[trigger] hex_chars_of(
        b,
    )[i] <= '\u{7f}' && 48 <= hex_chars_of(b)[i] as u32 <= 102 by {
        let v = if i % 2 == 0 {
            (b[i / 2] / 16) as u8
        } else {
            (b[i / 2] % 16) as u8
        };
        assert(hex_chars_of(b)[i] == hex_digit_char(v));
    }
}

/// Encoding a byte and reading the two digits back yields the byte: the two
/// directions of the hexadecimal maps invert each other.
pub proof fn lemma_hex_round_trip(b: Seq<u8>)
    ensures
        hex_decode_ok(encode_utf8_ascii(hex_chars_of(b))),
        hex_decoded(encode_utf8_ascii(hex_chars_of(b))) =~= b,
{
    let chars = hex_chars_of(b);
    let bytes = encode_utf8_ascii(chars);
    assert forall|i: int| 0 <= i < bytes.len() implies is_hex_digit_byte(#[trigger] bytes[i]) by {
        let v = if i % 2 == 0 {
            (b[i / 2] / 16) as u8
        } else {
            (b[i / 2] % 16) as u8
        };
        assert(bytes[i] == hex_digit_char(v) as u8);
    }
    assert forall|i: int| 0 <= i < b.len() implies hex_decoded(bytes)[i] == b[i] by {
        let hi = (b[i] / 16) as u8;
        let lo = (b[i] % 16) as u8;
        assert(bytes[2 * i] == hex_digit_char(hi) as u8);
        assert(bytes[2 * i + 1] == hex_digit_char(lo) as u8);
        assert(hex_digit_val(hex_digit_char(hi) as u8) == hi);
        assert(hex_digit_val(hex_digit_char(lo) as u8) == lo);
        assert(hi * 16 + lo == b[i]);
    }
}

/// The UTF-8 bytes of an ASCII character sequence, character by character.
pub open spec fn encode_utf8_ascii(chars: Seq<char>) -> Seq<u8> {
    Seq::new(chars.len(), |i: int| chars[i] as u8)
}

/// For ASCII text the UTF-8 encoding is the byte-per-character map.
pub proof fn lemma_encode_utf8_ascii(chars: Seq<char>)
    requires
        vstd::utf8::is_ascii_chars(chars),
    ensures
        vstd::utf8::encode_utf8(chars) =~= encode_utf8_ascii(chars),
{
    vstd::utf8::is_ascii_chars_encode_utf8(chars);
}

} // verus!
