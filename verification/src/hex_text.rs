//! Hexadecimal text: what a string of digits denotes, and the two calls into
//! the `hex` crate that write and read it.

use vstd::prelude::*;
use vstd::string::*;
use vstd::utf8::*;

verus! {

/// The lower-case hexadecimal digit for a value below sixteen.
pub open spec fn lower_digit(v: int) -> char
    recommends
        0 <= v < 16,
{
    if v < 10 {
        (0x30 + v) as char
    } else {
        (0x57 + v) as char
    }
}

/// The text that spells `bytes` in lower-case hexadecimal, two digits per byte,
/// the high half first.
pub open spec fn hex_text(bytes: Seq<u8>) -> Seq<char> {
    Seq::new(
        2 * bytes.len(),
        |i: int|
            if i % 2 == 0 {
                lower_digit(bytes[i / 2] as int / 16)
            } else {
                lower_digit(bytes[i / 2] as int % 16)
            },
    )
}

/// The value of one hexadecimal digit given as an ASCII byte; both cases count.
pub open spec fn digit_value(c: u8) -> Option<int> {
    if 0x30 <= c <= 0x39 {
        Some(c - 0x30)
    } else if 0x61 <= c <= 0x66 {
        Some(c - 0x57)
    } else if 0x41 <= c <= 0x46 {
        Some(c - 0x37)
    } else {
        None
    }
}

/// Whether `text` is an even number of hexadecimal digits.
pub open spec fn is_hex(text: Seq<u8>) -> bool {
    &&& text.len() % 2 == 0
    &&& forall|i: int| 0 <= i < text.len() ==> digit_value(#[trigger] text[i]) is Some
}

/// The bytes that `text` spells, where `text` is hexadecimal.
pub open spec fn hex_value(text: Seq<u8>) -> Seq<u8>
    recommends
        is_hex(text),
{
    Seq::new(
        text.len() / 2,
        |i: int| (16 * digit_value(text[2 * i]).unwrap() + digit_value(text[2 * i + 1]).unwrap()) as u8,
    )
}

/// What reading `text` as hexadecimal gives: the bytes it spells, or nothing
/// where it is no hexadecimal text.
pub open spec fn parse_hex(text: Seq<u8>) -> Option<Seq<u8>> {
    if is_hex(text) {
        Some(hex_value(text))
    } else {
        None
    }
}

/// The error of the `hex` crate, carried through unread.
#[verifier::external_type_specification]
#[verifier::external_body]
pub struct ExFromHexError(hex::FromHexError);

/// `hex::encode`. Trusted: the result spells `data` in lower-case digits, two
/// per byte, as the crate documents.
#[verifier::external_body]
pub(crate) fn encode(data: &[u8]) -> (text: String)
    ensures
        text@ == hex_text(data@),
{
    hex::encode(data)
}

/// `hex::decode`. Trusted: the call succeeds exactly on an even number of
/// digits of either case, and then returns the bytes they spell.
#[verifier::external_body]
pub(crate) fn decode(text: &[u8]) -> (r: Result<Vec<u8>, hex::FromHexError>)
    ensures
        r is Ok <==> is_hex(text@),
        r matches Ok(bytes) ==> bytes@ == hex_value(text@),
{
    hex::decode(text)
}

/// The text that spells `data` in hexadecimal. Reading it gives `data` back.
pub fn to_hex(data: &[u8]) -> (text: String)
    ensures
        text@ == hex_text(data@),
        parse_hex(encode_utf8(text@)) == Some(data@),
{
    proof {
        lemma_hex_round_trip(data@);
    }
    encode(data)
}

/// The bytes that `text` spells, unless it is no hexadecimal text.
pub fn from_hex(text: &str) -> (r: Option<Vec<u8>>)
    ensures
        r is Some <==> parse_hex(encode_utf8(text@)) is Some,
        r matches Some(bytes) ==> parse_hex(encode_utf8(text@)) == Some(bytes@),
{
    match decode(text.as_bytes()) {
        Ok(bytes) => Some(bytes),
        Err(_) => None,
    }
}

/// Hexadecimal text is plain ASCII, so its UTF-8 form has one byte per digit.
pub proof fn lemma_hex_text_bytes(bytes: Seq<u8>)
    ensures
        is_ascii_chars(hex_text(bytes)),
        encode_utf8(hex_text(bytes)).len() == 2 * bytes.len(),
        forall|i: int|
            0 <= i < 2 * bytes.len() ==> #[trigger] encode_utf8(hex_text(bytes))[i] == hex_text(
                bytes,
            )[i] as u8,
{
    let text = hex_text(bytes);
    assert forall|i: int| 0 <= i < text.len() implies '\0' <= #[trigger] text[i] <= '\u{7f}' by {
        let b = bytes[i / 2] as int;
        assert(0 <= b / 16 < 16 && 0 <= b % 16 < 16);
    }
    is_ascii_chars_encode_utf8(text);
}

/// Reading back what was written gives the bytes that were written.
pub proof fn lemma_hex_round_trip(bytes: Seq<u8>)
    ensures
        parse_hex(encode_utf8(hex_text(bytes))) == Some(bytes),
{
    let text = hex_text(bytes);
    let raw = encode_utf8(text);
    lemma_hex_text_bytes(bytes);
    assert forall|i: int| 0 <= i < raw.len() implies digit_value(#[trigger] raw[i]) is Some by {
        let b = bytes[i / 2] as int;
        assert(0 <= b / 16 < 16 && 0 <= b % 16 < 16);
        assert(raw[i] == text[i] as u8);
    }
    assert(is_hex(raw));
    assert forall|k: int| 0 <= k < bytes.len() implies hex_value(raw)[k] == bytes[k] by {
        let b = bytes[k] as int;
        assert(0 <= b / 16 < 16 && 0 <= b % 16 < 16);
        assert(raw[2 * k] == text[2 * k] as u8);
        assert(raw[2 * k + 1] == text[2 * k + 1] as u8);
        assert((2 * k) / 2 == k && (2 * k + 1) / 2 == k);
        assert((2 * k) % 2 == 0 && (2 * k + 1) % 2 == 1);
        assert(digit_value(raw[2 * k]).unwrap() == b / 16);
        assert(digit_value(raw[2 * k + 1]).unwrap() == b % 16);
        assert(16 * (b / 16) + b % 16 == b);
    }
    assert(hex_value(raw) =~= bytes);
}

} // verus!
