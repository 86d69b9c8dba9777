//! Hexadecimal text of bytes, in both directions.
use vstd::prelude::*;
use hex::FromHexError;
use crate::ident::hex_char;

verus! {

/// The error type of hexadecimal decoding.
#[verifier::external_type_specification]
#[verifier::external_body]
pub struct ExFromHexError(FromHexError);

/// Lower-case hexadecimal text of bytes, two digits per byte, high nibble
/// first.
pub open spec fn hex_text(bytes: Seq<u8>) -> Seq<char> {
    Seq::new(2 * bytes.len(), |i: int| if i % 2 == 0 {
        hex_char((bytes[i / 2] / 16) as nat)
    } else {
        hex_char((bytes[i / 2] % 16) as nat)
    })
}

/// The value of a hexadecimal digit of either case.
pub open spec fn hex_digit_value(c: char) -> Option<nat> {
    if '0' <= c && c <= '9' {
        Some((c as nat - '0' as nat) as nat)
    } else if 'a' <= c && c <= 'f' {
        Some((c as nat - 'a' as nat + 10) as nat)
    } else if 'A' <= c && c <= 'F' {
        Some((c as nat - 'A' as nat + 10) as nat)
    } else {
        None
    }
}

/// `s` is an even number of hexadecimal digits.
pub open spec fn hex_decodable(s: Seq<char>) -> bool {
    &&& s.len() % 2 == 0
    &&& forall|i: int| 0 <= i < s.len() ==> (#[trigger] hex_digit_value(s[i])) is Some
}

/// The bytes an even number of hexadecimal digits denote, two digits a
/// byte, high nibble first.
pub open spec fn hex_bytes(s: Seq<char>) -> Seq<u8> {
    Seq::new(s.len() / 2, |i: int|
        (16 * hex_digit_value(s[2 * i])->0 + hex_digit_value(s[2 * i + 1])->0) as u8)
}

/// Hexadecimal text of bytes.
///
/// Calls `hex::encode(bytes)`, which writes each byte as two lower-case
/// hexadecimal digits, high nibble first: what `hex_text` states.
#[verifier::external_body]
pub(crate) fn encode_hex(bytes: &[u8]) -> (s: String)
    ensures
        s@ == hex_text(bytes@),
{
    hex::encode(bytes)
}

/// The bytes of hexadecimal text.
///
/// Calls `hex::decode(s)`, which reads the text's bytes two at a time as
/// digits of either case and fails on an odd length or on any other byte
/// (a character outside ASCII is such a byte): what `hex_decodable` and
/// `hex_bytes` state.
#[verifier::external_body]
pub(crate) fn decode_hex(s: &str) -> (r: Result<Vec<u8>, FromHexError>)
    ensures
        r is Ok <==> hex_decodable(s@),
        r matches Ok(b) ==> b@ == hex_bytes(s@),
{
    hex::decode(s)
}

/// The text of a decoding error.
///
/// Calls the `Display` impl of `FromHexError`; nothing is promised of the
/// text.
#[verifier::external_body]
pub(crate) fn hex_error_text(e: &FromHexError) -> (s: String) {
    e.to_string()
}

/// A lower-case digit is a digit, and its value is the digit's value.
proof fn lemma_hex_char_value(d: nat)
    requires
        d < 16,
    ensures
        hex_digit_value(hex_char(d)) == Some(d),
{
}

/// Hexadecimal text reads back to its bytes.
pub proof fn lemma_hex_round_trip(b: Seq<u8>)
    ensures
        hex_decodable(hex_text(b)),
        hex_bytes(hex_text(b)) == b,
        hex_text(b).len() == 2 * b.len(),
{
    let t = hex_text(b);
    assert forall|i: int| 0 <= i < t.len() implies (#[trigger] hex_digit_value(t[i])) is Some by {
        if i % 2 == 0 {
            lemma_hex_char_value((b[i / 2] / 16) as nat);
        } else {
            lemma_hex_char_value((b[i / 2] % 16) as nat);
        }
    }
    assert forall|i: int| 0 <= i < b.len() implies #[trigger] hex_bytes(t)[i] == b[i] by {
        lemma_hex_char_value((b[i] / 16) as nat);
        lemma_hex_char_value((b[i] % 16) as nat);
        assert((2 * i) % 2 == 0);
        assert((2 * i + 1) % 2 == 1);
        assert((2 * i) / 2 == i);
        assert((2 * i + 1) / 2 == i);
    }
    assert(hex_bytes(t) =~= b);
}

} // verus!
