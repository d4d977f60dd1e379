//! The textual form of keys: 64 hexadecimal digits for 32 bytes.
//!
//! Text is written in lower case and read in either case. The digits
//! themselves are turned into bytes, and bytes into digits, by the `hex`
//! crate; what this module states of it is the meaning of hexadecimal text,
//! [`decoded`] and [`encoded`].

use crate::identity::{PublicKey, SecretKey, KEY_LEN};
use hex::FromHexError;
use vstd::prelude::*;
use vstd::utf8::{
    char_is_scalar, encode_scalar, encode_utf8, has_width_1_encoding, is_ascii_chars,
    is_ascii_chars_encode_utf8,
};

verus! {

/// The error of the `hex` crate, carried through as it comes.
#[verifier::external_type_specification]
#[verifier::external_body]
pub struct ExFromHexError(hex::FromHexError);

/// Why a text is not a key.
#[derive(Clone, Copy, Debug, PartialEq)]
pub enum ParseErr {
    /// The text is not hexadecimal: it holds a character that is no
    /// hexadecimal digit, or an odd number of digits.
    InvalidHex(FromHexError),
    /// The text is hexadecimal, but not of 32 bytes.
    BadLength,
}

impl ParseErr {
    /// A short name for the error, the same for both variants.
    pub fn to_string(&self) -> (text: String)
        ensures
            text@ == "ParseErr"@,
    {
        "ParseErr".to_owned()
    }
}

impl From<FromHexError> for ParseErr {
    fn from(other: FromHexError) -> (err: ParseErr) {
        ParseErr::InvalidHex(other)
    }
}

impl vstd::std_specs::convert::FromSpecImpl<FromHexError> for ParseErr {
    open spec fn obeys_from_spec() -> bool {
        true
    }

    open spec fn from_spec(other: FromHexError) -> ParseErr {
        ParseErr::InvalidHex(other)
    }
}

/// `c` is one of `0`..`9`, `a`..`f`.
pub open spec fn is_lower_hex_digit(c: char) -> bool {
    ('0' <= c <= '9') || ('a' <= c <= 'f')
}

/// `c` is one of `0`..`9`, `a`..`f`, `A`..`F`.
pub open spec fn is_hex_digit(c: char) -> bool {
    is_lower_hex_digit(c) || ('A' <= c <= 'F')
}

/// The number, 0 to 15, that the hexadecimal digit `c` stands for.
pub open spec fn digit_value(c: char) -> int {
    if '0' <= c <= '9' {
        c as u32 - '0' as u32
    } else if 'a' <= c <= 'f' {
        c as u32 - 'a' as u32 + 10
    } else {
        c as u32 - 'A' as u32 + 10
    }
}

/// The lower-case hexadecimal digit that stands for `v`, 0 to 15.
pub open spec fn lower_hex_digit(v: int) -> char {
    if v < 10 {
        ('0' as u32 + v) as u8 as char
    } else {
        ('a' as u32 + v - 10) as u8 as char
    }
}

/// Every character of `text` is a hexadecimal digit.
pub open spec fn all_hex_digits(text: Seq<char>) -> bool {
    forall|i: int| 0 <= i < text.len() ==> is_hex_digit(#[trigger] text[i])
}

/// Every character of `text` is a lower-case hexadecimal digit.
pub open spec fn all_lower_hex_digits(text: Seq<char>) -> bool {
    forall|i: int| 0 <= i < text.len() ==> is_lower_hex_digit(#[trigger] text[i])
}

/// `text` is hexadecimal: an even number of hexadecimal digits.
pub open spec fn is_hex_text(text: Seq<char>) -> bool {
    text.len() % 2 == 0 && all_hex_digits(text)
}

/// `text` is the hexadecimal form of some 32 bytes.
pub open spec fn is_key_text(text: Seq<char>) -> bool {
    is_hex_text(text) && text.len() == 64
}

/// The bytes that the hexadecimal `text` stands for: each pair of digits is
/// one byte, the first digit its upper half.
pub open spec fn decoded(text: Seq<char>) -> Seq<u8> {
    Seq::new(
        text.len() / 2,
        |i: int| (16 * digit_value(text[2 * i]) + digit_value(text[2 * i + 1])) as u8,
    )
}

/// The lower-case hexadecimal form of `bytes`: two digits for each byte, the
/// upper half first.
pub open spec fn encoded(bytes: Seq<u8>) -> Seq<char> {
    Seq::new(
        2 * bytes.len(),
        |i: int|
            if i % 2 == 0 {
                lower_hex_digit(bytes[i / 2] as int / 16)
            } else {
                lower_hex_digit(bytes[i / 2] as int % 16)
            },
    )
}

/// The characters that `bytes` are when each byte is read as the character
/// with that code.
pub open spec fn bytes_as_chars(bytes: Seq<u8>) -> Seq<char> {
    Seq::new(bytes.len(), |i: int| bytes[i] as char)
}

/// `hex::decode` on the UTF-8 bytes of `src`.
///
/// The call succeeds exactly when the number of bytes is even and each byte
/// is the code of a hexadecimal digit, of either case. It then returns one
/// byte for each pair of digits, the first digit being the upper half. What
/// the error holds is not stated.
#[verifier::external_body]
fn hex_decode(src: &str) -> (r: Result<Vec<u8>, FromHexError>)
    ensures
        r is Ok <==> is_hex_text(bytes_as_chars(encode_utf8(src@))),
        r is Ok ==> r->Ok_0@ == decoded(bytes_as_chars(encode_utf8(src@))),
{
    hex::decode(src)
}

/// `hex::encode` on `data`.
///
/// The result holds two lower-case hexadecimal digits for each byte, in the
/// order of the bytes, the upper half of a byte first.
#[verifier::external_body]
fn hex_encode(data: &[u8]) -> (text: String)
    ensures
        text@ == encoded(data@),
{
    hex::encode(data)
}

/// Checks that `bytes` are 32 and hands them back as an array.
pub fn vec_to_array32(bytes: Vec<u8>) -> (r: Result<[u8; 32], ParseErr>)
    ensures
        bytes@.len() == 32 ==> r is Ok && r->Ok_0@ == bytes@,
        bytes@.len() != 32 ==> r is Err && r->Err_0 is BadLength,
{
    if bytes.len() != KEY_LEN {
        Err(ParseErr::BadLength)
    } else {
        let mut slice = [0u8; 32];
        let mut i: usize = 0;
        while i < KEY_LEN
            invariant
                i <= KEY_LEN,
                bytes@.len() == KEY_LEN,
                forall|j: int| 0 <= j < i ==> slice@[j] == bytes@[j],
            decreases KEY_LEN - i,
        {
            slice[i] = bytes[i];
            i += 1;
        }
        Ok(slice)
    }
}

/// Reads a key from its textual form.
///
/// The text is a key exactly when it is 64 hexadecimal digits, of either
/// case; the key is then [`decoded`] of it. Any other text is refused whole:
/// as `InvalidHex` when it is not hexadecimal, as `BadLength` when it is
/// hexadecimal of another length.
pub fn parse_as_array32(src: &str) -> (r: Result<[u8; 32], ParseErr>)
    ensures
        r is Ok <==> is_key_text(src@),
        r is Ok ==> r->Ok_0@ == decoded(src@),
        !is_hex_text(src@) <==> r is Err && r->Err_0 is InvalidHex,
        is_hex_text(src@) && src@.len() != 64 <==> r is Err && r->Err_0 is BadLength,
{
    proof {
        lemma_hex_text_in_utf8(src@);
    }
    match hex_decode(src) {
        Ok(bytes) => vec_to_array32(bytes),
        Err(e) => Err(ParseErr::from(e)),
    }
}

/// Reads a secret key from its textual form, as [`parse_as_array32`] does.
pub fn sk_from_hex(src: &str) -> (r: Result<SecretKey, ParseErr>)
    ensures
        r is Ok <==> is_key_text(src@),
        r is Ok ==> r->Ok_0@ == decoded(src@),
        !is_hex_text(src@) <==> r is Err && r->Err_0 is InvalidHex,
        is_hex_text(src@) && src@.len() != 64 <==> r is Err && r->Err_0 is BadLength,
{
    match parse_as_array32(src) {
        Ok(bytes) => Ok(SecretKey::from_bytes(bytes)),
        Err(e) => Err(e),
    }
}

/// Reads a public key from its textual form, as [`parse_as_array32`] does.
pub fn pk_from_hex(src: &str) -> (r: Result<PublicKey, ParseErr>)
    ensures
        r is Ok <==> is_key_text(src@),
        r is Ok ==> r->Ok_0@ == decoded(src@),
        !is_hex_text(src@) <==> r is Err && r->Err_0 is InvalidHex,
        is_hex_text(src@) && src@.len() != 64 <==> r is Err && r->Err_0 is BadLength,
{
    match parse_as_array32(src) {
        Ok(bytes) => Ok(PublicKey::from_bytes(bytes)),
        Err(e) => Err(e),
    }
}

/// The textual form of a secret key: 64 lower-case hexadecimal digits.
pub fn sk_to_hex(sk: SecretKey) -> (text: String)
    ensures
        text@ == encoded(sk@),
        text@.len() == 64,
        all_lower_hex_digits(text@),
{
    proof {
        lemma_encoded_is_lower_hex(sk@);
    }
    let bytes = sk.into_bytes();
    hex_encode(bytes.as_slice())
}

/// The textual form of a public key: 64 lower-case hexadecimal digits.
pub fn pk_to_hex(pk: PublicKey) -> (text: String)
    ensures
        text@ == encoded(pk@),
        text@.len() == 64,
        all_lower_hex_digits(text@),
{
    proof {
        lemma_encoded_is_lower_hex(pk@);
    }
    let bytes = pk.into_bytes();
    hex_encode(bytes.as_slice())
}

/// The digit for a number below 16 is a lower-case hexadecimal digit, and it
/// stands for that number.
pub proof fn lemma_lower_hex_digit(v: int)
    requires
        0 <= v < 16,
    ensures
        is_lower_hex_digit(lower_hex_digit(v)),
        is_hex_digit(lower_hex_digit(v)),
        digit_value(lower_hex_digit(v)) == v,
{
}

/// The textual form of any bytes is hexadecimal text in lower case, two
/// digits for each byte.
pub proof fn lemma_encoded_is_lower_hex(bytes: Seq<u8>)
    ensures
        encoded(bytes).len() == 2 * bytes.len(),
        all_lower_hex_digits(encoded(bytes)),
        is_hex_text(encoded(bytes)),
        bytes.len() == 32 ==> is_key_text(encoded(bytes)),
{
    let text = encoded(bytes);
    assert forall|i: int| 0 <= i < text.len() implies is_lower_hex_digit(#[trigger] text[i]) by {
        lemma_lower_hex_digit(bytes[i / 2] as int / 16);
        lemma_lower_hex_digit(bytes[i / 2] as int % 16);
    }
}

/// Reading back what was written gives the bytes that were written: for any
/// bytes, and so for every key, the textual form is accepted and decodes to
/// them.
pub proof fn lemma_decode_encode_round_trip(bytes: Seq<u8>)
    ensures
        is_hex_text(encoded(bytes)),
        decoded(encoded(bytes)) == bytes,
        bytes.len() == 32 ==> is_key_text(encoded(bytes)),
{
    lemma_encoded_is_lower_hex(bytes);
    let text = encoded(bytes);
    assert forall|i: int| 0 <= i < bytes.len() implies decoded(text)[i] == bytes[i] by {
        let b = bytes[i] as int;
        lemma_lower_hex_digit(b / 16);
        lemma_lower_hex_digit(b % 16);
    }
}

/// Every character lies in the range of its type.
proof fn lemma_char_in_range(c: char)
    ensures
        '\0' <= c <= '\u{10ffff}',
{
}

/// A text whose UTF-8 bytes are all below 128 holds ASCII characters only.
proof fn lemma_ascii_bytes_ascii_text(text: Seq<char>)
    requires
        forall|i: int| 0 <= i < encode_utf8(text).len() ==> #[trigger] encode_utf8(text)[i] < 0x80,
    ensures
        is_ascii_chars(text),
    decreases text.len(),
{
    if text.len() > 0 {
        lemma_char_in_range(text[0]);
        char_is_scalar(text[0]);
        let c = text[0] as u32;
        let head = encode_scalar(c);
        let rest = encode_utf8(text.drop_first());
        assert(encode_utf8(text)[0] == head[0]);
        if !has_width_1_encoding(c) {
            let y2: u8 = ((c >> 6) & 0x1F) as u8;
            let y3: u8 = ((c >> 12) & 0x0F) as u8;
            let y4: u8 = ((c >> 18) & 0x7) as u8;
            assert(0xC0u8 | y2 >= 0x80u8) by (bit_vector);
            assert(0xE0u8 | y3 >= 0x80u8) by (bit_vector);
            assert(0xF0u8 | y4 >= 0x80u8) by (bit_vector);
        }
        assert forall|i: int| 0 <= i < rest.len() implies #[trigger] rest[i] < 0x80 by {
            assert(encode_utf8(text)[head.len() + i] == rest[i]);
        }
        lemma_ascii_bytes_ascii_text(text.drop_first());
        assert forall|i: int| 0 <= i < text.len() implies '\0' <= #[trigger] text[i] <= '\u{7f}' by {
            if i > 0 {
                assert(text[i] == text.drop_first()[i - 1]);
            }
        }
    }
}

/// Hexadecimal text is ASCII, so that its UTF-8 bytes are its characters;
/// and a text that is not hexadecimal has UTF-8 bytes that are not.
pub proof fn lemma_hex_text_in_utf8(text: Seq<char>)
    ensures
        is_hex_text(bytes_as_chars(encode_utf8(text))) <==> is_hex_text(text),
        is_hex_text(text) ==> bytes_as_chars(encode_utf8(text)) == text,
{
    let bytes = encode_utf8(text);
    let read = bytes_as_chars(bytes);
    if all_hex_digits(read) {
        assert forall|i: int| 0 <= i < bytes.len() implies #[trigger] bytes[i] < 0x80 by {
            assert(is_hex_digit(read[i]));
        }
        lemma_ascii_bytes_ascii_text(text);
    }
    if all_hex_digits(text) {
        assert(is_ascii_chars(text));
    }
    if is_ascii_chars(text) {
        is_ascii_chars_encode_utf8(text);
        assert(read =~= text);
    }
}

} // verus!
