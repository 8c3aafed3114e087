//! Text encodings of byte strings: hex and base64url.

use vstd::prelude::*;

use base64_url::base64::DecodeError;
use hex::FromHexError;

verus! {

/// The lower-case hex digit of a value below 16.
pub open spec fn hex_digit(n: u8) -> char {
    if n < 10 {
        ((n + 48) as u8) as char
    } else {
        ((n + 87) as u8) as char
    }
}

/// Lower-case hex text of `b`, two digits per byte, high nibble first.
pub open spec fn hex_lower(b: Seq<u8>) -> Seq<char>
    decreases b.len(),
{
    if b.len() == 0 {
        seq![]
    } else {
        seq![hex_digit(b[0] / 16), hex_digit(b[0] % 16)] + hex_lower(b.drop_first())
    }
}

/// The value of one hex digit, in either case.
pub open spec fn hex_value(c: u8) -> Option<u8> {
    if 48 <= c <= 57 {
        Some((c - 48) as u8)
    } else if 97 <= c <= 102 {
        Some((c - 87) as u8)
    } else if 65 <= c <= 70 {
        Some((c - 55) as u8)
    } else {
        None
    }
}

/// The bytes that hex text `s` stands for: pairs of hex digits, high nibble
/// first; `None` for an odd length or a character that is no hex digit.
pub open spec fn hex_decoded(s: Seq<u8>) -> Option<Seq<u8>>
    decreases s.len(),
{
    if s.len() == 0 {
        Some(seq![])
    } else if s.len() == 1 {
        None
    } else {
        match (hex_value(s[0]), hex_value(s[1]), hex_decoded(s.skip(2))) {
            (Some(hi), Some(lo), Some(rest)) => Some(seq![(hi * 16 + lo) as u8] + rest),
            _ => None,
        }
    }
}

/// Base64url text, without padding, of `b`.
pub uninterp spec fn base64url_of(b: Seq<u8>) -> Seq<char>;

/// The bytes that unpadded base64url text `s` stands for, where it is valid.
pub uninterp spec fn base64url_decoded(s: Seq<char>) -> Option<Seq<u8>>;

#[verifier::external_type_specification]
#[verifier::external_body]
pub struct ExFromHexError(FromHexError);

#[verifier::external_type_specification]
#[verifier::external_body]
pub struct ExDecodeError(DecodeError);

/// Relies on hex::encode: lower-case digits, two per byte, in order.
#[verifier::external_body]
pub(crate) fn hex_encode(b: &[u8]) -> (r: String)
    ensures
        r@ == hex_lower(b@),
{
    hex::encode(b)
}

/// Relies on hex::decode: pairs of digits of either case; an odd length or
/// another character is an error.
#[verifier::external_body]
pub(crate) fn hex_decode(s: &[u8]) -> (r: Result<Vec<u8>, FromHexError>)
    ensures
        match r {
            Ok(v) => hex_decoded(s@) == Some(v@),
            Err(_) => hex_decoded(s@) is None,
        },
{
    hex::decode(s)
}

/// Relies on base64_url::encode: URL-safe alphabet, no padding.
#[verifier::external_body]
pub(crate) fn base64url_encode(b: &[u8]) -> (r: String)
    ensures
        r@ == base64url_of(b@),
{
    base64_url::encode(b)
}

/// Relies on base64_url::decode: URL-safe alphabet, no padding.
#[verifier::external_body]
pub(crate) fn base64url_decode(s: &str) -> (r: Result<Vec<u8>, DecodeError>)
    ensures
        match r {
            Ok(v) => base64url_decoded(s@) == Some(v@),
            Err(_) => base64url_decoded(s@) is None,
        },
{
    base64_url::decode(s)
}

} // verus!
