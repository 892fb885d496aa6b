//! Hexadecimal payload decoding.
//!
//! The gateway receives its payload as a hexadecimal string. The spec
//! functions here say exactly which strings are valid hex and which byte
//! sequence a valid string denotes; the decoder is the `hex` crate behind a
//! trusted wrapper whose contract states that meaning.

use vstd::prelude::*;

use crate::error::SignError;

verus! {

/// A hexadecimal digit: `0-9`, `a-f` or `A-F`.
pub open spec fn is_hex_digit(c: char) -> bool {
    ('0' as u32 <= c as u32 && c as u32 <= '9' as u32) || ('a' as u32 <= c as u32 && c as u32
        <= 'f' as u32) || ('A' as u32 <= c as u32 && c as u32 <= 'F' as u32)
}

/// The value of a hexadecimal digit, 0 through 15.
pub open spec fn hex_digit_value(c: char) -> int
    recommends
        is_hex_digit(c),
{
    if '0' as u32 <= c as u32 && c as u32 <= '9' as u32 {
        c as u32 - '0' as u32
    } else if 'a' as u32 <= c as u32 && c as u32 <= 'f' as u32 {
        c as u32 - 'a' as u32 + 10
    } else {
        c as u32 - 'A' as u32 + 10
    }
}

/// A valid hex payload: an even number of characters, all hex digits.
pub open spec fn is_valid_hex(s: Seq<char>) -> bool {
    s.len() % 2 == 0 && (forall|i: int| 0 <= i < s.len() ==> is_hex_digit(#[trigger] s[i]))
}

/// The byte sequence a valid hex string denotes: byte `i` is read from the
/// digit pair at positions `2i` and `2i + 1`, high digit first.
pub open spec fn hex_decoded(s: Seq<char>) -> Seq<u8>
    recommends
        is_valid_hex(s),
{
    Seq::new((s.len() / 2) as nat, |i: int| (hex_digit_value(s[2 * i]) * 16 + hex_digit_value(s[2 * i + 1])) as u8)
}

#[verifier::external_type_specification]
#[verifier::external_body]
pub struct ExFromHexError(hex::FromHexError);

/// Relies on `hex::decode`: it returns `Ok` exactly on strings of an even
/// number of hex digits (either case), and then each output byte is read
/// from one digit pair, high digit first.
#[verifier::external_body]
pub(crate) fn decode_hex_str(s: &str) -> (r: Result<Vec<u8>, hex::FromHexError>)
    ensures
        match r {
            Ok(v) => is_valid_hex(s@) && v@ == hex_decoded(s@),
            Err(_) => !is_valid_hex(s@),
        },
{
    hex::decode(s)
}

/// Decode a hex payload, or report the decode error with which the gateway
/// refuses a malformed one.
pub fn decode_payload(s: &str) -> (r: Result<Vec<u8>, SignError>)
    ensures
        match r {
            Ok(v) => is_valid_hex(s@) && v@ == hex_decoded(s@),
            Err(e) => !is_valid_hex(s@) && e == SignError::DecodeError,
        },
{
    match decode_hex_str(s) {
        Ok(v) => Ok(v),
        Err(_) => Err(SignError::DecodeError),
    }
}

} // verus!
