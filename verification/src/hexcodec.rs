//! Hexadecimal transport encoding.
//!
//! Raw frames travel between the worker roles as lowercase hex strings.  The
//! conversions are done by the `hex` crate; the spec functions here state
//! exactly what those conversions return.

use vstd::prelude::*;

verus! {

/// True for the characters that can appear in a hex string.
pub open spec fn is_hex_digit_char(c: char) -> bool {
    ('0' <= c && c <= '9') || ('a' <= c && c <= 'f') || ('A' <= c && c <= 'F')
}

/// Numeric value of one hex digit character.
pub open spec fn hex_char_value(c: char) -> int {
    if '0' <= c && c <= '9' {
        c as int - '0' as int
    } else if 'a' <= c && c <= 'f' {
        c as int - 'a' as int + 10
    } else {
        c as int - 'A' as int + 10
    }
}

/// Lowercase hex digit character for a value in `[0, 16)`.
pub open spec fn hex_digit_char(v: int) -> char {
    if v < 10 {
        (('0' as int + v) as char)
    } else {
        (('a' as int + v - 10) as char)
    }
}

/// The lowercase hex string that spells a byte sequence: two digits per byte,
/// high nibble first.
pub open spec fn hex_str_of(bytes: Seq<u8>) -> Seq<char> {
    Seq::new(bytes.len() * 2, |i: int|
        if i % 2 == 0 {
            hex_digit_char(bytes[i / 2] as int / 16)
        } else {
            hex_digit_char(bytes[i / 2] as int % 16)
        })
}

/// True for the strings that decode as hex: even length, hex digits only
/// (either case).
pub open spec fn hex_str_valid(s: Seq<char>) -> bool {
    s.len() % 2 == 0 && forall|i: int| 0 <= i < s.len() ==> is_hex_digit_char(#[trigger] s[i])
}

/// The bytes spelled by a valid hex string.
pub open spec fn hex_bytes_of(s: Seq<char>) -> Seq<u8> {
    Seq::new(s.len() / 2, |i: int|
        (hex_char_value(s[2 * i]) * 16 + hex_char_value(s[2 * i + 1])) as u8)
}

/// Relies on `hex::encode`: each byte becomes two lowercase hex digits, high
/// nibble first.
#[verifier::external_body]
pub(crate) fn hex_encode(data: &[u8]) -> (r: String)
    ensures
        r@ == hex_str_of(data@),
{
    hex::encode(data)
}

/// Relies on `hex::decode`: a string of hex digits (either case) with even
/// length decodes to the bytes it spells; any other string is rejected
/// (odd length or a non-digit, including any non-ASCII character).
#[verifier::external_body]
pub(crate) fn hex_decode(data: &str) -> (r: Option<Vec<u8>>)
    ensures
        match r {
            Some(v) => hex_str_valid(data@) && v@ == hex_bytes_of(data@),
            None => !hex_str_valid(data@),
        },
{
    match hex::decode(data) {
        Ok(v) => Some(v),
        Err(_) => None,
    }
}

} // verus!
