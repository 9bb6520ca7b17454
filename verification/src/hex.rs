//! Hexadecimal identifier parsing.
//!
//! A device's vendor id and device id arrive as 4-digit hexadecimal text
//! (read, after a 2-byte prefix, from the identification files by the
//! outside I/O layer).  The four ASCII digit bytes are folded here into one
//! 16-bit value, most significant digit first; any non-hex byte rejects the
//! whole input.

use vstd::prelude::*;

verus! {

/// Whether the byte is an ASCII hexadecimal digit, in any letter case.
pub open spec fn spec_is_hex_digit(b: u8) -> bool {
    (0x30 <= b && b <= 0x39) || (0x41 <= b && b <= 0x46) || (0x61 <= b && b <= 0x66)
}

/// The numeric value of an ASCII hexadecimal digit byte.
pub open spec fn spec_hex_digit_value(b: u8) -> u8
    recommends
        spec_is_hex_digit(b),
{
    if 0x30 <= b && b <= 0x39 {
        (b - 0x30) as u8
    } else if 0x41 <= b && b <= 0x46 {
        (b - 0x41 + 10) as u8
    } else if 0x61 <= b && b <= 0x66 {
        (b - 0x61 + 10) as u8
    } else {
        0
    }
}

/// The 16-bit value written by four hexadecimal digit bytes, most
/// significant digit first.
pub open spec fn spec_parse_hex4(digits: Seq<u8>) -> u16
    recommends
        digits.len() == 4,
        forall|i: int| 0 <= i < 4 ==> spec_is_hex_digit(digits[i]),
{
    (spec_hex_digit_value(digits[0]) * 0x1000 + spec_hex_digit_value(digits[1]) * 0x100
        + spec_hex_digit_value(digits[2]) * 0x10 + spec_hex_digit_value(digits[3])) as u16
}

/// Converts one ASCII byte to its hexadecimal digit value, or rejects it.
pub fn hex_digit_value(b: u8) -> (v: Option<u8>)
    ensures
        v is Some <==> spec_is_hex_digit(b),
        v is Some ==> v->Some_0 == spec_hex_digit_value(b),
{
    if 0x30 <= b && b <= 0x39 {
        Some(b - 0x30)
    } else if 0x41 <= b && b <= 0x46 {
        Some(b - 0x41 + 10)
    } else if 0x61 <= b && b <= 0x66 {
        Some(b - 0x61 + 10)
    } else {
        None
    }
}

/// Parses four hexadecimal digit bytes into the 16-bit identifier they
/// write, most significant digit first.  Returns the value exactly when
/// every byte is a hexadecimal digit, and rejects the input otherwise.
pub fn parse_hex_u16(digits: &[u8]) -> (r: Option<u16>)
    requires
        digits@.len() == 4,
    ensures
        r is Some <==> (forall|i: int| 0 <= i < 4 ==> spec_is_hex_digit(digits@[i])),
        r is Some ==> r->Some_0 == spec_parse_hex4(digits@),
{
    let v0 = match hex_digit_value(digits[0]) {
        Some(v) => v,
        None => {
            return None;
        },
    };
    let v1 = match hex_digit_value(digits[1]) {
        Some(v) => v,
        None => {
            return None;
        },
    };
    let v2 = match hex_digit_value(digits[2]) {
        Some(v) => v,
        None => {
            return None;
        },
    };
    let v3 = match hex_digit_value(digits[3]) {
        Some(v) => v,
        None => {
            return None;
        },
    };
    let value: u16 = (v0 as u16) * 0x1000 + (v1 as u16) * 0x100 + (v2 as u16) * 0x10 + (v3 as u16);
    Some(value)
}

} // verus!
