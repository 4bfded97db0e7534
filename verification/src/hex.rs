//! Hexadecimal digits and digit pairs, as found in the trailing identifier
//! of a Generation-1 device name.

use vstd::prelude::*;

verus! {

/// `c` is an ASCII hexadecimal digit.
pub open spec fn is_hex_digit(c: char) -> bool {
    (48 <= c as u32 && c as u32 <= 57)  // '0'..='9'
    || (97 <= c as u32 && c as u32 <= 102)  // 'a'..='f'
    || (65 <= c as u32 && c as u32 <= 70)  // 'A'..='F'

}

/// The numeric value of a hexadecimal digit.
pub open spec fn hex_digit_value(c: char) -> u8
    recommends
        is_hex_digit(c),
{
    if 48 <= c as u32 && c as u32 <= 57 {
        (c as u32 - 48) as u8
    } else if 97 <= c as u32 && c as u32 <= 102 {
        (c as u32 - 97 + 10) as u8
    } else {
        (c as u32 - 65 + 10) as u8
    }
}

/// The byte written as the two hexadecimal digits `hi`, `lo`.
pub open spec fn hex_pair_value(hi: char, lo: char) -> u8
    recommends
        is_hex_digit(hi),
        is_hex_digit(lo),
{
    (hex_digit_value(hi) * 16 + hex_digit_value(lo)) as u8
}

/// Parse one hexadecimal digit; exactly the ASCII digits and letters a-f,
/// A-F are accepted.
pub fn parse_hex_digit(c: char) -> (r: Option<u8>)
    ensures
        r == if is_hex_digit(c) {
            Some(hex_digit_value(c))
        } else {
            None::<u8>
        },
        r matches Some(v) ==> v < 16,
{
    let code = c as u32;
    if 48 <= code && code <= 57 {
        Some((code - 48) as u8)
    } else if 97 <= code && code <= 102 {
        Some((code - 97 + 10) as u8)
    } else if 65 <= code && code <= 70 {
        Some((code - 65 + 10) as u8)
    } else {
        None
    }
}

/// Parse the byte written as the two hexadecimal digits `hi`, `lo`.
pub fn parse_hex_pair(hi: char, lo: char) -> (r: Option<u8>)
    ensures
        r == if is_hex_digit(hi) && is_hex_digit(lo) {
            Some(hex_pair_value(hi, lo))
        } else {
            None::<u8>
        },
{
    match (parse_hex_digit(hi), parse_hex_digit(lo)) {
        (Some(h), Some(l)) => Some(h * 16 + l),
        _ => None,
    }
}

} // verus!
