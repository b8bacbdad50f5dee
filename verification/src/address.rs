//! Normalized chain addresses.
//!
//! Pools and tokens are identified by chain addresses. The service
//! stores and compares them in one normalized form: the two characters
//! `0x` followed by exactly forty lowercase hexadecimal digits.

use vstd::prelude::*;

verus! {

/// A character that may stand in the hex part of a normalized address:
/// a decimal digit or a lowercase hex letter.
pub open spec fn is_lower_hex_digit(c: char) -> bool {
    ('0' as u32 <= c as u32 && c as u32 <= '9' as u32) || ('a' as u32 <= c as u32 && c as u32
        <= 'f' as u32)
}

/// A normalized chain address: `0x` followed by exactly forty lowercase
/// hexadecimal digits.
pub open spec fn is_normalized_address(s: Seq<char>) -> bool {
    &&& s.len() == 42
    &&& s[0] == '0'
    &&& s[1] == 'x'
    &&& forall|i: int| 2 <= i < 42 ==> is_lower_hex_digit(#[trigger] s[i])
}

/// Checks whether a string is a normalized chain address.
pub fn address_is_normalized(s: &str) -> (r: bool)
    ensures
        r == is_normalized_address(s@),
{
    let n: usize = s.unicode_len();
    if n != 42 {
        return false;
    }
    if s.get_char(0) != '0' || s.get_char(1) != 'x' {
        return false;
    }
    let mut i: usize = 2;
    while i < 42
        invariant
            2 <= i <= 42,
            s@.len() == 42,
            forall|j: int| 2 <= j < i ==> is_lower_hex_digit(#[trigger] s@[j]),
        decreases 42 - i,
    {
        let c: char = s.get_char(i);
        let u: u32 = c as u32;
        if !(('0' as u32 <= u && u <= '9' as u32) || ('a' as u32 <= u && u <= 'f' as u32)) {
            return false;
        }
        i = i + 1;
    }
    true
}

} // verus!
