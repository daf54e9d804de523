//! Hexadecimal digits.

use vstd::prelude::*;

verus! {

/// The digit that stands for `n` in lower-case hexadecimal.
pub open spec fn lower_hex(n: int) -> char
    recommends
        0 <= n < 16,
{
    seq!['0', '1', '2', '3', '4', '5', '6', '7', '8', '9', 'a', 'b', 'c', 'd', 'e', 'f'][n]
}

/// The digit that stands for `n` in upper-case hexadecimal.
pub open spec fn upper_hex(n: int) -> char
    recommends
        0 <= n < 16,
{
    seq!['0', '1', '2', '3', '4', '5', '6', '7', '8', '9', 'A', 'B', 'C', 'D', 'E', 'F'][n]
}

/// The number that a hexadecimal digit of either case stands for.
pub open spec fn hex_value(digit: char) -> Option<int> {
    if '0' <= digit <= '9' {
        Some(digit as int - '0' as int)
    } else if 'a' <= digit <= 'f' {
        Some(digit as int - 'a' as int + 10)
    } else if 'A' <= digit <= 'F' {
        Some(digit as int - 'A' as int + 10)
    } else {
        None
    }
}

/// Reading a digit gives back the number it was written for, in either case.
pub proof fn lemma_hex_value_of_digit(n: int)
    requires
        0 <= n < 16,
    ensures
        hex_value(lower_hex(n)) == Some(n),
        hex_value(upper_hex(n)) == Some(n),
{
}

pub(crate) fn lower_hex_digit(n: u8) -> (digit: char)
    requires
        n < 16,
    ensures
        digit == lower_hex(n as int),
{
    if n < 10 {
        (0x30u8 + n) as char
    } else {
        (0x61u8 + (n - 10)) as char
    }
}

pub(crate) fn upper_hex_digit(n: u8) -> (digit: char)
    requires
        n < 16,
    ensures
        digit == upper_hex(n as int),
{
    if n < 10 {
        (0x30u8 + n) as char
    } else {
        (0x41u8 + (n - 10)) as char
    }
}

} // verus!
