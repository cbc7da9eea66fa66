//! The 8-bit arithmetic of the machine and its flag conventions.
//!
//! The flag of an addition is its carry. The flag of a subtraction is
//! inverted: 1 means that no borrow was needed. The flag of a shift is the
//! bit that left the byte.
use vstd::prelude::*;

verus! {

/// `a + b` in 8 bits.
pub open spec fn sum(a: u8, b: u8) -> u8 {
    ((a + b) % 256) as u8
}

/// The carry of `a + b`: 1 if the sum does not fit in 8 bits.
pub open spec fn carry(a: u8, b: u8) -> u8 {
    if a + b > 255 {
        1
    } else {
        0
    }
}

/// `a - b` in 8 bits.
pub open spec fn difference(a: u8, b: u8) -> u8 {
    ((a - b) % 256) as u8
}

/// The flag of `a - b`: 1 if the subtraction needs no borrow.
pub open spec fn no_borrow(a: u8, b: u8) -> u8 {
    if a >= b {
        1
    } else {
        0
    }
}

/// `a` shifted one bit to the right.
pub open spec fn halved(a: u8) -> u8 {
    a / 2
}

/// The least significant bit of `a`.
pub open spec fn low_bit(a: u8) -> u8 {
    a % 2
}

/// `a` shifted one bit to the left, in 8 bits.
pub open spec fn doubled(a: u8) -> u8 {
    ((a * 2) % 256) as u8
}

/// The most significant bit of `a`.
pub open spec fn high_bit(a: u8) -> u8 {
    a / 128
}

/// The hundreds, tens and ones digit of `value`.
pub open spec fn bcd(value: u8) -> (u8, u8, u8) {
    (value / 100, value / 10 % 10, value % 10)
}

/// Adds two bytes, wrapping, and returns the sum and the carry flag.
pub fn add_with_carry(a: u8, b: u8) -> (result: (u8, u8))
    ensures
        result.0 == sum(a, b),
        result.1 == carry(a, b),
        a + b == result.0 + 256 * result.1,
{
    let wide: u16 = a as u16 + b as u16;
    if wide > 255 {
        ((wide - 256) as u8, 1)
    } else {
        (wide as u8, 0)
    }
}

/// Subtracts `b` from `a`, wrapping, and returns the difference and the
/// flag, which is 1 exactly when `a >= b`.
pub fn sub_with_borrow(a: u8, b: u8) -> (result: (u8, u8))
    ensures
        result.0 == difference(a, b),
        result.1 == no_borrow(a, b),
        a - b == result.0 - 256 * (1 - result.1),
{
    if a >= b {
        (a - b, 1)
    } else {
        ((256 - (b as u16 - a as u16)) as u8, 0)
    }
}

/// Shifts a byte one bit to the right and returns it with the bit that
/// was shifted out.
pub fn shift_right(a: u8) -> (result: (u8, u8))
    ensures
        result.0 == halved(a),
        result.1 == low_bit(a),
        a == 2 * result.0 + result.1,
{
    assert(a >> 1u8 == a / 2) by (bit_vector);
    assert(a & 1u8 == a % 2) by (bit_vector);
    (a >> 1u8, a & 1u8)
}

/// Shifts a byte one bit to the left, wrapping, and returns it with the
/// bit that was shifted out.
pub fn shift_left(a: u8) -> (result: (u8, u8))
    ensures
        result.0 == doubled(a),
        result.1 == high_bit(a),
        2 * a == result.0 + 256 * result.1,
{
    assert(a << 1u8 == (a * 2) % 256) by (bit_vector);
    assert(a >> 7u8 == a / 128) by (bit_vector);
    (a << 1u8, a >> 7u8)
}

/// Splits a byte into its three decimal digits.
pub fn bcd_digits(value: u8) -> (digits: (u8, u8, u8))
    ensures
        digits == bcd(value),
        digits.0 <= 2 && digits.1 <= 9 && digits.2 <= 9,
        100 * digits.0 + 10 * digits.1 + digits.2 == value,
{
    (value / 100, (value / 10) % 10, value % 10)
}

} // verus!
