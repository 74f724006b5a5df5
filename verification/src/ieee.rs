//! Comparisons of binary64 numbers held as their IEEE 754 bit patterns, as
//! `f64::to_bits` gives them: the sign bit, then eleven exponent bits and
//! fifty-two fraction bits.
use vstd::prelude::*;

verus! {

/// The sign bit.
pub const SIGN_BIT: u64 = 0x8000_0000_0000_0000;

/// The bit pattern of positive infinity.
pub const INFINITY_BITS: u64 = 0x7FF0_0000_0000_0000;

/// Whether the sign bit is set.
pub open spec fn spec_sign(b: u64) -> bool {
    b >= SIGN_BIT
}

/// The pattern without its sign bit; it orders the non-negative numbers.
pub open spec fn spec_magnitude(b: u64) -> int {
    (b as int) % (SIGN_BIT as int)
}

/// Whether the pattern is a NaN: all exponent bits set and a fraction.
pub open spec fn spec_is_nan(b: u64) -> bool {
    spec_magnitude(b) > INFINITY_BITS
}

/// Whether the number is less than zero (`x < 0.0`): NaN and both zeros are not.
pub open spec fn spec_below_zero(b: u64) -> bool {
    !spec_is_nan(b) && spec_sign(b) && spec_magnitude(b) != 0
}

/// Whether the number is greater than the non-negative number `c` (`x > c`).
pub open spec fn spec_above(b: u64, c: u64) -> bool {
    !spec_is_nan(b) && !spec_sign(b) && spec_magnitude(b) > c
}

/// Whether the number is less than the positive number `c` (`x < c`).
pub open spec fn spec_below(b: u64, c: u64) -> bool {
    !spec_is_nan(b) && (spec_sign(b) || spec_magnitude(b) < c)
}

/// Whether the number is at least the positive number `c` (`x >= c`).
pub open spec fn spec_at_least(b: u64, c: u64) -> bool {
    !spec_is_nan(b) && !spec_sign(b) && spec_magnitude(b) >= c
}

/// Whether the number is at most the non-negative number `c` (`x <= c`).
pub open spec fn spec_at_most(b: u64, c: u64) -> bool {
    !spec_is_nan(b) && (spec_sign(b) || spec_magnitude(b) <= c)
}

/// Whether `x < c`, for `c` a positive number that is not NaN.
pub fn below(b: u64, c: u64) -> (res: bool)
    requires
        0 < c <= INFINITY_BITS,
    ensures
        res == spec_below(b, c),
{
    let m = b % SIGN_BIT;
    m <= INFINITY_BITS && (b >= SIGN_BIT || m < c)
}

/// Whether `x >= c`, for `c` a positive number that is not NaN.
pub fn at_least(b: u64, c: u64) -> (res: bool)
    requires
        0 < c <= INFINITY_BITS,
    ensures
        res == spec_at_least(b, c),
{
    let m = b % SIGN_BIT;
    m <= INFINITY_BITS && b < SIGN_BIT && m >= c
}

/// Whether `x <= c`, for `c` a non-negative number that is not NaN.
pub fn at_most(b: u64, c: u64) -> (res: bool)
    requires
        c <= INFINITY_BITS,
    ensures
        res == spec_at_most(b, c),
{
    let m = b % SIGN_BIT;
    m <= INFINITY_BITS && (b >= SIGN_BIT || m <= c)
}

/// Whether `x < 0.0`.
pub fn below_zero(b: u64) -> (res: bool)
    ensures
        res == spec_below_zero(b),
{
    let m = b % SIGN_BIT;
    m <= INFINITY_BITS && b >= SIGN_BIT && m != 0
}

/// Whether `x > c`, for `c` a non-negative number that is not NaN.
pub fn above(b: u64, c: u64) -> (res: bool)
    requires
        c <= INFINITY_BITS,
    ensures
        res == spec_above(b, c),
{
    let m = b % SIGN_BIT;
    m <= INFINITY_BITS && b < SIGN_BIT && m > c
}

} // verus!
