//! IEEE-754 numbers as bit patterns.
//!
//! Coordinates and intensities travel through this library as the raw bits of
//! their binary64 and binary32 encodings. Everything the protocol needs to
//! know about such a number (whether it is finite, its sign, how two finite
//! numbers compare) can be read from the bits with integer arithmetic.

use vstd::prelude::*;

verus! {

/// Bits of the binary32 number `0.0`.
pub const SINGLE_ZERO: u32 = 0;

/// Bits of the binary32 number `1.0`.
pub const SINGLE_ONE: u32 = 0x3f80_0000;

/// Bits of the binary64 number `0.0`.
pub const DOUBLE_ZERO: u64 = 0;

/// The sign bit of a binary32 pattern, as a number.
pub const SINGLE_SIGN: u32 = 0x8000_0000;

/// The smallest magnitude of a binary32 pattern that is not finite.
pub const SINGLE_INFINITY: u32 = 0x7f80_0000;

/// The sign bit of a binary64 pattern, as a number.
pub const DOUBLE_SIGN: u64 = 0x8000_0000_0000_0000;

/// The smallest magnitude of a binary64 pattern that is not finite.
pub const DOUBLE_INFINITY: u64 = 0x7ff0_0000_0000_0000;

/// The pattern without its sign bit.
pub open spec fn single_magnitude(bits: u32) -> int {
    bits as int % 0x8000_0000
}

/// The pattern encodes a number, not an infinity and not a NaN.
pub open spec fn single_is_finite(bits: u32) -> bool {
    single_magnitude(bits) < 0x7f80_0000
}

/// Finite patterns in numeric order: a larger rank is a larger number, and
/// the two zeros share rank 0.
pub open spec fn single_rank(bits: u32) -> int {
    if bits >= 0x8000_0000 {
        -single_magnitude(bits)
    } else {
        single_magnitude(bits)
    }
}

/// The pattern encodes a finite number that is zero or more.
pub open spec fn single_is_non_negative(bits: u32) -> bool {
    single_is_finite(bits) && single_rank(bits) >= 0
}

/// The pattern encodes a number between zero and one, both included.
pub open spec fn single_in_unit_interval(bits: u32) -> bool {
    single_is_finite(bits) && 0 <= single_rank(bits) <= single_rank(SINGLE_ONE)
}

/// The pattern without its sign bit.
pub open spec fn double_magnitude(bits: u64) -> int {
    bits as int % 0x8000_0000_0000_0000
}

/// The pattern encodes a number, not an infinity and not a NaN.
pub open spec fn double_is_finite(bits: u64) -> bool {
    double_magnitude(bits) < 0x7ff0_0000_0000_0000
}

/// Finite patterns in numeric order: a larger rank is a larger number, and
/// the two zeros share rank 0.
pub open spec fn double_rank(bits: u64) -> int {
    if bits >= 0x8000_0000_0000_0000 {
        -double_magnitude(bits)
    } else {
        double_magnitude(bits)
    }
}

/// Both patterns are finite and the first number is smaller than the second.
pub open spec fn double_less(a: u64, b: u64) -> bool {
    double_is_finite(a) && double_is_finite(b) && double_rank(a) < double_rank(b)
}

/// The pattern encodes a finite number greater than zero.
pub open spec fn double_is_positive(bits: u64) -> bool {
    double_is_finite(bits) && double_rank(bits) > 0
}

/// Tells whether a binary32 pattern is finite.
pub fn is_finite_single(bits: u32) -> (r: bool)
    ensures
        r == single_is_finite(bits),
{
    bits % SINGLE_SIGN < SINGLE_INFINITY
}

/// Tells whether a binary32 pattern is a finite number that is zero or more.
pub fn is_non_negative_single(bits: u32) -> (r: bool)
    ensures
        r == single_is_non_negative(bits),
{
    bits < SINGLE_INFINITY || bits == SINGLE_SIGN
}

/// Tells whether a binary32 pattern is a number between zero and one.
pub fn in_unit_interval_single(bits: u32) -> (r: bool)
    ensures
        r == single_in_unit_interval(bits),
{
    bits <= SINGLE_ONE || bits == SINGLE_SIGN
}

/// Tells whether a binary64 pattern is finite.
pub fn is_finite_double(bits: u64) -> (r: bool)
    ensures
        r == double_is_finite(bits),
{
    bits % DOUBLE_SIGN < DOUBLE_INFINITY
}

/// Tells whether a binary64 pattern is a finite number greater than zero.
pub fn is_positive_double(bits: u64) -> (r: bool)
    ensures
        r == double_is_positive(bits),
{
    0 < bits && bits < DOUBLE_INFINITY
}

/// Compares two binary64 patterns as numbers. Answers `false` when either is
/// not finite.
pub fn less_double(a: u64, b: u64) -> (r: bool)
    ensures
        r == double_less(a, b),
{
    if !is_finite_double(a) || !is_finite_double(b) {
        return false;
    }
    let ma: u64 = a % DOUBLE_SIGN;
    let mb: u64 = b % DOUBLE_SIGN;
    if a >= DOUBLE_SIGN {
        if b >= DOUBLE_SIGN {
            mb < ma
        } else {
            ma > 0 || mb > 0
        }
    } else {
        if b >= DOUBLE_SIGN {
            false
        } else {
            ma < mb
        }
    }
}

/// The order on finite patterns is strict: nothing is below itself, and the
/// order passes along chains.
pub proof fn lemma_double_less_strict(a: u64, b: u64, c: u64)
    ensures
        !double_less(a, a),
        double_less(a, b) ==> !double_less(b, a),
        double_less(a, b) && double_less(b, c) ==> double_less(a, c),
{
}

} // verus!
