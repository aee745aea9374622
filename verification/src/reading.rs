//! Sensor readings travel through the library as the bit patterns of IEEE-754
//! single-precision values (what `f32::to_bits` gives and `f32::from_bits`
//! takes back). The functions here order such patterns exactly as the
//! comparison operators of `f32` order the values they stand for.

use vstd::prelude::*;

verus! {

/// The sign bit of a pattern.
pub const SIGN_BIT: u32 = 0x8000_0000;

/// The largest magnitude that is not a NaN: the pattern of positive infinity.
pub const INFINITY_BITS: u32 = 0x7f80_0000;

/// The pattern without its sign bit.
pub open spec fn magnitude(b: u32) -> int {
    if b >= SIGN_BIT {
        b - SIGN_BIT
    } else {
        b as int
    }
}

/// The pattern stands for a NaN: all exponent bits set and a mantissa that is not zero.
pub open spec fn is_nan(b: u32) -> bool {
    magnitude(b) > INFINITY_BITS
}

/// A key that orders the patterns that are not NaN as their values are ordered:
/// the magnitude, negated for a set sign bit (so that `-0.0` and `0.0` share a key).
pub open spec fn order_key(b: u32) -> int {
    if b >= SIGN_BIT {
        -magnitude(b)
    } else {
        magnitude(b)
    }
}

/// `a < b` on the values of the patterns: false as soon as one of them is NaN.
pub open spec fn reading_lt(a: u32, b: u32) -> bool {
    !is_nan(a) && !is_nan(b) && order_key(a) < order_key(b)
}

/// `a <= b` on the values of the patterns: false as soon as one of them is NaN.
pub open spec fn reading_le(a: u32, b: u32) -> bool {
    !is_nan(a) && !is_nan(b) && order_key(a) <= order_key(b)
}

fn key_of(b: u32) -> (k: i64)
    ensures
        k == order_key(b),
{
    if b >= SIGN_BIT {
        -((b - SIGN_BIT) as i64)
    } else {
        b as i64
    }
}

fn nan(b: u32) -> (r: bool)
    ensures
        r == is_nan(b),
{
    let m = if b >= SIGN_BIT {
        b - SIGN_BIT
    } else {
        b
    };
    m > INFINITY_BITS
}

/// Whether the value of pattern `a` is less than that of pattern `b`.
pub fn lt(a: u32, b: u32) -> (r: bool)
    ensures
        r == reading_lt(a, b),
{
    !nan(a) && !nan(b) && key_of(a) < key_of(b)
}

/// Whether the value of pattern `a` is at most that of pattern `b`.
pub fn le(a: u32, b: u32) -> (r: bool)
    ensures
        r == reading_le(a, b),
{
    !nan(a) && !nan(b) && key_of(a) <= key_of(b)
}

/// On patterns that are not NaN, exactly one of `a < b`, `a == b` in value, `b < a` holds,
/// and `a <= b` is `a < b` or equal in value.
pub proof fn lemma_reading_order_total(a: u32, b: u32)
    requires
        !is_nan(a),
        !is_nan(b),
    ensures
        reading_le(a, b) <==> (reading_lt(a, b) || order_key(a) == order_key(b)),
        reading_lt(a, b) || reading_lt(b, a) || order_key(a) == order_key(b),
        !(reading_lt(a, b) && reading_lt(b, a)),
        reading_le(a, b) || reading_le(b, a),
{
}

/// Strict order on readings is transitive.
pub proof fn lemma_reading_lt_transitive(a: u32, b: u32, c: u32)
    requires
        reading_lt(a, b),
        reading_lt(b, c),
    ensures
        reading_lt(a, c),
{
}

/// A NaN reading compares neither below nor above anything, itself included.
pub proof fn lemma_nan_incomparable(a: u32, b: u32)
    requires
        is_nan(a),
    ensures
        !reading_lt(a, b),
        !reading_lt(b, a),
        !reading_le(a, b),
        !reading_le(b, a),
{
}

/// Between patterns of non-negative values (sign bit clear, not NaN) the order
/// is that of the patterns as unsigned numbers; a negative value (sign bit set,
/// magnitude not zero, not NaN) lies below every non-negative one; and `-0.0`
/// (`0x8000_0000`) and `0.0` are equal.
pub proof fn lemma_reading_order_on_patterns(a: u32, b: u32)
    ensures
        a < 0x8000_0000 && b < 0x8000_0000 && a <= 0x7f80_0000 && b <= 0x7f80_0000
            ==> (reading_lt(a, b) <==> a < b) && (reading_le(a, b) <==> a <= b),
        0x8000_0000 < a <= 0xff80_0000 && b <= 0x7f80_0000 ==> reading_lt(a, b),
        0x8000_0000 <= a <= 0xff80_0000 && 0x8000_0000 <= b <= 0xff80_0000
            ==> (reading_lt(a, b) <==> b < a),
        reading_le(0x8000_0000, 0) && reading_le(0, 0x8000_0000) && !reading_lt(0x8000_0000, 0),
        a > 0x7f80_0000 && a < 0x8000_0000 ==> !reading_le(a, b) && !reading_le(b, a),
        a > 0xff80_0000 ==> !reading_le(a, b) && !reading_le(b, a),
{
}

} // verus!
