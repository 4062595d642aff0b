//! Fixed-point lengths and angles.
//!
//! Layout geometry (positions, sizes, rotation angles) is held as an `i64` count of
//! millionths: `1_500_000` is one and a half keyboard units (or degrees). Sums that
//! leave the range of `i64` stop at its bounds.
use vstd::prelude::*;

verus! {

/// The number of fixed-point steps in one keyboard unit (or one degree).
pub const UNIT: i64 = 1_000_000;

/// `v`, held to the range of `i64`.
pub open spec fn saturate(v: int) -> i64 {
    if v > i64::MAX {
        i64::MAX
    } else if v < i64::MIN {
        i64::MIN
    } else {
        v as i64
    }
}

/// The sum of two fixed-point values, held to the range of `i64`.
pub fn add_units(a: i64, b: i64) -> (r: i64)
    ensures
        r == saturate(a + b),
{
    if b > 0 && a > i64::MAX - b {
        i64::MAX
    } else if b < 0 && a < i64::MIN - b {
        i64::MIN
    } else {
        a + b
    }
}

/// The fixed-point value of a whole number `n`, held to the range of `i64`.
pub fn units_from_int(n: i64) -> (r: i64)
    ensures
        r == saturate(n * UNIT),
{
    if n > 9_223_372_036_854 {
        assert(n * UNIT > i64::MAX) by (nonlinear_arith)
            requires
                n > 9_223_372_036_854,
                UNIT == 1_000_000,
        ;
        i64::MAX
    } else if n < -9_223_372_036_854 {
        assert(n * UNIT < i64::MIN) by (nonlinear_arith)
            requires
                n < -9_223_372_036_854,
                UNIT == 1_000_000,
        ;
        i64::MIN
    } else {
        assert(i64::MIN <= n * UNIT <= i64::MAX) by (nonlinear_arith)
            requires
                -9_223_372_036_854 <= n <= 9_223_372_036_854,
                UNIT == 1_000_000,
        ;
        n * UNIT
    }
}

} // verus!
