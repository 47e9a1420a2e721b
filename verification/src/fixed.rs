//! Fixed-point arithmetic. Every real-valued quantity of the engine
//! (prices, sizes, balances, fractions, percentages, scores) is held as an
//! integer count of millionths, so `1.0` is `SCALE` and `100%` is
//! `100 * SCALE`.

use vstd::prelude::*;

verus! {

/// The number of millionths in one unit.
pub const SCALE: u64 = 1_000_000;

/// The largest price, in millionths, that a signal may carry.
pub const MAX_PRICE: u64 = 1_000_000_000_000_000_000;

/// The largest notional value (size times price), in millionths, that a
/// signal may carry.
pub const MAX_NOTIONAL: u64 = 1_000_000_000_000_000_000;

/// One hundred percent, as a percentage in millionths.
pub const HUNDRED_PERCENT: u64 = 100_000_000;

/// The product of two fixed-point values, rounded down to a millionth.
pub open spec fn scaled_product(a: int, b: int) -> int {
    (a * b) / (SCALE as int)
}

/// The quotient `a / b` as a fixed-point value, rounded down to a millionth.
pub open spec fn scaled_ratio(a: int, b: int) -> int
    recommends
        b > 0,
{
    (a * (SCALE as int)) / b
}

/// `value` held between `low` and `high`.
pub open spec fn clamp(value: int, low: int, high: int) -> int {
    if value < low {
        low
    } else if value > high {
        high
    } else {
        value
    }
}

/// A product of two 64-bit values fits in 128 bits.
pub proof fn lemma_product_fits(a: u64, b: u64)
    ensures
        0 <= (a as int) * (b as int) <= 0xffff_ffff_ffff_ffff * 0xffff_ffff_ffff_ffff,
        (a as int) * (b as int) <= u128::MAX,
{
    assert(0 <= (a as int) * (b as int) <= 0xffff_ffff_ffff_ffff * 0xffff_ffff_ffff_ffff)
        by (nonlinear_arith)
        requires
            0 <= a <= 0xffff_ffff_ffff_ffff,
            0 <= b <= 0xffff_ffff_ffff_ffff,
    ;
}

/// The scaled product grows with each factor.
pub proof fn lemma_scaled_product_monotonic(a1: int, a2: int, b1: int, b2: int)
    requires
        0 <= a1 <= a2,
        0 <= b1 <= b2,
    ensures
        0 <= scaled_product(a1, b1) <= scaled_product(a2, b2),
{
    assert(0 <= a1 * b1 <= a2 * b2) by (nonlinear_arith)
        requires
            0 <= a1 <= a2,
            0 <= b1 <= b2,
    ;
    let s = SCALE as int;
    assert(0 <= (a1 * b1) / s <= (a2 * b2) / s) by (nonlinear_arith)
        requires
            0 <= a1 * b1 <= a2 * b2,
            s > 0,
    ;
}

/// Taking a fraction of at most one of a value does not enlarge it.
pub proof fn lemma_scaled_product_at_most(a: int, rate: int)
    requires
        0 <= a,
        0 <= rate <= SCALE,
    ensures
        0 <= scaled_product(a, rate) <= a,
{
    let s = SCALE as int;
    assert(0 <= a * rate <= a * s) by (nonlinear_arith)
        requires
            0 <= a,
            0 <= rate <= s,
    ;
    assert((a * s) / s == a) by (nonlinear_arith)
        requires
            s > 0,
    ;
    assert(0 <= (a * rate) / s <= (a * s) / s) by (nonlinear_arith)
        requires
            0 <= a * rate <= a * s,
            s > 0,
    ;
}

/// A ratio of a part to its whole is at most one.
pub proof fn lemma_scaled_ratio_at_most_one(a: int, b: int)
    requires
        0 <= a <= b,
        b > 0,
    ensures
        0 <= scaled_ratio(a, b) <= SCALE,
{
    let s = SCALE as int;
    assert(0 <= a * s <= b * s) by (nonlinear_arith)
        requires
            0 <= a <= b,
            s > 0,
    ;
    assert((b * s) / b == s) by (nonlinear_arith)
        requires
            b > 0,
    ;
    assert(0 <= (a * s) / b <= (b * s) / b) by (nonlinear_arith)
        requires
            0 <= a * s <= b * s,
            b > 0,
    ;
}

/// The scaled product of two values, in 128 bits, where it always fits.
pub fn wide_scaled_product(a: u64, b: u64) -> (r: u128)
    ensures
        r as int == scaled_product(a as int, b as int),
{
    proof {
        lemma_product_fits(a, b);
    }
    (a as u128) * (b as u128) / (SCALE as u128)
}

/// The scaled product of two values when it fits in 64 bits.
pub fn checked_scaled_product(a: u64, b: u64) -> (r: Option<u64>)
    ensures
        r matches Some(p) ==> p as int == scaled_product(a as int, b as int),
        r is Some <==> scaled_product(a as int, b as int) <= u64::MAX,
{
    let wide: u128 = wide_scaled_product(a, b);
    if wide <= u64::MAX as u128 {
        Some(wide as u64)
    } else {
        None
    }
}

/// The scaled product of two values whose product is known to fit.
pub fn scaled_mul(a: u64, b: u64) -> (r: u64)
    requires
        scaled_product(a as int, b as int) <= u64::MAX,
    ensures
        r as int == scaled_product(a as int, b as int),
{
    let wide: u128 = wide_scaled_product(a, b);
    wide as u64
}

/// `n` plus `by`, held to the largest number.
pub open spec fn saturating_sum(n: u64, by: u64) -> u64 {
    if n + by > u64::MAX {
        u64::MAX
    } else {
        (n + by) as u64
    }
}

/// `n` plus `by`, held to the largest number.
pub fn saturating_add(n: u64, by: u64) -> (r: u64)
    ensures
        r == saturating_sum(n, by),
{
    if n > u64::MAX - by {
        u64::MAX
    } else {
        n + by
    }
}

} // verus!
