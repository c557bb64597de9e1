//! Fixed-point arithmetic used by every module of the simulation.
//!
//! A quantity `q` stands for the real number `q / SCALE`. Multiplication of
//! two fixed-point values therefore divides the integer product by `SCALE`;
//! it rounds toward zero and saturates at `u64::MAX`, which a later
//! domain clamp always brings back into range.

use vstd::prelude::*;

verus! {

/// One whole unit in the fixed-point encoding: all quantities and rate
/// constants are integer multiples of one millionth.
pub const SCALE: u64 = 1000000;

/// Mathematical value of the saturating fixed-point product.
pub open spec fn fx(a: int, b: int) -> int {
    if a * b / (SCALE as int) > u64::MAX as int {
        u64::MAX as int
    } else {
        a * b / (SCALE as int)
    }
}

/// `min(a + b, cap)` on mathematical integers.
pub open spec fn spec_add_cap(a: int, b: int, cap: int) -> int {
    if a + b >= cap {
        cap
    } else {
        a + b
    }
}

/// `max(a - b, floor)` on mathematical integers.
pub open spec fn spec_sub_floor(a: int, b: int, floor: int) -> int {
    if a - b <= floor {
        floor
    } else {
        a - b
    }
}

/// Clamp `v` into `[lo, hi]` on mathematical integers.
pub open spec fn spec_clamp(v: int, lo: int, hi: int) -> int {
    if v <= lo {
        lo
    } else if v >= hi {
        hi
    } else {
        v
    }
}

/// Fixed-point product, rounded toward zero, saturating at `u64::MAX`.
pub fn fx_mul(a: u64, b: u64) -> (r: u64)
    ensures
        r == fx(a as int, b as int),
{
    proof {
        assert((a as int) * (b as int) <= (u64::MAX as int) * (u64::MAX as int))
            by (nonlinear_arith)
            requires
                a <= u64::MAX,
                b <= u64::MAX,
        ;
    }
    let p: u128 = ((a as u128) * (b as u128)) / (SCALE as u128);
    if p > u64::MAX as u128 {
        u64::MAX
    } else {
        p as u64
    }
}

/// Addition capped from above at `cap`.
pub fn add_cap(a: u64, b: u64, cap: u64) -> (r: u64)
    ensures
        r == spec_add_cap(a as int, b as int, cap as int),
{
    let s: u128 = (a as u128) + (b as u128);
    if s >= cap as u128 {
        cap
    } else {
        s as u64
    }
}

/// Subtraction floored from below at `floor`.
pub fn sub_floor(a: u64, b: u64, floor: u64) -> (r: u64)
    ensures
        r == spec_sub_floor(a as int, b as int, floor as int),
{
    if a > b {
        let d = a - b;
        if d <= floor {
            floor
        } else {
            d
        }
    } else {
        floor
    }
}

/// `clamp(a + b - c, 0, cap)` computed without intermediate overflow: one
/// balance step of a population that grows by `b` and shrinks by `c`.
pub fn add_sub_clamp(a: u64, b: u64, c: u64, cap: u64) -> (r: u64)
    ensures
        r == spec_clamp(a as int + b as int - c as int, 0, cap as int),
{
    let s: u128 = (a as u128) + (b as u128);
    if s <= c as u128 {
        0
    } else {
        let d: u128 = s - (c as u128);
        if d >= cap as u128 {
            cap
        } else {
            d as u64
        }
    }
}

/// Clamp `v` into `[lo, hi]`.
pub fn clamp(v: u64, lo: u64, hi: u64) -> (r: u64)
    requires
        lo <= hi,
    ensures
        r == spec_clamp(v as int, lo as int, hi as int),
{
    if v <= lo {
        lo
    } else if v >= hi {
        hi
    } else {
        v
    }
}

/// The fixed-point product of nonnegative factors lies between zero and
/// `u64::MAX`.
pub broadcast proof fn lemma_fx_range(a: int, b: int)
    requires
        0 <= a,
        0 <= b,
    ensures
        0 <= #[trigger] fx(a, b) <= u64::MAX,
{
    assert(a * b >= 0) by (nonlinear_arith)
        requires
            0 <= a,
            0 <= b,
    ;
    assert(a * b / (SCALE as int) >= 0) by (nonlinear_arith)
        requires
            a * b >= 0,
    ;
}

/// The fixed-point product of nonnegative values never exceeds the true
/// rational product; with one factor at most `SCALE` it never exceeds the
/// other factor.
pub proof fn lemma_fx_le(a: int, b: int)
    requires
        0 <= a,
        0 <= b <= SCALE,
    ensures
        fx(a, b) <= a,
{
    assert(a * b <= a * SCALE) by (nonlinear_arith)
        requires
            0 <= a,
            b <= SCALE,
    ;
    assert(a * SCALE / (SCALE as int) == a) by (nonlinear_arith);
    assert(a * b / (SCALE as int) <= a * SCALE / (SCALE as int)) by (nonlinear_arith)
        requires
            a * b <= a * SCALE,
    ;
}

/// A head count expressed in fixed-point units, saturating at `u64::MAX`.
pub open spec fn spec_count_units(c: int) -> int {
    if c * (SCALE as int) > u64::MAX as int {
        u64::MAX as int
    } else {
        c * (SCALE as int)
    }
}

/// Converts a head count to fixed-point units.
pub fn count_units(c: usize) -> (r: u64)
    ensures
        r == spec_count_units(c as int),
{
    let p: u128 = (c as u128) * (SCALE as u128);
    if p > u64::MAX as u128 {
        u64::MAX
    } else {
        p as u64
    }
}

/// `min(a * b / d, u64::MAX)` on mathematical integers.
pub open spec fn spec_mul_div_sat(a: int, b: int, d: int) -> int {
    if a * b / d > u64::MAX as int {
        u64::MAX as int
    } else {
        a * b / d
    }
}

/// `a * b / d`, rounded toward zero, saturating at `u64::MAX`.
pub fn mul_div_sat(a: u64, b: u64, d: u64) -> (r: u64)
    requires
        0 < d,
    ensures
        r == spec_mul_div_sat(a as int, b as int, d as int),
{
    proof {
        assert((a as int) * (b as int) <= (u64::MAX as int) * (u64::MAX as int))
            by (nonlinear_arith)
            requires
                a <= u64::MAX,
                b <= u64::MAX,
        ;
    }
    let p: u128 = ((a as u128) * (b as u128)) / (d as u128);
    if p > u64::MAX as u128 {
        u64::MAX
    } else {
        p as u64
    }
}

/// `a * b / d`, exact, for a numerator factor no larger than the divisor.
pub fn mul_div_le(a: u64, b: u64, d: u64) -> (r: u64)
    requires
        0 < d,
        a <= d,
    ensures
        r == (a as int) * (b as int) / (d as int),
        r <= b,
{
    proof {
        assert((a as int) * (b as int) <= (d as int) * (b as int)) by (nonlinear_arith)
            requires
                a <= d,
                0 <= b,
        ;
        assert((a as int) * (b as int) / (d as int) <= (d as int) * (b as int) / (d as int))
            by (nonlinear_arith)
            requires
                (a as int) * (b as int) <= (d as int) * (b as int),
                0 < d,
        ;
        assert((d as int) * (b as int) / (d as int) == b) by (nonlinear_arith)
            requires
                0 < d,
        ;
        assert((a as int) * (b as int) <= (u64::MAX as int) * (u64::MAX as int))
            by (nonlinear_arith)
            requires
                a <= u64::MAX,
                b <= u64::MAX,
        ;
    }
    (((a as u128) * (b as u128)) / (d as u128)) as u64
}

/// An upper bound on the fixed-point product from upper bounds on the
/// factors.
pub proof fn lemma_fx_bound(a: int, b: int, bound_a: int, bound_b: int)
    requires
        0 <= a <= bound_a,
        0 <= b <= bound_b,
        bound_a * bound_b <= u64::MAX,
    ensures
        fx(a, b) <= bound_a * bound_b / (SCALE as int),
        fx(a, b) == a * b / (SCALE as int),
{
    assert(a * b <= bound_a * bound_b) by (nonlinear_arith)
        requires
            0 <= a <= bound_a,
            0 <= b <= bound_b,
    ;
    assert(a * b / (SCALE as int) <= bound_a * bound_b / (SCALE as int)) by (nonlinear_arith)
        requires
            a * b <= bound_a * bound_b,
    ;
    assert(bound_a * bound_b / (SCALE as int) <= bound_a * bound_b) by (nonlinear_arith)
        requires
            0 <= bound_a * bound_b,
    ;
}

/// Fixed-point multiplication is monotone in its right argument.
pub proof fn lemma_fx_mono(a: int, b1: int, b2: int)
    requires
        0 <= a,
        0 <= b1 <= b2,
    ensures
        fx(a, b1) <= fx(a, b2),
{
    assert(a * b1 <= a * b2) by (nonlinear_arith)
        requires
            0 <= a,
            b1 <= b2,
    ;
    assert(a * b1 / (SCALE as int) <= a * b2 / (SCALE as int)) by (nonlinear_arith)
        requires
            a * b1 <= a * b2,
    ;
}

} // verus!
