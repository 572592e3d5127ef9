//! Integer 2D vectors and milli-scaled (thousandths) multiplication.
//!
//! World coordinates, velocities and half-extents are plain `i64` world
//! units.  Quantities that are fractions of one — runtime multipliers, the
//! fixed time delta in seconds — are stored in thousandths ("milli" values,
//! 1000 = one).  Scaling a coordinate by a milli value truncates toward
//! zero, the way the host's number format would round a small magnitude.

use vstd::prelude::*;

verus! {

/// One, expressed in thousandths.
pub const MILLI_ONE: i64 = 1000;

/// Largest magnitude a coordinate, velocity or gravity component may carry
/// when it enters a simulation step (2^40).  Far beyond any playable world,
/// but small enough that every intermediate product fits an `i64`.
pub const COORD_LIMIT: i64 = 0x100_0000_0000;

/// Largest milli factor (multiplier or time delta) a simulation step
/// accepts (2^20 thousandths, about a thousandfold).
pub const FACTOR_LIMIT: i64 = 0x10_0000;

/// A 2D vector of whole world units.
#[derive(Clone, Copy, Debug, PartialEq, Eq, Structural)]
pub struct Vec2 {
    pub x: i64,
    pub y: i64,
}

impl Vec2 {
    pub fn new(x: i64, y: i64) -> (v: Vec2)
        ensures
            v == (Vec2 { x, y }),
    {
        Vec2 { x, y }
    }

    pub fn zero() -> (v: Vec2)
        ensures
            v == (Vec2 { x: 0, y: 0 }),
    {
        Vec2 { x: 0, y: 0 }
    }
}

/// `v` scaled by `f` thousandths, truncated toward zero:
/// the exact value of `v * f / 1000` with the fraction dropped.
pub open spec fn milli_of(v: int, f: int) -> int {
    if v >= 0 {
        (v * f) / 1000
    } else {
        -((-v * f) / 1000)
    }
}

/// Multiply a world-unit quantity by a milli factor, truncating toward zero.
pub fn mul_milli(v: i64, f: i64) -> (r: i64)
    requires
        -COORD_LIMIT <= v <= COORD_LIMIT,
        0 <= f <= FACTOR_LIMIT,
    ensures
        r == milli_of(v as int, f as int),
        -COORD_LIMIT * FACTOR_LIMIT <= r <= COORD_LIMIT * FACTOR_LIMIT,
{
    let mag: u64 = if v >= 0 { v as u64 } else { (-v) as u64 };
    proof {
        assert(mag * (f as u64) <= COORD_LIMIT * FACTOR_LIMIT) by (nonlinear_arith)
            requires
                0 <= mag <= COORD_LIMIT,
                0 <= (f as u64) <= FACTOR_LIMIT,
        ;
    }
    let prod: u64 = mag * (f as u64);
    let scaled: u64 = prod / 1000;
    if v >= 0 {
        scaled as i64
    } else {
        -(scaled as i64)
    }
}

/// Scaling by a factor of at most one brings the magnitude no closer to
/// overflow: the result stays between zero and the input.
pub proof fn lemma_milli_shrinks(v: int, f: int)
    requires
        0 <= f <= 1000,
    ensures
        v >= 0 ==> 0 <= milli_of(v, f) <= v,
        v < 0 ==> v <= milli_of(v, f) <= 0,
    decreases (if v < 0 { 1int } else { 0int }),
{
    if v >= 0 {
        assert(v * f <= v * 1000) by (nonlinear_arith)
            requires
                v >= 0,
                f <= 1000,
        ;
        assert((v * f) / 1000 <= (v * 1000) / 1000) by (nonlinear_arith)
            requires
                v * f <= v * 1000,
        ;
        assert(v * 1000 / 1000 == v) by (nonlinear_arith);
        assert(v * f >= 0) by (nonlinear_arith)
            requires
                v >= 0,
                f >= 0,
        ;
    } else {
        lemma_milli_shrinks(-v, f);
    }
}

/// Scaling keeps non-negative quantities non-negative.
pub proof fn lemma_milli_nonneg(v: int, f: int)
    requires
        v >= 0,
        f >= 0,
    ensures
        milli_of(v, f) >= 0,
{
    assert(v * f >= 0) by (nonlinear_arith)
        requires
            v >= 0,
            f >= 0,
    ;
}

/// Scaling by a bounded factor keeps the magnitude below the input bound
/// scaled by the factor, both with and without the truncating division.
pub proof fn lemma_milli_bound(v: int, f: int, bound: int)
    requires
        0 <= f,
        -bound <= v <= bound,
    ensures
        -bound * f <= milli_of(v, f) <= bound * f,
        -((bound * f) / 1000) <= milli_of(v, f) <= (bound * f) / 1000,
    decreases (if v < 0 { 1int } else { 0int }),
{
    if v >= 0 {
        assert(0 <= v * f <= bound * f) by (nonlinear_arith)
            requires
                0 <= v <= bound,
                0 <= f,
        ;
        assert(0 <= (v * f) / 1000 <= v * f) by (nonlinear_arith)
            requires
                0 <= v * f,
        ;
        vstd::arithmetic::div_mod::lemma_div_is_ordered(v * f, bound * f, 1000);
        assert(-bound * f == -(bound * f)) by (nonlinear_arith);
    } else {
        lemma_milli_bound(-v, f, bound);
        assert(milli_of(v, f) == -milli_of(-v, f));
        assert(-bound * f == -(bound * f)) by (nonlinear_arith);
    }
}

} // verus!
