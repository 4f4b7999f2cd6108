//! Fixed-point numbers: the arithmetic every attribute is computed in.
//!
//! Sums and differences wrap at the ends of the range. That makes them exact
//! inverses of each other on every input, which is what lets a baseline take up
//! the deltas of steps and give them back without drift. Products are rounded
//! toward zero and kept within the range. No operation fails.

use vstd::prelude::*;
use vstd::wrapping::i64_specs::{wrapping_add, wrapping_sub};

verus! {

/// A signed quantity counted in millionths: `ONE` stands for 1.
pub type Scalar = i64;

/// A count of cycles in millionths of one cycle.
pub type Cycles = u64;

/// A span of time in nanoseconds.
pub type Nanos = u64;

/// The scalar 1.
pub const ONE: Scalar = 1_000_000;

/// One whole cycle.
pub const CYCLE: Cycles = 1_000_000;

/// The cycle count of a step that repeats without end: the largest count there is.
pub const ENDLESS: Cycles = 0xffff_ffff_ffff_ffff;

/// The quotient of `a` by a positive `b`, rounded toward zero.
pub open spec fn quot(a: int, b: int) -> int {
    if a >= 0 {
        a / b
    } else {
        -((-a) / b)
    }
}

/// The scalar nearest to `x`.
pub open spec fn clamped(x: int) -> Scalar {
    if x > i64::MAX {
        i64::MAX
    } else if x < i64::MIN {
        i64::MIN
    } else {
        x as i64
    }
}

/// The product `v * t` of two scalars, rounded toward zero and kept within the
/// scalar range.
pub open spec fn scaled(v: Scalar, t: Scalar) -> Scalar {
    clamped(quot(v * t, ONE as int))
}

/// The point a fraction `t` of the way from `base` to `base + delta`.
pub open spec fn lerped(base: Scalar, delta: Scalar, t: Scalar) -> Scalar {
    wrapping_add(base, scaled(delta, t))
}

/// How many cycles of length `per` fit in `elapsed`; a cycle of zero length is
/// over as soon as any time has passed.
pub open spec fn cycles_in(elapsed: Nanos, per: Nanos) -> Cycles {
    if per == 0 {
        if elapsed == 0 {
            0
        } else {
            ENDLESS
        }
    } else if elapsed * CYCLE / (per as int) > ENDLESS {
        ENDLESS
    } else {
        (elapsed * CYCLE / (per as int)) as u64
    }
}

/// The sum of two cycle counts, kept at the largest count where it would pass it.
pub open spec fn capped_sum(a: Cycles, b: Cycles) -> Cycles {
    if a + b > ENDLESS {
        ENDLESS
    } else {
        (a + b) as u64
    }
}

/// Brings a wide number into the scalar range.
pub fn clamp(x: i128) -> (r: Scalar)
    ensures
        r == clamped(x as int),
{
    if x > i64::MAX as i128 {
        i64::MAX
    } else if x < i64::MIN as i128 {
        i64::MIN
    } else {
        x as i64
    }
}

/// Multiplies two scalars.
pub fn scale(v: Scalar, t: Scalar) -> (r: Scalar)
    ensures
        r == scaled(v, t),
{
    assert(-0x4000_0000_0000_0000_0000_0000_0000_0000 <= v * t
        <= 0x4000_0000_0000_0000_0000_0000_0000_0000) by (nonlinear_arith)
        requires
            -0x8000_0000_0000_0000 <= v <= 0x8000_0000_0000_0000,
            -0x8000_0000_0000_0000 <= t <= 0x8000_0000_0000_0000,
    ;
    let wide: i128 = (v as i128) * (t as i128);
    clamp(wide / (ONE as i128))
}

/// Interpolates from `base` toward `base + delta`. The sum wraps.
pub fn lerp(base: Scalar, delta: Scalar, t: Scalar) -> (r: Scalar)
    ensures
        r == lerped(base, delta, t),
{
    base.wrapping_add(scale(delta, t))
}

/// Counts the cycles of length `per` in `elapsed`.
pub fn cycles(elapsed: Nanos, per: Nanos) -> (r: Cycles)
    ensures
        r == cycles_in(elapsed, per),
{
    if per == 0 {
        if elapsed == 0 {
            0
        } else {
            ENDLESS
        }
    } else {
        assert(elapsed * CYCLE <= 0xffff_ffff_ffff_ffff * 1_000_000) by (nonlinear_arith)
            requires
                0 <= elapsed <= 0xffff_ffff_ffff_ffff,
                CYCLE == 1_000_000,
        ;
        let wide: u128 = (elapsed as u128) * (CYCLE as u128);
        let q: u128 = wide / (per as u128);
        if q > ENDLESS as u128 {
            ENDLESS
        } else {
            q as u64
        }
    }
}

/// Adding and then subtracting the same scalar gives back the first one, on
/// every pair: the sums wrap.
pub proof fn lemma_add_then_sub(a: Scalar, b: Scalar)
    ensures
        wrapping_sub(wrapping_add(a, b), b) == a,
        wrapping_add(wrapping_sub(a, b), b) == a,
{
}

/// Wrapping sums and differences may be taken in either order.
pub proof fn lemma_add_sub_commute(a: Scalar, b: Scalar, c: Scalar)
    ensures
        wrapping_sub(wrapping_add(a, b), c) == wrapping_add(wrapping_sub(a, c), b),
        wrapping_add(wrapping_add(a, b), c) == wrapping_add(wrapping_add(a, c), b),
        wrapping_sub(wrapping_sub(a, b), c) == wrapping_sub(wrapping_sub(a, c), b),
{
}

/// Scaling by 0 gives 0, and scaling by 1 changes nothing.
pub proof fn lemma_scaled_ends(v: Scalar)
    ensures
        scaled(v, 0) == 0,
        scaled(0, v) == 0,
        scaled(v, ONE) == v,
{
    assert(v * 0 == 0);
    assert(0 * v == 0);
    if v >= 0 {
        assert((v * ONE) / (ONE as int) == v) by (nonlinear_arith)
            requires
                ONE == 1_000_000,
        ;
    } else {
        assert((-(v * ONE)) / (ONE as int) == -v) by (nonlinear_arith)
            requires
                ONE == 1_000_000,
        ;
    }
}

} // verus!
