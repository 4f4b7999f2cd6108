//! Arithmetic on lengths and colours.
//!
//! Two lengths combine only when both carry a number in the same unit. In every
//! other case the left operand comes back unchanged: mixing units is tolerated,
//! not reported.

use vstd::prelude::*;
use vstd::wrapping::i64_specs::{wrapping_add, wrapping_sub};
use crate::fixed::{lerp, lerped, Scalar};
use crate::values::{Color, Val};

verus! {

/// `a + b` on lengths.
pub open spec fn val_sum(a: Val, b: Val) -> Val {
    if a.same_unit(b) {
        a.with_amount(wrapping_add(a.amount(), b.amount()))
    } else {
        a
    }
}

/// `a - b` on lengths.
pub open spec fn val_diff(a: Val, b: Val) -> Val {
    if a.same_unit(b) {
        a.with_amount(wrapping_sub(a.amount(), b.amount()))
    } else {
        a
    }
}

/// The length a fraction `t` of the way from `base` to `base + delta`.
pub open spec fn val_lerped(base: Val, delta: Val, t: Scalar) -> Val {
    if base.same_unit(delta) {
        base.with_amount(lerped(base.amount(), delta.amount(), t))
    } else {
        base
    }
}

/// Adds two lengths of the same unit; the sum wraps.
pub fn add_val(a: Val, b: Val) -> (r: Val)
    ensures
        r == val_sum(a, b),
        !a.same_unit(b) ==> r == a,
{
    match (a, b) {
        (Val::Px(a), Val::Px(b)) => Val::Px(a.wrapping_add(b)),
        (Val::Percent(a), Val::Percent(b)) => Val::Percent(a.wrapping_add(b)),
        (Val::Vw(a), Val::Vw(b)) => Val::Vw(a.wrapping_add(b)),
        (Val::Vh(a), Val::Vh(b)) => Val::Vh(a.wrapping_add(b)),
        (Val::VMin(a), Val::VMin(b)) => Val::VMin(a.wrapping_add(b)),
        (Val::VMax(a), Val::VMax(b)) => Val::VMax(a.wrapping_add(b)),
        _ => a,
    }
}

/// Subtracts two lengths of the same unit; the difference wraps.
pub fn sub_val(a: Val, b: Val) -> (r: Val)
    ensures
        r == val_diff(a, b),
        !a.same_unit(b) ==> r == a,
{
    match (a, b) {
        (Val::Px(a), Val::Px(b)) => Val::Px(a.wrapping_sub(b)),
        (Val::Percent(a), Val::Percent(b)) => Val::Percent(a.wrapping_sub(b)),
        (Val::Vw(a), Val::Vw(b)) => Val::Vw(a.wrapping_sub(b)),
        (Val::Vh(a), Val::Vh(b)) => Val::Vh(a.wrapping_sub(b)),
        (Val::VMin(a), Val::VMin(b)) => Val::VMin(a.wrapping_sub(b)),
        (Val::VMax(a), Val::VMax(b)) => Val::VMax(a.wrapping_sub(b)),
        _ => a,
    }
}

/// Interpolates a length from `base` toward `base + delta`.
pub fn lerp_val(base: Val, delta: Val, t: Scalar) -> (r: Val)
    ensures
        r == val_lerped(base, delta, t),
        !base.same_unit(delta) ==> r == base,
{
    match (base, delta) {
        (Val::Px(s), Val::Px(v)) => Val::Px(lerp(s, v, t)),
        (Val::Percent(s), Val::Percent(v)) => Val::Percent(lerp(s, v, t)),
        (Val::Vw(s), Val::Vw(v)) => Val::Vw(lerp(s, v, t)),
        (Val::Vh(s), Val::Vh(v)) => Val::Vh(lerp(s, v, t)),
        (Val::VMin(s), Val::VMin(v)) => Val::VMin(lerp(s, v, t)),
        (Val::VMax(s), Val::VMax(v)) => Val::VMax(lerp(s, v, t)),
        _ => base,
    }
}

/// Subtracts two colours channel by channel; each difference wraps.
pub fn sub_color(a: Color, b: Color) -> (r: Color)
    ensures
        r == a.diff(b),
{
    Color {
        r: a.r.wrapping_sub(b.r),
        g: a.g.wrapping_sub(b.g),
        b: a.b.wrapping_sub(b.b),
        a: a.a.wrapping_sub(b.a),
    }
}

/// Adding a length and then subtracting it again gives back the first length
/// exactly, and so does subtracting first. This holds of every pair of lengths,
/// whether their units agree or not.
pub proof fn lemma_val_add_sub_inverse(a: Val, b: Val)
    ensures
        val_diff(val_sum(a, b), b) == a,
        val_sum(val_diff(a, b), b) == a,
{
}

/// Between lengths of different units, or when either is `Auto`, the sum and the
/// difference are the left operand.
pub proof fn lemma_val_mismatch_keeps_left(a: Val, b: Val)
    requires
        !a.same_unit(b),
    ensures
        val_sum(a, b) == a,
        val_diff(a, b) == a,
{
}

/// On lengths, a sum and a difference may be taken in either order.
pub proof fn lemma_val_add_sub_commute(a: Val, b: Val, c: Val)
    ensures
        val_diff(val_sum(a, b), c) == val_sum(val_diff(a, c), b),
{
}

} // verus!
