//! The values that attributes hold: lengths, colours, vectors and rotations.

use vstd::prelude::*;
use vstd::wrapping::i64_specs::{wrapping_add, wrapping_sub};
use crate::fixed::{scale, scaled, Scalar};

verus! {

/// A length: an amount in one of six units, or `Auto` for a length that is not set.
#[derive(Clone, Copy, Debug, PartialEq, Eq, Structural)]
pub enum Val {
    Auto,
    Px(Scalar),
    Percent(Scalar),
    Vw(Scalar),
    Vh(Scalar),
    VMin(Scalar),
    VMax(Scalar),
}

impl Val {
    /// The number the length carries; `Auto` carries none and counts as 0.
    pub open spec fn amount(self) -> Scalar {
        match self {
            Val::Auto => 0,
            Val::Px(x) => x,
            Val::Percent(x) => x,
            Val::Vw(x) => x,
            Val::Vh(x) => x,
            Val::VMin(x) => x,
            Val::VMax(x) => x,
        }
    }

    /// The length `x` in the unit of `self`.
    pub open spec fn with_amount(self, x: Scalar) -> Val {
        match self {
            Val::Auto => Val::Auto,
            Val::Px(_) => Val::Px(x),
            Val::Percent(_) => Val::Percent(x),
            Val::Vw(_) => Val::Vw(x),
            Val::Vh(_) => Val::Vh(x),
            Val::VMin(_) => Val::VMin(x),
            Val::VMax(_) => Val::VMax(x),
        }
    }

    /// Whether both lengths carry a number, and in the same unit.
    pub open spec fn same_unit(self, other: Val) -> bool {
        ||| self is Px && other is Px
        ||| self is Percent && other is Percent
        ||| self is Vw && other is Vw
        ||| self is Vh && other is Vh
        ||| self is VMin && other is VMin
        ||| self is VMax && other is VMax
    }
}

/// A colour as an additive vector of red, green, blue and alpha.
#[derive(Clone, Copy, Debug, PartialEq, Eq, Structural)]
pub struct Color {
    pub r: Scalar,
    pub g: Scalar,
    pub b: Scalar,
    pub a: Scalar,
}

impl Color {
    /// The colour that stands for "no colour": all four channels 0.
    pub open spec fn none_spec() -> Color {
        Color { r: 0, g: 0, b: 0, a: 0 }
    }

    pub open spec fn sum(self, rhs: Color) -> Color {
        Color {
            r: wrapping_add(self.r, rhs.r),
            g: wrapping_add(self.g, rhs.g),
            b: wrapping_add(self.b, rhs.b),
            a: wrapping_add(self.a, rhs.a),
        }
    }

    pub open spec fn diff(self, rhs: Color) -> Color {
        Color {
            r: wrapping_sub(self.r, rhs.r),
            g: wrapping_sub(self.g, rhs.g),
            b: wrapping_sub(self.b, rhs.b),
            a: wrapping_sub(self.a, rhs.a),
        }
    }

    pub open spec fn times(self, t: Scalar) -> Color {
        Color {
            r: scaled(self.r, t),
            g: scaled(self.g, t),
            b: scaled(self.b, t),
            a: scaled(self.a, t),
        }
    }

    #[verifier::when_used_as_spec(none_spec)]
    pub fn none() -> (c: Color)
        ensures
            c == Color::none_spec(),
    {
        Color { r: 0, g: 0, b: 0, a: 0 }
    }

    /// Builds a colour from its four channels.
    pub fn rgba(r: Scalar, g: Scalar, b: Scalar, a: Scalar) -> (c: Color)
        ensures
            c == (Color { r, g, b, a }),
    {
        Color { r, g, b, a }
    }

    /// Channel by channel sum; each sum wraps.
    pub fn add(self, rhs: Color) -> (c: Color)
        ensures
            c == self.sum(rhs),
    {
        Color {
            r: self.r.wrapping_add(rhs.r),
            g: self.g.wrapping_add(rhs.g),
            b: self.b.wrapping_add(rhs.b),
            a: self.a.wrapping_add(rhs.a),
        }
    }

    /// Every channel multiplied by `t`.
    pub fn scale(self, t: Scalar) -> (c: Color)
        ensures
            c == self.times(t),
    {
        Color { r: scale(self.r, t), g: scale(self.g, t), b: scale(self.b, t), a: scale(self.a, t) }
    }
}

/// A point or size in the plane.
#[derive(Clone, Copy, Debug, PartialEq, Eq, Structural)]
pub struct Vec2 {
    pub x: Scalar,
    pub y: Scalar,
}

impl Vec2 {
    pub fn new(x: Scalar, y: Scalar) -> (v: Vec2)
        ensures
            v == (Vec2 { x, y }),
    {
        Vec2 { x, y }
    }
}

/// A vector in space.
#[derive(Clone, Copy, Debug, PartialEq, Eq, Structural)]
pub struct Vec3 {
    pub x: Scalar,
    pub y: Scalar,
    pub z: Scalar,
}

impl Vec3 {
    pub open spec fn zero_spec() -> Vec3 {
        Vec3 { x: 0, y: 0, z: 0 }
    }

    pub open spec fn sum(self, rhs: Vec3) -> Vec3 {
        Vec3 {
            x: wrapping_add(self.x, rhs.x),
            y: wrapping_add(self.y, rhs.y),
            z: wrapping_add(self.z, rhs.z),
        }
    }

    pub open spec fn diff(self, rhs: Vec3) -> Vec3 {
        Vec3 {
            x: wrapping_sub(self.x, rhs.x),
            y: wrapping_sub(self.y, rhs.y),
            z: wrapping_sub(self.z, rhs.z),
        }
    }

    pub open spec fn times(self, t: Scalar) -> Vec3 {
        Vec3 { x: scaled(self.x, t), y: scaled(self.y, t), z: scaled(self.z, t) }
    }

    #[verifier::when_used_as_spec(zero_spec)]
    pub fn zero() -> (v: Vec3)
        ensures
            v == Vec3::zero_spec(),
    {
        Vec3 { x: 0, y: 0, z: 0 }
    }

    pub fn new(x: Scalar, y: Scalar, z: Scalar) -> (v: Vec3)
        ensures
            v == (Vec3 { x, y, z }),
    {
        Vec3 { x, y, z }
    }

    /// Component by component sum; each sum wraps.
    pub fn add(self, rhs: Vec3) -> (v: Vec3)
        ensures
            v == self.sum(rhs),
    {
        Vec3 {
            x: self.x.wrapping_add(rhs.x),
            y: self.y.wrapping_add(rhs.y),
            z: self.z.wrapping_add(rhs.z),
        }
    }

    /// Component by component difference; each difference wraps.
    pub fn sub(self, rhs: Vec3) -> (v: Vec3)
        ensures
            v == self.diff(rhs),
    {
        Vec3 {
            x: self.x.wrapping_sub(rhs.x),
            y: self.y.wrapping_sub(rhs.y),
            z: self.z.wrapping_sub(rhs.z),
        }
    }

    /// Every component multiplied by `t`.
    pub fn scale(self, t: Scalar) -> (v: Vec3)
        ensures
            v == self.times(t),
    {
        Vec3 { x: scale(self.x, t), y: scale(self.y, t), z: scale(self.z, t) }
    }
}

/// A rotation as the four components of a quaternion. The library adds and
/// subtracts rotations component by component and never normalises them.
#[derive(Clone, Copy, Debug, PartialEq, Eq, Structural)]
pub struct Quat {
    pub x: Scalar,
    pub y: Scalar,
    pub z: Scalar,
    pub w: Scalar,
}

impl Quat {
    /// The quaternion of four zeros: as a delta it stands for "no rotation set".
    pub open spec fn zero_spec() -> Quat {
        Quat { x: 0, y: 0, z: 0, w: 0 }
    }

    pub open spec fn sum(self, rhs: Quat) -> Quat {
        Quat {
            x: wrapping_add(self.x, rhs.x),
            y: wrapping_add(self.y, rhs.y),
            z: wrapping_add(self.z, rhs.z),
            w: wrapping_add(self.w, rhs.w),
        }
    }

    pub open spec fn diff(self, rhs: Quat) -> Quat {
        Quat {
            x: wrapping_sub(self.x, rhs.x),
            y: wrapping_sub(self.y, rhs.y),
            z: wrapping_sub(self.z, rhs.z),
            w: wrapping_sub(self.w, rhs.w),
        }
    }

    #[verifier::when_used_as_spec(zero_spec)]
    pub fn zero() -> (q: Quat)
        ensures
            q == Quat::zero_spec(),
    {
        Quat { x: 0, y: 0, z: 0, w: 0 }
    }

    pub fn from_xyzw(x: Scalar, y: Scalar, z: Scalar, w: Scalar) -> (q: Quat)
        ensures
            q == (Quat { x, y, z, w }),
    {
        Quat { x, y, z, w }
    }

    /// Component by component sum; each sum wraps.
    pub fn add(self, rhs: Quat) -> (q: Quat)
        ensures
            q == self.sum(rhs),
    {
        Quat {
            x: self.x.wrapping_add(rhs.x),
            y: self.y.wrapping_add(rhs.y),
            z: self.z.wrapping_add(rhs.z),
            w: self.w.wrapping_add(rhs.w),
        }
    }

    /// Component by component difference; each difference wraps.
    pub fn sub(self, rhs: Quat) -> (q: Quat)
        ensures
            q == self.diff(rhs),
    {
        Quat {
            x: self.x.wrapping_sub(rhs.x),
            y: self.y.wrapping_sub(rhs.y),
            z: self.z.wrapping_sub(rhs.z),
            w: self.w.wrapping_sub(rhs.w),
        }
    }
}

/// On colours, adding and then subtracting the same colour gives back the first
/// one, and a sum and a difference may be taken in either order.
pub proof fn lemma_color_algebra(a: Color, d: Color, e: Color)
    ensures
        a.sum(d).diff(d) == a,
        a.diff(d).sum(d) == a,
        a.sum(d).diff(e) == a.diff(e).sum(d),
{
}

/// On vectors, adding and then subtracting the same vector gives back the first
/// one, and a sum and a difference may be taken in either order.
pub proof fn lemma_vec3_algebra(a: Vec3, d: Vec3, e: Vec3)
    ensures
        a.sum(d).diff(d) == a,
        a.diff(d).sum(d) == a,
        a.sum(d).diff(e) == a.diff(e).sum(d),
{
}

/// On rotations, adding and then subtracting the same rotation gives back the
/// first one, and a sum and a difference may be taken in either order.
pub proof fn lemma_quat_algebra(a: Quat, d: Quat, e: Quat)
    ensures
        a.sum(d).diff(d) == a,
        a.diff(d).sum(d) == a,
        a.sum(d).diff(e) == a.diff(e).sum(d),
{
}

} // verus!
