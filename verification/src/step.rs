//! One step of an animation: how long a cycle lasts, how often it repeats, how
//! its progress is eased, and what it changes.

use vstd::prelude::*;
use vstd::std_specs::convert::FromSpecImpl;
use interpolation::EaseFunction;
use crate::anim::Anim;
use crate::fixed::{cycles, cycles_in, Cycles, Nanos, Scalar, CYCLE, ENDLESS};
use crate::values::{Color, Quat, Val, Vec3};

verus! {

/// `interpolation::EaseFunction`, the names of the curves in that crate's
/// catalogue, declared as an opaque type. Nothing is claimed of it: the library
/// stores a name and hands it to the caller's curve, and never looks inside.
#[verifier::external_type_specification]
#[verifier::external_body]
pub struct ExEaseFunction(EaseFunction);

/// How the fraction of a cycle that has passed becomes the fraction of the
/// delta that is applied.
#[derive(Clone, Copy, Debug)]
pub enum EaseMethod {
    /// A curve of the catalogue.
    EaseFun(EaseFunction),
    /// The identity.
    Linear,
    /// A curve of the caller's own, under the number by which the caller knows it.
    Custom(u32),
}

impl Default for EaseMethod {
    fn default() -> (m: EaseMethod)
        ensures
            m is Linear,
    {
        EaseMethod::Linear
    }
}

impl From<EaseFunction> for EaseMethod {
    fn from(fun: EaseFunction) -> (m: EaseMethod) {
        EaseMethod::EaseFun(fun)
    }
}

impl FromSpecImpl<EaseFunction> for EaseMethod {
    open spec fn obeys_from_spec() -> bool {
        true
    }

    open spec fn from_spec(fun: EaseFunction) -> EaseMethod {
        EaseMethod::EaseFun(fun)
    }
}

impl EaseMethod {
    /// Whether `r` is an eased value of `tick`: `tick` itself where the method is
    /// linear, and otherwise a value that `curve` returns for this method and
    /// `tick`.
    pub open spec fn eases<F: Fn(EaseMethod, Scalar) -> Scalar>(
        self,
        tick: Scalar,
        curve: F,
        r: Scalar,
    ) -> bool {
        if self is Linear {
            r == tick
        } else {
            call_ensures(curve, (self, tick), r)
        }
    }

    /// Eases `tick`. The linear method returns it as it is. Every other method is
    /// evaluated by `curve`, whose result is passed on unclamped.
    pub fn tick<F: Fn(EaseMethod, Scalar) -> Scalar>(&self, tick: Scalar, curve: &F) -> (r: Scalar)
        requires
            !(self is Linear) ==> call_requires(*curve, (*self, tick)),
        ensures
            self.eases(tick, *curve, r),
            self is Linear ==> r == tick,
    {
        match self {
            EaseMethod::Linear => tick,
            _ => curve(*self, tick),
        }
    }
}

/// How long a step keeps cycling.
#[derive(Clone, Copy, Debug, PartialEq, Eq, Structural)]
pub enum Repeat {
    /// A number of cycles.
    Finite(u8),
    /// Without end.
    Infinite,
    /// For a span of time.
    Duration(Nanos),
}

impl Default for Repeat {
    fn default() -> (r: Repeat)
        ensures
            r == Repeat::Finite(1),
    {
        Repeat::Finite(1)
    }
}

/// The number of cycles that a step of cycle length `per` runs under `repeat`.
pub open spec fn total_cycles_of(repeat: Repeat, per: Nanos) -> Cycles {
    match repeat {
        Repeat::Finite(count) => (count * CYCLE) as u64,
        Repeat::Infinite => ENDLESS,
        Repeat::Duration(duration) => cycles_in(duration, per),
    }
}

/// One timed step. It is configured through its setters, each of which hands
/// the step back so that calls can be chained.
#[derive(Clone, Copy, Debug)]
pub struct Animation {
    /// The length of one cycle.
    pub per: Nanos,
    pub repeat: Repeat,
    /// Kept with the step. Ticking does not consult it: every step plays its odd
    /// cycles backwards.
    pub mirror: bool,
    pub ease_method: EaseMethod,
    /// What the step adds to the baseline by the end of a cycle.
    pub change: Anim,
}

impl Default for Animation {
    /// A step of one cycle of no length that changes nothing.
    fn default() -> (a: Animation)
        ensures
            a == Animation::unset(),
    {
        Animation {
            per: 0,
            repeat: Repeat::Finite(1),
            mirror: false,
            ease_method: EaseMethod::Linear,
            change: Anim::default(),
        }
    }
}

impl Animation {
    pub open spec fn unset() -> Animation {
        Animation {
            per: 0,
            repeat: Repeat::Finite(1),
            mirror: false,
            ease_method: EaseMethod::Linear,
            change: Anim::unset(),
        }
    }

    /// The number of cycles the step runs before the next one takes over.
    pub open spec fn total_cycles(self) -> Cycles {
        total_cycles_of(self.repeat, self.per)
    }

    /// The number of cycles the step runs: the count, for a span of time the
    /// cycles that fit in it, and for a step without end the largest count.
    pub fn get_total_times(&self) -> (r: Cycles)
        ensures
            r == self.total_cycles(),
    {
        match self.repeat {
            Repeat::Finite(count) => (count as u64) * CYCLE,
            Repeat::Infinite => ENDLESS,
            Repeat::Duration(duration) => cycles(duration, self.per),
        }
    }

    pub fn set_mirror(&mut self, mirror: bool) -> (ret: &mut Self)
        ensures
            *ret == (Animation { mirror, ..*old(self) }),
            *final(self) == *final(ret),
    {
        self.mirror = mirror;
        self
    }

    /// Sets cycle length, repeat policy and easing at once.
    pub fn set_default(&mut self, per: Nanos, repeat: Repeat, ease_method: EaseMethod) -> (ret:
        &mut Self)
        ensures
            *ret == (Animation { per, repeat, ease_method, ..*old(self) }),
            ret.total_cycles() == total_cycles_of(repeat, per),
            *final(self) == *final(ret),
    {
        self.per = per;
        self.repeat = repeat;
        self.ease_method = ease_method;
        self
    }

    /// Sets the length of one cycle.
    pub fn set_delay(&mut self, delay: Nanos) -> (ret: &mut Self)
        ensures
            *ret == (Animation { per: delay, ..*old(self) }),
            ret.total_cycles() == total_cycles_of(old(self).repeat, delay),
            *final(self) == *final(ret),
    {
        self.per = delay;
        self
    }

    pub fn set_repeat(&mut self, repeat: Repeat) -> (ret: &mut Self)
        ensures
            *ret == (Animation { repeat, ..*old(self) }),
            ret.total_cycles() == total_cycles_of(repeat, old(self).per),
            *final(self) == *final(ret),
    {
        self.repeat = repeat;
        self
    }

    pub fn set_ease(&mut self, ease_method: EaseMethod) -> (ret: &mut Self)
        ensures
            *ret == (Animation { ease_method, ..*old(self) }),
            *final(self) == *final(ret),
    {
        self.ease_method = ease_method;
        self
    }

    pub fn set_wh(&mut self, width: Val, height: Val) -> (ret: &mut Self)
        ensures
            *ret == (Animation {
                change: Anim { style_width: width, style_height: height, ..old(self).change },
                ..*old(self)
            }),
            *final(self) == *final(ret),
    {
        self.change.style_width = width;
        self.change.style_height = height;
        self
    }

    pub fn set_width(&mut self, width: Val) -> (ret: &mut Self)
        ensures
            *ret == (Animation {
                change: Anim { style_width: width, ..old(self).change },
                ..*old(self)
            }),
            *final(self) == *final(ret),
    {
        self.change.style_width = width;
        self
    }

    pub fn set_height(&mut self, height: Val) -> (ret: &mut Self)
        ensures
            *ret == (Animation {
                change: Anim { style_height: height, ..old(self).change },
                ..*old(self)
            }),
            *final(self) == *final(ret),
    {
        self.change.style_height = height;
        self
    }

    pub fn set_lt(&mut self, left: Val, top: Val) -> (ret: &mut Self)
        ensures
            *ret == (Animation {
                change: Anim { style_left: left, style_top: top, ..old(self).change },
                ..*old(self)
            }),
            *final(self) == *final(ret),
    {
        self.change.style_left = left;
        self.change.style_top = top;
        self
    }

    pub fn set_left(&mut self, left: Val) -> (ret: &mut Self)
        ensures
            *ret == (Animation {
                change: Anim { style_left: left, ..old(self).change },
                ..*old(self)
            }),
            *final(self) == *final(ret),
    {
        self.change.style_left = left;
        self
    }

    pub fn set_top(&mut self, top: Val) -> (ret: &mut Self)
        ensures
            *ret == (Animation {
                change: Anim { style_top: top, ..old(self).change },
                ..*old(self)
            }),
            *final(self) == *final(ret),
    {
        self.change.style_top = top;
        self
    }

    pub fn set_rb(&mut self, right: Val, bottom: Val) -> (ret: &mut Self)
        ensures
            *ret == (Animation {
                change: Anim { style_right: right, style_bottom: bottom, ..old(self).change },
                ..*old(self)
            }),
            *final(self) == *final(ret),
    {
        self.change.style_right = right;
        self.change.style_bottom = bottom;
        self
    }

    pub fn set_right(&mut self, right: Val) -> (ret: &mut Self)
        ensures
            *ret == (Animation {
                change: Anim { style_right: right, ..old(self).change },
                ..*old(self)
            }),
            *final(self) == *final(ret),
    {
        self.change.style_right = right;
        self
    }

    pub fn set_bottom(&mut self, bottom: Val) -> (ret: &mut Self)
        ensures
            *ret == (Animation {
                change: Anim { style_bottom: bottom, ..old(self).change },
                ..*old(self)
            }),
            *final(self) == *final(ret),
    {
        self.change.style_bottom = bottom;
        self
    }

    pub fn set_text(&mut self, font_size: Scalar, font_color: Color) -> (ret: &mut Self)
        ensures
            *ret == (Animation {
                change: Anim {
                    text_font_size: font_size,
                    text_font_color: font_color,
                    ..old(self).change
                },
                ..*old(self)
            }),
            *final(self) == *final(ret),
    {
        self.change.text_font_size = font_size;
        self.change.text_font_color = font_color;
        self
    }

    pub fn set_background(&mut self, color: Color) -> (ret: &mut Self)
        ensures
            *ret == (Animation {
                change: Anim { background_color: color, ..old(self).change },
                ..*old(self)
            }),
            *final(self) == *final(ret),
    {
        self.change.background_color = color;
        self
    }

    pub fn set_transform(&mut self, translation: Vec3, rotation: Quat, scale: Vec3) -> (ret:
        &mut Self)
        ensures
            *ret == (Animation {
                change: Anim {
                    transform_translation: translation,
                    transform_rotation: rotation,
                    transform_scale: scale,
                    ..old(self).change
                },
                ..*old(self)
            }),
            *final(self) == *final(ret),
    {
        self.change.transform_translation = translation;
        self.change.transform_rotation = rotation;
        self.change.transform_scale = scale;
        self
    }

    pub fn set_translation(&mut self, translation: Vec3) -> (ret: &mut Self)
        ensures
            *ret == (Animation {
                change: Anim { transform_translation: translation, ..old(self).change },
                ..*old(self)
            }),
            *final(self) == *final(ret),
    {
        self.change.transform_translation = translation;
        self
    }

    pub fn set_rotation(&mut self, rotation: Quat) -> (ret: &mut Self)
        ensures
            *ret == (Animation {
                change: Anim { transform_rotation: rotation, ..old(self).change },
                ..*old(self)
            }),
            *final(self) == *final(ret),
    {
        self.change.transform_rotation = rotation;
        self
    }

    pub fn set_scale(&mut self, scale: Vec3) -> (ret: &mut Self)
        ensures
            *ret == (Animation {
                change: Anim { transform_scale: scale, ..old(self).change },
                ..*old(self)
            }),
            *final(self) == *final(ret),
    {
        self.change.transform_scale = scale;
        self
    }

    pub fn set_sprite(&mut self, width: Scalar, height: Scalar, color: Color) -> (ret: &mut Self)
        ensures
            *ret == (Animation {
                change: Anim {
                    sprite_width: width,
                    sprite_height: height,
                    sprite_color: color,
                    ..old(self).change
                },
                ..*old(self)
            }),
            *final(self) == *final(ret),
    {
        self.change.sprite_width = width;
        self.change.sprite_height = height;
        self.change.sprite_color = color;
        self
    }

    pub fn set_sprite_size(&mut self, width: Scalar, height: Scalar) -> (ret: &mut Self)
        ensures
            *ret == (Animation {
                change: Anim { sprite_width: width, sprite_height: height, ..old(self).change },
                ..*old(self)
            }),
            *final(self) == *final(ret),
    {
        self.change.sprite_width = width;
        self.change.sprite_height = height;
        self
    }

    pub fn set_sprite_color(&mut self, color: Color) -> (ret: &mut Self)
        ensures
            *ret == (Animation {
                change: Anim { sprite_color: color, ..old(self).change },
                ..*old(self)
            }),
            *final(self) == *final(ret),
    {
        self.change.sprite_color = color;
        self
    }
}

} // verus!
