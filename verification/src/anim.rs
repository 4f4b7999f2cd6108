//! The vector of everything that can be animated, and its interpolation.
//!
//! One [`Anim`] holds a value for each animatable field. It serves both as the
//! baseline a step starts from and as the delta a step moves by. In a delta, a
//! field at its default is a field the step leaves alone.

use vstd::prelude::*;
use vstd::std_specs::ops::{AddSpecImpl, SubSpecImpl};
use vstd::wrapping::i64_specs::{wrapping_add, wrapping_sub};
use crate::ani_utils::{add_val, lerp_val, sub_color, sub_val, val_diff, val_lerped, val_sum};
use crate::attrs::{BackgroundColor, Sprite, Style, Text, TextSection, Transform};
use crate::fixed::{lerp, lerped, Scalar};
use crate::values::{Color, Quat, Val, Vec2, Vec3};

verus! {

/// A value for every animatable field: six lengths of the layout, size and
/// colour of the text, the fill, the placement, and size and tint of the sprite.
#[derive(Clone, Copy, Debug, PartialEq, Eq, Structural)]
pub struct Anim {
    pub style_width: Val,
    pub style_height: Val,
    pub style_left: Val,
    pub style_right: Val,
    pub style_top: Val,
    pub style_bottom: Val,
    pub text_font_size: Scalar,
    pub text_font_color: Color,
    pub background_color: Color,
    pub transform_translation: Vec3,
    pub transform_rotation: Quat,
    pub transform_scale: Vec3,
    pub sprite_width: Scalar,
    pub sprite_height: Scalar,
    pub sprite_color: Color,
}

impl Default for Anim {
    /// The delta that animates nothing.
    fn default() -> (a: Anim)
        ensures
            a == Anim::unset(),
    {
        Anim {
            style_width: Val::Auto,
            style_height: Val::Auto,
            style_left: Val::Auto,
            style_right: Val::Auto,
            style_top: Val::Auto,
            style_bottom: Val::Auto,
            text_font_size: 0,
            text_font_color: Color::none(),
            background_color: Color::none(),
            transform_translation: Vec3::zero(),
            transform_rotation: Quat::zero(),
            transform_scale: Vec3::zero(),
            sprite_width: 0,
            sprite_height: 0,
            sprite_color: Color::none(),
        }
    }
}

impl core::ops::Add for Anim {
    type Output = Anim;

    /// Field by field sum.
    fn add(self, rhs: Anim) -> (r: Anim) {
        Anim {
            style_width: add_val(self.style_width, rhs.style_width),
            style_height: add_val(self.style_height, rhs.style_height),
            style_left: add_val(self.style_left, rhs.style_left),
            style_right: add_val(self.style_right, rhs.style_right),
            style_top: add_val(self.style_top, rhs.style_top),
            style_bottom: add_val(self.style_bottom, rhs.style_bottom),
            text_font_size: self.text_font_size.wrapping_add(rhs.text_font_size),
            text_font_color: self.text_font_color.add(rhs.text_font_color),
            background_color: self.background_color.add(rhs.background_color),
            transform_translation: self.transform_translation.add(rhs.transform_translation),
            transform_rotation: self.transform_rotation.add(rhs.transform_rotation),
            transform_scale: self.transform_scale.add(rhs.transform_scale),
            sprite_width: self.sprite_width.wrapping_add(rhs.sprite_width),
            sprite_height: self.sprite_height.wrapping_add(rhs.sprite_height),
            sprite_color: self.sprite_color.add(rhs.sprite_color),
        }
    }
}

impl AddSpecImpl for Anim {
    open spec fn obeys_add_spec() -> bool {
        true
    }

    open spec fn add_req(self, rhs: Anim) -> bool {
        true
    }

    open spec fn add_spec(self, rhs: Anim) -> Anim {
        self.sum(rhs)
    }
}

impl core::ops::Sub for Anim {
    type Output = Anim;

    /// Field by field difference.
    fn sub(self, rhs: Anim) -> (r: Anim) {
        Anim {
            style_width: sub_val(self.style_width, rhs.style_width),
            style_height: sub_val(self.style_height, rhs.style_height),
            style_left: sub_val(self.style_left, rhs.style_left),
            style_right: sub_val(self.style_right, rhs.style_right),
            style_top: sub_val(self.style_top, rhs.style_top),
            style_bottom: sub_val(self.style_bottom, rhs.style_bottom),
            text_font_size: self.text_font_size.wrapping_sub(rhs.text_font_size),
            text_font_color: sub_color(self.text_font_color, rhs.text_font_color),
            background_color: sub_color(self.background_color, rhs.background_color),
            transform_translation: self.transform_translation.sub(rhs.transform_translation),
            transform_rotation: self.transform_rotation.sub(rhs.transform_rotation),
            transform_scale: self.transform_scale.sub(rhs.transform_scale),
            sprite_width: self.sprite_width.wrapping_sub(rhs.sprite_width),
            sprite_height: self.sprite_height.wrapping_sub(rhs.sprite_height),
            sprite_color: sub_color(self.sprite_color, rhs.sprite_color),
        }
    }
}

impl SubSpecImpl for Anim {
    open spec fn obeys_sub_spec() -> bool {
        true
    }

    open spec fn sub_req(self, rhs: Anim) -> bool {
        true
    }

    open spec fn sub_spec(self, rhs: Anim) -> Anim {
        self.diff(rhs)
    }
}

impl Anim {
    /// Every field at its default: lengths unset, colours none, numbers and
    /// vectors zero, the rotation four zeros.
    pub open spec fn unset() -> Anim {
        Anim {
            style_width: Val::Auto,
            style_height: Val::Auto,
            style_left: Val::Auto,
            style_right: Val::Auto,
            style_top: Val::Auto,
            style_bottom: Val::Auto,
            text_font_size: 0,
            text_font_color: Color::none(),
            background_color: Color::none(),
            transform_translation: Vec3::zero(),
            transform_rotation: Quat::zero(),
            transform_scale: Vec3::zero(),
            sprite_width: 0,
            sprite_height: 0,
            sprite_color: Color::none(),
        }
    }

    /// `self + rhs`, field by field.
    pub open spec fn sum(self, rhs: Anim) -> Anim {
        Anim {
            style_width: val_sum(self.style_width, rhs.style_width),
            style_height: val_sum(self.style_height, rhs.style_height),
            style_left: val_sum(self.style_left, rhs.style_left),
            style_right: val_sum(self.style_right, rhs.style_right),
            style_top: val_sum(self.style_top, rhs.style_top),
            style_bottom: val_sum(self.style_bottom, rhs.style_bottom),
            text_font_size: wrapping_add(self.text_font_size, rhs.text_font_size),
            text_font_color: self.text_font_color.sum(rhs.text_font_color),
            background_color: self.background_color.sum(rhs.background_color),
            transform_translation: self.transform_translation.sum(rhs.transform_translation),
            transform_rotation: self.transform_rotation.sum(rhs.transform_rotation),
            transform_scale: self.transform_scale.sum(rhs.transform_scale),
            sprite_width: wrapping_add(self.sprite_width, rhs.sprite_width),
            sprite_height: wrapping_add(self.sprite_height, rhs.sprite_height),
            sprite_color: self.sprite_color.sum(rhs.sprite_color),
        }
    }

    /// `self - rhs`, field by field.
    pub open spec fn diff(self, rhs: Anim) -> Anim {
        Anim {
            style_width: val_diff(self.style_width, rhs.style_width),
            style_height: val_diff(self.style_height, rhs.style_height),
            style_left: val_diff(self.style_left, rhs.style_left),
            style_right: val_diff(self.style_right, rhs.style_right),
            style_top: val_diff(self.style_top, rhs.style_top),
            style_bottom: val_diff(self.style_bottom, rhs.style_bottom),
            text_font_size: wrapping_sub(self.text_font_size, rhs.text_font_size),
            text_font_color: self.text_font_color.diff(rhs.text_font_color),
            background_color: self.background_color.diff(rhs.background_color),
            transform_translation: self.transform_translation.diff(rhs.transform_translation),
            transform_rotation: self.transform_rotation.diff(rhs.transform_rotation),
            transform_scale: self.transform_scale.diff(rhs.transform_scale),
            sprite_width: wrapping_sub(self.sprite_width, rhs.sprite_width),
            sprite_height: wrapping_sub(self.sprite_height, rhs.sprite_height),
            sprite_color: self.sprite_color.diff(rhs.sprite_color),
        }
    }
}

impl Anim {
    /// The layout that `lerp_style` leaves in `target`.
    pub open spec fn style_lerped(self, target: Style, change: Anim, ratio: Scalar) -> Style {
        Style {
            width: if change.style_width != Val::Auto {
                val_lerped(self.style_width, change.style_width, ratio)
            } else {
                target.width
            },
            height: if change.style_height != Val::Auto {
                val_lerped(self.style_height, change.style_height, ratio)
            } else {
                target.height
            },
            left: if change.style_left != Val::Auto {
                val_lerped(self.style_left, change.style_left, ratio)
            } else {
                target.left
            },
            right: if change.style_right != Val::Auto {
                val_lerped(self.style_right, change.style_right, ratio)
            } else {
                target.right
            },
            top: if change.style_top != Val::Auto {
                val_lerped(self.style_top, change.style_top, ratio)
            } else {
                target.top
            },
            bottom: if change.style_bottom != Val::Auto {
                val_lerped(self.style_bottom, change.style_bottom, ratio)
            } else {
                target.bottom
            },
        }
    }

    /// The run that `lerp_text` leaves in place of `section`.
    pub open spec fn section_lerped(
        self,
        section: TextSection,
        change: Anim,
        ratio: Scalar,
    ) -> TextSection {
        TextSection {
            font_size: if change.text_font_size != 0 {
                lerped(self.text_font_size, change.text_font_size, ratio)
            } else {
                section.font_size
            },
            color: if change.text_font_color != Color::none() {
                self.text_font_color.sum(change.text_font_color.times(ratio))
            } else {
                section.color
            },
        }
    }

    /// The runs that `lerp_text` leaves in a text of runs `sections`.
    pub open spec fn text_lerped(
        self,
        sections: Seq<TextSection>,
        change: Anim,
        ratio: Scalar,
    ) -> Seq<TextSection> {
        if sections.len() > 0 {
            sections.update(0, self.section_lerped(sections[0], change, ratio))
        } else {
            sections
        }
    }

    /// The fill that `lerp_background` leaves in `target`. What decides is the
    /// colour the target has, not the delta: a target without colour stays so.
    pub open spec fn background_lerped(
        self,
        target: BackgroundColor,
        change: Anim,
        ratio: Scalar,
    ) -> BackgroundColor {
        if target.0 != Color::none() {
            BackgroundColor(self.background_color.sum(change.background_color.times(ratio)))
        } else {
            target
        }
    }

    /// Where the rotation ends that `lerp_transform` has interpolated: the delta
    /// taken as an offset and added to the baseline.
    pub open spec fn rotation_goal(self, change: Anim) -> Quat {
        change.transform_rotation.sum(self.transform_rotation)
    }

    /// The placement that `lerp_transform` leaves in `target`, given the
    /// `rotation` that the spherical interpolation returned.
    pub open spec fn transform_lerped(
        self,
        target: Transform,
        change: Anim,
        ratio: Scalar,
        rotation: Quat,
    ) -> Transform {
        Transform {
            translation: if change.transform_translation != Vec3::zero() {
                self.transform_translation.sum(change.transform_translation.times(ratio))
            } else {
                target.translation
            },
            rotation: if change.transform_rotation != Quat::zero() {
                rotation
            } else {
                target.rotation
            },
            scale: if change.transform_scale != Vec3::zero() {
                self.transform_scale.sum(change.transform_scale.times(ratio))
            } else {
                target.scale
            },
        }
    }

    /// Whether `result` is a placement that `lerp_transform` may leave in
    /// `target`: translation and scale as computed, and for the rotation, where
    /// the delta holds one, a value that `slerp` returns for the way from the
    /// baseline rotation to [`Anim::rotation_goal`].
    pub open spec fn slerped<S: Fn(Quat, Quat, Scalar) -> Quat>(
        self,
        target: Transform,
        change: Anim,
        ratio: Scalar,
        slerp: S,
        result: Transform,
    ) -> bool {
        &&& result == self.transform_lerped(target, change, ratio, result.rotation)
        &&& change.transform_rotation != Quat::zero() ==> call_ensures(
            slerp,
            (self.transform_rotation, self.rotation_goal(change), ratio),
            result.rotation,
        )
    }

    /// The appearance that `lerp_sprite` leaves in `target`. Width and height are
    /// one field: both are written as soon as either has a delta.
    pub open spec fn sprite_lerped(self, target: Sprite, change: Anim, ratio: Scalar) -> Sprite {
        Sprite {
            custom_size: if change.sprite_width != 0 || change.sprite_height != 0 {
                Some(
                    Vec2 {
                        x: lerped(self.sprite_width, change.sprite_width, ratio),
                        y: lerped(self.sprite_height, change.sprite_height, ratio),
                    },
                )
            } else {
                target.custom_size
            },
            color: if change.sprite_color != Color::none() {
                self.sprite_color.sum(change.sprite_color.times(ratio))
            } else {
                target.color
            },
        }
    }

    /// Writes `self + change * ratio` into each length of `target` for which
    /// `change` holds a length. Where the units of baseline and delta differ, the
    /// baseline is written.
    pub fn lerp_style(&self, target: &mut Style, change: &Anim, ratio: Scalar)
        ensures
            *final(target) == self.style_lerped(*old(target), *change, ratio),
            change.style_width is Auto ==> final(target).width == old(target).width,
            change.style_height is Auto ==> final(target).height == old(target).height,
            change.style_left is Auto ==> final(target).left == old(target).left,
            change.style_right is Auto ==> final(target).right == old(target).right,
            change.style_top is Auto ==> final(target).top == old(target).top,
            change.style_bottom is Auto ==> final(target).bottom == old(target).bottom,
    {
        if change.style_width != Val::Auto {
            target.width = lerp_val(self.style_width, change.style_width, ratio);
        }
        if change.style_height != Val::Auto {
            target.height = lerp_val(self.style_height, change.style_height, ratio);
        }
        if change.style_left != Val::Auto {
            target.left = lerp_val(self.style_left, change.style_left, ratio);
        }
        if change.style_right != Val::Auto {
            target.right = lerp_val(self.style_right, change.style_right, ratio);
        }
        if change.style_top != Val::Auto {
            target.top = lerp_val(self.style_top, change.style_top, ratio);
        }
        if change.style_bottom != Val::Auto {
            target.bottom = lerp_val(self.style_bottom, change.style_bottom, ratio);
        }
    }

    /// Writes size and colour into the first run of `target`, each only where
    /// `change` holds a delta for it. A text without runs is left as it is.
    pub fn lerp_text(&self, target: &mut Text, change: &Anim, ratio: Scalar)
        ensures
            final(target).sections@ == self.text_lerped(old(target).sections@, *change, ratio),
            final(target).sections@.len() == old(target).sections@.len(),
            forall|i: int|
                1 <= i < old(target).sections@.len() ==> final(target).sections@[i]
                    == old(target).sections@[i],
            old(target).sections@.len() > 0 && change.text_font_size == 0
                ==> final(target).sections@[0].font_size == old(target).sections@[0].font_size,
            old(target).sections@.len() > 0 && change.text_font_color == Color::none()
                ==> final(target).sections@[0].color == old(target).sections@[0].color,
    {
        if target.sections.len() > 0 {
            let mut section = target.sections[0];
            if change.text_font_size != 0 {
                section.font_size = lerp(self.text_font_size, change.text_font_size, ratio);
            }
            if change.text_font_color != Color::none() {
                section.color = self.text_font_color.add(change.text_font_color.scale(ratio));
            }
            target.sections.set(0, section);
        }
    }

    /// Writes `self + change * ratio` into the fill of `target`, unless the
    /// target has no colour.
    pub fn lerp_background(&self, target: &mut BackgroundColor, change: &Anim, ratio: Scalar)
        ensures
            *final(target) == self.background_lerped(*old(target), *change, ratio),
            old(target).0 == Color::none() ==> *final(target) == *old(target),
    {
        if target.0 != Color::none() {
            target.0 = self.background_color.add(change.background_color.scale(ratio));
        }
    }

    /// Writes translation and scale as `self + change * ratio`, and the rotation
    /// as what `slerp` returns for the way from the baseline rotation to
    /// `change + self`, each only where `change` holds a delta for it.
    pub fn lerp_transform<S: Fn(Quat, Quat, Scalar) -> Quat>(
        &self,
        target: &mut Transform,
        change: &Anim,
        ratio: Scalar,
        slerp: &S,
    )
        requires
            change.transform_rotation != Quat::zero() ==> call_requires(
                *slerp,
                (self.transform_rotation, self.rotation_goal(*change), ratio),
            ),
        ensures
            self.slerped(*old(target), *change, ratio, *slerp, *final(target)),
            *final(target) == self.transform_lerped(
                *old(target),
                *change,
                ratio,
                final(target).rotation,
            ),
            change.transform_translation == Vec3::zero() ==> final(target).translation
                == old(target).translation,
            change.transform_rotation == Quat::zero() ==> final(target).rotation
                == old(target).rotation,
            change.transform_scale == Vec3::zero() ==> final(target).scale == old(target).scale,
    {
        if change.transform_translation != Vec3::zero() {
            target.translation = self.transform_translation.add(
                change.transform_translation.scale(ratio),
            );
        }
        if change.transform_rotation != Quat::zero() {
            let goal = change.transform_rotation.add(self.transform_rotation);
            target.rotation = slerp(self.transform_rotation, goal, ratio);
        }
        if change.transform_scale != Vec3::zero() {
            target.scale = self.transform_scale.add(change.transform_scale.scale(ratio));
        }
    }

    /// Writes the size and the tint of `target` as `self + change * ratio`, each
    /// only where `change` holds a delta for it.
    pub fn lerp_sprite(&self, target: &mut Sprite, change: &Anim, ratio: Scalar)
        ensures
            *final(target) == self.sprite_lerped(*old(target), *change, ratio),
            change.sprite_width == 0 && change.sprite_height == 0 ==> final(target).custom_size
                == old(target).custom_size,
            change.sprite_color == Color::none() ==> final(target).color == old(target).color,
    {
        if change.sprite_width != 0 || change.sprite_height != 0 {
            target.custom_size = Some(
                Vec2::new(
                    lerp(self.sprite_width, change.sprite_width, ratio),
                    lerp(self.sprite_height, change.sprite_height, ratio),
                ),
            );
        }
        if change.sprite_color != Color::none() {
            target.color = self.sprite_color.add(change.sprite_color.scale(ratio));
        }
    }
}

} // verus!
