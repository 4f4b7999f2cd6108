//! What holds of the animator whatever its steps and whatever the ticks.

use vstd::prelude::*;
use vstd::arithmetic::div_mod::{lemma_add_mod_noop, lemma_small_mod};
use vstd::wrapping::i64_specs::wrapping_add;
use crate::ani_utils::{lemma_val_add_sub_commute, lemma_val_add_sub_inverse};
use crate::anim::Anim;
use crate::attrs::{BackgroundColor, Sprite, Style, TextSection, Transform};
use crate::fixed::{
    lemma_add_sub_commute, lemma_add_then_sub, lemma_scaled_ends, lerped, Nanos, Scalar, CYCLE, ONE,
};
use crate::model::{minus_deltas, plus_deltas, run, turns_in, AnimatorView};
use crate::step::Animation;
use crate::values::{
    lemma_color_algebra, lemma_quat_algebra, lemma_vec3_algebra, Color, Quat, Vec3,
};

verus! {

/// Adding a delta and then subtracting it again gives back the first vector
/// exactly, and so does subtracting first.
pub proof fn lemma_anim_add_sub_inverse(a: Anim, d: Anim)
    ensures
        a.sum(d).diff(d) == a,
        a.diff(d).sum(d) == a,
{
    lemma_anim_algebra(a, d, d);
}

/// A sum and a difference of deltas may be taken in either order.
pub proof fn lemma_anim_add_sub_commute(a: Anim, d: Anim, e: Anim)
    ensures
        a.sum(d).diff(e) == a.diff(e).sum(d),
{
    lemma_anim_algebra(a, d, e);
}

proof fn lemma_anim_algebra(a: Anim, d: Anim, e: Anim)
    ensures
        a.sum(d).diff(d) == a,
        a.diff(d).sum(d) == a,
        a.sum(d).diff(e) == a.diff(e).sum(d),
{
    lemma_val_add_sub_inverse(a.style_width, d.style_width);
    lemma_val_add_sub_inverse(a.style_height, d.style_height);
    lemma_val_add_sub_inverse(a.style_left, d.style_left);
    lemma_val_add_sub_inverse(a.style_right, d.style_right);
    lemma_val_add_sub_inverse(a.style_top, d.style_top);
    lemma_val_add_sub_inverse(a.style_bottom, d.style_bottom);
    lemma_val_add_sub_commute(a.style_width, d.style_width, e.style_width);
    lemma_val_add_sub_commute(a.style_height, d.style_height, e.style_height);
    lemma_val_add_sub_commute(a.style_left, d.style_left, e.style_left);
    lemma_val_add_sub_commute(a.style_right, d.style_right, e.style_right);
    lemma_val_add_sub_commute(a.style_top, d.style_top, e.style_top);
    lemma_val_add_sub_commute(a.style_bottom, d.style_bottom, e.style_bottom);
    lemma_add_then_sub(a.text_font_size, d.text_font_size);
    lemma_add_then_sub(a.sprite_width, d.sprite_width);
    lemma_add_then_sub(a.sprite_height, d.sprite_height);
    lemma_add_sub_commute(a.text_font_size, d.text_font_size, e.text_font_size);
    lemma_add_sub_commute(a.sprite_width, d.sprite_width, e.sprite_width);
    lemma_add_sub_commute(a.sprite_height, d.sprite_height, e.sprite_height);
    lemma_color_algebra(a.text_font_color, d.text_font_color, e.text_font_color);
    lemma_color_algebra(a.background_color, d.background_color, e.background_color);
    lemma_color_algebra(a.sprite_color, d.sprite_color, e.sprite_color);
    lemma_vec3_algebra(a.transform_translation, d.transform_translation, e.transform_translation);
    lemma_vec3_algebra(a.transform_scale, d.transform_scale, e.transform_scale);
    lemma_quat_algebra(a.transform_rotation, d.transform_rotation, e.transform_rotation);
}

proof fn lemma_minus_deltas_shift(steps: Seq<Animation>, x: Anim, d: Anim, lo: int, hi: int)
    ensures
        minus_deltas(steps, x.sum(d), lo, hi) == minus_deltas(steps, x, lo, hi).sum(d),
    decreases hi - lo,
{
    if hi > lo {
        lemma_minus_deltas_shift(steps, x, d, lo, hi - 1);
        if 0 <= hi - 1 < steps.len() {
            lemma_anim_add_sub_commute(minus_deltas(steps, x, lo, hi - 1), d, steps[hi - 1].change);
        }
    }
}

proof fn lemma_plus_deltas_shift(steps: Seq<Animation>, x: Anim, d: Anim, lo: int, hi: int)
    ensures
        plus_deltas(steps, x.diff(d), lo, hi) == plus_deltas(steps, x, lo, hi).diff(d),
    decreases hi - lo,
{
    if hi > lo {
        lemma_plus_deltas_shift(steps, x, d, lo, hi - 1);
        if 0 <= hi - 1 < steps.len() {
            lemma_anim_add_sub_commute(plus_deltas(steps, x, lo, hi - 1), steps[hi - 1].change, d);
        }
    }
}

/// Taking up the deltas of a run of steps and giving them back, or the other
/// way round, leaves the baseline as it was.
pub proof fn lemma_deltas_round_trip(steps: Seq<Animation>, base: Anim, lo: int, hi: int)
    ensures
        minus_deltas(steps, plus_deltas(steps, base, lo, hi), lo, hi) == base,
        plus_deltas(steps, minus_deltas(steps, base, lo, hi), lo, hi) == base,
    decreases hi - lo,
{
    if hi > lo {
        lemma_deltas_round_trip(steps, base, lo, hi - 1);
        if 0 <= hi - 1 < steps.len() {
            let d = steps[hi - 1].change;
            let up = plus_deltas(steps, base, lo, hi - 1);
            let down = minus_deltas(steps, base, lo, hi - 1);
            lemma_minus_deltas_shift(steps, up, d, lo, hi - 1);
            lemma_anim_add_sub_inverse(base, d);
            lemma_plus_deltas_shift(steps, down, d, lo, hi - 1);
        }
    }
}

/// Moving from the current step to any other and back restores the baseline
/// exactly, and the position with it.
pub proof fn lemma_start_round_trip(state: AnimatorView, index: nat)
    ensures
        state.start(index).start(state.exec_index).start == state.start,
        state.start(index).start(state.exec_index).exec_index == state.exec_index,
        state.start(index).start(state.exec_index).animations == state.animations,
{
    lemma_deltas_round_trip(
        state.animations,
        state.start,
        state.exec_index as int,
        index as int,
    );
    lemma_deltas_round_trip(
        state.animations,
        state.start,
        index as int,
        state.exec_index as int,
    );
}

/// While the animator is held on its step, a tick leaves the progress at or
/// below the cycle count, unless that very tick advances past it.
pub proof fn lemma_held_progress_bounded(state: AnimatorView, delta: Nanos)
    requires
        state.exec_step,
        state.exectable,
        state.current() is Some,
        !state.overshoots(delta),
    ensures
        state.tick_progress(delta).progress <= state.tick_progress(delta).total_times,
        state.tick_progress(delta).exec_index == state.exec_index,
        state.tick_progress(delta).exec_step,
{
}

/// Once a held animator has its progress at the cycle count, with the part of
/// the cycle and the direction that belong to it, every further tick leaves it
/// exactly as it is.
pub proof fn lemma_held_progress_stays(state: AnimatorView, delta: Nanos)
    requires
        state.exec_step,
        state.progress != 0,
        state.progress == state.total_times,
        state.coherent(),
    ensures
        state.tick_progress(delta) == state,
{
}

/// A step that has come to rest shows the value that belongs to its cycle
/// count, however far the last advancing tick went past it: after a tick that
/// finds the step over and does not move on, the fraction handed to the easing
/// is that of the cycle count alone.
pub proof fn lemma_rest_is_at_cycle_count(state: AnimatorView, delta: Nanos)
    requires
        state.exectable,
        state.current() is Some,
        state.progress != 0,
        state.progress >= state.total_times,
        !state.turns(),
    ensures
        state.tick_progress(delta) == state.settle(),
        state.tick_progress(delta).progress == state.total_times,
        state.tick_progress(delta).coherent(),
        state.total_times % CYCLE == 0 && (state.total_times / CYCLE) % 2 == 1
            ==> state.tick_progress(delta).ratio() == ONE,
        state.total_times % CYCLE == 0 && (state.total_times / CYCLE) % 2 == 0
            ==> state.tick_progress(delta).ratio() == 0,
{
}

/// The part of the cycle that has passed and its direction are always those of
/// the progress: a new animator has them so, and no operation loses them.
pub proof fn lemma_coherent_kept(state: AnimatorView, delta: Nanos, index: nat)
    ensures
        AnimatorView::initial().coherent(),
        AnimatorView::initial().ratio() == 0,
        state.reset_progress().coherent(),
        state.start(index).coherent(),
        state.add_change_start(index).coherent(),
        state.settle().coherent(),
        state.current() is Some ==> state.add_delta(delta).coherent(),
        state.coherent() ==> state.tick_progress(delta).coherent(),
        state.coherent() ==> 0 <= state.ratio() <= ONE,
{
}

/// A tick changes neither the steps nor the three flags, and leaves the
/// position on a step if it was on one.
pub proof fn lemma_tick_keeps_configuration(state: AnimatorView, delta: Nanos)
    ensures
        state.tick_progress(delta).animations == state.animations,
        state.tick_progress(delta).exectable == state.exectable,
        state.tick_progress(delta).exec_loop == state.exec_loop,
        state.tick_progress(delta).exec_step == state.exec_step,
        state.current() is Some ==> state.tick_progress(delta).current() is Some,
        state.current() is None ==> state.tick_progress(delta) == state,
{
    if state.turns() && state.exec_loop {
        let n = state.animations.len();
        assert((state.exec_index + 1) % n < n);
    }
}

/// A looping animator whose ticks have moved on `k` times stands `k` steps
/// further round the cycle of its steps. So after as many moves as there are
/// steps, or any multiple of that, it is back on the step it started from.
pub proof fn lemma_loop_returns(state: AnimatorView, deltas: Seq<Nanos>)
    requires
        state.exec_loop,
        state.current() is Some,
    ensures
        run(state, deltas).exec_index == (state.exec_index + turns_in(state, deltas))
            % state.animations.len(),
        turns_in(state, deltas) % state.animations.len() == 0 ==> run(state, deltas).exec_index
            == state.exec_index,
        run(state, deltas).animations == state.animations,
        run(state, deltas).exec_loop,
    decreases deltas.len(),
{
    let n = state.animations.len() as int;
    if deltas.len() == 0 {
        lemma_small_mod(state.exec_index, state.animations.len());
    } else {
        let before = run(state, deltas.drop_last());
        let k = turns_in(state, deltas.drop_last()) as int;
        lemma_loop_returns(state, deltas.drop_last());
        lemma_tick_keeps_configuration(before, deltas.last());
        if before.turns() {
            lemma_add_mod_noop(state.exec_index + k, 1, n);
            if n == 1 {
                assert((state.exec_index + k + 1) % 1int == 0);
            } else {
                lemma_small_mod(1, n as nat);
            }
        }
    }
    lemma_add_mod_noop(state.exec_index as int, turns_in(state, deltas) as int, n);
    lemma_small_mod(state.exec_index, state.animations.len());
}

/// The fraction handed to the easing lies between 0 and 1 after every tick that
/// advances the step, and a tick never takes it out of that range.
pub proof fn lemma_ratio_in_unit_interval(state: AnimatorView, delta: Nanos)
    ensures
        state.current() is Some ==> state.add_delta(delta).fract < CYCLE,
        state.fract < CYCLE ==> state.tick_progress(delta).fract < CYCLE,
        state.fract < CYCLE ==> 0 <= state.ratio() <= ONE,
{
}

/// A length for which the step holds no delta stays as it is in the layout,
/// whatever the eased fraction.
pub proof fn lemma_style_gating(base: Anim, target: Style, change: Anim, ratio: Scalar)
    ensures
        change.style_width is Auto ==> base.style_lerped(target, change, ratio).width
            == target.width,
        change.style_height is Auto ==> base.style_lerped(target, change, ratio).height
            == target.height,
        change.style_left is Auto ==> base.style_lerped(target, change, ratio).left == target.left,
        change.style_right is Auto ==> base.style_lerped(target, change, ratio).right
            == target.right,
        change.style_top is Auto ==> base.style_lerped(target, change, ratio).top == target.top,
        change.style_bottom is Auto ==> base.style_lerped(target, change, ratio).bottom
            == target.bottom,
{
}

/// Size and colour of a run for which the step holds no delta stay as they
/// are, whatever the eased fraction, and so does every run but the first.
pub proof fn lemma_text_gating(base: Anim, sections: Seq<TextSection>, change: Anim, ratio: Scalar)
    ensures
        base.text_lerped(sections, change, ratio).len() == sections.len(),
        forall|i: int|
            1 <= i < sections.len() ==> base.text_lerped(sections, change, ratio)[i] == sections[i],
        sections.len() > 0 && change.text_font_size == 0 ==> base.text_lerped(
            sections,
            change,
            ratio,
        )[0].font_size == sections[0].font_size,
        sections.len() > 0 && change.text_font_color == Color::none() ==> base.text_lerped(
            sections,
            change,
            ratio,
        )[0].color == sections[0].color,
{
}

/// A fill is decided by its own colour and not by the delta. It stays as it is
/// where it has no colour. Where the step holds no delta for it, it stays as it
/// is exactly if it still has the colour that was captured as its baseline.
pub proof fn lemma_background_gating(
    base: Anim,
    target: BackgroundColor,
    change: Anim,
    ratio: Scalar,
)
    ensures
        target.0 == Color::none() ==> base.background_lerped(target, change, ratio) == target,
        change.background_color == Color::none() && target.0 == base.background_color
            ==> base.background_lerped(target, change, ratio) == target,
        change.background_color == Color::none() && target.0 != Color::none()
            ==> base.background_lerped(target, change, ratio).0 == base.background_color,
{
    lemma_scaled_ends(ratio);
}

/// Translation, rotation and scale for which the step holds no delta stay as
/// they are, whatever the eased fraction and whatever rotation was computed.
pub proof fn lemma_transform_gating(
    base: Anim,
    target: Transform,
    change: Anim,
    ratio: Scalar,
    rotation: Quat,
)
    ensures
        change.transform_translation == Vec3::zero() ==> base.transform_lerped(
            target,
            change,
            ratio,
            rotation,
        ).translation == target.translation,
        change.transform_rotation == Quat::zero() ==> base.transform_lerped(
            target,
            change,
            ratio,
            rotation,
        ).rotation == target.rotation,
        change.transform_scale == Vec3::zero() ==> base.transform_lerped(
            target,
            change,
            ratio,
            rotation,
        ).scale == target.scale,
{
}

/// Size and tint of a sprite for which the step holds no delta stay as they
/// are, whatever the eased fraction. The size counts as one field.
pub proof fn lemma_sprite_gating(base: Anim, target: Sprite, change: Anim, ratio: Scalar)
    ensures
        change.sprite_width == 0 && change.sprite_height == 0 ==> base.sprite_lerped(
            target,
            change,
            ratio,
        ).custom_size == target.custom_size,
        change.sprite_color == Color::none() ==> base.sprite_lerped(target, change, ratio).color
            == target.color,
{
}

/// At fraction 0 an animated value is its baseline, and at fraction 1 it is
/// baseline plus delta.
pub proof fn lemma_lerped_ends(base: Scalar, delta: Scalar)
    ensures
        lerped(base, delta, 0) == base,
        lerped(base, delta, ONE) == wrapping_add(base, delta),
{
    lemma_scaled_ends(delta);
}

} // verus!
