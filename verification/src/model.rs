//! The animator as a mathematical state machine.
//!
//! [`AnimatorView`] is what an animator is to its contracts, and the functions
//! here say what each operation makes of it. The executable animator is proved
//! to follow them step for step.

use vstd::prelude::*;
use crate::anim::Anim;
use crate::attrs::{BackgroundColor, Sprite, Style, TextSection, Transform};
use crate::fixed::{capped_sum, clamped, cycles_in, Cycles, Nanos, Scalar, CYCLE, ONE};
use crate::step::{Animation, EaseMethod};
use crate::values::Quat;

verus! {

/// The state of an animator.
pub struct AnimatorView {
    /// The cycle count of the current step, as it was when the step was entered.
    pub total_times: Cycles,
    /// Whether ticks have any effect.
    pub exectable: bool,
    /// The position of the current step.
    pub exec_index: nat,
    /// Whether the first step follows the last.
    pub exec_loop: bool,
    /// Whether the animator stays on a step that is over.
    pub exec_step: bool,
    /// Whether the cycle under way runs forwards.
    pub forward: bool,
    /// The cycles of the current step that have passed.
    pub progress: Cycles,
    /// The part of the cycle under way that has passed.
    pub fract: Cycles,
    pub init_style: bool,
    pub init_text: bool,
    pub init_background: bool,
    pub init_transform: bool,
    pub init_sprite: bool,
    /// The baseline: the value of every field at the start of the current step.
    pub start: Anim,
    /// The steps, in the order in which they play.
    pub animations: Seq<Animation>,
}

/// `base` with the deltas of the steps `lo`, …, `hi - 1` added, in that order.
/// A position at which there is no step adds nothing.
pub open spec fn plus_deltas(steps: Seq<Animation>, base: Anim, lo: int, hi: int) -> Anim
    decreases hi - lo,
{
    if hi <= lo {
        base
    } else if 0 <= hi - 1 < steps.len() {
        plus_deltas(steps, base, lo, hi - 1).sum(steps[hi - 1].change)
    } else {
        plus_deltas(steps, base, lo, hi - 1)
    }
}

/// `base` with the deltas of the steps `lo`, …, `hi - 1` subtracted, in that
/// order. A position at which there is no step subtracts nothing.
pub open spec fn minus_deltas(steps: Seq<Animation>, base: Anim, lo: int, hi: int) -> Anim
    decreases hi - lo,
{
    if hi <= lo {
        base
    } else if 0 <= hi - 1 < steps.len() {
        minus_deltas(steps, base, lo, hi - 1).diff(steps[hi - 1].change)
    } else {
        minus_deltas(steps, base, lo, hi - 1)
    }
}

/// Beyond the last step there is nothing to add or subtract.
pub proof fn lemma_deltas_past_end(steps: Seq<Animation>, base: Anim, lo: int, mid: int, hi: int)
    requires
        0 <= lo <= mid <= hi,
        mid >= steps.len() || mid == hi,
    ensures
        plus_deltas(steps, base, lo, hi) == plus_deltas(steps, base, lo, mid),
        minus_deltas(steps, base, lo, hi) == minus_deltas(steps, base, lo, mid),
    decreases hi - mid,
{
    if mid < hi {
        lemma_deltas_past_end(steps, base, lo, mid, hi - 1);
    }
}

impl AnimatorView {
    /// A new animator: no steps, disabled, nothing captured, at the start of a
    /// cycle that runs forwards.
    pub open spec fn initial() -> AnimatorView {
        AnimatorView {
            total_times: 0,
            exectable: false,
            exec_index: 0,
            exec_loop: false,
            exec_step: false,
            forward: true,
            progress: 0,
            fract: 0,
            init_style: false,
            init_text: false,
            init_background: false,
            init_transform: false,
            init_sprite: false,
            start: Anim::unset(),
            animations: Seq::empty(),
        }
    }

    /// The step being played, if the position names one.
    pub open spec fn current(self) -> Option<Animation> {
        if self.exec_index < self.animations.len() {
            Some(self.animations[self.exec_index as int])
        } else {
            None
        }
    }

    /// The fraction handed to the easing: the part of the cycle that has passed
    /// where the cycle runs forwards, and what is left of it where it runs
    /// backwards.
    pub open spec fn ratio(self) -> Scalar {
        if self.forward {
            clamped(self.fract as int)
        } else {
            clamped(ONE - self.fract)
        }
    }

    /// Whether `curve` may be called to ease the current step: it has to accept
    /// the step's method with the fraction [`AnimatorView::ratio`], unless the
    /// method is linear and needs no curve.
    pub open spec fn may_ease<F: Fn(EaseMethod, Scalar) -> Scalar>(self, curve: F) -> bool {
        self.current() matches Some(step) ==> step.ease_method is Linear || call_requires(
            curve,
            (step.ease_method, self.ratio()),
        )
    }

    /// Whether `slerp` may be called for the rotation of the current step: where
    /// the step holds a rotation, `slerp` has to accept the way from the baseline
    /// rotation to baseline plus delta at every fraction the easing may yield.
    pub open spec fn may_slerp<
        F: Fn(EaseMethod, Scalar) -> Scalar,
        S: Fn(Quat, Quat, Scalar) -> Quat,
    >(self, curve: F, slerp: S) -> bool {
        self.current() matches Some(step) ==> step.change.transform_rotation != Quat::zero()
            ==> forall|eased: Scalar| #[trigger]
            step.ease_method.eases(self.ratio(), curve, eased) ==> call_requires(
                slerp,
                (self.start.transform_rotation, self.start.rotation_goal(step.change), eased),
            )
    }

    /// Whether the part of the cycle that has passed and its direction are those
    /// of the progress: the fractional part of the cycle count, and forwards
    /// where the count of whole cycles is even.
    pub open spec fn coherent(self) -> bool {
        &&& self.fract == self.progress % CYCLE
        &&& self.forward == ((self.progress / CYCLE) % 2 == 0)
    }

    /// The state at the entry of a step: no progress, running forwards.
    pub open spec fn reset_progress(self) -> AnimatorView {
        AnimatorView { progress: 0, fract: 0, forward: true, ..self }
    }

    /// The state after `delta` more time on the current step. Cycles of even
    /// number run forwards and those of odd number backwards.
    pub open spec fn add_delta(self, delta: Nanos) -> AnimatorView {
        match self.current() {
            Some(step) => {
                let progress = capped_sum(self.progress, cycles_in(delta, step.per));
                AnimatorView {
                    progress,
                    fract: progress % CYCLE,
                    forward: (progress / CYCLE) % 2 == 0,
                    ..self
                }
            },
            None => self,
        }
    }

    /// The state after a move to the step at `index`: progress is reset, and the
    /// baseline takes up the deltas of the steps passed over on the way forward,
    /// or gives them back on the way backward.
    pub open spec fn start(self, index: nat) -> AnimatorView {
        let entered = self.reset_progress();
        if self.exec_index > index {
            AnimatorView {
                start: minus_deltas(
                    self.animations,
                    self.start,
                    index as int,
                    self.exec_index as int,
                ),
                exec_index: index,
                ..entered
            }
        } else if self.exec_index < index {
            AnimatorView {
                start: plus_deltas(
                    self.animations,
                    self.start,
                    self.exec_index as int,
                    index as int,
                ),
                exec_index: index,
                ..entered
            }
        } else {
            entered
        }
    }

    /// The state after the delta of the current step has been added to the
    /// baseline and the step at `index` entered.
    pub open spec fn add_change_start(self, index: nat) -> AnimatorView {
        match self.current() {
            Some(step) => (AnimatorView { start: self.start.sum(step.change), ..self }).start(
                index,
            ),
            None => self.start(index),
        }
    }

    /// The state at rest on a step that is over: the progress stands at the
    /// cycle count, and the part of the cycle and its direction are those of
    /// that count.
    pub open spec fn settle(self) -> AnimatorView {
        AnimatorView {
            progress: self.total_times,
            fract: self.total_times % CYCLE,
            forward: (self.total_times / CYCLE) % 2 == 0,
            ..self
        }
    }

    /// Whether a tick finds the current step over and moves on to another one.
    pub open spec fn turns(self) -> bool {
        &&& self.exectable
        &&& self.current() is Some
        &&& self.progress != 0
        &&& self.progress >= self.total_times
        &&& !self.exec_step
        &&& (self.exec_loop || self.exec_index + 1 != self.animations.len())
    }

    /// The position that a tick which turns moves to.
    pub open spec fn next_index(self) -> nat {
        if self.exec_loop {
            (self.exec_index + 1) % self.animations.len()
        } else {
            self.exec_index + 1
        }
    }

    /// The state after a tick of `delta`.
    ///
    /// A disabled animator, and one whose position names no step, stays as it is.
    /// A step just entered fixes its cycle count and advances, and so does a step
    /// that is not over yet. A step that is over comes to rest where it is, as
    /// [`AnimatorView::settle`] says, if the animator is held on it or if it is
    /// the last and the animator does not loop. In every other case the next step
    /// is entered.
    pub open spec fn tick_progress(self, delta: Nanos) -> AnimatorView {
        match self.current() {
            None => self,
            Some(step) => {
                if !self.exectable {
                    self
                } else if self.progress == 0 {
                    (AnimatorView { total_times: step.total_cycles(), ..self }).add_delta(delta)
                } else if self.progress < self.total_times {
                    self.add_delta(delta)
                } else if self.turns() {
                    self.start(self.next_index())
                } else {
                    self.settle()
                }
            },
        }
    }

    /// Whether a tick of `delta` advances the current step past its cycle count.
    pub open spec fn overshoots(self, delta: Nanos) -> bool {
        &&& self.exectable
        &&& self.current() matches Some(step)
        &&& if self.progress == 0 {
            cycles_in(delta, step.per) > step.total_cycles()
        } else {
            self.progress < self.total_times && self.progress + cycles_in(delta, step.per)
                > self.total_times
        }
    }

    /// The state after the first contact with a layout: the baseline takes its
    /// six lengths, once.
    pub open spec fn init_style(self, style: Style) -> AnimatorView {
        if self.init_style {
            self
        } else {
            AnimatorView {
                start: Anim {
                    style_width: style.width,
                    style_height: style.height,
                    style_left: style.left,
                    style_right: style.right,
                    style_top: style.top,
                    style_bottom: style.bottom,
                    ..self.start
                },
                init_style: true,
                ..self
            }
        }
    }

    /// The state after the first contact with a text: the baseline takes size and
    /// colour of the first run, if there is one, once.
    pub open spec fn init_text(self, sections: Seq<TextSection>) -> AnimatorView {
        if self.init_text {
            self
        } else if sections.len() > 0 {
            AnimatorView {
                start: Anim {
                    text_font_size: sections[0].font_size,
                    text_font_color: sections[0].color,
                    ..self.start
                },
                init_text: true,
                ..self
            }
        } else {
            AnimatorView { init_text: true, ..self }
        }
    }

    /// The state after the first contact with a fill: the baseline takes its
    /// colour, once.
    pub open spec fn init_background(self, background: BackgroundColor) -> AnimatorView {
        if self.init_background {
            self
        } else {
            AnimatorView {
                start: Anim { background_color: background.0, ..self.start },
                init_background: true,
                ..self
            }
        }
    }

    /// The state after the first contact with a placement: the baseline takes
    /// translation, rotation and scale, once.
    pub open spec fn init_transform(self, transform: Transform) -> AnimatorView {
        if self.init_transform {
            self
        } else {
            AnimatorView {
                start: Anim {
                    transform_translation: transform.translation,
                    transform_rotation: transform.rotation,
                    transform_scale: transform.scale,
                    ..self.start
                },
                init_transform: true,
                ..self
            }
        }
    }

    /// The state after the first contact with a sprite: the baseline takes its
    /// tint and, where a size is set, its size, once.
    pub open spec fn init_sprite(self, sprite: Sprite) -> AnimatorView {
        if self.init_sprite {
            self
        } else {
            AnimatorView {
                start: match sprite.custom_size {
                    Some(size) => Anim {
                        sprite_width: size.x,
                        sprite_height: size.y,
                        sprite_color: sprite.color,
                        ..self.start
                    },
                    None => Anim { sprite_color: sprite.color, ..self.start },
                },
                init_sprite: true,
                ..self
            }
        }
    }
}

/// The state after one tick for each entry of `deltas`, in order.
pub open spec fn run(state: AnimatorView, deltas: Seq<Nanos>) -> AnimatorView
    decreases deltas.len(),
{
    if deltas.len() == 0 {
        state
    } else {
        run(state, deltas.drop_last()).tick_progress(deltas.last())
    }
}

/// How many of the ticks of `run(state, deltas)` moved on to another step.
pub open spec fn turns_in(state: AnimatorView, deltas: Seq<Nanos>) -> nat
    decreases deltas.len(),
{
    if deltas.len() == 0 {
        0
    } else if run(state, deltas.drop_last()).turns() {
        turns_in(state, deltas.drop_last()) + 1
    } else {
        turns_in(state, deltas.drop_last())
    }
}

} // verus!
