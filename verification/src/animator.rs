//! The animator: one per animated entity.
//!
//! An animator owns the steps of one entity and plays them in order. Its host
//! calls [`Animator::tick_progress`] once per frame with the time that has
//! passed, and then one applier for each kind of attribute the entity has.

use vstd::prelude::*;
pub use crate::anim::Anim;
use crate::attrs::{BackgroundColor, Sprite, Style, Text, Transform};
use crate::fixed::{clamp, cycles, Cycles, Nanos, Scalar, CYCLE, ONE};
use crate::model::{lemma_deltas_past_end, minus_deltas, plus_deltas, AnimatorView};
pub use crate::step::{Animation, EaseMethod, Repeat};
use crate::values::{Color, Quat};

verus! {

/// The steps of one entity and the state of their playback. What it holds is
/// described by its view, [`AnimatorView`].
#[derive(Debug)]
pub struct Animator {
    total_times: Cycles,
    exectable: bool,
    exec_index: usize,
    exec_loop: bool,
    exec_step: bool,
    forward: bool,
    progress: Cycles,
    fract: Cycles,
    init_style: bool,
    init_text: bool,
    init_background: bool,
    init_transform: bool,
    init_sprite: bool,
    start: Anim,
    animations: Vec<Animation>,
}

impl View for Animator {
    type V = AnimatorView;

    closed spec fn view(&self) -> AnimatorView {
        AnimatorView {
            total_times: self.total_times,
            exectable: self.exectable,
            exec_index: self.exec_index as nat,
            exec_loop: self.exec_loop,
            exec_step: self.exec_step,
            forward: self.forward,
            progress: self.progress,
            fract: self.fract,
            init_style: self.init_style,
            init_text: self.init_text,
            init_background: self.init_background,
            init_transform: self.init_transform,
            init_sprite: self.init_sprite,
            start: self.start,
            animations: self.animations@,
        }
    }
}

impl Default for Animator {
    /// An animator without steps, disabled, at the start of a forward cycle.
    fn default() -> (a: Animator)
        ensures
            a@ == AnimatorView::initial(),
            a@.coherent(),
    {
        Animator {
            total_times: 0,
            exectable: false,
            exec_index: 0,
            exec_loop: false,
            exec_step: false,
            forward: true,
            progress: 0,
            fract: 0,
            init_style: false,
            init_text: false,
            init_background: false,
            init_transform: false,
            init_sprite: false,
            start: Anim::default(),
            animations: Vec::new(),
        }
    }
}

impl Animator {
    /// Enables or disables ticking.
    pub fn set_exec(&mut self, exectable: bool) -> (ret: &mut Self)
        ensures
            ret@ == (AnimatorView { exectable, ..old(self)@ }),
            *final(self) == *final(ret),
    {
        self.exectable = exectable;
        self
    }

    /// Sets whether the first step follows the last.
    pub fn set_loop(&mut self, loop_: bool) -> (ret: &mut Self)
        ensures
            ret@ == (AnimatorView { exec_loop: loop_, ..old(self)@ }),
            *final(self) == *final(ret),
    {
        self.exec_loop = loop_;
        self
    }

    /// Sets whether the animator stays on a step that is over.
    pub fn set_step(&mut self, step: bool) -> (ret: &mut Self)
        ensures
            ret@ == (AnimatorView { exec_step: step, ..old(self)@ }),
            *final(self) == *final(ret),
    {
        self.exec_step = step;
        self
    }

    /// Appends a step that changes nothing and hands it out to be configured.
    pub fn add_change(&mut self) -> (ret: &mut Animation)
        ensures
            *ret == Animation::unset(),
            final(self)@.animations =~= old(self)@.animations.push(*final(ret)),
            final(self)@ == (AnimatorView { animations: final(self)@.animations, ..old(self)@ }),
    {
        self.animations.push(Animation::default());
        let last = self.animations.len() - 1;
        &mut self.animations[last]
    }

    /// Adds the delta of the current step to the baseline, then enters the step
    /// at `index`.
    pub fn add_change_start(&mut self, index: usize)
        ensures
            final(self)@ == old(self)@.add_change_start(index as nat),
    {
        if self.exec_index < self.animations.len() {
            self.start = self.start + self.animations[self.exec_index].change;
        }
        self.start(index);
    }

    /// The cycles of the current step that have passed.
    pub fn progress(&self) -> (r: Cycles)
        ensures
            r == self@.progress,
    {
        self.progress
    }

    /// The cycle count of the current step, as fixed when it was entered.
    pub fn total_times(&self) -> (r: Cycles)
        ensures
            r == self@.total_times,
    {
        self.total_times
    }

    /// The position of the current step.
    pub fn exec_index(&self) -> (r: usize)
        ensures
            r == self@.exec_index,
    {
        self.exec_index
    }

    /// The baseline of the current step.
    pub fn baseline(&self) -> (r: Anim)
        ensures
            r == self@.start,
    {
        self.start
    }

    /// The fraction that the appliers hand to the easing.
    pub fn ratio(&self) -> (r: Scalar)
        ensures
            r == self@.ratio(),
            self@.coherent() ==> 0 <= r <= ONE,
    {
        if self.forward {
            clamp(self.fract as i128)
        } else {
            clamp(ONE as i128 - self.fract as i128)
        }
    }

    /// Enters the step at `index`. See [`AnimatorView::start`].
    ///
    /// Any `index` is accepted. Positions past the last step hold no delta, and
    /// an animator left on such a position does nothing until it is moved again.
    pub fn start(&mut self, index: usize)
        ensures
            final(self)@ == old(self)@.start(index as nat),
            final(self)@.coherent(),
    {
        let ghost base = self.start;
        let ghost steps = self.animations@;
        let from = self.exec_index;
        self.reset_progress();
        let ghost entered = self@;
        let len = self.animations.len();
        if from > index {
            let stop = if from < len {
                from
            } else {
                len
            };
            let mut i = index;
            while i < stop
                invariant
                    index <= i,
                    i <= stop || i == index,
                    stop <= len,
                    len == steps.len(),
                    self.animations@ == steps,
                    self@ == (AnimatorView { start: self.start, ..entered }),
                    self.start == minus_deltas(steps, base, index as int, i as int),
                decreases stop - i,
            {
                self.start = self.start - self.animations[i].change;
                i += 1;
            }
            proof {
                lemma_deltas_past_end(steps, base, index as int, i as int, from as int);
            }
        } else if from < index {
            let stop = if index < len {
                index
            } else {
                len
            };
            let mut i = from;
            while i < stop
                invariant
                    from <= i,
                    i <= stop || i == from,
                    stop <= len,
                    len == steps.len(),
                    self.animations@ == steps,
                    self@ == (AnimatorView { start: self.start, ..entered }),
                    self.start == plus_deltas(steps, base, from as int, i as int),
                decreases stop - i,
            {
                self.start = self.start + self.animations[i].change;
                i += 1;
            }
            proof {
                lemma_deltas_past_end(steps, base, from as int, i as int, index as int);
            }
        }
        self.exec_index = index;
    }

    fn add_delta(&mut self, delta: Nanos)
        ensures
            final(self)@ == old(self)@.add_delta(delta),
    {
        if self.exec_index < self.animations.len() {
            let per = self.animations[self.exec_index].per;
            self.progress = self.progress.saturating_add(cycles(delta, per));
            self.fract = self.progress % CYCLE;
            self.forward = (self.progress / CYCLE) % 2 == 0;
        }
    }

    fn reset_progress(&mut self)
        ensures
            final(self)@ == old(self)@.reset_progress(),
    {
        self.progress = 0;
        self.fract = 0;
        self.forward = true;
    }

    fn settle(&mut self)
        ensures
            final(self)@ == old(self)@.settle(),
    {
        self.progress = self.total_times;
        self.fract = self.total_times % CYCLE;
        self.forward = (self.total_times / CYCLE) % 2 == 0;
    }

    /// Advances the animator by `delta`. See [`AnimatorView::tick_progress`].
    pub fn tick_progress(&mut self, delta: Nanos)
        ensures
            final(self)@ == old(self)@.tick_progress(delta),
            old(self)@.coherent() ==> final(self)@.coherent(),
            !old(self)@.exectable || old(self)@.current() is None ==> final(self)@ == old(self)@,
            final(self)@.animations == old(self)@.animations,
            old(self)@.exec_step ==> final(self)@.exec_index == old(self)@.exec_index,
            old(self)@.exec_step && old(self)@.exectable && old(self)@.current() is Some && !old(
self)@.overshoots(delta) ==> final(self)@.progress <= final(self)@.total_times,
    {
        let len = self.animations.len();
        if !self.exectable || self.exec_index >= len {
            return ;
        }
        if self.progress == 0 {
            self.total_times = self.animations[self.exec_index].get_total_times();
            self.add_delta(delta);
        } else if self.progress < self.total_times {
            self.add_delta(delta);
        } else if self.exec_step {
            self.settle();
        } else if self.exec_loop {
            self.start((self.exec_index + 1) % len);
        } else if self.exec_index + 1 == len {
            self.settle();
        } else {
            self.start(self.exec_index + 1);
        }
    }
}

impl Animator {
    /// Takes the six lengths of `style` as their baseline, the first time only.
    pub fn init_style(&mut self, style: &mut Style)
        ensures
            final(self)@ == old(self)@.init_style(*old(style)),
            *final(style) == *old(style),
    {
        if !self.init_style {
            self.start.style_width = style.width;
            self.start.style_height = style.height;
            self.start.style_left = style.left;
            self.start.style_right = style.right;
            self.start.style_top = style.top;
            self.start.style_bottom = style.bottom;
            self.init_style = true;
        }
    }

    /// Takes size and colour of the first run of `text` as their baseline, the
    /// first time only.
    pub fn init_text(&mut self, text: &mut Text)
        ensures
            final(self)@ == old(self)@.init_text(old(text).sections@),
            *final(text) == *old(text),
    {
        if !self.init_text {
            if text.sections.len() > 0 {
                self.start.text_font_size = text.sections[0].font_size;
                self.start.text_font_color = text.sections[0].color;
            }
            self.init_text = true;
        }
    }

    /// Takes the colour of `background` as its baseline, the first time only.
    pub fn init_background(&mut self, background: &mut BackgroundColor)
        ensures
            final(self)@ == old(self)@.init_background(*old(background)),
            *final(background) == *old(background),
    {
        if !self.init_background {
            self.start.background_color = background.0;
            self.init_background = true;
        }
    }

    /// Takes translation, rotation and scale of `transform` as their baseline,
    /// the first time only.
    pub fn init_transform(&mut self, transform: &mut Transform)
        ensures
            final(self)@ == old(self)@.init_transform(*old(transform)),
            *final(transform) == *old(transform),
    {
        if !self.init_transform {
            self.start.transform_translation = transform.translation;
            self.start.transform_rotation = transform.rotation;
            self.start.transform_scale = transform.scale;
            self.init_transform = true;
        }
    }

    /// Takes the tint of `sprite` and, where it has one, its size as their
    /// baseline, the first time only.
    pub fn init_sprite(&mut self, sprite: &mut Sprite)
        ensures
            final(self)@ == old(self)@.init_sprite(*old(sprite)),
            *final(sprite) == *old(sprite),
    {
        if !self.init_sprite {
            match sprite.custom_size {
                Some(size) => {
                    self.start.sprite_width = size.x;
                    self.start.sprite_height = size.y;
                },
                None => {},
            }
            self.start.sprite_color = sprite.color;
            self.init_sprite = true;
        }
    }

    /// Writes the animated layout into `style`.
    ///
    /// The baseline is captured first if it has not been. Then, if there is a
    /// current step, the fraction [`Animator::ratio`] is eased by the step's
    /// method, through `curve` unless the method is linear, and the step's delta
    /// is applied from the baseline by the eased fraction.
    pub fn tick_style<F: Fn(EaseMethod, Scalar) -> Scalar>(
        &mut self,
        style: &mut Style,
        curve: &F,
    )
        requires
            old(self)@.may_ease(*curve),
        ensures
            final(self)@ == old(self)@.init_style(*old(style)),
            final(self)@.current() is None ==> *final(style) == *old(style),
            final(self)@.current() matches Some(step) ==> exists|eased: Scalar|
                #[trigger] step.ease_method.eases(final(self)@.ratio(), *curve, eased)
                    && *final(style) == final(self)@.start.style_lerped(
                    *old(style),
                    step.change,
                    eased,
                ),
            final(self)@.current() matches Some(step) ==> step.ease_method is Linear
                ==> *final(style) == final(self)@.start.style_lerped(
                *old(style),
                step.change,
                final(self)@.ratio(),
            ),
    {
        self.init_style(style);
        if self.exec_index < self.animations.len() {
            let step = self.animations[self.exec_index];
            let eased = step.ease_method.tick(self.ratio(), curve);
            self.start.lerp_style(style, &step.change, eased);
        }
    }

    /// Writes the animated size and colour into the first run of `text`, as
    /// [`Animator::tick_style`] does for a layout.
    pub fn tick_text<F: Fn(EaseMethod, Scalar) -> Scalar>(&mut self, text: &mut Text, curve: &F)
        requires
            old(self)@.may_ease(*curve),
        ensures
            final(self)@ == old(self)@.init_text(old(text).sections@),
            final(self)@.current() is None ==> final(text).sections@ == old(text).sections@,
            final(self)@.current() matches Some(step) ==> exists|eased: Scalar|
                #[trigger] step.ease_method.eases(final(self)@.ratio(), *curve, eased)
                    && final(text).sections@ == final(self)@.start.text_lerped(
                    old(text).sections@,
                    step.change,
                    eased,
                ),
            final(self)@.current() matches Some(step) ==> step.ease_method is Linear
                ==> final(text).sections@ == final(self)@.start.text_lerped(
                old(text).sections@,
                step.change,
                final(self)@.ratio(),
            ),
    {
        self.init_text(text);
        if self.exec_index < self.animations.len() {
            let step = self.animations[self.exec_index];
            let eased = step.ease_method.tick(self.ratio(), curve);
            self.start.lerp_text(text, &step.change, eased);
        }
    }

    /// Writes the animated colour into `background`, as [`Animator::tick_style`]
    /// does for a layout. A fill without colour is left without.
    pub fn tick_background<F: Fn(EaseMethod, Scalar) -> Scalar>(
        &mut self,
        background: &mut BackgroundColor,
        curve: &F,
    )
        requires
            old(self)@.may_ease(*curve),
        ensures
            final(self)@ == old(self)@.init_background(*old(background)),
            final(self)@.current() is None ==> *final(background) == *old(background),
            final(self)@.current() matches Some(step) ==> exists|eased: Scalar|
                #[trigger] step.ease_method.eases(final(self)@.ratio(), *curve, eased)
                    && *final(background) == final(self)@.start.background_lerped(
                    *old(background),
                    step.change,
                    eased,
                ),
            final(self)@.current() matches Some(step) ==> step.ease_method is Linear
                ==> *final(background) == final(self)@.start.background_lerped(
                *old(background),
                step.change,
                final(self)@.ratio(),
            ),
            old(background).0 == Color::none() ==> *final(background) == *old(background),
    {
        self.init_background(background);
        if self.exec_index < self.animations.len() {
            let step = self.animations[self.exec_index];
            let eased = step.ease_method.tick(self.ratio(), curve);
            self.start.lerp_background(background, &step.change, eased);
        }
    }

    /// Writes the animated placement into `transform`, as
    /// [`Animator::tick_style`] does for a layout. The rotation is what `slerp`
    /// returns for the way from the baseline rotation to baseline plus delta at
    /// the eased fraction. `slerp` is called only where the current step holds a
    /// rotation, and has to accept only that call.
    pub fn tick_transform<F: Fn(EaseMethod, Scalar) -> Scalar, S: Fn(Quat, Quat, Scalar) -> Quat>(
        &mut self,
        transform: &mut Transform,
        curve: &F,
        slerp: &S,
    )
        requires
            old(self)@.may_ease(*curve),
            old(self)@.init_transform(*old(transform)).may_slerp(*curve, *slerp),
        ensures
            final(self)@ == old(self)@.init_transform(*old(transform)),
            final(self)@.current() is None ==> *final(transform) == *old(transform),
            final(self)@.current() matches Some(step) ==> exists|eased: Scalar|
                #[trigger] step.ease_method.eases(final(self)@.ratio(), *curve, eased)
                    && final(self)@.start.slerped(
                    *old(transform),
                    step.change,
                    eased,
                    *slerp,
                    *final(transform),
                ),
            final(self)@.current() matches Some(step) ==> step.ease_method is Linear
                ==> final(self)@.start.slerped(
                *old(transform),
                step.change,
                final(self)@.ratio(),
                *slerp,
                *final(transform),
            ),
    {
        self.init_transform(transform);
        if self.exec_index < self.animations.len() {
            let step = self.animations[self.exec_index];
            let eased = step.ease_method.tick(self.ratio(), curve);
            self.start.lerp_transform(transform, &step.change, eased, slerp);
        }
    }

    /// Writes the animated size and tint into `sprite`, as
    /// [`Animator::tick_style`] does for a layout.
    pub fn tick_sprite<F: Fn(EaseMethod, Scalar) -> Scalar>(
        &mut self,
        sprite: &mut Sprite,
        curve: &F,
    )
        requires
            old(self)@.may_ease(*curve),
        ensures
            final(self)@ == old(self)@.init_sprite(*old(sprite)),
            final(self)@.current() is None ==> *final(sprite) == *old(sprite),
            final(self)@.current() matches Some(step) ==> exists|eased: Scalar|
                #[trigger] step.ease_method.eases(final(self)@.ratio(), *curve, eased)
                    && *final(sprite) == final(self)@.start.sprite_lerped(
                    *old(sprite),
                    step.change,
                    eased,
                ),
            final(self)@.current() matches Some(step) ==> step.ease_method is Linear
                ==> *final(sprite) == final(self)@.start.sprite_lerped(
                *old(sprite),
                step.change,
                final(self)@.ratio(),
            ),
    {
        self.init_sprite(sprite);
        if self.exec_index < self.animations.len() {
            let step = self.animations[self.exec_index];
            let eased = step.ease_method.tick(self.ratio(), curve);
            self.start.lerp_sprite(sprite, &step.change, eased);
        }
    }
}

} // verus!
