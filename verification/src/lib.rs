//! A keyframe tweening engine in fixed-point arithmetic.
//!
//! An [`animator::Animator`] plays an ordered sequence of timed steps. Each tick
//! advances its progress through the current step, and one applier per kind of
//! attribute writes `baseline + delta * eased fraction` into the live value.
//! Every quantity is an integer counted in millionths, so that accumulating and
//! de-accumulating step deltas is exactly reversible.

pub mod fixed;
pub mod values;
pub mod ani_utils;
pub mod attrs;
pub mod anim;
pub mod step;
pub mod model;
pub mod animator;
pub mod laws;
