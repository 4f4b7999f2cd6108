//! The live attributes of an entity, as far as an animation reads and writes them.

use vstd::prelude::*;
use crate::fixed::Scalar;
use crate::values::{Color, Quat, Val, Vec2, Vec3};

verus! {

/// The box layout of a node: its size and its offsets from the four edges.
#[derive(Clone, Copy, Debug, PartialEq, Eq, Structural)]
pub struct Style {
    pub width: Val,
    pub height: Val,
    pub left: Val,
    pub right: Val,
    pub top: Val,
    pub bottom: Val,
}

impl Default for Style {
    /// A layout with every length unset.
    fn default() -> (s: Style)
        ensures
            s == (Style {
                width: Val::Auto,
                height: Val::Auto,
                left: Val::Auto,
                right: Val::Auto,
                top: Val::Auto,
                bottom: Val::Auto,
            }),
    {
        Style {
            width: Val::Auto,
            height: Val::Auto,
            left: Val::Auto,
            right: Val::Auto,
            top: Val::Auto,
            bottom: Val::Auto,
        }
    }
}

/// The style of one run of text.
#[derive(Clone, Copy, Debug, PartialEq, Eq, Structural)]
pub struct TextSection {
    pub font_size: Scalar,
    pub color: Color,
}

/// A text: its runs in order. Only the first run is animated.
#[derive(Debug, PartialEq, Eq)]
pub struct Text {
    pub sections: Vec<TextSection>,
}

impl Clone for Text {
    fn clone(&self) -> (t: Text)
        ensures
            t.sections@ == self.sections@,
    {
        let mut sections: Vec<TextSection> = Vec::new();
        let mut i: usize = 0;
        while i < self.sections.len()
            invariant
                i <= self.sections.len(),
                sections@ == self.sections@.subrange(0, i as int),
            decreases self.sections.len() - i,
        {
            sections.push(self.sections[i]);
            i += 1;
        }
        Text { sections }
    }
}

impl Text {
    /// A text of one run.
    pub fn from_section(font_size: Scalar, color: Color) -> (t: Text)
        ensures
            t.sections@ == seq![TextSection { font_size, color }],
    {
        let mut sections: Vec<TextSection> = Vec::new();
        sections.push(TextSection { font_size, color });
        Text { sections }
    }
}

/// The fill colour of a node.
#[derive(Clone, Copy, Debug, PartialEq, Eq, Structural)]
pub struct BackgroundColor(pub Color);

/// The placement of an entity in space.
#[derive(Clone, Copy, Debug, PartialEq, Eq, Structural)]
pub struct Transform {
    pub translation: Vec3,
    pub rotation: Quat,
    pub scale: Vec3,
}

/// The appearance of a sprite: its size, where one is set, and its tint.
#[derive(Clone, Copy, Debug, PartialEq, Eq, Structural)]
pub struct Sprite {
    pub custom_size: Option<Vec2>,
    pub color: Color,
}

} // verus!
