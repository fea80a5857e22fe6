//! What the core hands to a renderer: coloured rectangles.

use crate::scalar::Vec2;
use vstd::prelude::*;

verus! {

/// The colours that the editor draws in.
#[derive(Clone, Copy, Debug, PartialEq, Eq, Structural)]
pub enum Colour {
    /// Platforms, buttons and the platform being drawn.
    White,
    /// The outline of the region being selected.
    Red,
    /// Half-transparent white: where a platform being moved will land.
    Faint,
}

/// A filled rectangle: top-left corner, extent, colour.
#[derive(Clone, Copy, Debug, PartialEq, Eq, Structural)]
pub struct Rectangle {
    pub pos: Vec2,
    pub size: Vec2,
    pub colour: Colour,
}

} // verus!
