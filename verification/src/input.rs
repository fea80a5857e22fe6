//! What the engine reports for one frame.

use crate::scalar::Vec2;
use vstd::prelude::*;

verus! {

/// The state of mouse and keyboard in one frame.
#[derive(Clone, Copy, Debug, PartialEq, Eq, Structural)]
pub struct Input {
    /// The cursor, in world space.
    pub mouse_pos: Vec2,
    /// The left button went down in this frame.
    pub left_pressed: bool,
    /// The left button went up in this frame.
    pub left_released: bool,
    /// The left button is held.
    pub left_down: bool,
    /// The key `S` went down in this frame.
    pub key_s: bool,
    /// The key `P` went down in this frame.
    pub key_p: bool,
    /// The key `M` went down in this frame.
    pub key_m: bool,
    /// A control key is held.
    pub ctrl: bool,
}

} // verus!
