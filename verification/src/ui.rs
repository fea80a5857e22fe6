//! Clickable regions.

use crate::collision::{point_in_rect, point_inside};
use crate::draw::{Colour, Rectangle};
use crate::input::Input;
use crate::scalar::Vec2;
use vstd::prelude::*;

verus! {

/// A rectangle that can be clicked.
#[derive(Clone, Copy, Debug, PartialEq, Eq, Structural)]
pub struct Button {
    pub position: Vec2,
    pub size: Vec2,
}

impl Button {
    pub fn new(size: Vec2, pos: Vec2) -> (button: Button)
        ensures
            button == (Button { position: pos, size }),
    {
        Button { position: pos, size }
    }

    /// Whether a press of the left button at `mouse_pos` hits the button.
    pub open spec fn hit(self, mouse_pos: Vec2, input: Input) -> bool {
        input.left_pressed && point_inside(mouse_pos, self.position, self.size)
    }

    /// Whether the left button went down in this frame with the cursor on
    /// the button.
    pub fn was_clicked(&self, mouse_pos: Vec2, input: &Input) -> (clicked: bool)
        ensures
            clicked == self.hit(mouse_pos, *input),
    {
        input.left_pressed && point_in_rect(mouse_pos, self.position, self.size)
    }

    /// The button as a white rectangle.
    pub fn render(&self) -> (shape: Rectangle)
        ensures
            shape == (Rectangle { pos: self.position, size: self.size, colour: Colour::White }),
    {
        Rectangle { pos: self.position, size: self.size, colour: Colour::White }
    }
}

} // verus!
