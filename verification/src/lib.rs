//! The control core of a level editor for a platformer: geometry, the level
//! store and its binary format, the editing tools, and the mode machine.
//!
//! Numbers are single-precision and are held by their bit patterns, so that
//! a level is read back bit for bit as it was written. The core reads no
//! device and draws nothing: a frame comes in as an `Input`, and what is to
//! be drawn goes out as a list of rectangles.

pub mod character;
pub mod collision;
pub mod draw;
pub mod editor;
pub mod input;
pub mod level;
pub mod scalar;
pub mod tools;
pub mod ui;
