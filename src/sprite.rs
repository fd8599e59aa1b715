//! What to draw: which sprite goes where, and how it is mirrored.
use vstd::prelude::*;

use crate::geometry::Point;

verus! {

/// Side length of every sprite, in pixels.
pub const SPRITE_SIZE: i32 = 16;

/// Width of the screen, in pixels.
pub const SCREEN_WIDTH: i32 = 240;

/// Height of the screen, in pixels.
pub const SCREEN_HEIGHT: i32 = 160;

#[derive(Clone, Copy, Debug, PartialEq, Eq, Structural)]
pub enum SpriteKind {
    /// The rounded top (or, flipped vertically, bottom) of a paddle.
    PaddleEnd,
    /// The straight middle piece of a paddle.
    PaddleMid,
    Ball,
}

/// One sprite to draw this frame.
#[derive(Clone, Copy, Debug, PartialEq, Eq, Structural)]
pub struct Placement {
    pub kind: SpriteKind,
    /// Top-left corner on the screen.
    pub pos: Point,
    /// Mirrored left to right.
    pub hflip: bool,
    /// Mirrored top to bottom.
    pub vflip: bool,
}

} // verus!
