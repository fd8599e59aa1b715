//! A paddle: three sprites stacked vertically.
use vstd::prelude::*;

use crate::fixed::{round_raw, Fixed, HALF, ONE};
use crate::geometry::{Point, Rect, Vec2};
use crate::sprite::{Placement, SpriteKind, SPRITE_SIZE};

verus! {

/// Number of sprites a paddle is made of.
pub const PADDLE_SEGMENTS: i32 = 3;

/// Raw width of a paddle's collision box.
pub open spec fn paddle_width() -> int {
    SPRITE_SIZE * ONE
}

/// Raw height of a paddle's collision box.
pub open spec fn paddle_height() -> int {
    PADDLE_SEGMENTS * SPRITE_SIZE * ONE
}

/// Where the sprite `i` of a paddle whose corner rounds to `p` is drawn.
pub open spec fn paddle_piece(p: Point, hflip: bool, i: int) -> Placement {
    Placement {
        kind: if i == 1 { SpriteKind::PaddleMid } else { SpriteKind::PaddleEnd },
        pos: Point { x: p.x, y: (p.y + i * SPRITE_SIZE) as i32 },
        hflip,
        vflip: i == 2,
    }
}

#[derive(Clone, Copy, Debug, PartialEq, Eq, Structural)]
pub struct Paddle {
    /// Top-left corner.
    pub pos: Vec2,
    /// Drawn mirrored left to right, for the paddle on the right-hand side.
    pub hflip: bool,
}

impl Paddle {
    pub fn new(start_pos: Vec2, hflip: bool) -> (r: Paddle)
        ensures
            r.pos == start_pos,
            r.hflip == hflip,
    {
        Paddle { pos: start_pos, hflip }
    }

    pub fn set_pos(&mut self, new_pos: Vec2)
        ensures
            final(self).pos == new_pos,
            final(self).hflip == old(self).hflip,
    {
        self.pos = new_pos;
    }

    /// Moves the paddle vertically by `y`.
    pub fn move_by(&mut self, y: Fixed)
        requires
            i32::MIN <= old(self).pos.y.val() + y.val() <= i32::MAX,
        ensures
            final(self).pos.x == old(self).pos.x,
            final(self).pos.y.val() == old(self).pos.y.val() + y.val(),
            final(self).hflip == old(self).hflip,
    {
        self.pos = self.pos.add(Vec2::new(Fixed::new(0), y));
    }

    /// The box the ball bounces off: one sprite wide, three sprites tall.
    pub fn collision_rect(&self) -> (r: Rect)
        ensures
            r.position == self.pos,
            r.size.x.val() == paddle_width(),
            r.size.y.val() == paddle_height(),
    {
        Rect::new(self.pos, Vec2::new(Fixed::new(SPRITE_SIZE), Fixed::new(PADDLE_SEGMENTS * SPRITE_SIZE)))
    }

    /// The three sprites, top to bottom, at the paddle's position rounded to whole pixels;
    /// the bottom end is the top end flipped vertically.
    pub fn sprites(&self) -> (r: Vec<Placement>)
        requires
            self.pos.x.val() + HALF <= i32::MAX,
            self.pos.y.val() + HALF <= i32::MAX,
            round_raw(self.pos.y.val()) + 2 * SPRITE_SIZE <= i32::MAX,
        ensures
            r@.len() == 3,
            forall|i: int|
                0 <= i < 3 ==> r@[i] == paddle_piece(
                    Point { x: round_raw(self.pos.x.val()) as i32, y: round_raw(self.pos.y.val()) as i32 },
                    self.hflip,
                    i,
                ),
    {
        let p = self.pos.round();
        let top = Placement { kind: SpriteKind::PaddleEnd, pos: p, hflip: self.hflip, vflip: false };
        let middle = Placement {
            kind: SpriteKind::PaddleMid,
            pos: p.add(Point::new(0, SPRITE_SIZE)),
            hflip: self.hflip,
            vflip: false,
        };
        let bottom = Placement {
            kind: SpriteKind::PaddleEnd,
            pos: p.add(Point::new(0, 2 * SPRITE_SIZE)),
            hflip: self.hflip,
            vflip: true,
        };
        let r = vec![top, middle, bottom];
        r
    }
}

} // verus!
