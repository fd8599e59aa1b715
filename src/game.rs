//! The whole playing field: one ball and two paddles, advanced frame by frame.
use vstd::prelude::*;

use crate::ball::{in_limit, step, Ball, COORD_LIMIT};
use crate::fixed::{Fixed, ONE};
use crate::geometry::Vec2;
use crate::paddle::Paddle;
use crate::sprite::{SCREEN_WIDTH, SPRITE_SIZE};

verus! {

/// Gap between a paddle and the screen edge behind it, in pixels.
pub const PADDLE_MARGIN: i32 = 8;

#[derive(Clone, Copy, Debug, PartialEq, Eq, Structural)]
pub struct Game {
    pub ball: Ball,
    /// The player's paddle.
    pub paddle_l: Paddle,
    /// The fixed paddle on the right, drawn mirrored.
    pub paddle_r: Paddle,
}

impl Game {
    /// Every coordinate is within the bounds that `update` accepts.
    pub open spec fn fits(self) -> bool {
        &&& self.ball.fits()
        &&& in_limit(self.paddle_l.pos.x.val())
        &&& in_limit(self.paddle_l.pos.y.val())
        &&& in_limit(self.paddle_r.pos.x.val())
        &&& in_limit(self.paddle_r.pos.y.val())
    }

    /// The starting layout: the ball as `Ball::new` makes it, the left paddle at (8, 8),
    /// and the right paddle mirrored, at the same height, 8 pixels from the right edge.
    pub fn new() -> (r: Game)
        ensures
            r.ball == Ball::new_spec(),
            r.paddle_l.pos.x.val() == PADDLE_MARGIN * ONE,
            r.paddle_l.pos.y.val() == PADDLE_MARGIN * ONE,
            !r.paddle_l.hflip,
            r.paddle_r.pos.x.val() == (SCREEN_WIDTH - SPRITE_SIZE - PADDLE_MARGIN) * ONE,
            r.paddle_r.pos.y.val() == PADDLE_MARGIN * ONE,
            r.paddle_r.hflip,
    {
        let ball = Ball::new();
        let paddle_l = Paddle::new(Vec2::new(Fixed::new(PADDLE_MARGIN), Fixed::new(PADDLE_MARGIN)), false);
        let paddle_r = Paddle::new(
            Vec2::new(Fixed::new(SCREEN_WIDTH - SPRITE_SIZE - PADDLE_MARGIN), Fixed::new(PADDLE_MARGIN)),
            true,
        );
        Game { ball, paddle_l, paddle_r }
    }

    /// Whether `update` may be called on this game.
    pub fn can_update(&self) -> (r: bool)
        ensures
            r == self.fits(),
    {
        let lo = -COORD_LIMIT;
        let b = self.ball;
        let within = |v: Fixed| -> (w: bool)
            ensures
                w == in_limit(v.val()),
            { lo <= v.raw && v.raw <= COORD_LIMIT };
        within(b.pos.x) && within(b.pos.y) && within(b.velocity.x) && within(b.velocity.y)
            && within(self.paddle_l.pos.x) && within(self.paddle_l.pos.y)
            && within(self.paddle_r.pos.x) && within(self.paddle_r.pos.y)
    }

    /// Advances the ball by one frame; the paddles stay where they are.
    pub fn update(&mut self)
        requires
            old(self).fits(),
        ensures
            final(self).ball.state() == step(
                old(self).ball.state(),
                old(self).paddle_l.pos.x.val(),
                old(self).paddle_l.pos.y.val(),
                old(self).paddle_r.pos.x.val(),
                old(self).paddle_r.pos.y.val(),
            ),
            final(self).paddle_l == old(self).paddle_l,
            final(self).paddle_r == old(self).paddle_r,
    {
        let paddle_l = self.paddle_l;
        let paddle_r = self.paddle_r;
        self.ball.update(&paddle_l, &paddle_r);
    }

    /// Moves the player's paddle by `y_tri` pixels: -1 is up, 1 is down, 0 leaves it.
    pub fn steer(&mut self, y_tri: i32)
        requires
            -1 <= y_tri <= 1,
            i32::MIN <= old(self).paddle_l.pos.y.val() + y_tri * ONE <= i32::MAX,
        ensures
            final(self).paddle_l.pos.y.val() == old(self).paddle_l.pos.y.val() + y_tri * ONE,
            final(self).paddle_l.pos.x == old(self).paddle_l.pos.x,
            final(self).paddle_l.hflip == old(self).paddle_l.hflip,
            final(self).ball == old(self).ball,
            final(self).paddle_r == old(self).paddle_r,
    {
        self.paddle_l.move_by(Fixed::new(y_tri));
    }
}

} // verus!
