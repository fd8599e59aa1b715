//! The ball: its movement, and how it bounces off paddles and screen edges.
use vstd::prelude::*;

use crate::fixed::{abs_int, lemma_mul_minus_one, round_raw, trunc_div, Fixed, HALF, ONE};
use crate::geometry::{mid, spans_overlap, Rect, Vec2};
use crate::paddle::{paddle_height, paddle_width, Paddle};
use crate::sprite::{Placement, SpriteKind, SCREEN_HEIGHT, SCREEN_WIDTH, SPRITE_SIZE};

verus! {

/// Bound on the raw coordinates of positions and velocities that a frame update accepts,
/// so that no sum it forms leaves the range of `i32`.
pub const COORD_LIMIT: i32 = 0x2000_0000;

/// The ball's vertical speed changes by its offset from the paddle's centre divided by this.
pub const SPIN_DIVISOR: i32 = 32;

/// A ball's position and velocity, as raw fixed-point values.
pub struct BallState {
    pub px: int,
    pub py: int,
    pub vx: int,
    pub vy: int,
}

pub open spec fn in_limit(v: int) -> bool {
    -COORD_LIMIT <= v <= COORD_LIMIT
}

/// Raw side length of the ball's square.
pub open spec fn ball_side() -> int {
    SPRITE_SIZE * ONE
}

/// Whether a paddle with corner `(x, y)` overlaps the ball's square with corner `(bx, by)`.
pub open spec fn paddle_hits(x: int, y: int, bx: int, by: int) -> bool {
    spans_overlap(x, paddle_width(), bx, ball_side()) && spans_overlap(y, paddle_height(), by, ball_side())
}

/// Vertical speed a paddle with top `y` gives a ball with top `by`.
pub open spec fn spin(y: int, by: int) -> int {
    trunc_div(mid(by, ball_side()) - mid(y, paddle_height()), SPIN_DIVISOR as int)
}

/// A ball drawn at pixel `p` along an axis of `extent` pixels is at or past an edge.
pub open spec fn at_edge(p: int, extent: int) -> bool {
    p <= 0 || p >= extent - SPRITE_SIZE
}

/// The ball one frame later. It looks ahead to where its current velocity takes it.
/// If that square meets the left paddle, it heads right and takes on spin; if it meets the
/// right paddle, it heads left and takes on spin. If the look-ahead position, rounded to
/// pixels, is at or past a screen edge, the velocity along that axis is reversed. Then the
/// ball moves by the resulting velocity.
pub open spec fn step(b: BallState, lx: int, ly: int, rx: int, ry: int) -> BallState {
    let nx = b.px + b.vx;
    let ny = b.py + b.vy;
    let hit_l = paddle_hits(lx, ly, nx, ny);
    let vx1 = if hit_l { abs_int(b.vx) } else { b.vx };
    let vy1 = if hit_l { b.vy + spin(ly, ny) } else { b.vy };
    let hit_r = paddle_hits(rx, ry, nx, ny);
    let vx2 = if hit_r { -abs_int(vx1) } else { vx1 };
    let vy2 = if hit_r { vy1 + spin(ry, ny) } else { vy1 };
    let vx3 = if at_edge(round_raw(nx), SCREEN_WIDTH as int) { -vx2 } else { vx2 };
    let vy3 = if at_edge(round_raw(ny), SCREEN_HEIGHT as int) { -vy2 } else { vy2 };
    BallState { px: b.px + vx3, py: b.py + vy3, vx: vx3, vy: vy3 }
}

#[derive(Clone, Copy, Debug, PartialEq, Eq, Structural)]
pub struct Ball {
    /// Top-left corner.
    pub pos: Vec2,
    /// Movement per frame.
    pub velocity: Vec2,
}

impl Ball {
    pub open spec fn state(self) -> BallState {
        BallState {
            px: self.pos.x.val(),
            py: self.pos.y.val(),
            vx: self.velocity.x.val(),
            vy: self.velocity.y.val(),
        }
    }

    /// Position and velocity are within the bounds that a frame update accepts.
    pub open spec fn fits(self) -> bool {
        &&& in_limit(self.pos.x.val())
        &&& in_limit(self.pos.y.val())
        &&& in_limit(self.velocity.x.val())
        &&& in_limit(self.velocity.y.val())
    }

    /// The ball at (50, 50), moving 2 pixels right and half a pixel down each frame.
    pub open spec fn new_spec() -> Ball {
        Ball {
            pos: Vec2 { x: Fixed { raw: (50 * ONE) as i32 }, y: Fixed { raw: (50 * ONE) as i32 } },
            velocity: Vec2 { x: Fixed { raw: (2 * ONE) as i32 }, y: Fixed { raw: HALF } },
        }
    }

    pub fn new() -> (r: Ball)
        ensures
            r == Ball::new_spec(),
    {
        Ball {
            pos: Vec2::new(Fixed::new(50), Fixed::new(50)),
            velocity: Vec2::new(Fixed::new(2), Fixed::from_raw(HALF)),
        }
    }

    /// Advances the ball by one frame, bouncing off the two paddles and the screen edges.
    pub fn update(&mut self, paddle_l: &Paddle, paddle_r: &Paddle)
        requires
            old(self).fits(),
            in_limit(paddle_l.pos.x.val()),
            in_limit(paddle_l.pos.y.val()),
            in_limit(paddle_r.pos.x.val()),
            in_limit(paddle_r.pos.y.val()),
        ensures
            final(self).state() == step(
                old(self).state(),
                paddle_l.pos.x.val(),
                paddle_l.pos.y.val(),
                paddle_r.pos.x.val(),
                paddle_r.pos.y.val(),
            ),
    {
        let possible_next_ball_pos = self.pos.add(self.velocity);
        let ball_rect = Rect::new(
            possible_next_ball_pos,
            Vec2::new(Fixed::new(SPRITE_SIZE), Fixed::new(SPRITE_SIZE)),
        );

        let rect_l = paddle_l.collision_rect();
        if rect_l.touches(ball_rect) {
            self.velocity.x = self.velocity.x.abs();
            let y_difference = ball_rect.centre().y.sub(rect_l.centre().y).div_int(SPIN_DIVISOR);
            self.velocity.y = self.velocity.y.add(y_difference);
        }

        let rect_r = paddle_r.collision_rect();
        if rect_r.touches(ball_rect) {
            self.velocity.x = self.velocity.x.abs().neg();
            let y_difference = ball_rect.centre().y.sub(rect_r.centre().y).div_int(SPIN_DIVISOR);
            self.velocity.y = self.velocity.y.add(y_difference);
        }

        let rounded_possible_next_pos = possible_next_ball_pos.round();
        proof {
            lemma_mul_minus_one(self.velocity.x.val());
            lemma_mul_minus_one(self.velocity.y.val());
        }
        if rounded_possible_next_pos.x <= 0 || rounded_possible_next_pos.x >= SCREEN_WIDTH - SPRITE_SIZE {
            self.velocity.x = self.velocity.x.mul(Fixed::new(-1));
        }
        if rounded_possible_next_pos.y <= 0 || rounded_possible_next_pos.y >= SCREEN_HEIGHT - SPRITE_SIZE {
            self.velocity.y = self.velocity.y.mul(Fixed::new(-1));
        }

        self.pos = self.pos.add(self.velocity);
    }

    /// The ball's sprite, at its position rounded to whole pixels.
    pub fn sprite(&self) -> (r: Placement)
        requires
            self.pos.x.val() + HALF <= i32::MAX,
            self.pos.y.val() + HALF <= i32::MAX,
        ensures
            r.kind == SpriteKind::Ball,
            r.pos.x == round_raw(self.pos.x.val()),
            r.pos.y == round_raw(self.pos.y.val()),
            !r.hflip,
            !r.vflip,
    {
        Placement { kind: SpriteKind::Ball, pos: self.pos.round(), hflip: false, vflip: false }
    }
}

} // verus!
