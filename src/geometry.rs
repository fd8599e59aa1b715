//! Points, fixed-point vectors and axis-aligned rectangles.
use vstd::prelude::*;

use crate::fixed::{round_raw, trunc_div, Fixed, HALF};

verus! {

/// A point on the screen, in whole pixels.
#[derive(Clone, Copy, Debug, PartialEq, Eq, Structural)]
pub struct Point {
    pub x: i32,
    pub y: i32,
}

impl Point {
    pub fn new(x: i32, y: i32) -> (r: Point)
        ensures
            r.x == x,
            r.y == y,
    {
        Point { x, y }
    }

    pub fn add(self, other: Point) -> (r: Point)
        requires
            i32::MIN <= self.x + other.x <= i32::MAX,
            i32::MIN <= self.y + other.y <= i32::MAX,
        ensures
            r.x == self.x + other.x,
            r.y == self.y + other.y,
    {
        Point { x: self.x + other.x, y: self.y + other.y }
    }
}

/// A two-dimensional vector of fixed-point numbers.
#[derive(Clone, Copy, Debug, PartialEq, Eq, Structural)]
pub struct Vec2 {
    pub x: Fixed,
    pub y: Fixed,
}

impl Vec2 {
    pub fn new(x: Fixed, y: Fixed) -> (r: Vec2)
        ensures
            r.x == x,
            r.y == y,
    {
        Vec2 { x, y }
    }

    pub fn add(self, other: Vec2) -> (r: Vec2)
        requires
            i32::MIN <= self.x.val() + other.x.val() <= i32::MAX,
            i32::MIN <= self.y.val() + other.y.val() <= i32::MAX,
        ensures
            r.x.val() == self.x.val() + other.x.val(),
            r.y.val() == self.y.val() + other.y.val(),
    {
        Vec2 { x: self.x.add(other.x), y: self.y.add(other.y) }
    }

    /// Each coordinate rounded to the nearest whole pixel, halves up.
    pub fn round(self) -> (r: Point)
        requires
            self.x.val() + HALF <= i32::MAX,
            self.y.val() + HALF <= i32::MAX,
        ensures
            r.x == round_raw(self.x.val()),
            r.y == round_raw(self.y.val()),
    {
        Point { x: self.x.round(), y: self.y.round() }
    }
}

/// An axis-aligned rectangle: its top-left corner and its size.
#[derive(Clone, Copy, Debug, PartialEq, Eq, Structural)]
pub struct Rect {
    pub position: Vec2,
    pub size: Vec2,
}

/// The open intervals `[a, a + la)` and `[b, b + lb)` share a stretch of positive length.
pub open spec fn spans_overlap(a: int, la: int, b: int, lb: int) -> bool {
    a < b + lb && a + la > b
}

/// Every sum of a corner coordinate and the matching size fits in an `i32`.
pub open spec fn rect_fits(r: Rect) -> bool {
    &&& i32::MIN <= r.position.x.val() + r.size.x.val() <= i32::MAX
    &&& i32::MIN <= r.position.y.val() + r.size.y.val() <= i32::MAX
}

/// Centre coordinate of the span that starts at `a` and has length `l`.
pub open spec fn mid(a: int, l: int) -> int {
    a + trunc_div(l, 2)
}

impl Rect {
    pub fn new(position: Vec2, size: Vec2) -> (r: Rect)
        ensures
            r.position == position,
            r.size == size,
    {
        Rect { position, size }
    }

    /// Whether the two rectangles overlap in an area of positive size; shared edges do not count.
    pub open spec fn touches_spec(self, other: Rect) -> bool {
        &&& spans_overlap(self.position.x.val(), self.size.x.val(), other.position.x.val(), other.size.x.val())
        &&& spans_overlap(self.position.y.val(), self.size.y.val(), other.position.y.val(), other.size.y.val())
    }

    pub fn touches(&self, other: Rect) -> (r: bool)
        requires
            rect_fits(*self),
            rect_fits(other),
        ensures
            r == self.touches_spec(other),
    {
        self.position.x.raw < other.position.x.raw + other.size.x.raw
            && self.position.x.raw + self.size.x.raw > other.position.x.raw
            && self.position.y.raw < other.position.y.raw + other.size.y.raw
            && self.position.y.raw + self.size.y.raw > other.position.y.raw
    }

    /// The centre: the position plus half the size, halved towards zero.
    pub fn centre(self) -> (r: Vec2)
        requires
            rect_fits(self),
        ensures
            r.x.val() == mid(self.position.x.val(), self.size.x.val()),
            r.y.val() == mid(self.position.y.val(), self.size.y.val()),
    {
        let half = Vec2 { x: self.size.x.div_int(2), y: self.size.y.div_int(2) };
        self.position.add(half)
    }
}

} // verus!
