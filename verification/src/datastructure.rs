//! Plain two-component vectors, used for screen coordinates.
use vstd::prelude::*;

use crate::ui::basic::boundingbox::BoundingBox;

verus! {

/// A pair of values on the x and y axes.
#[derive(Debug, Clone, Copy, PartialEq, Eq, Structural)]
pub struct Vec2<T> {
    pub x: T,
    pub y: T,
}

/// Integer screen coordinates, in pixels.
pub type Vec2i = Vec2<i32>;

impl<T> Vec2<T> {
    pub fn new(x: T, y: T) -> (r: Vec2<T>)
        ensures
            r.x == x,
            r.y == y,
    {
        Vec2 { x, y }
    }
}

/// Whether the component-wise sum of two integer vectors fits in `i32`.
pub open spec fn add_fits(a: Vec2i, b: Vec2i) -> bool {
    &&& i32::MIN <= a.x + b.x <= i32::MAX
    &&& i32::MIN <= a.y + b.y <= i32::MAX
}

/// The component-wise sum of two integer vectors.
pub open spec fn vec_sum(a: Vec2i, b: Vec2i) -> Vec2i {
    Vec2 { x: (a.x + b.x) as i32, y: (a.y + b.y) as i32 }
}

/// `v` held inside `[lo, hi]`.
pub open spec fn clamp_int(v: int, lo: int, hi: int) -> int {
    if v < lo {
        lo
    } else if v > hi {
        hi
    } else {
        v
    }
}

impl Vec2<i32> {
    /// The component-wise sum, as `+` on two vectors.
    pub fn add(self, rhs: Vec2<i32>) -> (r: Vec2<i32>)
        requires
            add_fits(self, rhs),
        ensures
            r == vec_sum(self, rhs),
    {
        Vec2 { x: self.x + rhs.x, y: self.y + rhs.y }
    }

    /// Adds `rhs` component-wise, as `+=` on two vectors.
    pub fn add_assign(&mut self, rhs: Vec2<i32>)
        requires
            add_fits(*old(self), rhs),
        ensures
            *final(self) == vec_sum(*old(self), rhs),
    {
        self.x = self.x + rhs.x;
        self.y = self.y + rhs.y;
    }

    /// This point held inside the bounding box, axis by axis.
    pub fn clamped(&self, bb: &BoundingBox) -> (r: Vec2<i32>)
        requires
            bb.min.x <= bb.max.x,
            bb.min.y <= bb.max.y,
        ensures
            r.x == clamp_int(self.x as int, bb.min.x as int, bb.max.x as int),
            r.y == clamp_int(self.y as int, bb.min.y as int, bb.max.y as int),
    {
        let x = if self.x < bb.min.x {
            bb.min.x
        } else if self.x > bb.max.x {
            bb.max.x
        } else {
            self.x
        };
        let y = if self.y < bb.min.y {
            bb.min.y
        } else if self.y > bb.max.y {
            bb.max.y
        } else {
            self.y
        };
        Vec2 { x, y }
    }
}

} // verus!
