//! BoundingBox: the corners of a UI element, bottom left and top right.
use vstd::prelude::*;

use super::coordinate::{Margin, Size};
use super::frame::Frame;
use crate::datastructure::{add_fits, vec_sum, Vec2, Vec2i};

verus! {

#[derive(Debug, Clone, Copy, PartialEq, Eq, Structural)]
pub struct BoundingBox {
    /// Bottom left corner
    pub min: Vec2i,
    /// Top right corner
    pub max: Vec2i,
}

/// Whether a value fits in `i32`.
pub open spec fn fits_i32(v: int) -> bool {
    i32::MIN <= v <= i32::MAX
}

/// The box that a frame covers: the anchor is its top left corner.
pub open spec fn frame_box(anchor: Vec2i, size: Size) -> BoundingBox {
    BoundingBox {
        min: Vec2 { x: anchor.x, y: (anchor.y - size.height) as i32 },
        max: Vec2 { x: (anchor.x + size.width) as i32, y: anchor.y },
    }
}

/// Whether `frame_box(anchor, size)` can be computed within `i32`.
pub open spec fn frame_box_fits(anchor: Vec2i, size: Size) -> bool {
    fits_i32(anchor.y - size.height) && fits_i32(anchor.x + size.width)
}

/// `b` with each side moved by the margin: inwards when `sign` is 1, outwards when it is -1.
pub open spec fn moved_sides(b: BoundingBox, margin: Margin, sign: int) -> BoundingBox {
    let (h, v) = match margin {
        Margin::Vertical(m) => (0, m as int),
        Margin::Horizontal(m) => (m as int, 0),
        Margin::Perpendicular { h, v } => (h as int, v as int),
    };
    BoundingBox {
        min: Vec2 { x: (b.min.x + sign * h) as i32, y: (b.min.y + sign * v) as i32 },
        max: Vec2 { x: (b.max.x - sign * h) as i32, y: (b.max.y - sign * v) as i32 },
    }
}

/// Whether moving the sides of `b` by the margin, in or out, stays within `i32`.
pub open spec fn move_fits(b: BoundingBox, margin: Margin, sign: int) -> bool {
    let (h, v) = match margin {
        Margin::Vertical(m) => (0, m as int),
        Margin::Horizontal(m) => (m as int, 0),
        Margin::Perpendicular { h, v } => (h as int, v as int),
    };
    &&& fits_i32(b.min.x + sign * h)
    &&& fits_i32(b.min.y + sign * v)
    &&& fits_i32(b.max.x - sign * h)
    &&& fits_i32(b.max.y - sign * v)
}

/// Rust's `/` on integers: the quotient rounded towards zero.
pub open spec fn div_toward_zero(a: int, b: int) -> int
    recommends
        b > 0,
{
    if a >= 0 {
        a / b
    } else {
        -((-a) / b)
    }
}

/// `b` moved by `v`.
pub open spec fn translated(b: BoundingBox, v: Vec2i) -> BoundingBox {
    BoundingBox { min: vec_sum(b.min, v), max: vec_sum(b.max, v) }
}

/// Half of `a`, rounded towards zero, computed without overflow.
fn half(a: i32) -> (r: i32)
    ensures
        r == div_toward_zero(a as int, 2),
{
    if a >= 0 {
        a / 2
    } else {
        let p: i64 = -(a as i64);
        let q: i64 = p / 2;
        (0 - q) as i32
    }
}

impl BoundingBox {
    pub open spec fn spec_width(&self) -> int {
        self.max.x - self.min.x
    }

    pub open spec fn spec_height(&self) -> int {
        self.max.y - self.min.y
    }

    /// Whether width and height fit in `i32`.
    pub open spec fn extent_fits(&self) -> bool {
        fits_i32(self.spec_width()) && fits_i32(self.spec_height())
    }

    /// Creates a box from its corners; nothing checks that `min <= max`.
    pub fn new(min: Vec2i, max: Vec2i) -> (r: BoundingBox)
        ensures
            r.min == min,
            r.max == max,
    {
        BoundingBox { min, max }
    }

    /// The top left corner, where a frame with this box is anchored.
    pub fn get_anchor(&self) -> (r: Vec2i)
        ensures
            r == (Vec2 { x: self.min.x, y: self.max.y }),
    {
        Vec2 { x: self.min.x, y: self.max.y }
    }

    /// Whether `pos` lies inside the box, its edges included.
    pub fn box_hit_check(&self, pos: Vec2i) -> (r: bool)
        ensures
            r == (self.min.x <= pos.x <= self.max.x && self.min.y <= pos.y <= self.max.y),
    {
        pos.x >= self.min.x && pos.y >= self.min.y && pos.x <= self.max.x && pos.y <= self.max.y
    }

    /// The box of the frame with this anchor (top left corner) and size.
    pub fn from_info(anchor: Vec2i, size: Size) -> (r: BoundingBox)
        requires
            frame_box_fits(anchor, size),
        ensures
            r == frame_box(anchor, size),
    {
        BoundingBox::new(
            Vec2::new(anchor.x, anchor.y - size.height),
            Vec2::new(anchor.x + size.width, anchor.y),
        )
    }

    /// The box that the frame covers.
    pub fn from_frame(frame: &Frame) -> (r: BoundingBox)
        requires
            frame_box_fits(frame.anchor, frame.size),
        ensures
            r == frame_box(frame.anchor, frame.size),
    {
        BoundingBox::from_info(frame.anchor, frame.size)
    }

    /// Moves the box so that its center lies on `pos`.
    pub fn center_align_around(&mut self, pos: Vec2i)
        requires
            old(self).extent_fits(),
            fits_i32(pos.x - div_toward_zero(old(self).spec_width(), 2)),
            fits_i32(pos.y - div_toward_zero(old(self).spec_height(), 2)),
            fits_i32(pos.x + div_toward_zero(old(self).spec_width(), 2)),
            fits_i32(pos.y + div_toward_zero(old(self).spec_height(), 2)),
        ensures
            final(self).min.x == pos.x - div_toward_zero(old(self).spec_width(), 2),
            final(self).min.y == pos.y - div_toward_zero(old(self).spec_height(), 2),
            final(self).max.x == pos.x + div_toward_zero(old(self).spec_width(), 2),
            final(self).max.y == pos.y + div_toward_zero(old(self).spec_height(), 2),
    {
        let hw = half(self.width());
        let hh = half(self.height());
        self.min = Vec2::new(pos.x - hw, pos.y - hh);
        self.max = Vec2::new(pos.x + hw, pos.y + hh);
    }

    /// Moves the box along the x axis so that its center lies on `x`.
    pub fn center_horizontal_align(&mut self, x: i32)
        requires
            fits_i32(old(self).spec_width()),
            fits_i32(x - div_toward_zero(old(self).spec_width(), 2)),
            fits_i32(x + div_toward_zero(old(self).spec_width(), 2)),
        ensures
            final(self).min.x == x - div_toward_zero(old(self).spec_width(), 2),
            final(self).max.x == x + div_toward_zero(old(self).spec_width(), 2),
            final(self).min.y == old(self).min.y,
            final(self).max.y == old(self).max.y,
    {
        let hw = half(self.width());
        self.min = Vec2::new(x - hw, self.min.y);
        self.max = Vec2::new(x + hw, self.max.y);
    }

    /// Moves the box along the y axis so that its center lies on `y`.
    pub fn center_vertical_align(&mut self, y: i32)
        requires
            fits_i32(old(self).spec_height()),
            fits_i32(y - div_toward_zero(old(self).spec_height(), 2)),
            fits_i32(y + div_toward_zero(old(self).spec_height(), 2)),
        ensures
            final(self).min.y == y - div_toward_zero(old(self).spec_height(), 2),
            final(self).max.y == y + div_toward_zero(old(self).spec_height(), 2),
            final(self).min.x == old(self).min.x,
            final(self).max.x == old(self).max.x,
    {
        let hh = half(self.height());
        self.min = Vec2::new(self.min.x, y - hh);
        self.max = Vec2::new(self.max.x, y + hh);
    }

    /// The box with each side moved inwards by the margin.
    pub fn shrink(bounding_box: &BoundingBox, margin: Margin) -> (r: BoundingBox)
        requires
            move_fits(*bounding_box, margin, 1),
        ensures
            r == moved_sides(*bounding_box, margin, 1),
    {
        let mut b = *bounding_box;
        match margin {
            Margin::Vertical(m) => {
                b.min.y = b.min.y + m;
                b.max.y = b.max.y - m;
            },
            Margin::Horizontal(m) => {
                b.min.x = b.min.x + m;
                b.max.x = b.max.x - m;
            },
            Margin::Perpendicular { h, v } => {
                b.min.y = b.min.y + v;
                b.max.y = b.max.y - v;
                b.min.x = b.min.x + h;
                b.max.x = b.max.x - h;
            },
        }
        b
    }

    /// The box with each side moved outwards by the margin.
    pub fn expand(bounding_box: &BoundingBox, margin: Margin) -> (r: BoundingBox)
        requires
            move_fits(*bounding_box, margin, -1),
        ensures
            r == moved_sides(*bounding_box, margin, -1),
    {
        let mut b = *bounding_box;
        match margin {
            Margin::Vertical(m) => {
                b.min.y = b.min.y - m;
                b.max.y = b.max.y + m;
            },
            Margin::Horizontal(m) => {
                b.min.x = b.min.x - m;
                b.max.x = b.max.x + m;
            },
            Margin::Perpendicular { h, v } => {
                b.min.y = b.min.y - v;
                b.max.y = b.max.y + v;
                b.min.x = b.min.x - h;
                b.max.x = b.max.x + h;
            },
        }
        b
    }

    pub fn size(&self) -> (r: Size)
        requires
            self.extent_fits(),
        ensures
            r.width == self.spec_width(),
            r.height == self.spec_height(),
    {
        Size { width: self.width(), height: self.height() }
    }

    pub fn height(&self) -> (r: i32)
        requires
            fits_i32(self.spec_height()),
        ensures
            r == self.spec_height(),
    {
        self.max.y - self.min.y
    }

    pub fn width(&self) -> (r: i32)
        requires
            fits_i32(self.spec_width()),
        ensures
            r == self.spec_width(),
    {
        self.max.x - self.min.x
    }

    /// The bottom left corner moved by half the width and half the height.
    pub fn center_pos(&self) -> (r: Vec2i)
        requires
            self.extent_fits(),
            fits_i32(self.min.x + div_toward_zero(self.spec_width(), 2)),
            fits_i32(self.min.y + div_toward_zero(self.spec_height(), 2)),
        ensures
            r.x == self.min.x + div_toward_zero(self.spec_width(), 2),
            r.y == self.min.y + div_toward_zero(self.spec_height(), 2),
    {
        let sz = self.size();
        let add = Vec2::new(half(sz.width), half(sz.height));
        self.min.add(add)
    }

    /// The box moved by `vec`.
    pub fn translate(&self, vec: Vec2i) -> (r: BoundingBox)
        requires
            add_fits(self.min, vec),
            add_fits(self.max, vec),
        ensures
            r == translated(*self, vec),
    {
        let mut bb = *self;
        bb.min.add_assign(vec);
        bb.max.add_assign(vec);
        bb
    }

    /// The box moved by `vec`, taking the box by value.
    pub fn translate_mut(self, vec: Vec2i) -> (r: BoundingBox)
        requires
            add_fits(self.min, vec),
            add_fits(self.max, vec),
        ensures
            r == translated(self, vec),
    {
        let mut s = self;
        s.min.add_assign(vec);
        s.max.add_assign(vec);
        s
    }
}

/// Moving a box's sides outwards by a margin undoes moving them inwards by it.
pub proof fn lemma_expand_undoes_shrink(b: BoundingBox, margin: Margin)
    requires
        move_fits(b, margin, 1),
    ensures
        move_fits(moved_sides(b, margin, 1), margin, -1),
        moved_sides(moved_sides(b, margin, 1), margin, -1) == b,
{
}

/// Moving a box's sides inwards by a margin undoes moving them outwards by it.
pub proof fn lemma_shrink_undoes_expand(b: BoundingBox, margin: Margin)
    requires
        move_fits(b, margin, -1),
    ensures
        move_fits(moved_sides(b, margin, -1), margin, 1),
        moved_sides(moved_sides(b, margin, -1), margin, 1) == b,
{
}

/// Moving a box by a vector and then by its opposite gives the box back.
pub proof fn lemma_translate_back(b: BoundingBox, v: Vec2i)
    requires
        add_fits(b.min, v),
        add_fits(b.max, v),
        v.x > i32::MIN,
        v.y > i32::MIN,
    ensures
        add_fits(translated(b, v).min, Vec2 { x: (-v.x) as i32, y: (-v.y) as i32 }),
        add_fits(translated(b, v).max, Vec2 { x: (-v.x) as i32, y: (-v.y) as i32 }),
        translated(translated(b, v), Vec2 { x: (-v.x) as i32, y: (-v.y) as i32 }) == b,
{
}

/// A box whose corners are in order holds both of them and its center.
pub proof fn lemma_box_holds_corners_and_center(b: BoundingBox)
    requires
        b.min.x <= b.max.x,
        b.min.y <= b.max.y,
    ensures
        b.min.x <= b.min.x + div_toward_zero(b.spec_width(), 2) <= b.max.x,
        b.min.y <= b.min.y + div_toward_zero(b.spec_height(), 2) <= b.max.y,
{
}

} // verus!
