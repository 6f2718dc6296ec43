//! Frame: the anchor of a UI element (its top left corner) and its size.
use vstd::prelude::*;

use super::boundingbox::{
    frame_box,
    frame_box_fits,
    moved_sides,
    move_fits,
    BoundingBox,
};
use super::coordinate::{shrink_fits, shrunk_size, Margin, Size};
use crate::datastructure::{add_fits, vec_sum, Vec2, Vec2i};

verus! {

#[derive(Copy, Clone, Debug, PartialEq, Eq, Structural)]
pub struct Frame {
    pub anchor: Vec2i,
    pub size: Size,
}

impl Frame {
    pub fn new(anchor: Vec2i, size: Size) -> (r: Frame)
        ensures
            r.anchor == anchor,
            r.size == size,
    {
        Frame { anchor, size }
    }

    /// The box that this frame covers.
    pub fn to_bb(&self) -> (r: BoundingBox)
        requires
            frame_box_fits(self.anchor, self.size),
        ensures
            r == frame_box(self.anchor, self.size),
    {
        BoundingBox::from_frame(self)
    }
}

/// Whether the frame inside `outer` with `margin` on each side can be computed within `i32`.
pub open spec fn inner_frame_fits(outer: Frame, margin: i32) -> bool {
    &&& shrink_fits(outer.size, Margin::Perpendicular { h: margin, v: margin })
    &&& margin > i32::MIN
    &&& add_fits(outer.anchor, Vec2 { x: margin, y: (-margin) as i32 })
}

/// The frame inside `outer` with `margin` on each side.
pub open spec fn inner_frame(outer: Frame, margin: i32) -> Frame {
    Frame {
        anchor: vec_sum(outer.anchor, Vec2 { x: margin, y: (-margin) as i32 }),
        size: shrunk_size(outer.size, Margin::Perpendicular { h: margin, v: margin }),
    }
}

/// The frame inside `outer_frame`, `margin` pixels in from each side.
pub fn make_inner_frame(outer_frame: &Frame, margin: i32) -> (r: Frame)
    requires
        inner_frame_fits(*outer_frame, margin),
    ensures
        r == inner_frame(*outer_frame, margin),
{
    let size = Size::shrink_axis_aligned(outer_frame.size, Margin::Perpendicular { h: margin, v: margin });
    let anchor = outer_frame.anchor.add(Vec2::new(margin, -margin));
    Frame { anchor, size }
}

/// The box of the inner frame is the box of the outer frame with each side
/// moved inwards by the margin.
pub proof fn lemma_inner_frame_box(outer: Frame, margin: i32)
    requires
        inner_frame_fits(outer, margin),
        frame_box_fits(outer.anchor, outer.size),
        frame_box_fits(inner_frame(outer, margin).anchor, inner_frame(outer, margin).size),
    ensures
        move_fits(
            frame_box(outer.anchor, outer.size),
            Margin::Perpendicular { h: margin, v: margin },
            1,
        ),
        frame_box(inner_frame(outer, margin).anchor, inner_frame(outer, margin).size)
            == moved_sides(
            frame_box(outer.anchor, outer.size),
            Margin::Perpendicular { h: margin, v: margin },
            1,
        ),
{
}

} // verus!
