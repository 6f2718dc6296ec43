//! Scroll bar: a frame with a slider in it, and the range of values it scrolls over.
use vstd::prelude::*;

use super::basic::boundingbox::{div_toward_zero, fits_i32};
use super::basic::frame::Frame;

verus! {

#[derive(Debug, Clone, Copy, PartialEq, Eq, Structural)]
pub enum ScrollBarLayout {
    Horizontal,
    Vertical,
}

/// Scroll bar UI element.
#[derive(Debug)]
pub struct ScrollBar {
    /// The visual frame of this UI element
    pub frame: Frame,
    /// The sliding block
    pub slider: Frame,
    /// The layout of the slider and scroll bar
    pub layout: ScrollBarLayout,
    /// The end of the range of values the slider slides over
    pub max: usize,
    pub scroll_value: usize,
}

/// The slider height for a frame of `frame_height` pixels over `max` values:
/// the frame's share of one value, but at least 35 pixels.
pub open spec fn slider_height(frame_height: i32, max: usize) -> int {
    let share = div_toward_zero(frame_height as int, max as int);
    if share < 35 {
        35
    } else {
        share
    }
}

impl ScrollBar {
    /// Fits the slider to the frame and the range again.
    pub fn ui_update(&mut self)
        requires
            old(self).layout == ScrollBarLayout::Vertical,
            0 < old(self).max <= i32::MAX,
        ensures
            final(self).slider.size.height == slider_height(old(self).frame.size.height, old(self).max),
            final(self).slider.anchor.x == old(self).frame.anchor.x,
            final(self).slider.anchor.y == old(self).slider.anchor.y,
            final(self).slider.size.width == old(self).slider.size.width,
            final(self).frame == old(self).frame,
            final(self).layout == old(self).layout,
            final(self).max == old(self).max,
            final(self).scroll_value == old(self).scroll_value,
    {
        let share = self.frame.size.height / (self.max as i32);
        self.slider.size.height = if share < 35 {
            35
        } else {
            share
        };
        self.slider.anchor.x = self.frame.anchor.x;
    }

    /// A vertical scroll bar in `frame` over the values up to `end`; the slider
    /// starts as the frame with the frame's share of one value as its height.
    pub fn new(frame: Frame, end: usize, layout: ScrollBarLayout, scroll_value: usize) -> (r: ScrollBar)
        requires
            layout == ScrollBarLayout::Vertical,
            0 < end <= i32::MAX,
        ensures
            r.frame == frame,
            r.slider.anchor == frame.anchor,
            r.slider.size.width == frame.size.width,
            r.slider.size.height == div_toward_zero(frame.size.height as int, end as int),
            r.max == end,
            r.layout == layout,
            r.scroll_value == scroll_value,
    {
        let mut slider = frame;
        slider.size.height = frame.size.height / (end as i32);
        ScrollBar { frame, slider, max: end, layout, scroll_value }
    }

    /// Sets the end of the range and fits the slider's height to it.
    pub fn set_max(&mut self, max_value: usize)
        requires
            0 < max_value <= i32::MAX,
        ensures
            final(self).max == max_value,
            final(self).slider.size.height == slider_height(old(self).frame.size.height, max_value),
            final(self).slider.size.width == old(self).slider.size.width,
            final(self).slider.anchor == old(self).slider.anchor,
            final(self).frame == old(self).frame,
            final(self).layout == old(self).layout,
            final(self).scroll_value == old(self).scroll_value,
    {
        self.max = max_value;
        let share = self.frame.size.height / (self.max as i32);
        self.slider.size.height = if share < 35 {
            35
        } else {
            share
        };
    }

    /// The pixels the slider can travel: the frame's height less the slider's.
    pub fn scrollable_length_pixels(&self) -> (r: i32)
        requires
            fits_i32(self.frame.size.height - self.slider.size.height),
        ensures
            r == self.frame.size.height - self.slider.size.height,
    {
        self.frame.size.height - self.slider.size.height
    }

    /// Puts the top of the slider at `y`, held between the slider's height
    /// and the top of the frame.
    pub fn place_slider(&mut self, y: i32)
        requires
            old(self).slider.size.height <= old(self).frame.anchor.y,
        ensures
            final(self).slider.anchor.y == if y < old(self).slider.size.height {
                old(self).slider.size.height
            } else if y > old(self).frame.anchor.y {
                old(self).frame.anchor.y
            } else {
                y
            },
            final(self).slider.anchor.x == old(self).slider.anchor.x,
            final(self).slider.size == old(self).slider.size,
            final(self).frame == old(self).frame,
            final(self).layout == old(self).layout,
            final(self).max == old(self).max,
            final(self).scroll_value == old(self).scroll_value,
    {
        let lo = self.slider.size.height;
        let hi = self.frame.anchor.y;
        self.slider.anchor.y = if y < lo {
            lo
        } else if y > hi {
            hi
        } else {
            y
        };
    }
}

} // verus!
