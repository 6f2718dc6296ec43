//! User interface: geometry of UI elements, clipboard, input events and the
//! state of the elements that is independent of rendering.
use vstd::prelude::*;

pub mod basic;
pub mod clipboard;
pub mod eventhandling;
pub mod font;
pub mod inputbox;
pub mod panel;
pub mod scrollbar;
pub mod statusbar;
pub mod view;

use crate::datastructure::Vec2i;
use basic::boundingbox::BoundingBox;
use basic::coordinate::Size;

verus! {

/// Identifies a UI element.
#[derive(Clone, Copy, Debug, PartialEq, Eq, Structural)]
pub enum UID {
    View(u32),
    Panel(u32),
    Overlay(u32),
    Unassigned,
}

/// What a UI element that is laid out and takes mouse input offers.
pub trait Viewable {
    fn resize(&mut self, size: Size);

    fn set_anchor(&mut self, anchor: Vec2i);

    fn bounding_box(&self) -> BoundingBox;

    /// Mouse click handler; `screen_coordinate` lies inside this element.
    fn mouse_clicked(&mut self, screen_coordinate: Vec2i);

    /// Mouse drag handler, from the prior mouse position to the current one.
    fn mouse_dragged(&mut self, begin_coordinate: Vec2i, current_coordinate: Vec2i) -> Option<Vec2i>;
}

} // verus!
