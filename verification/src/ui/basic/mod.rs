//! Basic building blocks of UI elements: sizes, margins, bounding boxes and frames.
pub mod boundingbox;
pub mod coordinate;
pub mod frame;
