//! Input events and the actions they translate to.
pub mod event;
pub mod input;
