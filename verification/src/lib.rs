//! A text editor's core: text buffers with line tables, cursors and edit
//! history, command lookup, key names, and the geometry of its UI elements.
pub mod application;
pub mod cmd;
pub mod datastructure;
pub mod debuginfo;
pub mod opengl;
pub mod textbuffer;
pub mod ui;
pub mod utils;
