//! Text buffers: the line table, cursors, edit history and the buffer types.
use vstd::prelude::*;

pub mod buffers;
pub mod chars;
pub mod contiguous;
pub mod cursor;
pub mod gap_buffer;
pub mod laws;
pub mod metadata;
pub mod model;
pub mod operations;
pub mod parse;
pub mod strings;
pub mod text_buffer;
pub mod vecops;

use strings::str_eq;

verus! {

/// The unit a movement or a deletion counts in.
#[derive(Debug, Hash, PartialEq, Eq, Structural, Clone, Copy)]
pub enum TextKind {
    Char,
    Word,
    Line,
    Block,
    Page,
    File,
}

/// A cursor movement: forward or backward by a count of units, or to the
/// beginning or end of the unit the cursor is in.
#[derive(Debug, Hash, PartialEq, Eq, Structural, Clone, Copy)]
pub enum Movement {
    Forward(TextKind, usize),
    Backward(TextKind, usize),
    Begin(TextKind),
    End(TextKind),
}

/// The unit a name in a movement description stands for.
pub open spec fn text_kind_from_name(s: Seq<char>) -> Option<TextKind> {
    if s == "Char"@ {
        Some(TextKind::Char)
    } else if s == "Word"@ {
        Some(TextKind::Word)
    } else if s == "Line"@ {
        Some(TextKind::Line)
    } else if s == "Block"@ {
        Some(TextKind::Block)
    } else if s == "Page"@ {
        Some(TextKind::Page)
    } else if s == "File"@ {
        Some(TextKind::File)
    } else {
        None
    }
}

impl TextKind {
    /// Reads a unit from its name.
    pub fn from_str(s: &str) -> (r: Result<TextKind, &'static str>)
        ensures
            match r {
                Ok(k) => text_kind_from_name(s@) == Some(k),
                Err(e) => text_kind_from_name(s@) is None && e@ == "Unknown Text Kind type"@,
            },
    {
        if str_eq(s, "Char") {
            Ok(TextKind::Char)
        } else if str_eq(s, "Word") {
            Ok(TextKind::Word)
        } else if str_eq(s, "Line") {
            Ok(TextKind::Line)
        } else if str_eq(s, "Block") {
            Ok(TextKind::Block)
        } else if str_eq(s, "Page") {
            Ok(TextKind::Page)
        } else if str_eq(s, "File") {
            Ok(TextKind::File)
        } else {
            Err("Unknown Text Kind type")
        }
    }
}

/// A page movement of `count` pages as a line movement, for pages of `page_size` lines.
pub open spec fn page_as_lines(m: Movement, page_size: usize) -> Movement {
    match m {
        Movement::Forward(TextKind::Page, c) => Movement::Forward(TextKind::Line, (c * page_size) as usize),
        Movement::Backward(TextKind::Page, c) => Movement::Backward(TextKind::Line, (c * page_size) as usize),
        _ => m,
    }
}

impl Movement {
    /// Turns a movement by pages into a movement by lines, for pages of
    /// `view_page_size` lines; other movements are kept as they are. There is
    /// no beginning or end of a page to move to.
    pub fn transform_page_param(self, view_page_size: usize) -> (r: Movement)
        requires
            self != Movement::Begin(TextKind::Page),
            self != Movement::End(TextKind::Page),
            match self {
                Movement::Forward(TextKind::Page, c) => c * view_page_size <= usize::MAX,
                Movement::Backward(TextKind::Page, c) => c * view_page_size <= usize::MAX,
                _ => true,
            },
        ensures
            r == page_as_lines(self, view_page_size),
    {
        match self {
            Movement::Forward(a, c) => match a {
                TextKind::Page => Movement::Forward(TextKind::Line, c * view_page_size),
                _ => self,
            },
            Movement::Backward(a, c) => match a {
                TextKind::Page => Movement::Backward(TextKind::Line, c * view_page_size),
                _ => self,
            },
            _ => self,
        }
    }
}

/// Whether the contents of a buffer were saved.
pub enum BufferState {
    Empty,
    Pristine,
    NotSaved,
    NotSavedToDisk,
}

/// Reading a run of characters out of a buffer as an owned string; buffers
/// that keep their text in more than one piece cannot hand out one slice.
pub trait SubstringClone {
    fn read_string(&self, range: std::ops::Range<usize>) -> String;
}

} // verus!
