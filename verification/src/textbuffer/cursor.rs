//! Cursors into a buffer.
use vstd::prelude::*;

use super::metadata::{Column, Index, Line};

verus! {

/// A position in a buffer: the absolute index, and the line and column it lies on.
#[derive(Debug, Copy, Clone)]
pub struct BufferCursor {
    /// Absolute index into buffer
    pub pos: Index,
    pub row: Line,
    pub col: Column,
}

impl Default for BufferCursor {
    fn default() -> (r: BufferCursor)
        ensures
            r == (BufferCursor { pos: Index(0), row: Line(0), col: Column(0) }),
    {
        BufferCursor { pos: Index(0), row: Line(0), col: Column(0) }
    }
}

impl From<(usize, usize, usize)> for BufferCursor {
    fn from(t: (usize, usize, usize)) -> (r: BufferCursor) {
        let (pos, row, col) = t;
        BufferCursor { pos: Index(pos), row: Line(row), col: Column(col) }
    }
}

impl vstd::std_specs::convert::FromSpecImpl<(usize, usize, usize)> for BufferCursor {
    open spec fn obeys_from_spec() -> bool {
        true
    }

    open spec fn from_spec(t: (usize, usize, usize)) -> BufferCursor {
        BufferCursor { pos: Index(t.0), row: Line(t.1), col: Column(t.2) }
    }
}

/// Two cursors are equal when they point at the same absolute position.
impl PartialEq for BufferCursor {
    fn eq(&self, other: &Self) -> (r: bool) {
        self.pos.0 == other.pos.0
    }
}

impl vstd::std_specs::cmp::PartialEqSpecImpl for BufferCursor {
    open spec fn obeys_eq_spec() -> bool {
        true
    }

    open spec fn eq_spec(&self, other: &Self) -> bool {
        self.pos.0 == other.pos.0
    }
}

impl Eq for BufferCursor {

}

/// Whether a cursor movement lands on a valid column.
pub enum CursorMovement {
    Valid,
    InvalidColumn,
}

/// A second cursor, marking the other end of a selection.
#[derive(Debug, Copy, Clone, PartialEq, Eq, Structural)]
pub enum MetaCursor {
    Absolute(Index),
    LineRange { column: Column, begin: Line, end: Line },
}

impl BufferCursor {
    pub fn absolute(&self) -> (r: Index)
        ensures
            r == self.pos,
    {
        self.pos
    }

    pub fn set_pos(&mut self, pos: Index)
        ensures
            *final(self) == (BufferCursor { pos, ..*old(self) }),
    {
        self.pos = pos;
    }

    pub fn set_row(&mut self, row: Line)
        ensures
            *final(self) == (BufferCursor { row, ..*old(self) }),
    {
        self.row = row;
    }

    pub fn set_col(&mut self, col: Column)
        ensures
            *final(self) == (BufferCursor { col, ..*old(self) }),
    {
        self.col = col;
    }
}

} // verus!
