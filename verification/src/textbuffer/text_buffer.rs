//! Positions in a text, and the kinds of text objects and ranges.
use vstd::prelude::*;

verus! {

#[derive(Clone, Copy, Debug, PartialEq, Eq, Structural)]
pub enum ObjectKind {
    Word,
    Line,
    Block,
}

/// How the two ends of a range are counted.
pub enum RangeType {
    /// Both ends belong to the range: "world" in "hello world" is (6, 10).
    FullInclusive,
    /// The end does not belong to it: "world" in "hello world" is (6, 11).
    EndExclusive,
    /// Neither end belongs to it: "world" in "hello world" is (5, 11).
    FullExclusive,
}

pub enum TextObject {
    Word(usize, usize, RangeType),
    Line(usize, usize, RangeType),
    Block(usize, usize, RangeType),
}

/// A position in a text: its absolute index, where its line starts, and the
/// line's index. Positions are equal when their absolute indices are.
#[derive(Clone, Copy, Debug)]
pub struct TextPosition {
    pub absolute: usize,
    pub line_start_absolute: usize,
    pub line_index: usize,
}

impl PartialEq for TextPosition {
    fn eq(&self, other: &TextPosition) -> (r: bool) {
        self.absolute == other.absolute
    }
}

impl vstd::std_specs::cmp::PartialEqSpecImpl for TextPosition {
    open spec fn obeys_eq_spec() -> bool {
        true
    }

    open spec fn eq_spec(&self, other: &TextPosition) -> bool {
        self.absolute == other.absolute
    }
}

impl Eq for TextPosition {

}

impl From<(usize, usize, usize)> for TextPosition {
    fn from(t: (usize, usize, usize)) -> (r: TextPosition) {
        TextPosition { absolute: t.0, line_start_absolute: t.1, line_index: t.2 }
    }
}

impl vstd::std_specs::convert::FromSpecImpl<(usize, usize, usize)> for TextPosition {
    open spec fn obeys_from_spec() -> bool {
        true
    }

    open spec fn from_spec(t: (usize, usize, usize)) -> TextPosition {
        TextPosition { absolute: t.0, line_start_absolute: t.1, line_index: t.2 }
    }
}

impl Default for TextPosition {
    fn default() -> (r: TextPosition)
        ensures
            r.absolute == 0,
            r.line_start_absolute == 0,
            r.line_index == 0,
    {
        TextPosition { absolute: 0, line_start_absolute: 0, line_index: 0 }
    }
}

impl TextPosition {
    /// The start of the text.
    pub fn new() -> (r: TextPosition)
        ensures
            r.absolute == 0,
            r.line_start_absolute == 0,
            r.line_index == 0,
    {
        TextPosition { absolute: 0, line_start_absolute: 0, line_index: 0 }
    }

    pub fn get_line_start_abs(&self) -> (r: usize)
        ensures
            r == self.line_start_absolute,
    {
        self.line_start_absolute
    }

    /// The column: how far the position is from the start of its line.
    pub fn get_line_position(&self) -> (r: usize)
        requires
            self.line_start_absolute <= self.absolute,
        ensures
            r == self.absolute - self.line_start_absolute,
    {
        self.absolute - self.line_start_absolute
    }

    /// The line number, counted from 1.
    pub fn get_line_number(&self) -> (r: usize)
        requires
            self.line_index < usize::MAX,
        ensures
            r == self.line_index + 1,
    {
        self.line_index + 1
    }
}

/// Where a text operation takes place: at an absolute index, or at the
/// buffer's own cursor.
#[derive(Clone, Copy)]
pub enum Cursor {
    Absolute(usize),
    Buffer,
}

pub enum SeekDir {
    Forward(usize),
    Backward(usize),
}

} // verus!
