//! Text views: their identifiers, what a key does in a view, and selecting
//! text by dragging the mouse.
use vstd::prelude::*;

use crate::cmd::keybindings::KeyAction;
use crate::cmd::keyimpl::{KeyImpl, ModifiersImpl};
use crate::textbuffer::contiguous::{
    cursor_at, erase_selection_result, line_op_count, line_op_result, max_chars, movement_in_range,
    movement_supported, movement_target, ContiguousBuffer,
};
use crate::textbuffer::model::{lemma_line_of, lemma_line_start_before, lemma_newlines_bound, newlines_before};
use crate::textbuffer::operations::LineOperation;
use crate::textbuffer::cursor::MetaCursor;
use crate::textbuffer::metadata::Index;
use crate::textbuffer::{Movement, TextKind};

verus! {

#[derive(PartialEq, Clone, Copy, Eq, Hash, PartialOrd, Ord, Debug)]
pub struct ViewId(pub u32);

/// What a key does to where the cursor stands and what is selected.
#[derive(Debug, Clone, Copy, PartialEq, Eq, Structural)]
pub enum CursorEffect {
    /// Move the cursor, dropping the selection
    Move(Movement),
    /// Move the cursor, keeping the selection's anchor (or putting it where the cursor was)
    Select(Movement),
    /// Go to the start of the text
    GotoStart,
    /// Go to the end of the text
    GotoEnd,
    /// A page of lines down or up, moving or selecting
    Page { down: bool, select: bool },
    /// Drop the selection
    ClearSelection,
}

/// What a key does in a text view. The buffer carries each out: cursor
/// effects with `apply_view_key`, `Indent` with `indent`, `Delete` with
/// `delete`, `InsertNewline` with `insert`; `Save` and `Copy` are answered
/// to the application (with `copy_range_or_line` for the copied text).
#[derive(Debug, Clone, Copy, PartialEq, Eq, Structural)]
pub enum ViewKeyEffect {
    Cursor(CursorEffect),
    /// Tab: shift the selected lines by four (left with Shift, right
    /// otherwise), or insert four spaces when nothing is selected
    Indent { shift_left: bool },
    Delete(Movement),
    InsertNewline,
    /// Shift+F1: insert the sample text
    InsertSample,
    /// Ctrl+S: ask to save the buffer
    Save,
    /// Ctrl+C, and Ctrl+X (which copies too): copy the selection or the line
    Copy,
}

pub open spec fn bits_shift() -> i32 {
    1
}

pub open spec fn bits_ctrl() -> i32 {
    2
}

pub open spec fn bits_alt() -> i32 {
    4
}

/// The effect of a key in a text view, by the first rule that applies:
/// - Tab pressed: indent (shift left with Shift);
/// - Home (or keypad 7) pressed: start of the text with Ctrl, else start of the line;
/// - End (or keypad 1) pressed: end of the text with Ctrl, select to the end of the line with Shift, else end of the line;
/// - Right pressed or repeated: select to the word's end with Ctrl+Shift, block end with Shift+Alt,
///   word end with Ctrl, select a character with Shift, else a character on;
/// - Left pressed or repeated: word begin with Ctrl, block begin with Shift+Alt, select a character back
///   with Shift, select to the word's begin with Ctrl+Shift, else a character back;
/// - Up / Down pressed or repeated: a line, selecting with Shift;
/// - Page Down (keypad 3) / Page Up (keypad 9) pressed or repeated: a page, selecting with Shift;
/// - Backspace pressed or repeated: delete a word back with Ctrl, else a character back;
/// - Delete pressed or repeated: delete a word on with Ctrl, a character on without modifiers, else nothing;
/// - F1 pressed: the sample text with Shift, else nothing;
/// - Ctrl+S pressed: save; Enter pressed or repeated: a new line;
/// - Ctrl+C or Ctrl+X pressed: copy; Escape pressed: drop the selection;
/// - anything else: nothing.
pub open spec fn spec_view_key_effect(key: KeyImpl, action: KeyAction, bits: i32) -> Option<ViewKeyEffect> {
    let press = action == KeyAction::Press;
    let press_repeat = action == KeyAction::Press || action == KeyAction::Repeat;
    let shift = bits == bits_shift();
    let ctrl = bits == bits_ctrl();
    let ctrl_shift = bits == bits_ctrl() | bits_shift();
    let shift_alt = bits == bits_shift() | bits_alt();
    if key == KeyImpl::Tab && press {
        Some(ViewKeyEffect::Indent { shift_left: shift })
    } else if (key == KeyImpl::Home || key == KeyImpl::Kp7) && press {
        if ctrl {
            Some(ViewKeyEffect::Cursor(CursorEffect::GotoStart))
        } else {
            Some(ViewKeyEffect::Cursor(CursorEffect::Move(Movement::Begin(TextKind::Line))))
        }
    } else if (key == KeyImpl::End || key == KeyImpl::Kp1) && press {
        if ctrl {
            Some(ViewKeyEffect::Cursor(CursorEffect::GotoEnd))
        } else if shift {
            Some(ViewKeyEffect::Cursor(CursorEffect::Select(Movement::End(TextKind::Line))))
        } else {
            Some(ViewKeyEffect::Cursor(CursorEffect::Move(Movement::End(TextKind::Line))))
        }
    } else if key == KeyImpl::Right && press_repeat {
        if ctrl_shift {
            Some(ViewKeyEffect::Cursor(CursorEffect::Select(Movement::End(TextKind::Word))))
        } else if shift_alt {
            Some(ViewKeyEffect::Cursor(CursorEffect::Move(Movement::End(TextKind::Block))))
        } else if ctrl {
            Some(ViewKeyEffect::Cursor(CursorEffect::Move(Movement::End(TextKind::Word))))
        } else if shift {
            Some(ViewKeyEffect::Cursor(CursorEffect::Select(Movement::Forward(TextKind::Char, 1))))
        } else {
            Some(ViewKeyEffect::Cursor(CursorEffect::Move(Movement::Forward(TextKind::Char, 1))))
        }
    } else if key == KeyImpl::Left && press_repeat {
        if ctrl {
            Some(ViewKeyEffect::Cursor(CursorEffect::Move(Movement::Begin(TextKind::Word))))
        } else if shift_alt {
            Some(ViewKeyEffect::Cursor(CursorEffect::Move(Movement::Begin(TextKind::Block))))
        } else if shift {
            Some(ViewKeyEffect::Cursor(CursorEffect::Select(Movement::Backward(TextKind::Char, 1))))
        } else if ctrl_shift {
            Some(ViewKeyEffect::Cursor(CursorEffect::Select(Movement::Begin(TextKind::Word))))
        } else {
            Some(ViewKeyEffect::Cursor(CursorEffect::Move(Movement::Backward(TextKind::Char, 1))))
        }
    } else if key == KeyImpl::Up && press_repeat {
        if shift {
            Some(ViewKeyEffect::Cursor(CursorEffect::Select(Movement::Backward(TextKind::Line, 1))))
        } else {
            Some(ViewKeyEffect::Cursor(CursorEffect::Move(Movement::Backward(TextKind::Line, 1))))
        }
    } else if key == KeyImpl::Down && press_repeat {
        if shift {
            Some(ViewKeyEffect::Cursor(CursorEffect::Select(Movement::Forward(TextKind::Line, 1))))
        } else {
            Some(ViewKeyEffect::Cursor(CursorEffect::Move(Movement::Forward(TextKind::Line, 1))))
        }
    } else if (key == KeyImpl::PageDown || key == KeyImpl::Kp3) && press_repeat {
        Some(ViewKeyEffect::Cursor(CursorEffect::Page { down: true, select: shift }))
    } else if (key == KeyImpl::PageUp || key == KeyImpl::Kp9) && press_repeat {
        Some(ViewKeyEffect::Cursor(CursorEffect::Page { down: false, select: shift }))
    } else if key == KeyImpl::Backspace && press_repeat {
        if ctrl {
            Some(ViewKeyEffect::Delete(Movement::Backward(TextKind::Word, 1)))
        } else {
            Some(ViewKeyEffect::Delete(Movement::Backward(TextKind::Char, 1)))
        }
    } else if key == KeyImpl::Delete && press_repeat {
        if ctrl {
            Some(ViewKeyEffect::Delete(Movement::Forward(TextKind::Word, 1)))
        } else if bits == 0 {
            Some(ViewKeyEffect::Delete(Movement::Forward(TextKind::Char, 1)))
        } else {
            None
        }
    } else if key == KeyImpl::F1 && press {
        if shift {
            Some(ViewKeyEffect::InsertSample)
        } else {
            None
        }
    } else if key == KeyImpl::S && press && ctrl {
        Some(ViewKeyEffect::Save)
    } else if key == KeyImpl::Enter && press_repeat {
        Some(ViewKeyEffect::InsertNewline)
    } else if (key == KeyImpl::C || key == KeyImpl::X) && press && ctrl {
        Some(ViewKeyEffect::Copy)
    } else if key == KeyImpl::Escape && press {
        Some(ViewKeyEffect::Cursor(CursorEffect::ClearSelection))
    } else {
        None
    }
}

/// What a key does in a text view (see `spec_view_key_effect`).
pub fn view_key_effect(key: KeyImpl, action: KeyAction, mods: ModifiersImpl) -> (r: Option<ViewKeyEffect>)
    ensures
        r == spec_view_key_effect(key, action, mods.spec_bits()),
{
    let bits = mods.bits();
    let press = action == KeyAction::Press;
    let press_repeat = action == KeyAction::Press || action == KeyAction::Repeat;
    let shift = bits == 1;
    let ctrl = bits == 2;
    let ctrl_shift_bits: i32 = 2 | 1;
    let shift_alt_bits: i32 = 1 | 4;
    let ctrl_shift = bits == ctrl_shift_bits;
    let shift_alt = bits == shift_alt_bits;
    if key == KeyImpl::Tab && press {
        Some(ViewKeyEffect::Indent { shift_left: shift })
    } else if (key == KeyImpl::Home || key == KeyImpl::Kp7) && press {
        if ctrl {
            Some(ViewKeyEffect::Cursor(CursorEffect::GotoStart))
        } else {
            Some(ViewKeyEffect::Cursor(CursorEffect::Move(Movement::Begin(TextKind::Line))))
        }
    } else if (key == KeyImpl::End || key == KeyImpl::Kp1) && press {
        if ctrl {
            Some(ViewKeyEffect::Cursor(CursorEffect::GotoEnd))
        } else if shift {
            Some(ViewKeyEffect::Cursor(CursorEffect::Select(Movement::End(TextKind::Line))))
        } else {
            Some(ViewKeyEffect::Cursor(CursorEffect::Move(Movement::End(TextKind::Line))))
        }
    } else if key == KeyImpl::Right && press_repeat {
        if ctrl_shift {
            Some(ViewKeyEffect::Cursor(CursorEffect::Select(Movement::End(TextKind::Word))))
        } else if shift_alt {
            Some(ViewKeyEffect::Cursor(CursorEffect::Move(Movement::End(TextKind::Block))))
        } else if ctrl {
            Some(ViewKeyEffect::Cursor(CursorEffect::Move(Movement::End(TextKind::Word))))
        } else if shift {
            Some(ViewKeyEffect::Cursor(CursorEffect::Select(Movement::Forward(TextKind::Char, 1))))
        } else {
            Some(ViewKeyEffect::Cursor(CursorEffect::Move(Movement::Forward(TextKind::Char, 1))))
        }
    } else if key == KeyImpl::Left && press_repeat {
        if ctrl {
            Some(ViewKeyEffect::Cursor(CursorEffect::Move(Movement::Begin(TextKind::Word))))
        } else if shift_alt {
            Some(ViewKeyEffect::Cursor(CursorEffect::Move(Movement::Begin(TextKind::Block))))
        } else if shift {
            Some(ViewKeyEffect::Cursor(CursorEffect::Select(Movement::Backward(TextKind::Char, 1))))
        } else if ctrl_shift {
            Some(ViewKeyEffect::Cursor(CursorEffect::Select(Movement::Begin(TextKind::Word))))
        } else {
            Some(ViewKeyEffect::Cursor(CursorEffect::Move(Movement::Backward(TextKind::Char, 1))))
        }
    } else if key == KeyImpl::Up && press_repeat {
        if shift {
            Some(ViewKeyEffect::Cursor(CursorEffect::Select(Movement::Backward(TextKind::Line, 1))))
        } else {
            Some(ViewKeyEffect::Cursor(CursorEffect::Move(Movement::Backward(TextKind::Line, 1))))
        }
    } else if key == KeyImpl::Down && press_repeat {
        if shift {
            Some(ViewKeyEffect::Cursor(CursorEffect::Select(Movement::Forward(TextKind::Line, 1))))
        } else {
            Some(ViewKeyEffect::Cursor(CursorEffect::Move(Movement::Forward(TextKind::Line, 1))))
        }
    } else if (key == KeyImpl::PageDown || key == KeyImpl::Kp3) && press_repeat {
        Some(ViewKeyEffect::Cursor(CursorEffect::Page { down: true, select: shift }))
    } else if (key == KeyImpl::PageUp || key == KeyImpl::Kp9) && press_repeat {
        Some(ViewKeyEffect::Cursor(CursorEffect::Page { down: false, select: shift }))
    } else if key == KeyImpl::Backspace && press_repeat {
        if ctrl {
            Some(ViewKeyEffect::Delete(Movement::Backward(TextKind::Word, 1)))
        } else {
            Some(ViewKeyEffect::Delete(Movement::Backward(TextKind::Char, 1)))
        }
    } else if key == KeyImpl::Delete && press_repeat {
        if ctrl {
            Some(ViewKeyEffect::Delete(Movement::Forward(TextKind::Word, 1)))
        } else if bits == 0 {
            Some(ViewKeyEffect::Delete(Movement::Forward(TextKind::Char, 1)))
        } else {
            None
        }
    } else if key == KeyImpl::F1 && press {
        if shift {
            Some(ViewKeyEffect::InsertSample)
        } else {
            None
        }
    } else if key == KeyImpl::S && press && ctrl {
        Some(ViewKeyEffect::Save)
    } else if key == KeyImpl::Enter && press_repeat {
        Some(ViewKeyEffect::InsertNewline)
    } else if (key == KeyImpl::C || key == KeyImpl::X) && press && ctrl {
        Some(ViewKeyEffect::Copy)
    } else if key == KeyImpl::Escape && press {
        Some(ViewKeyEffect::Cursor(CursorEffect::ClearSelection))
    } else {
        None
    }
}

/// The movement a cursor effect makes, for the effects that make one.
pub open spec fn effect_movement(e: CursorEffect, rows_displayable: usize) -> Option<Movement> {
    match e {
        CursorEffect::Move(m) => Some(m),
        CursorEffect::Select(m) => Some(m),
        CursorEffect::Page { down, select } => Some(
            if down {
                Movement::Forward(TextKind::Line, rows_displayable)
            } else {
                Movement::Backward(TextKind::Line, rows_displayable)
            },
        ),
        _ => None,
    }
}

/// Whether the effect selects while it moves.
pub open spec fn effect_selects(e: CursorEffect) -> bool {
    match e {
        CursorEffect::Select(_) => true,
        CursorEffect::Page { select, .. } => select,
        _ => false,
    }
}

/// Whether the buffer carries the effect out: its movement is one the buffer
/// makes, from where the cursor is, and a selecting effect finds no line-range selection.
pub open spec fn cursor_effect_allowed(b: ContiguousBuffer, e: CursorEffect, rows_displayable: usize) -> bool {
    match effect_movement(e, rows_displayable) {
        Some(m) => {
            &&& movement_supported(m)
            &&& movement_in_range(b.data@, b.pos(), m)
            &&& effect_selects(e) ==> !(b.meta_cursor matches Some(MetaCursor::LineRange { .. }))
        },
        None => true,
    }
}

/// Where the cursor stands, and what is selected, after the effect.
pub open spec fn view_key_target(b: ContiguousBuffer, e: CursorEffect, rows_displayable: usize) -> (int, Option<MetaCursor>) {
    match effect_movement(e, rows_displayable) {
        Some(m) => {
            let p = movement_target(b.data@, b.starts(), b.pos(), m);
            if effect_selects(e) {
                (
                    p,
                    Some(
                        MetaCursor::Absolute(
                            match b.meta_cursor {
                                Some(MetaCursor::Absolute(i)) => i,
                                _ => b.edit_cursor.pos,
                            },
                        ),
                    ),
                )
            } else {
                (p, None)
            }
        },
        None => match e {
            CursorEffect::GotoStart => (0, b.meta_cursor),
            CursorEffect::GotoEnd => (b.data@.len() as int, b.meta_cursor),
            _ => (b.pos(), None),
        },
    }
}

impl ContiguousBuffer {
    /// Carries out what a key does to the cursor and the selection; a page is
    /// `rows_displayable` lines.
    pub fn apply_view_key(&mut self, e: CursorEffect, rows_displayable: usize)
        requires
            old(self).wf(),
            cursor_effect_allowed(*old(self), e, rows_displayable),
        ensures
            final(self).wf(),
            final(self).data == old(self).data,
            final(self).meta_data == old(self).meta_data,
            final(self).id == old(self).id,
            ({
                let (p, m) = view_key_target(*old(self), e, rows_displayable);
                &&& final(self).edit_cursor == cursor_at(old(self).data@, p)
                &&& final(self).meta_cursor == m
            }),
    {
        proof {
            self.lemma_wf_table();
        }
        match e {
            CursorEffect::Move(m) => self.move_cursor(m),
            CursorEffect::Select(m) => self.select_move_cursor_absolute(m),
            CursorEffect::GotoStart => self.cursor_goto(Index(0)),
            CursorEffect::GotoEnd => {
                let n = self.len();
                self.cursor_goto(Index(n));
            },
            CursorEffect::Page { down, select } => {
                let m = if down {
                    Movement::Forward(TextKind::Line, rows_displayable)
                } else {
                    Movement::Backward(TextKind::Line, rows_displayable)
                };
                if select {
                    self.select_move_cursor_absolute(m);
                } else {
                    self.move_cursor(m);
                }
            },
            CursorEffect::ClearSelection => {
                self.meta_cursor = None;
            },
        }
    }

    /// Selecting text by dragging the mouse from buffer position `begin` to
    /// `target`: the cursor goes to `target` when that is in the text (it
    /// stays otherwise), and a selection that is not yet anchored gets its
    /// anchor at `begin`.
    pub fn drag_select(&mut self, begin: Index, target: Index)
        requires
            old(self).wf(),
        ensures
            final(self).wf(),
            final(self).data == old(self).data,
            final(self).meta_data == old(self).meta_data,
            final(self).id == old(self).id,
            final(self).edit_cursor == if target.0 <= old(self).data@.len() {
                cursor_at(old(self).data@, target.0 as int)
            } else {
                old(self).edit_cursor
            },
            final(self).meta_cursor == match old(self).meta_cursor {
                Some(MetaCursor::Absolute(a)) => Some(MetaCursor::Absolute(a)),
                _ => Some(MetaCursor::Absolute(begin)),
            },
    {
        match self.meta_cursor {
            Some(MetaCursor::Absolute(_)) => {
                self.cursor_goto(target);
            },
            _ => {
                self.cursor_goto(target);
                self.set_absolute_meta_cursor(begin);
            },
        }
    }
}

/// The first and last line of the selection, when one is anchored at a position.
pub open spec fn selected_lines(b: ContiguousBuffer) -> Option<(int, int)> {
    match b.meta_cursor {
        Some(MetaCursor::Absolute(m)) => {
            let (lo, hi) = if (m.0 as int) < b.pos() { (m.0 as int, b.pos()) } else { (b.pos(), m.0 as int) };
            Some((newlines_before(b.data@, lo) as int, newlines_before(b.data@, hi) as int))
        },
        _ => None,
    }
}

/// The shift Tab makes on selected lines.
pub open spec fn indent_op(shift_left: bool) -> LineOperation {
    if shift_left {
        LineOperation::ShiftLeft { shift_by: 4 }
    } else {
        LineOperation::ShiftRight { shift_by: 4 }
    }
}

/// Whether Tab can be carried out: a selection is anchored inside the text
/// (or there is none), and the text stays within what a buffer holds.
pub open spec fn indent_allowed(b: ContiguousBuffer, shift_left: bool) -> bool {
    match b.meta_cursor {
        Some(MetaCursor::Absolute(m)) => {
            &&& m.0 <= b.data@.len()
            &&& !shift_left ==> ({
                let (first, last) = selected_lines(b).unwrap();
                b.data@.len() + 4 * line_op_count(b.starts(), first, last + 1, indent_op(shift_left)) <= max_chars()
            })
        },
        Some(MetaCursor::LineRange { .. }) => false,
        None => b.data@.len() + 8 <= max_chars(),
    }
}

impl ContiguousBuffer {
    /// Where in the line table position `idx` lies: its line number.
    fn line_of_index(&self, idx: Index) -> (r: usize)
        requires
            self.wf(),
            idx.0 <= self.data@.len(),
        ensures
            r == newlines_before(self.data@, idx.0 as int),
    {
        proof {
            self.lemma_wf_table();
            lemma_line_of(self.data@, self.data@.len() as int, self.starts(), idx.0 as int);
            lemma_line_start_before(self.data@, idx.0 as int);
        }
        let k = self.meta_data.get_line_number_of_buffer_index(idx);
        match k {
            Some(k) => {
                proof {
                    let r = newlines_before(self.data@, idx.0 as int) as int;
                    let st = self.starts();
                    if (k as int) < r {
                        if k + 1 < r {
                            assert(st[k + 1].0 < st[r].0);
                        }
                        assert(st[r].0 <= idx.0);
                    } else if r < (k as int) {
                        if r + 1 < k {
                            assert(st[r + 1].0 < st[k as int].0);
                        }
                    }
                }
                k
            },
            None => {
                proof {
                    assert(false);
                }
                0
            },
        }
    }

    /// Tab in a text view: with a selection, the lines from the selection's
    /// first to its last shift by four (left when `shift_left`); without one,
    /// four spaces go in at the cursor.
    pub fn indent(&mut self, shift_left: bool)
        requires
            old(self).wf(),
            indent_allowed(*old(self), shift_left),
        ensures
            final(self).wf(),
            final(self).id == old(self).id,
            final(self).meta_data.file_name == old(self).meta_data.file_name,
            final(self).meta_data.pristine_hash() == old(self).meta_data.pristine_hash(),
            match selected_lines(*old(self)) {
                Some((first, last)) => {
                    let (t, shift) = line_op_result(
                        old(self).data@,
                        old(self).starts(),
                        first,
                        last + 1,
                        indent_op(shift_left),
                    );
                    &&& final(self).data@ == t
                    &&& match old(self).meta_cursor {
                        Some(MetaCursor::Absolute(i)) => if (i.0 as int) < old(self).pos() {
                            &&& final(self).edit_cursor == cursor_at(t, crate::textbuffer::metadata::spec_offset(old(self).pos(), shift))
                            &&& final(self).meta_cursor == old(self).meta_cursor
                        } else {
                            &&& final(self).edit_cursor == cursor_at(
                                t,
                                if old(self).pos() <= t.len() { old(self).pos() } else { t.len() as int },
                            )
                            &&& final(self).meta_cursor == Some(
                                MetaCursor::Absolute(Index(crate::textbuffer::metadata::spec_offset(i.0 as int, shift) as usize)),
                            )
                        },
                        _ => false,
                    }
                },
                None => {
                    let (t, q) = erase_selection_result(old(self).data@, old(self).pos(), old(self).meta_cursor);
                    &&& final(self).data@ == t.subrange(0, q) + seq![' ', ' ', ' ', ' '] + t.subrange(q, t.len() as int)
                    &&& final(self).edit_cursor == cursor_at(final(self).data@, q + 4)
                    &&& final(self).meta_cursor is None
                },
            },
    {
        match self.get_selection() {
            Some((begin, end)) => {
                let a = self.line_of_index(begin);
                let b = self.line_of_index(end);
                proof {
                    self.lemma_wf_table();
                    assert(newlines_before(self.data@, end.0 as int) < self.starts().len()) by {
                        lemma_line_of(self.data@, self.data@.len() as int, self.starts(), end.0 as int);
                    }
                    lemma_newlines_bound(self.data@, end.0 as int);
                }
                let op = if shift_left {
                    LineOperation::ShiftLeft { shift_by: 4 }
                } else {
                    LineOperation::ShiftRight { shift_by: 4 }
                };
                self.line_operation(a..b + 1, op);
            },
            None => {
                let spaces = [' ', ' ', ' ', ' '];
                self.insert_slice(&spaces);
                proof {
                    assert(spaces@ =~= seq![' ', ' ', ' ', ' ']);
                }
            },
        }
    }
}

} // verus!
