use cxgledit::cmd::keybindings::KeyAction;
use cxgledit::cmd::keyimpl::{KeyImpl, ModifiersImpl};
use cxgledit::textbuffer::contiguous::ContiguousBuffer;
use cxgledit::textbuffer::cursor::MetaCursor;
use cxgledit::textbuffer::metadata::Index;
use cxgledit::textbuffer::{Movement, TextKind};
use cxgledit::ui::view::{view_key_effect, CursorEffect, ViewKeyEffect};

fn buffer(text: &str) -> ContiguousBuffer {
    let mut b = ContiguousBuffer::new(0, 64);
    for c in text.chars() {
        b.insert(c);
    }
    b
}

#[test]
fn keys_in_a_view() {
    let none = ModifiersImpl::empty();
    let shift = ModifiersImpl::shift();
    let ctrl = ModifiersImpl::control();
    assert_eq!(
        view_key_effect(KeyImpl::Right, KeyAction::Repeat, shift),
        Some(ViewKeyEffect::Cursor(CursorEffect::Select(Movement::Forward(TextKind::Char, 1))))
    );
    assert_eq!(
        view_key_effect(KeyImpl::Right, KeyAction::Press, ctrl),
        Some(ViewKeyEffect::Cursor(CursorEffect::Move(Movement::End(TextKind::Word))))
    );
    assert_eq!(
        view_key_effect(KeyImpl::Left, KeyAction::Press, shift.union(ModifiersImpl::alt())),
        Some(ViewKeyEffect::Cursor(CursorEffect::Move(Movement::Begin(TextKind::Block))))
    );
    assert_eq!(view_key_effect(KeyImpl::Home, KeyAction::Press, ctrl), Some(ViewKeyEffect::Cursor(CursorEffect::GotoStart)));
    assert_eq!(view_key_effect(KeyImpl::End, KeyAction::Press, ctrl), Some(ViewKeyEffect::Cursor(CursorEffect::GotoEnd)));
    assert_eq!(view_key_effect(KeyImpl::Tab, KeyAction::Press, shift), Some(ViewKeyEffect::Indent { shift_left: true }));
    assert_eq!(view_key_effect(KeyImpl::Delete, KeyAction::Press, shift), None);
    assert_eq!(view_key_effect(KeyImpl::X, KeyAction::Press, ctrl), Some(ViewKeyEffect::Copy));
    assert_eq!(view_key_effect(KeyImpl::Home, KeyAction::Release, none), None);
}

#[test]
fn selecting_with_keys() {
    let mut b = buffer("one two\nthree");
    b.cursor_goto(Index(0));
    b.apply_view_key(CursorEffect::Select(Movement::Forward(TextKind::Char, 1)), 10);
    b.apply_view_key(CursorEffect::Select(Movement::Forward(TextKind::Char, 1)), 10);
    assert_eq!(b.cursor_abs(), Index(2));
    assert!(matches!(b.meta_cursor, Some(MetaCursor::Absolute(Index(0)))));
    b.apply_view_key(CursorEffect::GotoEnd, 10);
    assert_eq!(b.cursor_abs(), Index(13));
    b.apply_view_key(CursorEffect::ClearSelection, 10);
    assert!(b.meta_cursor.is_none());
    b.apply_view_key(CursorEffect::Page { down: false, select: false }, 1);
    assert_eq!(b.cursor_abs(), Index(5));
    b.apply_view_key(CursorEffect::GotoStart, 10);
    assert_eq!(b.cursor_abs(), Index(0));
}

#[test]
fn selecting_by_dragging() {
    let mut b = buffer("hello world");
    b.drag_select(Index(2), Index(7));
    assert_eq!(b.cursor_abs(), Index(7));
    assert!(matches!(b.meta_cursor, Some(MetaCursor::Absolute(Index(2)))));
    // dragging on keeps the anchor
    b.drag_select(Index(5), Index(9));
    assert_eq!(b.cursor_abs(), Index(9));
    assert!(matches!(b.meta_cursor, Some(MetaCursor::Absolute(Index(2)))));
    // a target beyond the text leaves the cursor
    b.drag_select(Index(5), Index(40));
    assert_eq!(b.cursor_abs(), Index(9));
}

#[test]
fn tab_indents_selected_lines_or_inserts_spaces() {
    let mut b = buffer("a\nb\nc");
    b.cursor_goto(Index(1));
    b.indent(false);
    assert_eq!(b.data.iter().collect::<String>(), "a    \nb\nc");
    assert_eq!(b.cursor_abs(), Index(5));
    let mut s = buffer("a\nb\nc");
    s.cursor_goto(Index(2));
    s.apply_view_key(CursorEffect::Select(Movement::Forward(TextKind::Line, 1)), 10);
    s.indent(false);
    assert_eq!(s.data.iter().collect::<String>(), "a\n    b\n    c");
    s.indent(true);
    assert_eq!(s.data.iter().collect::<String>(), "a\nb\nc");
}
