use cxgledit::textbuffer::contiguous::ContiguousBuffer;
use cxgledit::textbuffer::metadata;
use cxgledit::textbuffer::operations::{History, Operation, OperationParameter};

#[test]
fn test_invalidate_undo_stack_after_insert() {
    let mut history = History::new();
    let mut offset = 0;
    let start = metadata::Index(0);

    history.push_insert(start.offset(offset), 'c');
    offset += 1;
    history.push_insert(start.offset(offset), 'a');
    offset += 1;
    history.push_insert(start.offset(offset), 'l');
    offset += 1;
    history.push_insert(start.offset(offset), 'l');
    offset += 1;
    history.push_insert(start.offset(offset), ' ');
    offset += 1;
    history.push_insert(start.offset(offset), '9');
    offset += 1;
    history.push_insert(start.offset(offset), '1');
    offset += 1;
    history.push_insert(start.offset(offset), '1');
    let last = history.history_stack.last().unwrap();
    assert_eq!(*last, Operation::Insert(metadata::Index(5), OperationParameter::Range("911".into())));
    let _ = history.undo();
    history.push_insert(start.offset(offset), 'n');
    let last = history.history_stack.last();
    assert_eq!(history.undo_stack.len(), 0);
    assert_eq!(last, Some(&Operation::Insert(metadata::Index(offset as _), OperationParameter::Char('n'))));
}

#[test]
fn test_invalidate_undo_stack_after_insert_then_coalesce_inserts() {
    let mut history = History::new();
    let mut offset = 0;
    let start = metadata::Index(0);

    history.push_insert(start.offset(offset), 'c');
    offset += 1;
    history.push_insert(start.offset(offset), 'a');
    offset += 1;
    history.push_insert(start.offset(offset), 'l');
    offset += 1;
    history.push_insert(start.offset(offset), 'l');
    offset += 1;
    history.push_insert(start.offset(offset), ' ');
    offset += 1;
    history.push_insert(start.offset(offset), '9');
    offset += 1;
    history.push_insert(start.offset(offset), '1');
    offset += 1;
    history.push_insert(start.offset(offset), '1');
    let last = history.history_stack.last().unwrap();
    assert_eq!(*last, Operation::Insert(metadata::Index(5), OperationParameter::Range("911".into())));
    let _ = history.undo();
    let now_begin = offset;
    history.push_insert(start.offset(offset), 'n');
    offset += 1;
    assert_eq!(history.undo_stack.len(), 0);
    history.push_insert(start.offset(offset), 'o');
    offset += 1;
    history.push_insert(start.offset(offset), 'w');
    assert_eq!(Some(&Operation::Insert(metadata::Index(now_begin as _), OperationParameter::Range("now".into()))), history.history_stack.last());
}

#[test]
fn test_delete_bwd_coalescing() {
    let mut history = History::new();
    let mut offset = 30;
    let start = metadata::Index(0);
    // !!!! A
    history.push_delete(start.offset(offset), 'A');
    offset -= 1;

    history.push_delete(start.offset(offset), ' ');
    offset -= 1;

    history.push_delete(start.offset(offset), '!');
    offset -= 1;
    history.push_delete(start.offset(offset), '!');
    offset -= 1;
    history.push_delete(start.offset(offset), '!');
    offset -= 1isize;
    history.push_delete(start.offset(offset), '!');
    let last = history.history_stack.last().unwrap();
    assert_eq!(*last, Operation::Delete(start.offset(offset), OperationParameter::Range("!!!!".into())));

    offset -= 1isize;
    history.push_delete(start.offset(offset), ' ');
    offset -= 1isize;
    history.push_delete(start.offset(offset), 'r');
    offset -= 1isize;
    history.push_delete(start.offset(offset), 'a');
    offset -= 1isize;
    history.push_delete(start.offset(offset), 'b');
    offset -= 1isize;
    history.push_delete(start.offset(offset), 'o');
    offset -= 1isize;
    history.push_delete(start.offset(offset), 'o');
    offset -= 1isize;
    history.push_delete(start.offset(offset), 'f');
    let last = history.history_stack.last().unwrap().clone();
    assert_eq!(last, Operation::Delete(start.offset(offset), OperationParameter::Range("foobar".into())));
    let undo = history.undo().cloned();
    assert_eq!(last, undo.unwrap());
    offset -= 1isize;
    let _ = offset;
    history.push_delete(start.offset(100), 'f');
    let undo = history.undo().unwrap().clone();
    assert_ne!(last, undo);
    assert_eq!(history.undo_stack.len(), 1);
    assert_eq!(undo, Operation::Delete(start.offset(100), OperationParameter::Char('f')));
}

#[test]
fn test_delete_fwd_coalescing() {
    let mut history = History::new();
    let start = metadata::Index(30);
    // delete "foobar", starting at f and deleting forwards (i.e. simulating the user hitting the delete key)
    history.push_delete(start, 'F');
    assert_eq!(history.history_stack.last(), Some(&Operation::Delete(start, OperationParameter::Char('F'))));
    history.push_delete(start, 'o');
    history.push_delete(start, 'o');
    assert_eq!(history.history_stack.last(), Some(&Operation::Delete(start, OperationParameter::Range(String::from("Foo")))));
    history.push_delete(start, 'b');
    history.push_delete(start, 'a');
    history.push_delete(start, 'r');
    assert_eq!(history.history_stack.last(), Some(&Operation::Delete(start, OperationParameter::Range("Foobar".into()))));
}

#[test]
fn test_delete_fwd_coalesce_then_move_cursor_and_delete() {
    let mut history = History::new();
    let start = metadata::Index(30);
    // delete "foobar", starting at f and deleting forwards (i.e. simulating the user hitting the delete key)
    history.push_delete(start, 'F');
    history.push_delete(start, 'o');
    history.push_delete(start, 'o');
    history.push_delete(start, 'b');
    history.push_delete(start, 'a');
    history.push_delete(start, 'r');
    // Moving cursor
    let offset = 30;
    let new_idx = start.offset(offset);
    history.push_delete(new_idx, 'H');
    assert_ne!(history.history_stack.last(), Some(&Operation::Delete(start, OperationParameter::Range("FoobarH".into()))));
    assert_eq!(history.history_stack.last(), Some(&Operation::Delete(new_idx, OperationParameter::Char('H'))));
}

#[test]
fn test_always_coalesce_insert() {
    let mut history = History::new();
    let mut offset = 0;
    let start = metadata::Index(0);
    history.push_insert(start.offset(offset), 'c');
    offset += 1;
    history.push_insert(start.offset(offset), 'a');
    offset += 1;
    history.push_insert(start.offset(offset), 'l');
    offset += 1;
    history.push_insert(start.offset(offset), 'l');
    offset += 1;
    history.push_insert(start.offset(offset), ' ');
    offset += 1;
    history.push_insert(start.offset(offset), '9');
    offset += 1;
    history.push_insert(start.offset(offset), '1');
    offset += 1;
    history.push_insert(start.offset(offset), '1');

    let last = history.history_stack.last().unwrap();
    assert_eq!(*last, Operation::Insert(metadata::Index(5), OperationParameter::Range("911".into())), "coalesce failed");
    offset += 1;
    history.push_insert(start.offset(offset), '!');
    offset += 1;
    history.push_insert(start.offset(offset), '!');
    offset += 1;
    history.push_insert(start.offset(offset), '!');
    let last = history.history_stack.last().unwrap();
    assert_eq!(*last, Operation::Insert(metadata::Index(5), OperationParameter::Range("911!!!".into())), "2nd coalesce failed");
    let undo_911 = history.undo();
    assert_eq!(Some(&Operation::Insert(metadata::Index(5), OperationParameter::Range("911!!!".into()))), undo_911, "Undo operation failed");
}

#[test]
fn test_use_with_buffer() {
    let add_char = |ch: char, buf: &mut ContiguousBuffer, history: &mut History| {
        let i = buf.cursor().absolute();
        buf.insert(ch);
        history.push_insert(i, ch);
    };

    let mut sb = ContiguousBuffer::new(0, 1024);
    let mut history = History::new();
    let s = "Hello world";
    for c in s.chars() {
        add_char(c, &mut sb, &mut history);
    }

    if let Some(undo) = history.undo() {
        match undo {
            Operation::Insert(i, op) => match op {
                OperationParameter::Char(_c) => sb.delete_at(*i),
                OperationParameter::Range(d) => sb.delete_range(*i, i.offset(d.len() as _)),
            },
            Operation::Delete(_i, _op) => {}
        }
    }

    println!("{:#?}", history);
    println!("{:?}. Cursor: p{:?}", sb.data, sb.cursor());
}

#[test]
fn undo_then_redo_gives_operation_back() {
    let mut history = History::new();
    history.push_insert(metadata::Index(0), 'a');
    history.push_insert(metadata::Index(1), 'b');
    let undone = history.undo().cloned();
    assert_eq!(undone, Some(Operation::Insert(metadata::Index(0), OperationParameter::Range("ab".into()))));
    assert_eq!(history.history_stack.len(), 0);
    let redone = history.redo().cloned();
    assert_eq!(redone, undone);
    assert_eq!(history.undo_stack.len(), 0);
    assert_eq!(history.redo(), None);
}
