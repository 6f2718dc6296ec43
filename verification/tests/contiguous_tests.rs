use cxgledit::textbuffer::contiguous::ContiguousBuffer;
use cxgledit::textbuffer::metadata as md;
use cxgledit::textbuffer::operations::LineOperation;
use cxgledit::textbuffer::{Movement, TextKind};

#[test]
fn cursor_move_in_empty() {
    let mut b = Box::new(ContiguousBuffer::new(0, 1024));
    b.move_cursor(Movement::Forward(TextKind::Char, 1));
    assert_eq!(b.edit_cursor.pos, md::Index(0));
    b.move_cursor(Movement::Backward(TextKind::Char, 1));
    assert_eq!(b.edit_cursor.pos, md::Index(0));

    b.move_cursor(Movement::Forward(TextKind::Block, 1));
    assert_eq!(b.edit_cursor.pos, md::Index(0));
    b.move_cursor(Movement::Backward(TextKind::Block, 1));
    assert_eq!(b.edit_cursor.pos, md::Index(0));

    b.move_cursor(Movement::Forward(TextKind::Line, 1));
    assert_eq!(b.edit_cursor.pos, md::Index(0));
    b.move_cursor(Movement::Backward(TextKind::Line, 1));
    assert_eq!(b.edit_cursor.pos, md::Index(0));
}

#[test]
fn length_checks() {
    let v: Vec<char> = "Hello test world".chars().collect();

    let slice = &v[..];
    let mut b = Box::new(ContiguousBuffer::new(0, 1024));
    b.insert_slice(slice);
    let mut multiple = 1;
    assert_eq!(b.len(), v.len() * multiple);
    b.insert_slice(slice);
    multiple += 1;
    assert_eq!(b.len(), v.len() * multiple);
}

#[test]
fn test_copy_only_line() {
    let v: Vec<char> = "Hello test world".chars().collect();
    let slice = &v[..];
    let mut b = Box::new(ContiguousBuffer::new(0, 1024));
    b.insert_slice(slice);
    let multiple = 1;
    assert_eq!(b.len() * multiple, v.len());
    b.insert_slice(slice);
    let copy = b.copy_range_or_line();
    assert_eq!(copy, Some(v.iter().chain(v.iter()).collect::<String>()));
}

#[test]
fn copy_paste_hello() {
    let v: Vec<char> = "Hello test world".chars().collect();
    let mut b = Box::new(ContiguousBuffer::new(0, 1024));
    for c in v {
        b.insert(c);
    }
    b.move_cursor(Movement::Backward(TextKind::Line, 1));
    assert_eq!(b.edit_cursor.pos, md::Index(0));
    b.select_move_cursor_absolute(Movement::Forward(TextKind::Char, 4));
    let copy = b.copy_range_or_line();
    assert_eq!(Some("Hello".into()), copy);
    b.move_cursor(Movement::End(TextKind::Word));
    b.move_cursor(Movement::End(TextKind::Word));
    for c in copy.unwrap().chars() {
        b.insert(c);
    }
    let new_copy = b.copy_range_or_line();
    assert_eq!(Some("Hello Hellotest world".into()), new_copy);
    for c in new_copy.unwrap().chars() {
        b.insert(c);
    }
    let last_copy = b.copy_range_or_line();
    assert_eq!(Some("Hello HelloHello Hellotest worldtest world".into()), last_copy);
    b.move_cursor(Movement::End(TextKind::Line));
    assert_eq!(b.edit_cursor.pos, md::Index(b.len()));
}

#[test]
fn test_4_shift_left_of_lines() {
    // this tests shifting by four, it also tests shifting lines with
    // length less than 4, and it also tests shifting lines with less than 4 whitespaces in front
    let d = format!(
        "    // this is going to test shifting
fn main() {{
    println!('hello world')
   if let Some(foo) = test {{
        println!('test');
   }}
  //


}}
    //");
    let assert_str = format!(
        "// this is going to test shifting
fn main() {{
println!('hello world')
if let Some(foo) = test {{
    println!('test');
}}
//


}}
//");
    let mut sb = Box::new(ContiguousBuffer::new(0, 1024));
    for c in d.chars() {
        sb.insert(c);
    }
    let validate_first: String = sb.data.iter().map(|v| *v).collect();
    assert_eq!(d, validate_first);

    sb.cursor_goto(md::Index(0));
    sb.line_operation(0..11, LineOperation::ShiftLeft { shift_by: 4 });
    let res: String = sb.data.iter().map(|v| *v).collect();
    assert_eq!(assert_str, res);
}

#[test]
fn test_4_shift_right_of_lines() {
    // this tests shifting by four, it also tests shifting lines with
    // length less than 4, and it also tests shifting lines with less than 4 whitespaces in front
    let d = format!(
"// this is going to test shifting
fn main() {{
    println!('hello world')
   if let Some(foo) = test {{
        println!('test');
   }}
}}");
    let assert_str = format!(
"    // this is going to test shifting
    fn main() {{
        println!('hello world')
       if let Some(foo) = test {{
            println!('test');
       }}
    }}");

    let mut sb = Box::new(ContiguousBuffer::new(0, 1024));
    for c in d.chars() {
        sb.insert(c);
    }
    let validate_first: String = sb.data.iter().map(|v| *v).collect();
    assert_eq!(d, validate_first);

    sb.cursor_goto(md::Index(0));
    sb.line_operation(0..7, LineOperation::ShiftRight { shift_by: 4 });
    let res: String = sb.data.iter().map(|v| *v).collect();
    assert_eq!(assert_str, res);
}

#[test]
fn test_shift_should_not_alter() {
    // this tests shifting by four, it also tests shifting lines with
    // length less than 4, and it also tests shifting lines with less than 4 whitespaces in front
    let assert_str = format!(
        "// this is going to test shifting
fn main() {{
    println!('hello world')
   if let Some(foo) = test {{
        println!('test');
   }}
}}"
    );

    let mut sb = Box::new(ContiguousBuffer::new(0, 1024));
    for c in assert_str.chars() {
        sb.insert(c);
    }
    let validate_first: String = sb.data.iter().map(|v| *v).collect();
    assert_eq!(assert_str, validate_first);

    sb.cursor_goto(md::Index(0));
    // lines range (the end) are out of bounds. No operation should be done
    sb.line_operation(0..10, LineOperation::ShiftRight { shift_by: 4 });
    let res: String = sb.data.iter().map(|v| *v).collect();
    assert_eq!(assert_str, res);
}

#[test]
fn line_table_follows_inserts() {
    let mut b = ContiguousBuffer::new(0, 16);
    for c in "ab\ncd\n\nef".chars() {
        b.insert(c);
    }
    assert_eq!(b.meta_data.line_count(), 4);
    assert_eq!(b.meta_data.get_line_start_index(md::Line(1)), Some(md::Index(3)));
    assert_eq!(b.meta_data.get_line_start_index(md::Line(3)), Some(md::Index(7)));
    assert_eq!(b.cursor_row(), md::Line(3));
    assert_eq!(b.cursor_col(), md::Column(2));
    b.goto_line(1);
    assert_eq!(b.cursor_abs(), md::Index(3));
    b.delete(Movement::Forward(TextKind::Char, 1));
    assert_eq!(b.contents(), "ab\nd\n\nef");
    assert_eq!(b.meta_data.get_line_start_index(md::Line(2)), Some(md::Index(5)));
}

#[test]
fn search_and_save_state() {
    let mut b = ContiguousBuffer::new(0, 16);
    b.load_contents("one two one", "notes.txt".to_string());
    assert!(!b.needs_saving());
    b.cursor_goto(md::Index(0));
    // The search skips the length of the word after a first character that
    // starts no match: the 'o' of "two" makes it jump over the 'o' at 8.
    b.search_next("one");
    assert_eq!(b.cursor_abs(), md::Index(0));
    let mut c = ContiguousBuffer::new(1, 16);
    c.load_contents("one xx one", "other.txt".to_string());
    c.cursor_goto(md::Index(0));
    c.search_next("one");
    assert_eq!(c.cursor_abs(), md::Index(7));
    b.insert('!');
    assert!(b.needs_saving());
    b.mark_saved("notes.txt".to_string());
    assert!(!b.needs_saving());
    // saving under a new name leaves the buffer pristine under that name
    let mut u = ContiguousBuffer::new(2, 8);
    u.insert('x');
    u.mark_saved("new.txt".to_string());
    assert!(u.pristine());
    assert_eq!(u.file_name(), Some(&"new.txt".to_string()));
}

#[test]
fn shift_left_past_the_last_line_does_nothing() {
    let text = "    a\n    b\n    c";
    let mut sb = ContiguousBuffer::new(0, 64);
    for c in text.chars() {
        sb.insert(c);
    }
    sb.cursor_goto(md::Index(0));
    sb.line_operation(1..10, LineOperation::ShiftLeft { shift_by: 4 });
    assert_eq!(sb.data.iter().collect::<String>(), text);
    sb.line_operation(1..3, LineOperation::ShiftLeft { shift_by: 4 });
    assert_eq!(sb.data.iter().collect::<String>(), "    a\nb\nc");
}

#[test]
fn stepping_forward_stops_at_the_end() {
    let mut b = ContiguousBuffer::new(0, 16);
    for c in "ab\ncd".chars() {
        b.insert(c);
    }
    b.cursor_goto(md::Index(1));
    b.move_cursor(Movement::Forward(TextKind::Char, 10));
    assert_eq!(b.cursor_abs(), md::Index(5));
    assert_eq!(b.cursor_row(), md::Line(1));
    b.cursor_goto(md::Index(3));
    b.select_move_cursor_absolute(Movement::Forward(TextKind::Char, 7));
    assert_eq!(b.cursor_abs(), md::Index(5));
    assert_eq!(b.get_selection(), Some((md::Index(3), md::Index(5))));
}
