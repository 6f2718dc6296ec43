use cxgledit::debuginfo::DebugInfo;
use cxgledit::opengl::{BufferIndex, GPUDataType, Primitive};
use cxgledit::textbuffer::buffers::Buffers;
use cxgledit::textbuffer::metadata::{Column, Index, Line, MetaData};
use cxgledit::textbuffer::text_buffer::TextPosition;
use cxgledit::textbuffer::{Movement, TextKind};
use cxgledit::ui::clipboard::ClipBoard;
use cxgledit::ui::inputbox::ListBox;
use cxgledit::ui::scrollbar::{ScrollBar, ScrollBarLayout};
use cxgledit::ui::statusbar::StatusBarContent;
use cxgledit::ui::basic::coordinate::Size;
use cxgledit::ui::basic::frame::Frame;
use cxgledit::datastructure::Vec2;
use cxgledit::utils::{difference, CountDigits};

#[test]
fn test_equivalent_functionality_macro_and_fn() {
    let v = vec!['f', 'o', 'o'];
    let s = "hello world";
    let fn_res = difference(v.len(), s.len());
    // what the `diff!` macro expands to
    let macro_res = (v.len() as i64 - s.len() as i64).abs() as usize;
    assert_eq!(fn_res, macro_res);
    assert_eq!(fn_res, 8);
}

#[test]
fn digits_count() {
    assert_eq!(0usize.digits(), 1);
    assert_eq!(9usize.digits(), 1);
    assert_eq!(10usize.digits(), 2);
    assert_eq!(12345usize.digits(), 5);
    assert_eq!(usize::MAX.digits(), 20);
}

#[test]
fn clipboard_copy_give_release() {
    let mut cb = ClipBoard::new();
    assert_eq!(cb.give(), None);
    assert_eq!(cb.release(), None);
    cb.copy("hello");
    assert_eq!(cb.give(), Some(&"hello".to_string()));
    assert_eq!(cb.release(), Some("hello".to_string()));
    assert_eq!(cb.give(), None);
    cb.take("world".to_string());
    assert_eq!(cb.give().map(|s| s.as_str()), Some("world"));
}

#[test]
fn status_bar_text() {
    let file = StatusBarContent::FileEdit(Some("src/main.rs".to_string()), (Line(12), Column(0)));
    assert_eq!(file.to_str(), "src/main.rs:12:0");
    let unnamed = StatusBarContent::FileEdit(None, (Line(7), Column(105)));
    assert_eq!(unnamed.to_str(), "unnamed_file:7:105");
    let msg = StatusBarContent::Message("<cxgledit>".chars().collect());
    assert_eq!(msg.to_str(), "<cxgledit>");
}

#[test]
fn text_kind_and_pages() {
    assert_eq!(TextKind::from_str("Block"), Ok(TextKind::Block));
    assert_eq!(TextKind::from_str("block"), Err("Unknown Text Kind type"));
    assert_eq!(Movement::Forward(TextKind::Page, 2).transform_page_param(30), Movement::Forward(TextKind::Line, 60));
    assert_eq!(Movement::Backward(TextKind::Page, 1).transform_page_param(30), Movement::Backward(TextKind::Line, 30));
    assert_eq!(Movement::Begin(TextKind::Line).transform_page_param(30), Movement::Begin(TextKind::Line));
}

#[test]
fn buffers_hand_out_and_take_back() {
    let mut bufs = Buffers::new();
    let a = bufs.request_new_buffer();
    let b = bufs.request_new_buffer();
    assert_eq!((a.id, b.id), (0, 1));
    assert_eq!(bufs.live_buffer_ids, vec![0, 1]);
    bufs.give_back_buffer(a);
    bufs.give_back_buffer(b);
    let taken = bufs.take_buffer(1).unwrap();
    assert_eq!(taken.id, 1);
    assert!(bufs.take_buffer(1).is_none());
    bufs.destroy_buffer(taken);
    assert_eq!(bufs.live_buffer_ids, vec![0]);
    assert_eq!(Buffers::free_buffer().id, 0);
    // ids count the buffers opened, so a destroyed buffer's id is not handed out again
    let first = bufs.take_buffer(0).unwrap();
    bufs.destroy_buffer(first);
    let c = bufs.request_new_buffer();
    assert_eq!(c.id, 2);
    let d = bufs.request_new_buffer();
    assert_eq!(d.id, 3);
    assert_eq!(bufs.live_buffer_ids, vec![2, 3]);
}

#[test]
fn text_positions() {
    let p = TextPosition::from((15, 10, 3));
    assert_eq!(p.get_line_position(), 5);
    assert_eq!(p.get_line_number(), 4);
    assert_eq!(p.get_line_start_abs(), 10);
    assert!(p == TextPosition { absolute: 15, line_start_absolute: 0, line_index: 0 });
    assert_eq!(TextPosition::new().absolute, 0);
}

#[test]
fn gpu_reservations() {
    let (v, i) = Primitive::CharacterQuad(3).request_reserve();
    assert_eq!(v, GPUDataType::TextVertex(12));
    assert_eq!(i, GPUDataType::Index(18));
    assert_eq!(v.bytes_len(), 12 * 32);
    assert_eq!(i.bytes_len(), 18 * 4);
    let (r, _) = Primitive::RegularQuad(2).request_reserve();
    assert_eq!(r.bytes_len(), 8 * 24);
    assert_eq!(r.value(), 8);
    let bi = BufferIndex::new(4, 6);
    assert_eq!((bi.idx_buffer_idx, bi.idx_count), (4, 6));
}

#[test]
fn heap_increase() {
    let mut d = DebugInfo::begin_at(1000);
    assert_eq!(d.heap_increase_since_start(1500), 500);
    let mut d2 = DebugInfo::new(10);
    assert_eq!(d2.heap_increase_since_start(10), 0);
}

#[test]
fn list_box_selection_wraps() {
    let mut lb = ListBox::new();
    lb.data = vec!["a".chars().collect(), "b".chars().collect(), "c".chars().collect()];
    lb.scroll_selection_up();
    assert_eq!(lb.selection, Some(0));
    lb.scroll_selection_up();
    assert_eq!(lb.selection, Some(2));
    lb.scroll_selection_down();
    assert_eq!(lb.selection, Some(0));
    lb.scroll_selection_down();
    assert_eq!(lb.get_selected(), Some(&vec!['b']));
    assert_eq!(lb.pop_selected(), Some(vec!['b']));
    assert_eq!(lb.data.len(), 2);
    lb.clear();
    assert_eq!(lb.selection, None);
}

#[test]
fn scroll_bar_slider() {
    let frame = Frame::new(Vec2::new(0, 400), Size { width: 10, height: 400 });
    let mut sb = ScrollBar::new(frame, 4, ScrollBarLayout::Vertical, 0);
    assert_eq!(sb.slider.size.height, 100);
    sb.set_max(100);
    assert_eq!(sb.slider.size.height, 35);
    assert_eq!(sb.scrollable_length_pixels(), 365);
    sb.place_slider(1000);
    assert_eq!(sb.slider.anchor.y, 400);
    sb.place_slider(3);
    assert_eq!(sb.slider.anchor.y, 35);
    sb.max = 2;
    sb.ui_update();
    assert_eq!(sb.slider.size.height, 200);
}

#[test]
fn line_table_lookups() {
    let mut md = MetaData::new(None);
    md.push_new_line_begin(Index(6));
    assert_eq!(md.get_byte_indices_of_lines(Line(0), Line(1)), (Some(Index(0)), Some(Index(6))));
    // a missing line gives nothing for either
    assert_eq!(md.get_byte_indices_of_lines(Line(0), Line(5)), (None, None));
    assert_eq!(md.line_count(), 2);
    md.clear_line_index_metadata();
    assert_eq!(md.line_count(), 1);
    assert_eq!(md.line_begin_indices, vec![Index(0)]);
}
