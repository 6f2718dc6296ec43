use cxgledit::datastructure::{Vec2, Vec2i};
use cxgledit::ui::basic::boundingbox::BoundingBox;
use cxgledit::ui::basic::coordinate::{Layout, Margin, Size, Spacing};
use cxgledit::ui::basic::frame::{make_inner_frame, Frame};
use cxgledit::ui::panel::divide_scatter;

#[test]
fn test_anchor_vector_add() {
    let anchor = Vec2i::new(100, 100);
    let v = Vec2i::new(0, -20);
    let result = anchor.add(v);
    assert_eq!(result, Vec2i::new(100, 80), "Vector add to Vec2i failed");
}

#[test]
fn test_anchor_vector_add_assign() {
    let mut anchor = Vec2i::new(100, 100);
    let v = Vec2i::new(15, -20);
    anchor.add_assign(v);
    assert_eq!(anchor, Vec2i::new(115, 80), "Vector add to Vec2i failed");
    anchor.add_assign(Vec2i::new(-50, 30));
    assert_eq!(anchor, Vec2i::new(65, 110), "Vector add to Vec2i failed");
}

#[test]
fn divide_horizontal_gives_remainder_to_last() {
    let s = Size { width: 100, height: 50 };
    let parts = s.divide(3, 5, Layout::Horizontal(Spacing(2)));
    // 100 - 10 - 4 = 86 = 28 + 28 + 30
    assert_eq!(parts, vec![
        Size { width: 28, height: 40 },
        Size { width: 28, height: 40 },
        Size { width: 30, height: 40 },
    ]);
}

#[test]
fn divide_vertical() {
    let s = Size { width: 80, height: 101 };
    let parts = s.divide(2, 0, Layout::Vertical(Spacing(1)));
    assert_eq!(parts, vec![Size { width: 80, height: 50 }, Size { width: 80, height: 50 }]);
    let one = s.divide(1, 10, Layout::Vertical(Spacing(7)));
    assert_eq!(one, vec![Size { width: 60, height: 81 }]);
}

#[test]
fn shrink_sizes() {
    let s = Size { width: 100, height: 50 };
    assert_eq!(Size::shrink_by_margin(s, 5), Size { width: 90, height: 40 });
    assert_eq!(Size::shrink_axis_aligned(s, Margin::Vertical(3)), Size { width: 100, height: 44 });
    assert_eq!(Size::shrink_axis_aligned(s, Margin::Horizontal(3)), Size { width: 94, height: 50 });
    assert_eq!(Size::shrink_axis_aligned(s, Margin::Perpendicular { h: 1, v: 2 }), Size { width: 98, height: 46 });
}

#[test]
fn bounding_box_geometry() {
    let f = Frame::new(Vec2::new(10, 100), Size { width: 40, height: 30 });
    let bb = f.to_bb();
    assert_eq!(bb, BoundingBox::new(Vec2::new(10, 70), Vec2::new(50, 100)));
    assert_eq!(BoundingBox::from_info(f.anchor, f.size), bb);
    assert!(bb.box_hit_check(Vec2::new(10, 70)));
    assert!(bb.box_hit_check(Vec2::new(50, 100)));
    assert!(!bb.box_hit_check(Vec2::new(51, 100)));
    assert_eq!(bb.width(), 40);
    assert_eq!(bb.height(), 30);
    assert_eq!(bb.size(), Size { width: 40, height: 30 });
    assert_eq!(bb.center_pos(), Vec2::new(30, 85));
    let moved = bb.translate(Vec2::new(5, -5));
    assert_eq!(moved, BoundingBox::new(Vec2::new(15, 65), Vec2::new(55, 95)));
    assert_eq!(moved.translate_mut(Vec2::new(-5, 5)), bb);
}

#[test]
fn shrink_then_expand_gives_box_back() {
    let bb = BoundingBox::new(Vec2::new(0, 0), Vec2::new(100, 60));
    let m = Margin::Perpendicular { h: 4, v: 3 };
    let inner = BoundingBox::shrink(&bb, m);
    assert_eq!(inner, BoundingBox::new(Vec2::new(4, 3), Vec2::new(96, 57)));
    assert_eq!(BoundingBox::expand(&inner, m), bb);
    let tall = BoundingBox::expand(&bb, Margin::Vertical(2));
    assert_eq!(tall, BoundingBox::new(Vec2::new(0, -2), Vec2::new(100, 62)));
}

#[test]
fn centering_rounds_toward_zero() {
    let mut bb = BoundingBox::new(Vec2::new(0, 0), Vec2::new(5, 3));
    bb.center_align_around(Vec2::new(10, 10));
    assert_eq!(bb, BoundingBox::new(Vec2::new(8, 9), Vec2::new(12, 11)));
    let mut b2 = BoundingBox::new(Vec2::new(0, 0), Vec2::new(4, 4));
    b2.center_horizontal_align(0);
    assert_eq!(b2, BoundingBox::new(Vec2::new(-2, 0), Vec2::new(2, 4)));
    b2.center_vertical_align(10);
    assert_eq!(b2, BoundingBox::new(Vec2::new(-2, 8), Vec2::new(2, 12)));
    // a box with its corners swapped has a negative width
    let mut neg = BoundingBox::new(Vec2::new(5, 0), Vec2::new(0, 0));
    neg.center_horizontal_align(0);
    assert_eq!(neg, BoundingBox::new(Vec2::new(2, 0), Vec2::new(-2, 0)));
}

#[test]
fn inner_frame_box_is_shrunk_outer_box() {
    let outer = Frame::new(Vec2::new(0, 100), Size { width: 50, height: 40 });
    let inner = make_inner_frame(&outer, 4);
    assert_eq!(inner, Frame::new(Vec2::new(4, 96), Size { width: 42, height: 32 }));
    assert_eq!(inner.to_bb(), BoundingBox::shrink(&outer.to_bb(), Margin::Perpendicular { h: 4, v: 4 }));
}

#[test]
fn clamped_point() {
    let bb = BoundingBox::new(Vec2::new(0, 0), Vec2::new(10, 10));
    assert_eq!(Vec2i::new(-5, 20).clamped(&bb), Vec2::new(0, 10));
    assert_eq!(Vec2i::new(3, 4).clamped(&bb), Vec2::new(3, 4));
}

#[test]
fn scatter_sums_to_number() {
    assert_eq!(divide_scatter(10, 3), vec![4, 3, 3]);
    assert_eq!(divide_scatter(-10, 3), vec![-4, -3, -3]);
    assert_eq!(divide_scatter(9, 3), vec![3, 3, 3]);
    assert_eq!(divide_scatter(2, 5), vec![2, 0, 0, 0, 0]);
    let parts = divide_scatter(i32::MIN, 7);
    assert_eq!(parts.iter().map(|&v| v as i64).sum::<i64>(), i32::MIN as i64);
}

#[test]
fn box_anchor_is_its_top_left_corner() {
    let bb = BoundingBox { min: Vec2::new(3, 4), max: Vec2::new(10, 20) };
    assert_eq!(bb.get_anchor(), Vec2::new(3, 20));
}
