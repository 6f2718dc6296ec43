use cxgledit::application::{input_answer_effect, InputAnswerEffect};
use cxgledit::ui::eventhandling::event::CommandOutput;
use cxgledit::application::{
    close_active_view_decision, cycle_focus_target, drop_dragged_view, open_text_view_id, view_at, CloseViewDecision,
};
use cxgledit::datastructure::Vec2;
use cxgledit::ui::basic::boundingbox::BoundingBox;

#[test]
fn new_view_ids_follow_the_largest() {
    assert_eq!(open_text_view_id(&[]), 1);
    assert_eq!(open_text_view_id(&[3, 7, 2]), 8);
    assert_eq!(open_text_view_id(&[0]), 1);
}

#[test]
fn focus_moves_to_the_next_visible_view() {
    assert_eq!(cycle_focus_target(&[1, 2, 3], 3, 1), Some(2));
    assert_eq!(cycle_focus_target(&[1, 2, 3], 3, 3), Some(1));
    // a single visible view among two keeps the focus
    assert_eq!(cycle_focus_target(&[4], 2, 4), Some(4));
    // fewer than two views, or none visible: the focus stays
    assert_eq!(cycle_focus_target(&[5], 1, 5), None);
    assert_eq!(cycle_focus_target(&[], 2, 0), None);
}

#[test]
fn closing_a_view() {
    assert_eq!(close_active_view_decision(true, false, false, 1), CloseViewDecision::HidePopup);
    assert_eq!(close_active_view_decision(false, true, false, 1), CloseViewDecision::Close { open_replacement: true });
    assert_eq!(close_active_view_decision(false, false, true, 3), CloseViewDecision::Close { open_replacement: false });
    assert_eq!(close_active_view_decision(false, false, false, 3), CloseViewDecision::KeepOpen);
}

#[test]
fn clicks_land_on_the_first_view_holding_them() {
    let left = BoundingBox { min: Vec2::new(0, 0), max: Vec2::new(100, 100) };
    let right = BoundingBox { min: Vec2::new(100, 0), max: Vec2::new(200, 100) };
    let views = [(1, left), (2, right)];
    assert_eq!(view_at(&views, Vec2::new(50, 50)), Some(1));
    // the shared edge belongs to the first view
    assert_eq!(view_at(&views, Vec2::new(100, 10)), Some(1));
    assert_eq!(view_at(&views, Vec2::new(150, 10)), Some(2));
    assert_eq!(view_at(&views, Vec2::new(250, 10)), None);
}

#[test]
fn dropping_a_view_on_another_of_its_panel() {
    let mut panels = vec![vec![1, 2, 3], vec![4], vec![5]];
    assert!(drop_dragged_view(&mut panels, 1, 3));
    // the views trade places, and the last panel comes to follow the changed one
    assert_eq!(panels, vec![vec![3, 2, 1], vec![5], vec![4]]);
    // dropping a view on itself changes nothing
    assert!(!drop_dragged_view(&mut panels, 2, 2));
    assert_eq!(panels, vec![vec![3, 2, 1], vec![5], vec![4]]);
    // in the last panel the order of the panels stays
    let mut two = vec![vec![7], vec![8, 9]];
    assert!(drop_dragged_view(&mut two, 9, 8));
    assert_eq!(two, vec![vec![7], vec![9, 8]]);
}

#[test]
fn answers_of_the_active_input() {
    assert_eq!(
        input_answer_effect(CommandOutput::OpenFile("a.rs".to_string()), true),
        InputAnswerEffect::LoadIntoActiveView("a.rs".to_string())
    );
    assert_eq!(
        input_answer_effect(CommandOutput::OpenFile("a.rs".to_string()), false),
        InputAnswerEffect::LoadIntoNewView("a.rs".to_string())
    );
    assert_eq!(input_answer_effect(CommandOutput::Goto(12), false), InputAnswerEffect::GotoLine(12));
    assert_eq!(input_answer_effect(CommandOutput::SaveFile(None), false), InputAnswerEffect::AskSavePath);
    assert_eq!(input_answer_effect(CommandOutput::ClipboardCopy(None), false), InputAnswerEffect::Ignore);
    assert_eq!(
        input_answer_effect(CommandOutput::ClipboardCopy(Some("x".to_string())), false),
        InputAnswerEffect::ClipboardTake("x".to_string())
    );
}
