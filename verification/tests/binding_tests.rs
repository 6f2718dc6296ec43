use cxgledit::application::{handle_key_event, KeyEventDecision};
use cxgledit::cmd::keybindings::{
    ib_default, tv_default, AppBinding, BindingRequirement, KeyAction, KeyBindings, TextViewKeyBinding,
};
use cxgledit::cmd::keyimpl::{KeyImpl, ModifiersImpl};
use cxgledit::cmd::translation::{translate_key_input, InputTranslation};
use cxgledit::cmd::CommandTag;
use cxgledit::textbuffer::operations::LineOperation;
use cxgledit::textbuffer::{Movement, TextKind};
use cxgledit::ui::eventhandling::event::{AppAction, InputboxAction, ViewAction};

#[test]
fn bindings_press_release_held() {
    let p = AppBinding::press(AppAction::Quit);
    assert_eq!((p.pressed, p.repeated, p.released), (Some(AppAction::Quit), None, None));
    let r = AppBinding::release(AppAction::Quit);
    assert_eq!((r.pressed, r.repeated, r.released), (None, None, Some(AppAction::Quit)));
    let h = TextViewKeyBinding::held(ViewAction::InsertStr("ab".to_string()));
    assert!(matches!(h.pressed, Some(ViewAction::InsertStr(ref s)) if s == "ab"));
    assert!(matches!(h.repeated, Some(ViewAction::InsertStr(ref s)) if s == "ab"));
    assert!(h.released.is_none());
}

#[test]
fn default_bindings_translate_keys() {
    let kb = KeyBindings::default();
    let ctrl = ModifiersImpl::control();
    let none = ModifiersImpl::empty();
    assert!(matches!(kb.translate_textview_input(KeyImpl::S, KeyAction::Press, ctrl), Some(ViewAction::SaveFile)));
    assert!(kb.translate_textview_input(KeyImpl::S, KeyAction::Repeat, ctrl).is_none());
    assert!(matches!(
        kb.translate_textview_input(KeyImpl::Left, KeyAction::Repeat, none),
        Some(ViewAction::Movement(Movement::Backward(TextKind::Char, 1)))
    ));
    assert!(matches!(
        kb.translate_textview_input(KeyImpl::Tab, KeyAction::Press, ModifiersImpl::shift()),
        Some(ViewAction::LineOperation(LineOperation::ShiftLeft { shift_by: 4 }))
    ));
    assert_eq!(kb.translate_command_input(KeyImpl::Enter, KeyAction::Press, none), Some(InputboxAction::Confirm));
    assert_eq!(kb.translate_command_input(KeyImpl::Enter, KeyAction::Release, none), None);
    assert_eq!(
        kb.translate_app_input(KeyImpl::W, KeyAction::Press, ctrl.union(ModifiersImpl::shift())),
        Some(AppAction::CloseActiveView(true))
    );
    assert_eq!(kb.translate_app_input(KeyImpl::Z, KeyAction::Press, ctrl), None);
    assert_eq!(kb.total_keybindings(), 13 + 35 + 14);
    assert_eq!(tv_default().len(), 35);
    assert_eq!(ib_default().len(), 14);
}

#[test]
fn binding_config_text() {
    let b = BindingRequirement(KeyImpl::O, ModifiersImpl::control().union(ModifiersImpl::shift()));
    assert_eq!(b.to_config(), "ctrl+shift+O");
    assert_eq!(BindingRequirement::parse("ctrl+shift+O"), Some(b));
    let plain = BindingRequirement(KeyImpl::Escape, ModifiersImpl::empty());
    assert_eq!(plain.to_config(), "Escape");
    assert_eq!(BindingRequirement::parse("Escape"), Some(plain));
    // every key is read back from the text its binding writes
    let apostrophe = BindingRequirement(KeyImpl::Apostrophe, ModifiersImpl::alt());
    assert_eq!(apostrophe.to_config(), "alt+Apostrophe");
    assert_eq!(BindingRequirement::parse("alt+Apostrophe"), Some(apostrophe));
    assert_eq!(BindingRequirement::parse("hyper+O"), None);
    assert_eq!(BindingRequirement::code(&b), ((79 + 1) * 64 + 3) as u64);
}

#[test]
fn key_event_decisions() {
    let ctrl = ModifiersImpl::control();
    let none = ModifiersImpl::empty();
    assert_eq!(handle_key_event(KeyImpl::Escape, KeyAction::Press, none, true, 1), KeyEventDecision::ToggleCommandInput(CommandTag::Goto));
    assert_eq!(handle_key_event(KeyImpl::Escape, KeyAction::Press, none, false, 1), KeyEventDecision::PassToActiveInput);
    assert_eq!(handle_key_event(KeyImpl::F, KeyAction::Press, ctrl, false, 1), KeyEventDecision::ToggleCommandInput(CommandTag::Find));
    assert_eq!(
        handle_key_event(KeyImpl::W, KeyAction::Press, ctrl.union(ModifiersImpl::shift()), false, 1),
        KeyEventDecision::CloseActiveView { force: true }
    );
    assert_eq!(handle_key_event(KeyImpl::H, KeyAction::Press, ctrl, false, 1), KeyEventDecision::Ignore);
    assert_eq!(handle_key_event(KeyImpl::H, KeyAction::Press, ctrl, false, 2), KeyEventDecision::HideActiveView);
    assert_eq!(handle_key_event(KeyImpl::Tab, KeyAction::Press, none, false, 1), KeyEventDecision::PassToActiveInput);
    assert_eq!(handle_key_event(KeyImpl::Q, KeyAction::Release, ctrl, false, 1), KeyEventDecision::RequestClose);
    assert_eq!(handle_key_event(KeyImpl::F1, KeyAction::Press, ModifiersImpl::shift(), false, 1), KeyEventDecision::PassToActiveInput);
    assert_eq!(handle_key_event(KeyImpl::A, KeyAction::Press, none, false, 1), KeyEventDecision::DispatchToActiveInput);
    assert_eq!(translate_key_input(KeyImpl::A, KeyAction::Press, none), InputTranslation::Cancel);
}

#[test]
fn movement_text() {
    assert_eq!(Movement::from_str("Forward(Word, 3)"), Ok(Movement::Forward(TextKind::Word, 3)));
    assert_eq!(Movement::from_str("Forward(Line, +12)"), Ok(Movement::Forward(TextKind::Line, 12)));
    // a backward movement reads as a forward one, an end as a beginning
    assert_eq!(Movement::from_str("Backward(Char, 2)"), Ok(Movement::Forward(TextKind::Char, 2)));
    assert_eq!(Movement::from_str("Begin(Line)"), Ok(Movement::Begin(TextKind::Line)));
    assert_eq!(Movement::from_str("End(Block)"), Ok(Movement::Begin(TextKind::Block)));
    assert_eq!(Movement::from_str("Forward(Word, x)"), Err("Could not parse movement"));
    assert_eq!(Movement::from_str("Forward(Word,3)"), Err("could not create Movement from str"));
    assert_eq!(Movement::from_str("Sideways(Char)"), Err("could not create Movement from str"));
    assert_eq!(Movement::from_str("Forward(Word, 99999999999999999999)"), Err("Could not parse movement"));
    // text that is not all ASCII, where the reader's cuts fall between characters
    assert_eq!(Movement::from_str("Forward(Char, 5 \u{e9})"), Ok(Movement::Forward(TextKind::Char, 5)));
    assert_eq!(Movement::from_str("Begin(Word\u{f6})"), Err("could not create Movement from str"));
    assert_eq!(Movement::from_str("Forward(Line, \u{e9}\u{e9})"), Err("Could not parse movement"));
}
