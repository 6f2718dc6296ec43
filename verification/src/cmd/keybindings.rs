//! Key bindings: which action a key, with its modifiers, triggers when it is
//! pressed, held or released, and the bindings the editor starts with.
use vstd::prelude::*;

use super::keyimpl::{
    key_debug_name,
    modifiers_from_name,
    modifiers_name,
    spec_key_code,
    KeyImpl,
    ModifiersImpl,
};
use crate::textbuffer::strings::{push_str, string_from_chars};
use crate::textbuffer::operations::LineOperation;
use crate::textbuffer::{Movement, TextKind};
use crate::ui::eventhandling::event::{AppAction, InputboxAction, ViewAction};
use std::collections::HashMap;

verus! {

broadcast use vstd::std_specs::hash::group_hash_axioms;

/// What a key does to a key: press it, hold it down so that it repeats, or release it.
#[derive(Debug, Clone, Copy, PartialEq, Eq, Structural)]
pub enum KeyAction {
    Release,
    Press,
    Repeat,
}

/// The view action a key triggers when pressed, when repeated while held, and when released.
#[derive(Debug)]
pub struct TextViewKeyBinding {
    pub pressed: Option<ViewAction>,
    pub repeated: Option<ViewAction>,
    pub released: Option<ViewAction>,
}

impl TextViewKeyBinding {
    pub open spec fn spec_press(act: ViewAction) -> TextViewKeyBinding {
        TextViewKeyBinding { pressed: Some(act), repeated: None, released: None }
    }

    pub open spec fn spec_release(act: ViewAction) -> TextViewKeyBinding {
        TextViewKeyBinding { pressed: None, repeated: None, released: Some(act) }
    }

    pub open spec fn spec_held(act: ViewAction) -> TextViewKeyBinding {
        TextViewKeyBinding { pressed: Some(act), repeated: Some(act), released: None }
    }

    /// Triggers `act` when the key is pressed.
    pub fn press(act: ViewAction) -> (r: TextViewKeyBinding)
        ensures
            r == Self::spec_press(act),
    {
        TextViewKeyBinding { pressed: Some(act), repeated: None, released: None }
    }

    /// Triggers `act` when the key is released.
    pub fn release(act: ViewAction) -> (r: TextViewKeyBinding)
        ensures
            r == Self::spec_release(act),
    {
        TextViewKeyBinding { pressed: None, released: Some(act), repeated: None }
    }

    /// Triggers `act` when the key is pressed and again while it is held.
    pub fn held(act: ViewAction) -> (r: TextViewKeyBinding)
        ensures
            r == Self::spec_held(act),
    {
        TextViewKeyBinding { pressed: Some(act.clone()), repeated: Some(act), released: None }
    }

    /// The action for the key action, if the binding has one.
    pub open spec fn spec_action(&self, action: KeyAction) -> Option<ViewAction> {
        match action {
            KeyAction::Release => self.released,
            KeyAction::Press => self.pressed,
            KeyAction::Repeat => self.repeated,
        }
    }

    pub fn action(&self, action: KeyAction) -> (r: Option<ViewAction>)
        ensures
            r == self.spec_action(action),
    {
        let a = match action {
            KeyAction::Release => &self.released,
            KeyAction::Press => &self.pressed,
            KeyAction::Repeat => &self.repeated,
        };
        match a {
            Some(x) => Some(x.clone()),
            None => None,
        }
    }
}

/// The inputbox action a key triggers when pressed, when repeated while held, and when released.
#[derive(Debug)]
pub struct InputboxBinding {
    pub pressed: Option<InputboxAction>,
    pub repeated: Option<InputboxAction>,
    pub released: Option<InputboxAction>,
}

impl InputboxBinding {
    pub open spec fn spec_press(act: InputboxAction) -> InputboxBinding {
        InputboxBinding { pressed: Some(act), repeated: None, released: None }
    }

    pub open spec fn spec_release(act: InputboxAction) -> InputboxBinding {
        InputboxBinding { pressed: None, repeated: None, released: Some(act) }
    }

    pub open spec fn spec_held(act: InputboxAction) -> InputboxBinding {
        InputboxBinding { pressed: Some(act), repeated: Some(act), released: None }
    }

    /// Triggers `act` when the key is pressed.
    pub fn press(act: InputboxAction) -> (r: InputboxBinding)
        ensures
            r == Self::spec_press(act),
    {
        InputboxBinding { pressed: Some(act), repeated: None, released: None }
    }

    /// Triggers `act` when the key is released.
    pub fn release(act: InputboxAction) -> (r: InputboxBinding)
        ensures
            r == Self::spec_release(act),
    {
        InputboxBinding { pressed: None, released: Some(act), repeated: None }
    }

    /// Triggers `act` when the key is pressed and again while it is held.
    pub fn held(act: InputboxAction) -> (r: InputboxBinding)
        ensures
            r == Self::spec_held(act),
    {
        InputboxBinding { pressed: Some(act.clone()), repeated: Some(act), released: None }
    }

    /// The action for the key action, if the binding has one.
    pub open spec fn spec_action(&self, action: KeyAction) -> Option<InputboxAction> {
        match action {
            KeyAction::Release => self.released,
            KeyAction::Press => self.pressed,
            KeyAction::Repeat => self.repeated,
        }
    }

    pub fn action(&self, action: KeyAction) -> (r: Option<InputboxAction>)
        ensures
            r == self.spec_action(action),
    {
        let a = match action {
            KeyAction::Release => &self.released,
            KeyAction::Press => &self.pressed,
            KeyAction::Repeat => &self.repeated,
        };
        match a {
            Some(x) => Some(x.clone()),
            None => None,
        }
    }
}

/// The app action a key triggers when pressed, when repeated while held, and when released.
#[derive(Debug)]
pub struct AppBinding {
    pub pressed: Option<AppAction>,
    pub repeated: Option<AppAction>,
    pub released: Option<AppAction>,
}

impl AppBinding {
    pub open spec fn spec_press(act: AppAction) -> AppBinding {
        AppBinding { pressed: Some(act), repeated: None, released: None }
    }

    pub open spec fn spec_release(act: AppAction) -> AppBinding {
        AppBinding { pressed: None, repeated: None, released: Some(act) }
    }

    pub open spec fn spec_held(act: AppAction) -> AppBinding {
        AppBinding { pressed: Some(act), repeated: Some(act), released: None }
    }

    /// Triggers `act` when the key is pressed.
    pub fn press(act: AppAction) -> (r: AppBinding)
        ensures
            r == Self::spec_press(act),
    {
        AppBinding { pressed: Some(act), repeated: None, released: None }
    }

    /// Triggers `act` when the key is released.
    pub fn release(act: AppAction) -> (r: AppBinding)
        ensures
            r == Self::spec_release(act),
    {
        AppBinding { pressed: None, released: Some(act), repeated: None }
    }

    /// Triggers `act` when the key is pressed and again while it is held.
    pub fn held(act: AppAction) -> (r: AppBinding)
        ensures
            r == Self::spec_held(act),
    {
        AppBinding { pressed: Some(act.clone()), repeated: Some(act), released: None }
    }

    /// The action for the key action, if the binding has one.
    pub open spec fn spec_action(&self, action: KeyAction) -> Option<AppAction> {
        match action {
            KeyAction::Release => self.released,
            KeyAction::Press => self.pressed,
            KeyAction::Repeat => self.repeated,
        }
    }

    pub fn action(&self, action: KeyAction) -> (r: Option<AppAction>)
        ensures
            r == self.spec_action(action),
    {
        let a = match action {
            KeyAction::Release => &self.released,
            KeyAction::Press => &self.pressed,
            KeyAction::Repeat => &self.repeated,
        };
        match a {
            Some(x) => Some(x.clone()),
            None => None,
        }
    }
}

/// A key with the modifiers that must be held with it.
#[derive(Debug, Clone, Copy, PartialEq, Eq, Structural)]
pub struct BindingRequirement(pub KeyImpl, pub ModifiersImpl);

/// The number a binding is looked up by: the key's GLFW code, shifted past
/// the six modifier bits, with the modifier bits below it.
pub open spec fn binding_code(key: KeyImpl, bits: i32) -> u64 {
    ((spec_key_code(key) + 1) * 64 + bits) as u64
}

impl BindingRequirement {
    pub fn code(&self) -> (r: u64)
        ensures
            r == binding_code(self.0, self.1.spec_bits()),
    {
        let k = self.0.code();
        let bits = self.1.bits();
        proof {
            assert(-1 <= k <= 348);
        }
        ((k + 1) as u64) * 64 + (bits as u64)
    }
}

/// The configuration text of a binding: the modifiers' name, a `+` and the
/// key's own name; the key's name alone when the modifiers have no name.
pub open spec fn binding_text(key: KeyImpl, bits: i32) -> Seq<char> {
    if modifiers_name(bits).len() == 0 {
        key_debug_name(key)
    } else {
        modifiers_name(bits) + seq!['+'] + key_debug_name(key)
    }
}

/// The index of the last `c` in `s`.
pub open spec fn last_index_of(s: Seq<char>, c: char) -> Option<int>
    decreases s.len(),
{
    if s.len() == 0 {
        None
    } else if s.last() == c {
        Some(s.len() - 1)
    } else {
        last_index_of(s.drop_last(), c)
    }
}

/// What reading a binding from its configuration text gives: the text up to
/// the last `+` names the modifiers and the rest the key; with no `+` the
/// text names a key without modifiers. `None` where a name is unknown.
pub open spec fn parsed_binding(r: Option<BindingRequirement>, text: Seq<char>) -> bool {
    match last_index_of(text, '+') {
        Some(p) => {
            let mods = text.subrange(0, p);
            let key = text.subrange(p + 1, text.len() as int);
            match r {
                Some(b) => modifiers_from_name(mods) == Some(b.1.spec_bits()) && key_debug_name(b.0) == key,
                None => modifiers_from_name(mods) is None || forall|k: KeyImpl| key_debug_name(k) != key,
            }
        },
        None => match r {
            Some(b) => b.1.spec_bits() == 0 && key_debug_name(b.0) == text,
            None => forall|k: KeyImpl| key_debug_name(k) != text,
        },
    }
}

proof fn lemma_last_index_bounds(s: Seq<char>, c: char)
    ensures
        last_index_of(s, c) matches Some(p) ==> 0 <= p < s.len() && s[p] == c && forall|i: int|
            p < i < s.len() ==> s[i] != c,
        last_index_of(s, c) is None ==> forall|i: int| 0 <= i < s.len() ==> s[i] != c,
    decreases s.len(),
{
    if s.len() > 0 && s.last() != c {
        lemma_last_index_bounds(s.drop_last(), c);
        assert forall|i: int| 0 <= i < s.len() - 1 implies s.drop_last()[i] == s[i] by {}
    }
}

impl BindingRequirement {
    /// The text that the key binding configuration holds for this binding.
    pub fn to_config(&self) -> (r: String)
        ensures
            r@ == binding_text(self.0, self.1.spec_bits()),
    {
        let mods = self.1.to_str();
        let mut v: Vec<char> = Vec::new();
        if mods.unicode_len() != 0 {
            push_str(&mut v, mods);
            v.push('+');
        }
        push_str(&mut v, self.0.name());
        proof {
            assert(v@ =~= binding_text(self.0, self.1.spec_bits()));
        }
        string_from_chars(v.as_slice())
    }

    /// Reads a binding from its configuration text; `None` where a name in it is unknown.
    pub fn parse(value: &str) -> (r: Option<BindingRequirement>)
        ensures
            parsed_binding(r, value@),
    {
        let n = value.unicode_len();
        let mut i = n;
        let mut pos: Option<usize> = None;
        proof {
            assert(value@.subrange(0, n as int) =~= value@);
        }
        while i > 0
            invariant_except_break
                i <= n,
                n == value@.len(),
                pos is None,
                last_index_of(value@, '+') == last_index_of(value@.subrange(0, i as int), '+'),
            ensures
                match pos {
                    Some(p) => last_index_of(value@, '+') == Some(p as int) && p < n,
                    None => last_index_of(value@, '+') is None,
                },
            decreases i,
        {
            let ghost t = value@.subrange(0, i as int);
            proof {
                assert(t.drop_last() =~= value@.subrange(0, i - 1));
            }
            if value.get_char(i - 1) == '+' {
                pos = Some(i - 1);
                break;
            }
            i = i - 1;
        }
        proof {
            lemma_last_index_bounds(value@, '+');
        }
        match pos {
            Some(p) => {
                let mods_text = value.substring_char(0, p);
                let key_text = value.substring_char(p + 1, n);
                match ModifiersImpl::from_str(mods_text) {
                    Ok(m) => match KeyImpl::from_str(key_text) {
                        Ok(k) => Some(BindingRequirement(k, m)),
                        Err(_) => None,
                    },
                    Err(_) => None,
                }
            },
            None => match KeyImpl::from_str(value) {
                Ok(k) => Some(BindingRequirement(k, ModifiersImpl::empty())),
                Err(_) => None,
            },
        }
    }
}

/// No key's own name holds a `+`.
pub proof fn lemma_key_name_has_no_plus(k: KeyImpl)
    ensures
        forall|i: int| 0 <= i < key_debug_name(k).len() ==> key_debug_name(k)[i] != '+',
{
    match k {
        KeyImpl::Space => {
            reveal_strlit("Space");
        },
        KeyImpl::Apostrophe => {
            reveal_strlit("Apostrophe");
        },
        KeyImpl::Comma => {
            reveal_strlit("Comma");
        },
        KeyImpl::Minus => {
            reveal_strlit("Minus");
        },
        KeyImpl::Period => {
            reveal_strlit("Period");
        },
        KeyImpl::Slash => {
            reveal_strlit("Slash");
        },
        KeyImpl::Num0 => {
            reveal_strlit("Num0");
        },
        KeyImpl::Num1 => {
            reveal_strlit("Num1");
        },
        KeyImpl::Num2 => {
            reveal_strlit("Num2");
        },
        KeyImpl::Num3 => {
            reveal_strlit("Num3");
        },
        KeyImpl::Num4 => {
            reveal_strlit("Num4");
        },
        KeyImpl::Num5 => {
            reveal_strlit("Num5");
        },
        KeyImpl::Num6 => {
            reveal_strlit("Num6");
        },
        KeyImpl::Num7 => {
            reveal_strlit("Num7");
        },
        KeyImpl::Num8 => {
            reveal_strlit("Num8");
        },
        KeyImpl::Num9 => {
            reveal_strlit("Num9");
        },
        KeyImpl::Semicolon => {
            reveal_strlit("Semicolon");
        },
        KeyImpl::Equal => {
            reveal_strlit("Equal");
        },
        KeyImpl::A => {
            reveal_strlit("A");
        },
        KeyImpl::B => {
            reveal_strlit("B");
        },
        KeyImpl::C => {
            reveal_strlit("C");
        },
        KeyImpl::D => {
            reveal_strlit("D");
        },
        KeyImpl::E => {
            reveal_strlit("E");
        },
        KeyImpl::F => {
            reveal_strlit("F");
        },
        KeyImpl::G => {
            reveal_strlit("G");
        },
        KeyImpl::H => {
            reveal_strlit("H");
        },
        KeyImpl::I => {
            reveal_strlit("I");
        },
        KeyImpl::J => {
            reveal_strlit("J");
        },
        KeyImpl::K => {
            reveal_strlit("K");
        },
        KeyImpl::L => {
            reveal_strlit("L");
        },
        KeyImpl::M => {
            reveal_strlit("M");
        },
        KeyImpl::N => {
            reveal_strlit("N");
        },
        KeyImpl::O => {
            reveal_strlit("O");
        },
        KeyImpl::P => {
            reveal_strlit("P");
        },
        KeyImpl::Q => {
            reveal_strlit("Q");
        },
        KeyImpl::R => {
            reveal_strlit("R");
        },
        KeyImpl::S => {
            reveal_strlit("S");
        },
        KeyImpl::T => {
            reveal_strlit("T");
        },
        KeyImpl::U => {
            reveal_strlit("U");
        },
        KeyImpl::V => {
            reveal_strlit("V");
        },
        KeyImpl::W => {
            reveal_strlit("W");
        },
        KeyImpl::X => {
            reveal_strlit("X");
        },
        KeyImpl::Y => {
            reveal_strlit("Y");
        },
        KeyImpl::Z => {
            reveal_strlit("Z");
        },
        KeyImpl::LeftBracket => {
            reveal_strlit("LeftBracket");
        },
        KeyImpl::Backslash => {
            reveal_strlit("Backslash");
        },
        KeyImpl::RightBracket => {
            reveal_strlit("RightBracket");
        },
        KeyImpl::GraveAccent => {
            reveal_strlit("GraveAccent");
        },
        KeyImpl::World1 => {
            reveal_strlit("World1");
        },
        KeyImpl::World2 => {
            reveal_strlit("World2");
        },
        KeyImpl::Escape => {
            reveal_strlit("Escape");
        },
        KeyImpl::Enter => {
            reveal_strlit("Enter");
        },
        KeyImpl::Tab => {
            reveal_strlit("Tab");
        },
        KeyImpl::Backspace => {
            reveal_strlit("Backspace");
        },
        KeyImpl::Insert => {
            reveal_strlit("Insert");
        },
        KeyImpl::Delete => {
            reveal_strlit("Delete");
        },
        KeyImpl::Right => {
            reveal_strlit("Right");
        },
        KeyImpl::Left => {
            reveal_strlit("Left");
        },
        KeyImpl::Down => {
            reveal_strlit("Down");
        },
        KeyImpl::Up => {
            reveal_strlit("Up");
        },
        KeyImpl::PageUp => {
            reveal_strlit("PageUp");
        },
        KeyImpl::PageDown => {
            reveal_strlit("PageDown");
        },
        KeyImpl::Home => {
            reveal_strlit("Home");
        },
        KeyImpl::End => {
            reveal_strlit("End");
        },
        KeyImpl::CapsLock => {
            reveal_strlit("CapsLock");
        },
        KeyImpl::ScrollLock => {
            reveal_strlit("ScrollLock");
        },
        KeyImpl::NumLock => {
            reveal_strlit("NumLock");
        },
        KeyImpl::PrintScreen => {
            reveal_strlit("PrintScreen");
        },
        KeyImpl::Pause => {
            reveal_strlit("Pause");
        },
        KeyImpl::F1 => {
            reveal_strlit("F1");
        },
        KeyImpl::F2 => {
            reveal_strlit("F2");
        },
        KeyImpl::F3 => {
            reveal_strlit("F3");
        },
        KeyImpl::F4 => {
            reveal_strlit("F4");
        },
        KeyImpl::F5 => {
            reveal_strlit("F5");
        },
        KeyImpl::F6 => {
            reveal_strlit("F6");
        },
        KeyImpl::F7 => {
            reveal_strlit("F7");
        },
        KeyImpl::F8 => {
            reveal_strlit("F8");
        },
        KeyImpl::F9 => {
            reveal_strlit("F9");
        },
        KeyImpl::F10 => {
            reveal_strlit("F10");
        },
        KeyImpl::F11 => {
            reveal_strlit("F11");
        },
        KeyImpl::F12 => {
            reveal_strlit("F12");
        },
        KeyImpl::F13 => {
            reveal_strlit("F13");
        },
        KeyImpl::F14 => {
            reveal_strlit("F14");
        },
        KeyImpl::F15 => {
            reveal_strlit("F15");
        },
        KeyImpl::F16 => {
            reveal_strlit("F16");
        },
        KeyImpl::F17 => {
            reveal_strlit("F17");
        },
        KeyImpl::F18 => {
            reveal_strlit("F18");
        },
        KeyImpl::F19 => {
            reveal_strlit("F19");
        },
        KeyImpl::F20 => {
            reveal_strlit("F20");
        },
        KeyImpl::F21 => {
            reveal_strlit("F21");
        },
        KeyImpl::F22 => {
            reveal_strlit("F22");
        },
        KeyImpl::F23 => {
            reveal_strlit("F23");
        },
        KeyImpl::F24 => {
            reveal_strlit("F24");
        },
        KeyImpl::F25 => {
            reveal_strlit("F25");
        },
        KeyImpl::Kp0 => {
            reveal_strlit("Kp0");
        },
        KeyImpl::Kp1 => {
            reveal_strlit("Kp1");
        },
        KeyImpl::Kp2 => {
            reveal_strlit("Kp2");
        },
        KeyImpl::Kp3 => {
            reveal_strlit("Kp3");
        },
        KeyImpl::Kp4 => {
            reveal_strlit("Kp4");
        },
        KeyImpl::Kp5 => {
            reveal_strlit("Kp5");
        },
        KeyImpl::Kp6 => {
            reveal_strlit("Kp6");
        },
        KeyImpl::Kp7 => {
            reveal_strlit("Kp7");
        },
        KeyImpl::Kp8 => {
            reveal_strlit("Kp8");
        },
        KeyImpl::Kp9 => {
            reveal_strlit("Kp9");
        },
        KeyImpl::KpDecimal => {
            reveal_strlit("KpDecimal");
        },
        KeyImpl::KpDivide => {
            reveal_strlit("KpDivide");
        },
        KeyImpl::KpMultiply => {
            reveal_strlit("KpMultiply");
        },
        KeyImpl::KpSubtract => {
            reveal_strlit("KpSubtract");
        },
        KeyImpl::KpAdd => {
            reveal_strlit("KpAdd");
        },
        KeyImpl::KpEnter => {
            reveal_strlit("KpEnter");
        },
        KeyImpl::KpEqual => {
            reveal_strlit("KpEqual");
        },
        KeyImpl::LeftShift => {
            reveal_strlit("LeftShift");
        },
        KeyImpl::LeftControl => {
            reveal_strlit("LeftControl");
        },
        KeyImpl::LeftAlt => {
            reveal_strlit("LeftAlt");
        },
        KeyImpl::LeftSuper => {
            reveal_strlit("LeftSuper");
        },
        KeyImpl::RightShift => {
            reveal_strlit("RightShift");
        },
        KeyImpl::RightControl => {
            reveal_strlit("RightControl");
        },
        KeyImpl::RightAlt => {
            reveal_strlit("RightAlt");
        },
        KeyImpl::RightSuper => {
            reveal_strlit("RightSuper");
        },
        KeyImpl::Menu => {
            reveal_strlit("Menu");
        },
        KeyImpl::Unknown => {
            reveal_strlit("Unknown");
        },
    }
}

/// Reading back the configuration text of a binding gives the binding, for
/// every key and every set of modifiers that is empty or has a name.
pub proof fn lemma_binding_text_round_trip(key: KeyImpl, bits: i32, r: Option<BindingRequirement>)
    requires
        bits == 0 || modifiers_name(bits).len() > 0,
        parsed_binding(r, binding_text(key, bits)),
    ensures
        r matches Some(b) && b.0 == key && b.1.spec_bits() == bits,
{
    lemma_key_name_has_no_plus(key);
    reveal_strlit("");
    let name = key_debug_name(key);
    let text = binding_text(key, bits);
    if modifiers_name(bits).len() == 0 {
        assert(bits == 0);
        lemma_last_index_bounds(text, '+');
        assert(last_index_of(text, '+') is None);
    } else {
        crate::cmd::keyimpl::lemma_modifiers_name_round_trip(bits);
        let m = modifiers_name(bits);
        let p = m.len() as int;
        lemma_last_index_bounds(text, '+');
        assert(text[p] == '+');
        assert forall|i: int| p < i < text.len() implies text[i] != '+' by {
            assert(text[i] == name[i - p - 1]);
        }
        assert(last_index_of(text, '+') == Some(p)) by {
            match last_index_of(text, '+') {
                Some(q) => {
                    if q < p {
                        assert(text[p] != '+');
                    }
                },
                None => {},
            }
        }
        assert(text.subrange(0, p) =~= m);
        assert(text.subrange(p + 1, text.len() as int) =~= name);
    }
    match r {
        Some(b) => crate::cmd::keyimpl::lemma_key_names_distinct(b.0, key),
        None => {},
    }
}

/// Two bindings with different keys or different modifiers never share a code.
pub proof fn lemma_binding_code_injective(a: KeyImpl, abits: i32, b: KeyImpl, bbits: i32)
    requires
        0 <= abits < 64,
        0 <= bbits < 64,
        binding_code(a, abits) == binding_code(b, bbits),
    ensures
        a == b,
        abits == bbits,
{
    assert(-1 <= spec_key_code(a) <= 348);
    assert(-1 <= spec_key_code(b) <= 348);
    assert(spec_key_code(a) == spec_key_code(b) && abits == bbits) by (nonlinear_arith)
        requires
            -1 <= spec_key_code(a) <= 348,
            -1 <= spec_key_code(b) <= 348,
            0 <= abits < 64,
            0 <= bbits < 64,
            (spec_key_code(a) + 1) * 64 + abits == (spec_key_code(b) + 1) * 64 + bbits,
    ;
    crate::cmd::keyimpl::lemma_key_code_round_trip(a);
}

/// The bindings of the application, of text views and of the input box, by binding code.
pub struct KeyBindings {
    pub app_actions: HashMap<u64, AppBinding>,
    /// Text view key mappings
    pub textview_actions: HashMap<u64, TextViewKeyBinding>,
    /// Input box key mappings
    pub inputbox_actions: HashMap<u64, InputboxBinding>,
}

/// The TextViewKeyBinding the editor starts with.
pub open spec fn tv_default_map() -> Map<u64, TextViewKeyBinding> {
    Map::empty()
        .insert(binding_code(KeyImpl::Escape, 0), TextViewKeyBinding::spec_press(ViewAction::Cancel))
        .insert(binding_code(KeyImpl::CapsLock, 0), TextViewKeyBinding::spec_press(ViewAction::Cancel))
        .insert(binding_code(KeyImpl::S, 2), TextViewKeyBinding::spec_press(ViewAction::SaveFile))
        .insert(binding_code(KeyImpl::O, 2), TextViewKeyBinding::spec_press(ViewAction::OpenFile))
        .insert(binding_code(KeyImpl::Left, 0), TextViewKeyBinding::spec_held(ViewAction::Movement(Movement::Backward(TextKind::Char, 1))))
        .insert(binding_code(KeyImpl::Left, 1), TextViewKeyBinding::spec_held(ViewAction::TextSelect(Movement::Backward(TextKind::Char, 1))))
        .insert(binding_code(KeyImpl::Left, 2), TextViewKeyBinding::spec_held(ViewAction::Movement(Movement::Begin(TextKind::Word))))
        .insert(binding_code(KeyImpl::Left, 2i32 | 1i32), TextViewKeyBinding::spec_held(ViewAction::TextSelect(Movement::Begin(TextKind::Word))))
        .insert(binding_code(KeyImpl::Right, 0), TextViewKeyBinding::spec_held(ViewAction::Movement(Movement::Forward(TextKind::Char, 1))))
        .insert(binding_code(KeyImpl::Right, 1), TextViewKeyBinding::spec_held(ViewAction::TextSelect(Movement::Forward(TextKind::Char, 1))))
        .insert(binding_code(KeyImpl::Right, 2), TextViewKeyBinding::spec_held(ViewAction::Movement(Movement::End(TextKind::Word))))
        .insert(binding_code(KeyImpl::Right, 2i32 | 1i32), TextViewKeyBinding::spec_held(ViewAction::TextSelect(Movement::End(TextKind::Word))))
        .insert(binding_code(KeyImpl::Up, 0), TextViewKeyBinding::spec_held(ViewAction::Movement(Movement::Backward(TextKind::Line, 1))))
        .insert(binding_code(KeyImpl::Up, 1), TextViewKeyBinding::spec_held(ViewAction::TextSelect(Movement::Backward(TextKind::Line, 1))))
        .insert(binding_code(KeyImpl::Down, 0), TextViewKeyBinding::spec_held(ViewAction::Movement(Movement::Forward(TextKind::Line, 1))))
        .insert(binding_code(KeyImpl::Down, 1), TextViewKeyBinding::spec_held(ViewAction::TextSelect(Movement::Forward(TextKind::Line, 1))))
        .insert(binding_code(KeyImpl::Home, 0), TextViewKeyBinding::spec_held(ViewAction::Movement(Movement::Begin(TextKind::Line))))
        .insert(binding_code(KeyImpl::Home, 2), TextViewKeyBinding::spec_held(ViewAction::Movement(Movement::Begin(TextKind::File))))
        .insert(binding_code(KeyImpl::Home, 1), TextViewKeyBinding::spec_held(ViewAction::TextSelect(Movement::Begin(TextKind::Line))))
        .insert(binding_code(KeyImpl::Home, 2i32 | 1i32), TextViewKeyBinding::spec_held(ViewAction::TextSelect(Movement::Begin(TextKind::File))))
        .insert(binding_code(KeyImpl::End, 0), TextViewKeyBinding::spec_held(ViewAction::Movement(Movement::End(TextKind::Line))))
        .insert(binding_code(KeyImpl::End, 1), TextViewKeyBinding::spec_held(ViewAction::TextSelect(Movement::End(TextKind::Line))))
        .insert(binding_code(KeyImpl::End, 2), TextViewKeyBinding::spec_held(ViewAction::Movement(Movement::End(TextKind::File))))
        .insert(binding_code(KeyImpl::End, 1i32 | 2i32), TextViewKeyBinding::spec_held(ViewAction::TextSelect(Movement::End(TextKind::File))))
        .insert(binding_code(KeyImpl::F, 2), TextViewKeyBinding::spec_press(ViewAction::Find))
        .insert(binding_code(KeyImpl::G, 2), TextViewKeyBinding::spec_press(ViewAction::Goto))
        .insert(binding_code(KeyImpl::Delete, 0), TextViewKeyBinding::spec_held(ViewAction::Delete(Movement::Forward(TextKind::Char, 1))))
        .insert(binding_code(KeyImpl::Delete, 2), TextViewKeyBinding::spec_held(ViewAction::Delete(Movement::Forward(TextKind::Word, 1))))
        .insert(binding_code(KeyImpl::Backspace, 0), TextViewKeyBinding::spec_held(ViewAction::Delete(Movement::Backward(TextKind::Char, 1))))
        .insert(binding_code(KeyImpl::Backspace, 2), TextViewKeyBinding::spec_held(ViewAction::Delete(Movement::Backward(TextKind::Word, 1))))
        .insert(binding_code(KeyImpl::C, 2), TextViewKeyBinding::spec_press(ViewAction::Copy))
        .insert(binding_code(KeyImpl::X, 2), TextViewKeyBinding::spec_press(ViewAction::Cut))
        .insert(binding_code(KeyImpl::V, 2), TextViewKeyBinding::spec_press(ViewAction::Paste))
        .insert(binding_code(KeyImpl::Tab, 0), TextViewKeyBinding::spec_press(ViewAction::LineOperation(LineOperation::ShiftRight { shift_by: 4 })))
        .insert(binding_code(KeyImpl::Tab, 1), TextViewKeyBinding::spec_press(ViewAction::LineOperation(LineOperation::ShiftLeft { shift_by: 4 })))
}

pub fn tv_default() -> (r: HashMap<u64, TextViewKeyBinding>)
    ensures
        r@ == tv_default_map(),
{
    let mut m: HashMap<u64, TextViewKeyBinding> = HashMap::new();
    m.insert(BindingRequirement(KeyImpl::Escape, ModifiersImpl::empty()).code(), TextViewKeyBinding::press(ViewAction::Cancel));
    m.insert(BindingRequirement(KeyImpl::CapsLock, ModifiersImpl::empty()).code(), TextViewKeyBinding::press(ViewAction::Cancel));
    m.insert(BindingRequirement(KeyImpl::S, ModifiersImpl::control()).code(), TextViewKeyBinding::press(ViewAction::SaveFile));
    m.insert(BindingRequirement(KeyImpl::O, ModifiersImpl::control()).code(), TextViewKeyBinding::press(ViewAction::OpenFile));
    m.insert(BindingRequirement(KeyImpl::Left, ModifiersImpl::empty()).code(), TextViewKeyBinding::held(ViewAction::Movement(Movement::Backward(TextKind::Char, 1))));
    m.insert(BindingRequirement(KeyImpl::Left, ModifiersImpl::shift()).code(), TextViewKeyBinding::held(ViewAction::TextSelect(Movement::Backward(TextKind::Char, 1))));
    m.insert(BindingRequirement(KeyImpl::Left, ModifiersImpl::control()).code(), TextViewKeyBinding::held(ViewAction::Movement(Movement::Begin(TextKind::Word))));
    m.insert(BindingRequirement(KeyImpl::Left, ModifiersImpl::control().union(ModifiersImpl::shift())).code(), TextViewKeyBinding::held(ViewAction::TextSelect(Movement::Begin(TextKind::Word))));
    m.insert(BindingRequirement(KeyImpl::Right, ModifiersImpl::empty()).code(), TextViewKeyBinding::held(ViewAction::Movement(Movement::Forward(TextKind::Char, 1))));
    m.insert(BindingRequirement(KeyImpl::Right, ModifiersImpl::shift()).code(), TextViewKeyBinding::held(ViewAction::TextSelect(Movement::Forward(TextKind::Char, 1))));
    m.insert(BindingRequirement(KeyImpl::Right, ModifiersImpl::control()).code(), TextViewKeyBinding::held(ViewAction::Movement(Movement::End(TextKind::Word))));
    m.insert(BindingRequirement(KeyImpl::Right, ModifiersImpl::control().union(ModifiersImpl::shift())).code(), TextViewKeyBinding::held(ViewAction::TextSelect(Movement::End(TextKind::Word))));
    m.insert(BindingRequirement(KeyImpl::Up, ModifiersImpl::empty()).code(), TextViewKeyBinding::held(ViewAction::Movement(Movement::Backward(TextKind::Line, 1))));
    m.insert(BindingRequirement(KeyImpl::Up, ModifiersImpl::shift()).code(), TextViewKeyBinding::held(ViewAction::TextSelect(Movement::Backward(TextKind::Line, 1))));
    m.insert(BindingRequirement(KeyImpl::Down, ModifiersImpl::empty()).code(), TextViewKeyBinding::held(ViewAction::Movement(Movement::Forward(TextKind::Line, 1))));
    m.insert(BindingRequirement(KeyImpl::Down, ModifiersImpl::shift()).code(), TextViewKeyBinding::held(ViewAction::TextSelect(Movement::Forward(TextKind::Line, 1))));
    m.insert(BindingRequirement(KeyImpl::Home, ModifiersImpl::empty()).code(), TextViewKeyBinding::held(ViewAction::Movement(Movement::Begin(TextKind::Line))));
    m.insert(BindingRequirement(KeyImpl::Home, ModifiersImpl::control()).code(), TextViewKeyBinding::held(ViewAction::Movement(Movement::Begin(TextKind::File))));
    m.insert(BindingRequirement(KeyImpl::Home, ModifiersImpl::shift()).code(), TextViewKeyBinding::held(ViewAction::TextSelect(Movement::Begin(TextKind::Line))));
    m.insert(BindingRequirement(KeyImpl::Home, ModifiersImpl::control().union(ModifiersImpl::shift())).code(), TextViewKeyBinding::held(ViewAction::TextSelect(Movement::Begin(TextKind::File))));
    m.insert(BindingRequirement(KeyImpl::End, ModifiersImpl::empty()).code(), TextViewKeyBinding::held(ViewAction::Movement(Movement::End(TextKind::Line))));
    m.insert(BindingRequirement(KeyImpl::End, ModifiersImpl::shift()).code(), TextViewKeyBinding::held(ViewAction::TextSelect(Movement::End(TextKind::Line))));
    m.insert(BindingRequirement(KeyImpl::End, ModifiersImpl::control()).code(), TextViewKeyBinding::held(ViewAction::Movement(Movement::End(TextKind::File))));
    m.insert(BindingRequirement(KeyImpl::End, ModifiersImpl::shift().union(ModifiersImpl::control())).code(), TextViewKeyBinding::held(ViewAction::TextSelect(Movement::End(TextKind::File))));
    m.insert(BindingRequirement(KeyImpl::F, ModifiersImpl::control()).code(), TextViewKeyBinding::press(ViewAction::Find));
    m.insert(BindingRequirement(KeyImpl::G, ModifiersImpl::control()).code(), TextViewKeyBinding::press(ViewAction::Goto));
    m.insert(BindingRequirement(KeyImpl::Delete, ModifiersImpl::empty()).code(), TextViewKeyBinding::held(ViewAction::Delete(Movement::Forward(TextKind::Char, 1))));
    m.insert(BindingRequirement(KeyImpl::Delete, ModifiersImpl::control()).code(), TextViewKeyBinding::held(ViewAction::Delete(Movement::Forward(TextKind::Word, 1))));
    m.insert(BindingRequirement(KeyImpl::Backspace, ModifiersImpl::empty()).code(), TextViewKeyBinding::held(ViewAction::Delete(Movement::Backward(TextKind::Char, 1))));
    m.insert(BindingRequirement(KeyImpl::Backspace, ModifiersImpl::control()).code(), TextViewKeyBinding::held(ViewAction::Delete(Movement::Backward(TextKind::Word, 1))));
    m.insert(BindingRequirement(KeyImpl::C, ModifiersImpl::control()).code(), TextViewKeyBinding::press(ViewAction::Copy));
    m.insert(BindingRequirement(KeyImpl::X, ModifiersImpl::control()).code(), TextViewKeyBinding::press(ViewAction::Cut));
    m.insert(BindingRequirement(KeyImpl::V, ModifiersImpl::control()).code(), TextViewKeyBinding::press(ViewAction::Paste));
    m.insert(BindingRequirement(KeyImpl::Tab, ModifiersImpl::empty()).code(), TextViewKeyBinding::press(ViewAction::LineOperation(LineOperation::ShiftRight { shift_by: 4 })));
    m.insert(BindingRequirement(KeyImpl::Tab, ModifiersImpl::shift()).code(), TextViewKeyBinding::press(ViewAction::LineOperation(LineOperation::ShiftLeft { shift_by: 4 })));
    m
}

/// The InputboxBinding the editor starts with.
pub open spec fn ib_default_map() -> Map<u64, InputboxBinding> {
    Map::empty()
        .insert(binding_code(KeyImpl::Escape, 0), InputboxBinding::spec_press(InputboxAction::Cancel))
        .insert(binding_code(KeyImpl::CapsLock, 0), InputboxBinding::spec_press(InputboxAction::Cancel))
        .insert(binding_code(KeyImpl::Enter, 0), InputboxBinding::spec_press(InputboxAction::Confirm))
        .insert(binding_code(KeyImpl::Left, 0), InputboxBinding::spec_held(InputboxAction::MovecursorLeft))
        .insert(binding_code(KeyImpl::Right, 0), InputboxBinding::spec_held(InputboxAction::MovecursorRight))
        .insert(binding_code(KeyImpl::Up, 0), InputboxBinding::spec_held(InputboxAction::ScrollSelectionUp))
        .insert(binding_code(KeyImpl::Down, 0), InputboxBinding::spec_held(InputboxAction::ScrollSelectionDown))
        .insert(binding_code(KeyImpl::X, 2), InputboxBinding::spec_press(InputboxAction::Cut))
        .insert(binding_code(KeyImpl::C, 2), InputboxBinding::spec_press(InputboxAction::Copy))
        .insert(binding_code(KeyImpl::V, 2), InputboxBinding::spec_press(InputboxAction::Paste))
        .insert(binding_code(KeyImpl::Backspace, 2), InputboxBinding::spec_held(InputboxAction::Delete(Movement::Backward(TextKind::Word, 1))))
        .insert(binding_code(KeyImpl::Backspace, 0), InputboxBinding::spec_held(InputboxAction::Delete(Movement::Backward(TextKind::Char, 1))))
        .insert(binding_code(KeyImpl::Delete, 2), InputboxBinding::spec_held(InputboxAction::Delete(Movement::Forward(TextKind::Word, 1))))
        .insert(binding_code(KeyImpl::Delete, 0), InputboxBinding::spec_held(InputboxAction::Delete(Movement::Forward(TextKind::Char, 1))))
}

pub fn ib_default() -> (r: HashMap<u64, InputboxBinding>)
    ensures
        r@ == ib_default_map(),
{
    let mut m: HashMap<u64, InputboxBinding> = HashMap::new();
    m.insert(BindingRequirement(KeyImpl::Escape, ModifiersImpl::empty()).code(), InputboxBinding::press(InputboxAction::Cancel));
    m.insert(BindingRequirement(KeyImpl::CapsLock, ModifiersImpl::empty()).code(), InputboxBinding::press(InputboxAction::Cancel));
    m.insert(BindingRequirement(KeyImpl::Enter, ModifiersImpl::empty()).code(), InputboxBinding::press(InputboxAction::Confirm));
    m.insert(BindingRequirement(KeyImpl::Left, ModifiersImpl::empty()).code(), InputboxBinding::held(InputboxAction::MovecursorLeft));
    m.insert(BindingRequirement(KeyImpl::Right, ModifiersImpl::empty()).code(), InputboxBinding::held(InputboxAction::MovecursorRight));
    m.insert(BindingRequirement(KeyImpl::Up, ModifiersImpl::empty()).code(), InputboxBinding::held(InputboxAction::ScrollSelectionUp));
    m.insert(BindingRequirement(KeyImpl::Down, ModifiersImpl::empty()).code(), InputboxBinding::held(InputboxAction::ScrollSelectionDown));
    m.insert(BindingRequirement(KeyImpl::X, ModifiersImpl::control()).code(), InputboxBinding::press(InputboxAction::Cut));
    m.insert(BindingRequirement(KeyImpl::C, ModifiersImpl::control()).code(), InputboxBinding::press(InputboxAction::Copy));
    m.insert(BindingRequirement(KeyImpl::V, ModifiersImpl::control()).code(), InputboxBinding::press(InputboxAction::Paste));
    m.insert(BindingRequirement(KeyImpl::Backspace, ModifiersImpl::control()).code(), InputboxBinding::held(InputboxAction::Delete(Movement::Backward(TextKind::Word, 1))));
    m.insert(BindingRequirement(KeyImpl::Backspace, ModifiersImpl::empty()).code(), InputboxBinding::held(InputboxAction::Delete(Movement::Backward(TextKind::Char, 1))));
    m.insert(BindingRequirement(KeyImpl::Delete, ModifiersImpl::control()).code(), InputboxBinding::held(InputboxAction::Delete(Movement::Forward(TextKind::Word, 1))));
    m.insert(BindingRequirement(KeyImpl::Delete, ModifiersImpl::empty()).code(), InputboxBinding::held(InputboxAction::Delete(Movement::Forward(TextKind::Char, 1))));
    m
}

/// The AppBinding the editor starts with.
pub open spec fn app_default_map() -> Map<u64, AppBinding> {
    Map::empty()
        .insert(binding_code(KeyImpl::Escape, 0), AppBinding::spec_press(AppAction::Cancel))
        .insert(binding_code(KeyImpl::O, 2), AppBinding::spec_press(AppAction::OpenFile))
        .insert(binding_code(KeyImpl::I, 2i32 | 1i32), AppBinding::spec_press(AppAction::OpenFile))
        .insert(binding_code(KeyImpl::S, 2), AppBinding::spec_press(AppAction::SaveFile))
        .insert(binding_code(KeyImpl::F, 2i32 | 1i32), AppBinding::spec_press(AppAction::SearchInFiles))
        .insert(binding_code(KeyImpl::G, 2i32 | 1i32), AppBinding::spec_press(AppAction::GotoLineInFile))
        .insert(binding_code(KeyImpl::Tab, 2), AppBinding::spec_press(AppAction::CycleFocus))
        .insert(binding_code(KeyImpl::D, 2), AppBinding::spec_press(AppAction::ShowDebugInterface))
        .insert(binding_code(KeyImpl::W, 2), AppBinding::spec_press(AppAction::CloseActiveView(false)))
        .insert(binding_code(KeyImpl::W, 2i32 | 1i32), AppBinding::spec_press(AppAction::CloseActiveView(true)))
        .insert(binding_code(KeyImpl::Q, 2), AppBinding::spec_press(AppAction::Quit))
        .insert(binding_code(KeyImpl::N, 2), AppBinding::spec_press(AppAction::OpenNewView))
        .insert(binding_code(KeyImpl::P, 2i32 | 1i32), AppBinding::spec_press(AppAction::ListCommands))
}

pub fn app_default() -> (r: HashMap<u64, AppBinding>)
    ensures
        r@ == app_default_map(),
{
    let mut m: HashMap<u64, AppBinding> = HashMap::new();
    m.insert(BindingRequirement(KeyImpl::Escape, ModifiersImpl::empty()).code(), AppBinding::press(AppAction::Cancel));
    m.insert(BindingRequirement(KeyImpl::O, ModifiersImpl::control()).code(), AppBinding::press(AppAction::OpenFile));
    m.insert(BindingRequirement(KeyImpl::I, ModifiersImpl::control().union(ModifiersImpl::shift())).code(), AppBinding::press(AppAction::OpenFile));
    m.insert(BindingRequirement(KeyImpl::S, ModifiersImpl::control()).code(), AppBinding::press(AppAction::SaveFile));
    m.insert(BindingRequirement(KeyImpl::F, ModifiersImpl::control().union(ModifiersImpl::shift())).code(), AppBinding::press(AppAction::SearchInFiles));
    m.insert(BindingRequirement(KeyImpl::G, ModifiersImpl::control().union(ModifiersImpl::shift())).code(), AppBinding::press(AppAction::GotoLineInFile));
    m.insert(BindingRequirement(KeyImpl::Tab, ModifiersImpl::control()).code(), AppBinding::press(AppAction::CycleFocus));
    m.insert(BindingRequirement(KeyImpl::D, ModifiersImpl::control()).code(), AppBinding::press(AppAction::ShowDebugInterface));
    m.insert(BindingRequirement(KeyImpl::W, ModifiersImpl::control()).code(), AppBinding::press(AppAction::CloseActiveView(false)));
    m.insert(BindingRequirement(KeyImpl::W, ModifiersImpl::control().union(ModifiersImpl::shift())).code(), AppBinding::press(AppAction::CloseActiveView(true)));
    m.insert(BindingRequirement(KeyImpl::Q, ModifiersImpl::control()).code(), AppBinding::press(AppAction::Quit));
    m.insert(BindingRequirement(KeyImpl::N, ModifiersImpl::control()).code(), AppBinding::press(AppAction::OpenNewView));
    m.insert(BindingRequirement(KeyImpl::P, ModifiersImpl::control().union(ModifiersImpl::shift())).code(), AppBinding::press(AppAction::ListCommands));
    m
}

/// What a lookup in a table of bindings gives for a key action.
pub open spec fn looked_up<B, A>(table: Map<u64, B>, code: u64, pick: spec_fn(B) -> Option<A>) -> Option<A> {
    if table.contains_key(code) {
        pick(table[code])
    } else {
        None
    }
}

impl KeyBindings {
    pub fn new() -> (r: KeyBindings)
        ensures
            r.app_actions@ == Map::<u64, AppBinding>::empty(),
            r.textview_actions@ == Map::<u64, TextViewKeyBinding>::empty(),
            r.inputbox_actions@ == Map::<u64, InputboxBinding>::empty(),
    {
        KeyBindings { app_actions: HashMap::new(), textview_actions: HashMap::new(), inputbox_actions: HashMap::new() }
    }

    /// The bindings the editor starts with.
    pub fn default() -> (r: KeyBindings)
        ensures
            r.app_actions@ == app_default_map(),
            r.textview_actions@ == tv_default_map(),
            r.inputbox_actions@ == ib_default_map(),
    {
        let app_actions = app_default();
        let textview_actions = tv_default();
        let inputbox_actions = ib_default();
        KeyBindings { app_actions, textview_actions, inputbox_actions }
    }

    /// The text view action bound to the key with these modifiers, for the key action.
    pub fn translate_textview_input(&self, key: KeyImpl, action: KeyAction, modifiers: ModifiersImpl) -> (r: Option<ViewAction>)
        ensures
            r == looked_up(self.textview_actions@, binding_code(key, modifiers.spec_bits()), |b: TextViewKeyBinding| b.spec_action(action)),
    {
        let code = BindingRequirement(key, modifiers).code();
        match self.textview_actions.get(&code) {
            Some(binding) => binding.action(action),
            None => None,
        }
    }

    /// The input box action bound to the key with these modifiers, for the key action.
    pub fn translate_command_input(&self, key: KeyImpl, action: KeyAction, modifiers: ModifiersImpl) -> (r: Option<InputboxAction>)
        ensures
            r == looked_up(self.inputbox_actions@, binding_code(key, modifiers.spec_bits()), |b: InputboxBinding| b.spec_action(action)),
    {
        let code = BindingRequirement(key, modifiers).code();
        match self.inputbox_actions.get(&code) {
            Some(binding) => binding.action(action),
            None => None,
        }
    }

    /// The application action bound to the key with these modifiers, for the key action.
    pub fn translate_app_input(&self, key: KeyImpl, action: KeyAction, modifiers: ModifiersImpl) -> (r: Option<AppAction>)
        ensures
            r == looked_up(self.app_actions@, binding_code(key, modifiers.spec_bits()), |b: AppBinding| b.spec_action(action)),
    {
        let code = BindingRequirement(key, modifiers).code();
        match self.app_actions.get(&code) {
            Some(binding) => binding.action(action),
            None => None,
        }
    }

    /// The number of bindings in the three tables.
    pub fn total_keybindings(&self) -> (r: usize)
        requires
            self.app_actions@.len() + self.textview_actions@.len() + self.inputbox_actions@.len() <= usize::MAX,
        ensures
            r == self.app_actions@.len() + self.textview_actions@.len() + self.inputbox_actions@.len(),
    {
        self.app_actions.len() + self.textview_actions.len() + self.inputbox_actions.len()
    }
}

} // verus!
