//! Keys and key modifiers, with the names the key binding configuration uses for them.
use vstd::prelude::*;

use crate::textbuffer::strings::str_eq;

verus! {

/// Input keys.
#[derive(Copy, Clone, Eq, PartialEq, Structural, Hash, Debug)]
pub enum KeyImpl {
    Space,
    Apostrophe,
    Comma,
    Minus,
    Period,
    Slash,
    Num0,
    Num1,
    Num2,
    Num3,
    Num4,
    Num5,
    Num6,
    Num7,
    Num8,
    Num9,
    Semicolon,
    Equal,
    A,
    B,
    C,
    D,
    E,
    F,
    G,
    H,
    I,
    J,
    K,
    L,
    M,
    N,
    O,
    P,
    Q,
    R,
    S,
    T,
    U,
    V,
    W,
    X,
    Y,
    Z,
    LeftBracket,
    Backslash,
    RightBracket,
    GraveAccent,
    World1,
    World2,
    Escape,
    Enter,
    Tab,
    Backspace,
    Insert,
    Delete,
    Right,
    Left,
    Down,
    Up,
    PageUp,
    PageDown,
    Home,
    End,
    CapsLock,
    ScrollLock,
    NumLock,
    PrintScreen,
    Pause,
    F1,
    F2,
    F3,
    F4,
    F5,
    F6,
    F7,
    F8,
    F9,
    F10,
    F11,
    F12,
    F13,
    F14,
    F15,
    F16,
    F17,
    F18,
    F19,
    F20,
    F21,
    F22,
    F23,
    F24,
    F25,
    Kp0,
    Kp1,
    Kp2,
    Kp3,
    Kp4,
    Kp5,
    Kp6,
    Kp7,
    Kp8,
    Kp9,
    KpDecimal,
    KpDivide,
    KpMultiply,
    KpSubtract,
    KpAdd,
    KpEnter,
    KpEqual,
    LeftShift,
    LeftControl,
    LeftAlt,
    LeftSuper,
    RightShift,
    RightControl,
    RightAlt,
    RightSuper,
    Menu,
    Unknown,
}

/// The key's own name, as `Debug` writes it.
pub open spec fn key_debug_name(k: KeyImpl) -> Seq<char> {
    match k {
        KeyImpl::Space => "Space"@,
        KeyImpl::Apostrophe => "Apostrophe"@,
        KeyImpl::Comma => "Comma"@,
        KeyImpl::Minus => "Minus"@,
        KeyImpl::Period => "Period"@,
        KeyImpl::Slash => "Slash"@,
        KeyImpl::Num0 => "Num0"@,
        KeyImpl::Num1 => "Num1"@,
        KeyImpl::Num2 => "Num2"@,
        KeyImpl::Num3 => "Num3"@,
        KeyImpl::Num4 => "Num4"@,
        KeyImpl::Num5 => "Num5"@,
        KeyImpl::Num6 => "Num6"@,
        KeyImpl::Num7 => "Num7"@,
        KeyImpl::Num8 => "Num8"@,
        KeyImpl::Num9 => "Num9"@,
        KeyImpl::Semicolon => "Semicolon"@,
        KeyImpl::Equal => "Equal"@,
        KeyImpl::A => "A"@,
        KeyImpl::B => "B"@,
        KeyImpl::C => "C"@,
        KeyImpl::D => "D"@,
        KeyImpl::E => "E"@,
        KeyImpl::F => "F"@,
        KeyImpl::G => "G"@,
        KeyImpl::H => "H"@,
        KeyImpl::I => "I"@,
        KeyImpl::J => "J"@,
        KeyImpl::K => "K"@,
        KeyImpl::L => "L"@,
        KeyImpl::M => "M"@,
        KeyImpl::N => "N"@,
        KeyImpl::O => "O"@,
        KeyImpl::P => "P"@,
        KeyImpl::Q => "Q"@,
        KeyImpl::R => "R"@,
        KeyImpl::S => "S"@,
        KeyImpl::T => "T"@,
        KeyImpl::U => "U"@,
        KeyImpl::V => "V"@,
        KeyImpl::W => "W"@,
        KeyImpl::X => "X"@,
        KeyImpl::Y => "Y"@,
        KeyImpl::Z => "Z"@,
        KeyImpl::LeftBracket => "LeftBracket"@,
        KeyImpl::Backslash => "Backslash"@,
        KeyImpl::RightBracket => "RightBracket"@,
        KeyImpl::GraveAccent => "GraveAccent"@,
        KeyImpl::World1 => "World1"@,
        KeyImpl::World2 => "World2"@,
        KeyImpl::Escape => "Escape"@,
        KeyImpl::Enter => "Enter"@,
        KeyImpl::Tab => "Tab"@,
        KeyImpl::Backspace => "Backspace"@,
        KeyImpl::Insert => "Insert"@,
        KeyImpl::Delete => "Delete"@,
        KeyImpl::Right => "Right"@,
        KeyImpl::Left => "Left"@,
        KeyImpl::Down => "Down"@,
        KeyImpl::Up => "Up"@,
        KeyImpl::PageUp => "PageUp"@,
        KeyImpl::PageDown => "PageDown"@,
        KeyImpl::Home => "Home"@,
        KeyImpl::End => "End"@,
        KeyImpl::CapsLock => "CapsLock"@,
        KeyImpl::ScrollLock => "ScrollLock"@,
        KeyImpl::NumLock => "NumLock"@,
        KeyImpl::PrintScreen => "PrintScreen"@,
        KeyImpl::Pause => "Pause"@,
        KeyImpl::F1 => "F1"@,
        KeyImpl::F2 => "F2"@,
        KeyImpl::F3 => "F3"@,
        KeyImpl::F4 => "F4"@,
        KeyImpl::F5 => "F5"@,
        KeyImpl::F6 => "F6"@,
        KeyImpl::F7 => "F7"@,
        KeyImpl::F8 => "F8"@,
        KeyImpl::F9 => "F9"@,
        KeyImpl::F10 => "F10"@,
        KeyImpl::F11 => "F11"@,
        KeyImpl::F12 => "F12"@,
        KeyImpl::F13 => "F13"@,
        KeyImpl::F14 => "F14"@,
        KeyImpl::F15 => "F15"@,
        KeyImpl::F16 => "F16"@,
        KeyImpl::F17 => "F17"@,
        KeyImpl::F18 => "F18"@,
        KeyImpl::F19 => "F19"@,
        KeyImpl::F20 => "F20"@,
        KeyImpl::F21 => "F21"@,
        KeyImpl::F22 => "F22"@,
        KeyImpl::F23 => "F23"@,
        KeyImpl::F24 => "F24"@,
        KeyImpl::F25 => "F25"@,
        KeyImpl::Kp0 => "Kp0"@,
        KeyImpl::Kp1 => "Kp1"@,
        KeyImpl::Kp2 => "Kp2"@,
        KeyImpl::Kp3 => "Kp3"@,
        KeyImpl::Kp4 => "Kp4"@,
        KeyImpl::Kp5 => "Kp5"@,
        KeyImpl::Kp6 => "Kp6"@,
        KeyImpl::Kp7 => "Kp7"@,
        KeyImpl::Kp8 => "Kp8"@,
        KeyImpl::Kp9 => "Kp9"@,
        KeyImpl::KpDecimal => "KpDecimal"@,
        KeyImpl::KpDivide => "KpDivide"@,
        KeyImpl::KpMultiply => "KpMultiply"@,
        KeyImpl::KpSubtract => "KpSubtract"@,
        KeyImpl::KpAdd => "KpAdd"@,
        KeyImpl::KpEnter => "KpEnter"@,
        KeyImpl::KpEqual => "KpEqual"@,
        KeyImpl::LeftShift => "LeftShift"@,
        KeyImpl::LeftControl => "LeftControl"@,
        KeyImpl::LeftAlt => "LeftAlt"@,
        KeyImpl::LeftSuper => "LeftSuper"@,
        KeyImpl::RightShift => "RightShift"@,
        KeyImpl::RightControl => "RightControl"@,
        KeyImpl::RightAlt => "RightAlt"@,
        KeyImpl::RightSuper => "RightSuper"@,
        KeyImpl::Menu => "Menu"@,
        KeyImpl::Unknown => "Unknown"@,
    }
}

/// The key code that GLFW gives the key.
pub open spec fn spec_key_code(k: KeyImpl) -> i32 {
    match k {
        KeyImpl::Space => 32,
        KeyImpl::Apostrophe => 39,
        KeyImpl::Comma => 44,
        KeyImpl::Minus => 45,
        KeyImpl::Period => 46,
        KeyImpl::Slash => 47,
        KeyImpl::Num0 => 48,
        KeyImpl::Num1 => 49,
        KeyImpl::Num2 => 50,
        KeyImpl::Num3 => 51,
        KeyImpl::Num4 => 52,
        KeyImpl::Num5 => 53,
        KeyImpl::Num6 => 54,
        KeyImpl::Num7 => 55,
        KeyImpl::Num8 => 56,
        KeyImpl::Num9 => 57,
        KeyImpl::Semicolon => 59,
        KeyImpl::Equal => 61,
        KeyImpl::A => 65,
        KeyImpl::B => 66,
        KeyImpl::C => 67,
        KeyImpl::D => 68,
        KeyImpl::E => 69,
        KeyImpl::F => 70,
        KeyImpl::G => 71,
        KeyImpl::H => 72,
        KeyImpl::I => 73,
        KeyImpl::J => 74,
        KeyImpl::K => 75,
        KeyImpl::L => 76,
        KeyImpl::M => 77,
        KeyImpl::N => 78,
        KeyImpl::O => 79,
        KeyImpl::P => 80,
        KeyImpl::Q => 81,
        KeyImpl::R => 82,
        KeyImpl::S => 83,
        KeyImpl::T => 84,
        KeyImpl::U => 85,
        KeyImpl::V => 86,
        KeyImpl::W => 87,
        KeyImpl::X => 88,
        KeyImpl::Y => 89,
        KeyImpl::Z => 90,
        KeyImpl::LeftBracket => 91,
        KeyImpl::Backslash => 92,
        KeyImpl::RightBracket => 93,
        KeyImpl::GraveAccent => 96,
        KeyImpl::World1 => 161,
        KeyImpl::World2 => 162,
        KeyImpl::Escape => 256,
        KeyImpl::Enter => 257,
        KeyImpl::Tab => 258,
        KeyImpl::Backspace => 259,
        KeyImpl::Insert => 260,
        KeyImpl::Delete => 261,
        KeyImpl::Right => 262,
        KeyImpl::Left => 263,
        KeyImpl::Down => 264,
        KeyImpl::Up => 265,
        KeyImpl::PageUp => 266,
        KeyImpl::PageDown => 267,
        KeyImpl::Home => 268,
        KeyImpl::End => 269,
        KeyImpl::CapsLock => 280,
        KeyImpl::ScrollLock => 281,
        KeyImpl::NumLock => 282,
        KeyImpl::PrintScreen => 283,
        KeyImpl::Pause => 284,
        KeyImpl::F1 => 290,
        KeyImpl::F2 => 291,
        KeyImpl::F3 => 292,
        KeyImpl::F4 => 293,
        KeyImpl::F5 => 294,
        KeyImpl::F6 => 295,
        KeyImpl::F7 => 296,
        KeyImpl::F8 => 297,
        KeyImpl::F9 => 298,
        KeyImpl::F10 => 299,
        KeyImpl::F11 => 300,
        KeyImpl::F12 => 301,
        KeyImpl::F13 => 302,
        KeyImpl::F14 => 303,
        KeyImpl::F15 => 304,
        KeyImpl::F16 => 305,
        KeyImpl::F17 => 306,
        KeyImpl::F18 => 307,
        KeyImpl::F19 => 308,
        KeyImpl::F20 => 309,
        KeyImpl::F21 => 310,
        KeyImpl::F22 => 311,
        KeyImpl::F23 => 312,
        KeyImpl::F24 => 313,
        KeyImpl::F25 => 314,
        KeyImpl::Kp0 => 320,
        KeyImpl::Kp1 => 321,
        KeyImpl::Kp2 => 322,
        KeyImpl::Kp3 => 323,
        KeyImpl::Kp4 => 324,
        KeyImpl::Kp5 => 325,
        KeyImpl::Kp6 => 326,
        KeyImpl::Kp7 => 327,
        KeyImpl::Kp8 => 328,
        KeyImpl::Kp9 => 329,
        KeyImpl::KpDecimal => 330,
        KeyImpl::KpDivide => 331,
        KeyImpl::KpMultiply => 332,
        KeyImpl::KpSubtract => 333,
        KeyImpl::KpAdd => 334,
        KeyImpl::KpEnter => 335,
        KeyImpl::KpEqual => 336,
        KeyImpl::LeftShift => 340,
        KeyImpl::LeftControl => 341,
        KeyImpl::LeftAlt => 342,
        KeyImpl::LeftSuper => 343,
        KeyImpl::RightShift => 344,
        KeyImpl::RightControl => 345,
        KeyImpl::RightAlt => 346,
        KeyImpl::RightSuper => 347,
        KeyImpl::Menu => 348,
        KeyImpl::Unknown => -1i32,
    }
}

impl KeyImpl {
    /// The key's own name, as `Debug` writes it.
    pub fn name(&self) -> (r: &'static str)
        ensures
            r@ == key_debug_name(*self),
    {
        match self {
            KeyImpl::Space => "Space",
            KeyImpl::Apostrophe => "Apostrophe",
            KeyImpl::Comma => "Comma",
            KeyImpl::Minus => "Minus",
            KeyImpl::Period => "Period",
            KeyImpl::Slash => "Slash",
            KeyImpl::Num0 => "Num0",
            KeyImpl::Num1 => "Num1",
            KeyImpl::Num2 => "Num2",
            KeyImpl::Num3 => "Num3",
            KeyImpl::Num4 => "Num4",
            KeyImpl::Num5 => "Num5",
            KeyImpl::Num6 => "Num6",
            KeyImpl::Num7 => "Num7",
            KeyImpl::Num8 => "Num8",
            KeyImpl::Num9 => "Num9",
            KeyImpl::Semicolon => "Semicolon",
            KeyImpl::Equal => "Equal",
            KeyImpl::A => "A",
            KeyImpl::B => "B",
            KeyImpl::C => "C",
            KeyImpl::D => "D",
            KeyImpl::E => "E",
            KeyImpl::F => "F",
            KeyImpl::G => "G",
            KeyImpl::H => "H",
            KeyImpl::I => "I",
            KeyImpl::J => "J",
            KeyImpl::K => "K",
            KeyImpl::L => "L",
            KeyImpl::M => "M",
            KeyImpl::N => "N",
            KeyImpl::O => "O",
            KeyImpl::P => "P",
            KeyImpl::Q => "Q",
            KeyImpl::R => "R",
            KeyImpl::S => "S",
            KeyImpl::T => "T",
            KeyImpl::U => "U",
            KeyImpl::V => "V",
            KeyImpl::W => "W",
            KeyImpl::X => "X",
            KeyImpl::Y => "Y",
            KeyImpl::Z => "Z",
            KeyImpl::LeftBracket => "LeftBracket",
            KeyImpl::Backslash => "Backslash",
            KeyImpl::RightBracket => "RightBracket",
            KeyImpl::GraveAccent => "GraveAccent",
            KeyImpl::World1 => "World1",
            KeyImpl::World2 => "World2",
            KeyImpl::Escape => "Escape",
            KeyImpl::Enter => "Enter",
            KeyImpl::Tab => "Tab",
            KeyImpl::Backspace => "Backspace",
            KeyImpl::Insert => "Insert",
            KeyImpl::Delete => "Delete",
            KeyImpl::Right => "Right",
            KeyImpl::Left => "Left",
            KeyImpl::Down => "Down",
            KeyImpl::Up => "Up",
            KeyImpl::PageUp => "PageUp",
            KeyImpl::PageDown => "PageDown",
            KeyImpl::Home => "Home",
            KeyImpl::End => "End",
            KeyImpl::CapsLock => "CapsLock",
            KeyImpl::ScrollLock => "ScrollLock",
            KeyImpl::NumLock => "NumLock",
            KeyImpl::PrintScreen => "PrintScreen",
            KeyImpl::Pause => "Pause",
            KeyImpl::F1 => "F1",
            KeyImpl::F2 => "F2",
            KeyImpl::F3 => "F3",
            KeyImpl::F4 => "F4",
            KeyImpl::F5 => "F5",
            KeyImpl::F6 => "F6",
            KeyImpl::F7 => "F7",
            KeyImpl::F8 => "F8",
            KeyImpl::F9 => "F9",
            KeyImpl::F10 => "F10",
            KeyImpl::F11 => "F11",
            KeyImpl::F12 => "F12",
            KeyImpl::F13 => "F13",
            KeyImpl::F14 => "F14",
            KeyImpl::F15 => "F15",
            KeyImpl::F16 => "F16",
            KeyImpl::F17 => "F17",
            KeyImpl::F18 => "F18",
            KeyImpl::F19 => "F19",
            KeyImpl::F20 => "F20",
            KeyImpl::F21 => "F21",
            KeyImpl::F22 => "F22",
            KeyImpl::F23 => "F23",
            KeyImpl::F24 => "F24",
            KeyImpl::F25 => "F25",
            KeyImpl::Kp0 => "Kp0",
            KeyImpl::Kp1 => "Kp1",
            KeyImpl::Kp2 => "Kp2",
            KeyImpl::Kp3 => "Kp3",
            KeyImpl::Kp4 => "Kp4",
            KeyImpl::Kp5 => "Kp5",
            KeyImpl::Kp6 => "Kp6",
            KeyImpl::Kp7 => "Kp7",
            KeyImpl::Kp8 => "Kp8",
            KeyImpl::Kp9 => "Kp9",
            KeyImpl::KpDecimal => "KpDecimal",
            KeyImpl::KpDivide => "KpDivide",
            KeyImpl::KpMultiply => "KpMultiply",
            KeyImpl::KpSubtract => "KpSubtract",
            KeyImpl::KpAdd => "KpAdd",
            KeyImpl::KpEnter => "KpEnter",
            KeyImpl::KpEqual => "KpEqual",
            KeyImpl::LeftShift => "LeftShift",
            KeyImpl::LeftControl => "LeftControl",
            KeyImpl::LeftAlt => "LeftAlt",
            KeyImpl::LeftSuper => "LeftSuper",
            KeyImpl::RightShift => "RightShift",
            KeyImpl::RightControl => "RightControl",
            KeyImpl::RightAlt => "RightAlt",
            KeyImpl::RightSuper => "RightSuper",
            KeyImpl::Menu => "Menu",
            KeyImpl::Unknown => "Unknown",
        }
    }

    /// The key code that GLFW gives the key.
    pub fn code(&self) -> (r: i32)
        ensures
            r == spec_key_code(*self),
    {
        match self {
            KeyImpl::Space => 32,
            KeyImpl::Apostrophe => 39,
            KeyImpl::Comma => 44,
            KeyImpl::Minus => 45,
            KeyImpl::Period => 46,
            KeyImpl::Slash => 47,
            KeyImpl::Num0 => 48,
            KeyImpl::Num1 => 49,
            KeyImpl::Num2 => 50,
            KeyImpl::Num3 => 51,
            KeyImpl::Num4 => 52,
            KeyImpl::Num5 => 53,
            KeyImpl::Num6 => 54,
            KeyImpl::Num7 => 55,
            KeyImpl::Num8 => 56,
            KeyImpl::Num9 => 57,
            KeyImpl::Semicolon => 59,
            KeyImpl::Equal => 61,
            KeyImpl::A => 65,
            KeyImpl::B => 66,
            KeyImpl::C => 67,
            KeyImpl::D => 68,
            KeyImpl::E => 69,
            KeyImpl::F => 70,
            KeyImpl::G => 71,
            KeyImpl::H => 72,
            KeyImpl::I => 73,
            KeyImpl::J => 74,
            KeyImpl::K => 75,
            KeyImpl::L => 76,
            KeyImpl::M => 77,
            KeyImpl::N => 78,
            KeyImpl::O => 79,
            KeyImpl::P => 80,
            KeyImpl::Q => 81,
            KeyImpl::R => 82,
            KeyImpl::S => 83,
            KeyImpl::T => 84,
            KeyImpl::U => 85,
            KeyImpl::V => 86,
            KeyImpl::W => 87,
            KeyImpl::X => 88,
            KeyImpl::Y => 89,
            KeyImpl::Z => 90,
            KeyImpl::LeftBracket => 91,
            KeyImpl::Backslash => 92,
            KeyImpl::RightBracket => 93,
            KeyImpl::GraveAccent => 96,
            KeyImpl::World1 => 161,
            KeyImpl::World2 => 162,
            KeyImpl::Escape => 256,
            KeyImpl::Enter => 257,
            KeyImpl::Tab => 258,
            KeyImpl::Backspace => 259,
            KeyImpl::Insert => 260,
            KeyImpl::Delete => 261,
            KeyImpl::Right => 262,
            KeyImpl::Left => 263,
            KeyImpl::Down => 264,
            KeyImpl::Up => 265,
            KeyImpl::PageUp => 266,
            KeyImpl::PageDown => 267,
            KeyImpl::Home => 268,
            KeyImpl::End => 269,
            KeyImpl::CapsLock => 280,
            KeyImpl::ScrollLock => 281,
            KeyImpl::NumLock => 282,
            KeyImpl::PrintScreen => 283,
            KeyImpl::Pause => 284,
            KeyImpl::F1 => 290,
            KeyImpl::F2 => 291,
            KeyImpl::F3 => 292,
            KeyImpl::F4 => 293,
            KeyImpl::F5 => 294,
            KeyImpl::F6 => 295,
            KeyImpl::F7 => 296,
            KeyImpl::F8 => 297,
            KeyImpl::F9 => 298,
            KeyImpl::F10 => 299,
            KeyImpl::F11 => 300,
            KeyImpl::F12 => 301,
            KeyImpl::F13 => 302,
            KeyImpl::F14 => 303,
            KeyImpl::F15 => 304,
            KeyImpl::F16 => 305,
            KeyImpl::F17 => 306,
            KeyImpl::F18 => 307,
            KeyImpl::F19 => 308,
            KeyImpl::F20 => 309,
            KeyImpl::F21 => 310,
            KeyImpl::F22 => 311,
            KeyImpl::F23 => 312,
            KeyImpl::F24 => 313,
            KeyImpl::F25 => 314,
            KeyImpl::Kp0 => 320,
            KeyImpl::Kp1 => 321,
            KeyImpl::Kp2 => 322,
            KeyImpl::Kp3 => 323,
            KeyImpl::Kp4 => 324,
            KeyImpl::Kp5 => 325,
            KeyImpl::Kp6 => 326,
            KeyImpl::Kp7 => 327,
            KeyImpl::Kp8 => 328,
            KeyImpl::Kp9 => 329,
            KeyImpl::KpDecimal => 330,
            KeyImpl::KpDivide => 331,
            KeyImpl::KpMultiply => 332,
            KeyImpl::KpSubtract => 333,
            KeyImpl::KpAdd => 334,
            KeyImpl::KpEnter => 335,
            KeyImpl::KpEqual => 336,
            KeyImpl::LeftShift => 340,
            KeyImpl::LeftControl => 341,
            KeyImpl::LeftAlt => 342,
            KeyImpl::LeftSuper => 343,
            KeyImpl::RightShift => 344,
            KeyImpl::RightControl => 345,
            KeyImpl::RightAlt => 346,
            KeyImpl::RightSuper => 347,
            KeyImpl::Menu => 348,
            KeyImpl::Unknown => -1,
        }
    }

    /// The key with this GLFW key code, if there is one.
    pub fn from_code(code: i32) -> (r: Option<KeyImpl>)
        ensures
            match r {
                Some(k) => spec_key_code(k) == code,
                None => forall|k: KeyImpl| spec_key_code(k) != code,
            },
    {
        match code {
            32 => Some(KeyImpl::Space),
            39 => Some(KeyImpl::Apostrophe),
            44 => Some(KeyImpl::Comma),
            45 => Some(KeyImpl::Minus),
            46 => Some(KeyImpl::Period),
            47 => Some(KeyImpl::Slash),
            48 => Some(KeyImpl::Num0),
            49 => Some(KeyImpl::Num1),
            50 => Some(KeyImpl::Num2),
            51 => Some(KeyImpl::Num3),
            52 => Some(KeyImpl::Num4),
            53 => Some(KeyImpl::Num5),
            54 => Some(KeyImpl::Num6),
            55 => Some(KeyImpl::Num7),
            56 => Some(KeyImpl::Num8),
            57 => Some(KeyImpl::Num9),
            59 => Some(KeyImpl::Semicolon),
            61 => Some(KeyImpl::Equal),
            65 => Some(KeyImpl::A),
            66 => Some(KeyImpl::B),
            67 => Some(KeyImpl::C),
            68 => Some(KeyImpl::D),
            69 => Some(KeyImpl::E),
            70 => Some(KeyImpl::F),
            71 => Some(KeyImpl::G),
            72 => Some(KeyImpl::H),
            73 => Some(KeyImpl::I),
            74 => Some(KeyImpl::J),
            75 => Some(KeyImpl::K),
            76 => Some(KeyImpl::L),
            77 => Some(KeyImpl::M),
            78 => Some(KeyImpl::N),
            79 => Some(KeyImpl::O),
            80 => Some(KeyImpl::P),
            81 => Some(KeyImpl::Q),
            82 => Some(KeyImpl::R),
            83 => Some(KeyImpl::S),
            84 => Some(KeyImpl::T),
            85 => Some(KeyImpl::U),
            86 => Some(KeyImpl::V),
            87 => Some(KeyImpl::W),
            88 => Some(KeyImpl::X),
            89 => Some(KeyImpl::Y),
            90 => Some(KeyImpl::Z),
            91 => Some(KeyImpl::LeftBracket),
            92 => Some(KeyImpl::Backslash),
            93 => Some(KeyImpl::RightBracket),
            96 => Some(KeyImpl::GraveAccent),
            161 => Some(KeyImpl::World1),
            162 => Some(KeyImpl::World2),
            256 => Some(KeyImpl::Escape),
            257 => Some(KeyImpl::Enter),
            258 => Some(KeyImpl::Tab),
            259 => Some(KeyImpl::Backspace),
            260 => Some(KeyImpl::Insert),
            261 => Some(KeyImpl::Delete),
            262 => Some(KeyImpl::Right),
            263 => Some(KeyImpl::Left),
            264 => Some(KeyImpl::Down),
            265 => Some(KeyImpl::Up),
            266 => Some(KeyImpl::PageUp),
            267 => Some(KeyImpl::PageDown),
            268 => Some(KeyImpl::Home),
            269 => Some(KeyImpl::End),
            280 => Some(KeyImpl::CapsLock),
            281 => Some(KeyImpl::ScrollLock),
            282 => Some(KeyImpl::NumLock),
            283 => Some(KeyImpl::PrintScreen),
            284 => Some(KeyImpl::Pause),
            290 => Some(KeyImpl::F1),
            291 => Some(KeyImpl::F2),
            292 => Some(KeyImpl::F3),
            293 => Some(KeyImpl::F4),
            294 => Some(KeyImpl::F5),
            295 => Some(KeyImpl::F6),
            296 => Some(KeyImpl::F7),
            297 => Some(KeyImpl::F8),
            298 => Some(KeyImpl::F9),
            299 => Some(KeyImpl::F10),
            300 => Some(KeyImpl::F11),
            301 => Some(KeyImpl::F12),
            302 => Some(KeyImpl::F13),
            303 => Some(KeyImpl::F14),
            304 => Some(KeyImpl::F15),
            305 => Some(KeyImpl::F16),
            306 => Some(KeyImpl::F17),
            307 => Some(KeyImpl::F18),
            308 => Some(KeyImpl::F19),
            309 => Some(KeyImpl::F20),
            310 => Some(KeyImpl::F21),
            311 => Some(KeyImpl::F22),
            312 => Some(KeyImpl::F23),
            313 => Some(KeyImpl::F24),
            314 => Some(KeyImpl::F25),
            320 => Some(KeyImpl::Kp0),
            321 => Some(KeyImpl::Kp1),
            322 => Some(KeyImpl::Kp2),
            323 => Some(KeyImpl::Kp3),
            324 => Some(KeyImpl::Kp4),
            325 => Some(KeyImpl::Kp5),
            326 => Some(KeyImpl::Kp6),
            327 => Some(KeyImpl::Kp7),
            328 => Some(KeyImpl::Kp8),
            329 => Some(KeyImpl::Kp9),
            330 => Some(KeyImpl::KpDecimal),
            331 => Some(KeyImpl::KpDivide),
            332 => Some(KeyImpl::KpMultiply),
            333 => Some(KeyImpl::KpSubtract),
            334 => Some(KeyImpl::KpAdd),
            335 => Some(KeyImpl::KpEnter),
            336 => Some(KeyImpl::KpEqual),
            340 => Some(KeyImpl::LeftShift),
            341 => Some(KeyImpl::LeftControl),
            342 => Some(KeyImpl::LeftAlt),
            343 => Some(KeyImpl::LeftSuper),
            344 => Some(KeyImpl::RightShift),
            345 => Some(KeyImpl::RightControl),
            346 => Some(KeyImpl::RightAlt),
            347 => Some(KeyImpl::RightSuper),
            348 => Some(KeyImpl::Menu),
            -1 => Some(KeyImpl::Unknown),
            _ => None,
        }
    }

    /// Reads a key from its own name, the one `name` gives and the key binding
    /// configuration writes.
    pub fn from_str(s: &str) -> (r: Result<KeyImpl, &'static str>)
        ensures
            match key_from_name(s@) {
                Some(k) => r == Ok::<KeyImpl, &'static str>(k),
                None => r is Err && r->Err_0@ == "could not do fromstr for keyimpl"@,
            },
            match r {
                Ok(k) => key_debug_name(k) == s@,
                Err(e) => forall|k: KeyImpl| key_debug_name(k) != s@,
            },
    {
        if str_eq(s, "Space") {
            return Ok(KeyImpl::Space);
        }
        if str_eq(s, "Apostrophe") {
            return Ok(KeyImpl::Apostrophe);
        }
        if str_eq(s, "Comma") {
            return Ok(KeyImpl::Comma);
        }
        if str_eq(s, "Minus") {
            return Ok(KeyImpl::Minus);
        }
        if str_eq(s, "Period") {
            return Ok(KeyImpl::Period);
        }
        if str_eq(s, "Slash") {
            return Ok(KeyImpl::Slash);
        }
        if str_eq(s, "Num0") {
            return Ok(KeyImpl::Num0);
        }
        if str_eq(s, "Num1") {
            return Ok(KeyImpl::Num1);
        }
        if str_eq(s, "Num2") {
            return Ok(KeyImpl::Num2);
        }
        if str_eq(s, "Num3") {
            return Ok(KeyImpl::Num3);
        }
        if str_eq(s, "Num4") {
            return Ok(KeyImpl::Num4);
        }
        if str_eq(s, "Num5") {
            return Ok(KeyImpl::Num5);
        }
        if str_eq(s, "Num6") {
            return Ok(KeyImpl::Num6);
        }
        if str_eq(s, "Num7") {
            return Ok(KeyImpl::Num7);
        }
        if str_eq(s, "Num8") {
            return Ok(KeyImpl::Num8);
        }
        if str_eq(s, "Num9") {
            return Ok(KeyImpl::Num9);
        }
        if str_eq(s, "Semicolon") {
            return Ok(KeyImpl::Semicolon);
        }
        if str_eq(s, "Equal") {
            return Ok(KeyImpl::Equal);
        }
        if str_eq(s, "A") {
            return Ok(KeyImpl::A);
        }
        if str_eq(s, "B") {
            return Ok(KeyImpl::B);
        }
        if str_eq(s, "C") {
            return Ok(KeyImpl::C);
        }
        if str_eq(s, "D") {
            return Ok(KeyImpl::D);
        }
        if str_eq(s, "E") {
            return Ok(KeyImpl::E);
        }
        if str_eq(s, "F") {
            return Ok(KeyImpl::F);
        }
        if str_eq(s, "G") {
            return Ok(KeyImpl::G);
        }
        if str_eq(s, "H") {
            return Ok(KeyImpl::H);
        }
        if str_eq(s, "I") {
            return Ok(KeyImpl::I);
        }
        if str_eq(s, "J") {
            return Ok(KeyImpl::J);
        }
        if str_eq(s, "K") {
            return Ok(KeyImpl::K);
        }
        if str_eq(s, "L") {
            return Ok(KeyImpl::L);
        }
        if str_eq(s, "M") {
            return Ok(KeyImpl::M);
        }
        if str_eq(s, "N") {
            return Ok(KeyImpl::N);
        }
        if str_eq(s, "O") {
            return Ok(KeyImpl::O);
        }
        if str_eq(s, "P") {
            return Ok(KeyImpl::P);
        }
        if str_eq(s, "Q") {
            return Ok(KeyImpl::Q);
        }
        if str_eq(s, "R") {
            return Ok(KeyImpl::R);
        }
        if str_eq(s, "S") {
            return Ok(KeyImpl::S);
        }
        if str_eq(s, "T") {
            return Ok(KeyImpl::T);
        }
        if str_eq(s, "U") {
            return Ok(KeyImpl::U);
        }
        if str_eq(s, "V") {
            return Ok(KeyImpl::V);
        }
        if str_eq(s, "W") {
            return Ok(KeyImpl::W);
        }
        if str_eq(s, "X") {
            return Ok(KeyImpl::X);
        }
        if str_eq(s, "Y") {
            return Ok(KeyImpl::Y);
        }
        if str_eq(s, "Z") {
            return Ok(KeyImpl::Z);
        }
        if str_eq(s, "LeftBracket") {
            return Ok(KeyImpl::LeftBracket);
        }
        if str_eq(s, "Backslash") {
            return Ok(KeyImpl::Backslash);
        }
        if str_eq(s, "RightBracket") {
            return Ok(KeyImpl::RightBracket);
        }
        if str_eq(s, "GraveAccent") {
            return Ok(KeyImpl::GraveAccent);
        }
        if str_eq(s, "World1") {
            return Ok(KeyImpl::World1);
        }
        if str_eq(s, "World2") {
            return Ok(KeyImpl::World2);
        }
        if str_eq(s, "Escape") {
            return Ok(KeyImpl::Escape);
        }
        if str_eq(s, "Enter") {
            return Ok(KeyImpl::Enter);
        }
        if str_eq(s, "Tab") {
            return Ok(KeyImpl::Tab);
        }
        if str_eq(s, "Backspace") {
            return Ok(KeyImpl::Backspace);
        }
        if str_eq(s, "Insert") {
            return Ok(KeyImpl::Insert);
        }
        if str_eq(s, "Delete") {
            return Ok(KeyImpl::Delete);
        }
        if str_eq(s, "Right") {
            return Ok(KeyImpl::Right);
        }
        if str_eq(s, "Left") {
            return Ok(KeyImpl::Left);
        }
        if str_eq(s, "Down") {
            return Ok(KeyImpl::Down);
        }
        if str_eq(s, "Up") {
            return Ok(KeyImpl::Up);
        }
        if str_eq(s, "PageUp") {
            return Ok(KeyImpl::PageUp);
        }
        if str_eq(s, "PageDown") {
            return Ok(KeyImpl::PageDown);
        }
        if str_eq(s, "Home") {
            return Ok(KeyImpl::Home);
        }
        if str_eq(s, "End") {
            return Ok(KeyImpl::End);
        }
        if str_eq(s, "CapsLock") {
            return Ok(KeyImpl::CapsLock);
        }
        if str_eq(s, "ScrollLock") {
            return Ok(KeyImpl::ScrollLock);
        }
        if str_eq(s, "NumLock") {
            return Ok(KeyImpl::NumLock);
        }
        if str_eq(s, "PrintScreen") {
            return Ok(KeyImpl::PrintScreen);
        }
        if str_eq(s, "Pause") {
            return Ok(KeyImpl::Pause);
        }
        if str_eq(s, "F1") {
            return Ok(KeyImpl::F1);
        }
        if str_eq(s, "F2") {
            return Ok(KeyImpl::F2);
        }
        if str_eq(s, "F3") {
            return Ok(KeyImpl::F3);
        }
        if str_eq(s, "F4") {
            return Ok(KeyImpl::F4);
        }
        if str_eq(s, "F5") {
            return Ok(KeyImpl::F5);
        }
        if str_eq(s, "F6") {
            return Ok(KeyImpl::F6);
        }
        if str_eq(s, "F7") {
            return Ok(KeyImpl::F7);
        }
        if str_eq(s, "F8") {
            return Ok(KeyImpl::F8);
        }
        if str_eq(s, "F9") {
            return Ok(KeyImpl::F9);
        }
        if str_eq(s, "F10") {
            return Ok(KeyImpl::F10);
        }
        if str_eq(s, "F11") {
            return Ok(KeyImpl::F11);
        }
        if str_eq(s, "F12") {
            return Ok(KeyImpl::F12);
        }
        if str_eq(s, "F13") {
            return Ok(KeyImpl::F13);
        }
        if str_eq(s, "F14") {
            return Ok(KeyImpl::F14);
        }
        if str_eq(s, "F15") {
            return Ok(KeyImpl::F15);
        }
        if str_eq(s, "F16") {
            return Ok(KeyImpl::F16);
        }
        if str_eq(s, "F17") {
            return Ok(KeyImpl::F17);
        }
        if str_eq(s, "F18") {
            return Ok(KeyImpl::F18);
        }
        if str_eq(s, "F19") {
            return Ok(KeyImpl::F19);
        }
        if str_eq(s, "F20") {
            return Ok(KeyImpl::F20);
        }
        if str_eq(s, "F21") {
            return Ok(KeyImpl::F21);
        }
        if str_eq(s, "F22") {
            return Ok(KeyImpl::F22);
        }
        if str_eq(s, "F23") {
            return Ok(KeyImpl::F23);
        }
        if str_eq(s, "F24") {
            return Ok(KeyImpl::F24);
        }
        if str_eq(s, "F25") {
            return Ok(KeyImpl::F25);
        }
        if str_eq(s, "Kp0") {
            return Ok(KeyImpl::Kp0);
        }
        if str_eq(s, "Kp1") {
            return Ok(KeyImpl::Kp1);
        }
        if str_eq(s, "Kp2") {
            return Ok(KeyImpl::Kp2);
        }
        if str_eq(s, "Kp3") {
            return Ok(KeyImpl::Kp3);
        }
        if str_eq(s, "Kp4") {
            return Ok(KeyImpl::Kp4);
        }
        if str_eq(s, "Kp5") {
            return Ok(KeyImpl::Kp5);
        }
        if str_eq(s, "Kp6") {
            return Ok(KeyImpl::Kp6);
        }
        if str_eq(s, "Kp7") {
            return Ok(KeyImpl::Kp7);
        }
        if str_eq(s, "Kp8") {
            return Ok(KeyImpl::Kp8);
        }
        if str_eq(s, "Kp9") {
            return Ok(KeyImpl::Kp9);
        }
        if str_eq(s, "KpDecimal") {
            return Ok(KeyImpl::KpDecimal);
        }
        if str_eq(s, "KpDivide") {
            return Ok(KeyImpl::KpDivide);
        }
        if str_eq(s, "KpMultiply") {
            return Ok(KeyImpl::KpMultiply);
        }
        if str_eq(s, "KpSubtract") {
            return Ok(KeyImpl::KpSubtract);
        }
        if str_eq(s, "KpAdd") {
            return Ok(KeyImpl::KpAdd);
        }
        if str_eq(s, "KpEnter") {
            return Ok(KeyImpl::KpEnter);
        }
        if str_eq(s, "KpEqual") {
            return Ok(KeyImpl::KpEqual);
        }
        if str_eq(s, "LeftShift") {
            return Ok(KeyImpl::LeftShift);
        }
        if str_eq(s, "LeftControl") {
            return Ok(KeyImpl::LeftControl);
        }
        if str_eq(s, "LeftAlt") {
            return Ok(KeyImpl::LeftAlt);
        }
        if str_eq(s, "LeftSuper") {
            return Ok(KeyImpl::LeftSuper);
        }
        if str_eq(s, "RightShift") {
            return Ok(KeyImpl::RightShift);
        }
        if str_eq(s, "RightControl") {
            return Ok(KeyImpl::RightControl);
        }
        if str_eq(s, "RightAlt") {
            return Ok(KeyImpl::RightAlt);
        }
        if str_eq(s, "RightSuper") {
            return Ok(KeyImpl::RightSuper);
        }
        if str_eq(s, "Menu") {
            return Ok(KeyImpl::Menu);
        }
        if str_eq(s, "Unknown") {
            return Ok(KeyImpl::Unknown);
        }
        Err("could not do fromstr for keyimpl")
    }
}


/// Key modifiers (Shift, Control, Alt, Super, Caps Lock, Num Lock) as the
/// GLFW bit flags: the bits other than those six are always clear.
#[derive(Copy, Clone, PartialEq, Eq, Structural, Hash, Debug)]
pub struct ModifiersImpl {
    bits: i32,
}

/// The bits of all six modifiers.
pub open spec fn all_modifier_bits() -> i32 {
    0x3f
}

/// The name the configuration writes for a set of modifiers; empty for the
/// sets it has no name for.
pub open spec fn modifiers_name(bits: i32) -> Seq<char> {
    if bits == 2 {
        "ctrl"@
    }
    else if bits == 1 {
        "shift"@
    }
    else if bits == 4 {
        "alt"@
    }
    else if bits == 8 {
        "meta"@
    }
    else if bits == 15 {
        "ctrl+alt+shift+meta"@
    }
    else if bits == 7 {
        "ctrl+alt+shift"@
    }
    else if bits == 11 {
        "ctrl+shift+meta"@
    }
    else if bits == 14 {
        "ctrl+alt+meta"@
    }
    else if bits == 13 {
        "alt+shift+meta"@
    }
    else if bits == 6 {
        "ctrl+alt"@
    }
    else if bits == 3 {
        "ctrl+shift"@
    }
    else if bits == 10 {
        "ctrl+meta"@
    }
    else if bits == 5 {
        "alt+shift"@
    }
    else if bits == 12 {
        "alt+meta"@
    }
    else if bits == 9 {
        "shift+meta"@
    }
 else {
        Seq::<char>::empty()
    }
}

/// The set of modifiers a configuration name stands for.
pub open spec fn modifiers_from_name(s: Seq<char>) -> Option<i32> {
    if s == "ctrl"@ {
        Some(2i32)
    }
    else if s == "shift"@ {
        Some(1i32)
    }
    else if s == "alt"@ {
        Some(4i32)
    }
    else if s == "meta"@ {
        Some(8i32)
    }
    else if s == "ctrl+alt+shift+meta"@ {
        Some(15i32)
    }
    else if s == "ctrl+alt+shift"@ {
        Some(7i32)
    }
    else if s == "ctrl+shift+meta"@ {
        Some(11i32)
    }
    else if s == "ctrl+alt+meta"@ {
        Some(14i32)
    }
    else if s == "alt+shift+meta"@ {
        Some(13i32)
    }
    else if s == "ctrl+alt"@ {
        Some(6i32)
    }
    else if s == "ctrl+shift"@ {
        Some(3i32)
    }
    else if s == "ctrl+meta"@ {
        Some(10i32)
    }
    else if s == "alt+shift"@ {
        Some(5i32)
    }
    else if s == "alt+meta"@ {
        Some(12i32)
    }
    else if s == "shift+meta"@ {
        Some(9i32)
    }
 else {
        None
    }
}

impl ModifiersImpl {
    pub closed spec fn spec_bits(self) -> i32 {
        self.bits
    }

    #[verifier::type_invariant]
    closed spec fn inv(self) -> bool {
        0 <= self.bits <= all_modifier_bits()
    }

    pub fn bits(&self) -> (r: i32)
        ensures
            r == self.spec_bits(),
            0 <= r <= all_modifier_bits(),
    {
        proof {
            use_type_invariant(self);
        }
        self.bits
    }

    /// The modifiers whose bits are set in `bits`; other bits are dropped.
    pub fn from_bits_truncate(bits: i32) -> (r: ModifiersImpl)
        ensures
            r.spec_bits() == bits & all_modifier_bits(),
    {
        let b = bits & 0x3f;
        assert(0 <= b <= 0x3f) by (bit_vector)
            requires
                b == bits & 0x3f,
        ;
        ModifiersImpl { bits: b }
    }

    pub fn empty() -> (r: ModifiersImpl)
        ensures
            r.spec_bits() == 0,
    {
        ModifiersImpl { bits: 0 }
    }

    pub fn shift() -> (r: ModifiersImpl)
        ensures
            r.spec_bits() == 0x1,
    {
        ModifiersImpl { bits: 0x1 }
    }

    pub fn control() -> (r: ModifiersImpl)
        ensures
            r.spec_bits() == 0x2,
    {
        ModifiersImpl { bits: 0x2 }
    }

    pub fn alt() -> (r: ModifiersImpl)
        ensures
            r.spec_bits() == 0x4,
    {
        ModifiersImpl { bits: 0x4 }
    }

    pub fn super_key() -> (r: ModifiersImpl)
        ensures
            r.spec_bits() == 0x8,
    {
        ModifiersImpl { bits: 0x8 }
    }

    pub fn caps_lock() -> (r: ModifiersImpl)
        ensures
            r.spec_bits() == 0x10,
    {
        ModifiersImpl { bits: 0x10 }
    }

    pub fn num_lock() -> (r: ModifiersImpl)
        ensures
            r.spec_bits() == 0x20,
    {
        ModifiersImpl { bits: 0x20 }
    }

    /// The modifiers of both sets, as `|` on the flags.
    pub fn union(self, other: ModifiersImpl) -> (r: ModifiersImpl)
        ensures
            r.spec_bits() == self.spec_bits() | other.spec_bits(),
    {
        proof {
            use_type_invariant(&self);
            use_type_invariant(&other);
        }
        let a = self.bits;
        let b = other.bits;
        let c = a | b;
        assert(0 <= c <= 0x3f) by (bit_vector)
            requires
                0 <= a <= 0x3f,
                0 <= b <= 0x3f,
                c == a | b,
        ;
        ModifiersImpl { bits: c }
    }

    /// Whether no modifier is set.
    pub fn is_empty(&self) -> (r: bool)
        ensures
            r == (self.spec_bits() == 0),
    {
        self.bits == 0
    }

    /// The name the configuration writes for these modifiers; empty for the
    /// sets it has no name for.
    pub fn to_str(&self) -> (r: &'static str)
        ensures
            r@ == modifiers_name(self.spec_bits()),
    {
        if self.bits == 2 {
            "ctrl"
        }
        else if self.bits == 1 {
            "shift"
        }
        else if self.bits == 4 {
            "alt"
        }
        else if self.bits == 8 {
            "meta"
        }
        else if self.bits == 15 {
            "ctrl+alt+shift+meta"
        }
        else if self.bits == 7 {
            "ctrl+alt+shift"
        }
        else if self.bits == 11 {
            "ctrl+shift+meta"
        }
        else if self.bits == 14 {
            "ctrl+alt+meta"
        }
        else if self.bits == 13 {
            "alt+shift+meta"
        }
        else if self.bits == 6 {
            "ctrl+alt"
        }
        else if self.bits == 3 {
            "ctrl+shift"
        }
        else if self.bits == 10 {
            "ctrl+meta"
        }
        else if self.bits == 5 {
            "alt+shift"
        }
        else if self.bits == 12 {
            "alt+meta"
        }
        else if self.bits == 9 {
            "shift+meta"
        }
 else {
            proof {
                reveal_strlit("");
            }
            ""
        }
    }

    /// Reads a set of modifiers from the name the configuration writes for it.
    pub fn from_str(s: &str) -> (r: Result<ModifiersImpl, &'static str>)
        ensures
            match r {
                Ok(m) => modifiers_from_name(s@) == Some(m.spec_bits()),
                Err(e) => modifiers_from_name(s@) is None && e@ == "could not modifiers impl"@,
            },
    {
        if str_eq(s, "ctrl") {
            return Ok(ModifiersImpl { bits: 2 });
        }
        if str_eq(s, "shift") {
            return Ok(ModifiersImpl { bits: 1 });
        }
        if str_eq(s, "alt") {
            return Ok(ModifiersImpl { bits: 4 });
        }
        if str_eq(s, "meta") {
            return Ok(ModifiersImpl { bits: 8 });
        }
        if str_eq(s, "ctrl+alt+shift+meta") {
            return Ok(ModifiersImpl { bits: 15 });
        }
        if str_eq(s, "ctrl+alt+shift") {
            return Ok(ModifiersImpl { bits: 7 });
        }
        if str_eq(s, "ctrl+shift+meta") {
            return Ok(ModifiersImpl { bits: 11 });
        }
        if str_eq(s, "ctrl+alt+meta") {
            return Ok(ModifiersImpl { bits: 14 });
        }
        if str_eq(s, "alt+shift+meta") {
            return Ok(ModifiersImpl { bits: 13 });
        }
        if str_eq(s, "ctrl+alt") {
            return Ok(ModifiersImpl { bits: 6 });
        }
        if str_eq(s, "ctrl+shift") {
            return Ok(ModifiersImpl { bits: 3 });
        }
        if str_eq(s, "ctrl+meta") {
            return Ok(ModifiersImpl { bits: 10 });
        }
        if str_eq(s, "alt+shift") {
            return Ok(ModifiersImpl { bits: 5 });
        }
        if str_eq(s, "alt+meta") {
            return Ok(ModifiersImpl { bits: 12 });
        }
        if str_eq(s, "shift+meta") {
            return Ok(ModifiersImpl { bits: 9 });
        }
        Err("could not modifiers impl")
    }
}

/// Reading back the name written for a set of modifiers gives the set, for
/// every set that has a name.
pub proof fn lemma_modifiers_name_round_trip(bits: i32)
    requires
        modifiers_name(bits).len() > 0,
    ensures
        modifiers_from_name(modifiers_name(bits)) == Some(bits),
{
    reveal_strlit("");
    reveal_strlit("ctrl");
    reveal_strlit("shift");
    reveal_strlit("alt");
    reveal_strlit("meta");
    reveal_strlit("ctrl+alt+shift+meta");
    reveal_strlit("ctrl+alt+shift");
    reveal_strlit("ctrl+shift+meta");
    reveal_strlit("ctrl+alt+meta");
    reveal_strlit("alt+shift+meta");
    reveal_strlit("ctrl+alt");
    reveal_strlit("ctrl+shift");
    reveal_strlit("ctrl+meta");
    reveal_strlit("alt+shift");
    reveal_strlit("alt+meta");
    reveal_strlit("shift+meta");
    assert("ctrl"@[0] != "meta"@[0]);
    assert("ctrl+alt+shift"@[0] != "alt+shift+meta"@[0]);
    assert("ctrl+alt"@[0] != "alt+meta"@[0]);
    assert("ctrl+shift"@[0] != "shift+meta"@[0]);
    assert("ctrl+meta"@[0] != "alt+shift"@[0]);
}

/// The key the configuration name `s` stands for, looked up in table order.
pub open spec fn key_from_name(s: Seq<char>) -> Option<KeyImpl> {
    if s == "Space"@ {
        Some(KeyImpl::Space)
    }
    else if s == "Apostrophe"@ {
        Some(KeyImpl::Apostrophe)
    }
    else if s == "Comma"@ {
        Some(KeyImpl::Comma)
    }
    else if s == "Minus"@ {
        Some(KeyImpl::Minus)
    }
    else if s == "Period"@ {
        Some(KeyImpl::Period)
    }
    else if s == "Slash"@ {
        Some(KeyImpl::Slash)
    }
    else if s == "Num0"@ {
        Some(KeyImpl::Num0)
    }
    else if s == "Num1"@ {
        Some(KeyImpl::Num1)
    }
    else if s == "Num2"@ {
        Some(KeyImpl::Num2)
    }
    else if s == "Num3"@ {
        Some(KeyImpl::Num3)
    }
    else if s == "Num4"@ {
        Some(KeyImpl::Num4)
    }
    else if s == "Num5"@ {
        Some(KeyImpl::Num5)
    }
    else if s == "Num6"@ {
        Some(KeyImpl::Num6)
    }
    else if s == "Num7"@ {
        Some(KeyImpl::Num7)
    }
    else if s == "Num8"@ {
        Some(KeyImpl::Num8)
    }
    else if s == "Num9"@ {
        Some(KeyImpl::Num9)
    }
    else if s == "Semicolon"@ {
        Some(KeyImpl::Semicolon)
    }
    else if s == "Equal"@ {
        Some(KeyImpl::Equal)
    }
    else if s == "A"@ {
        Some(KeyImpl::A)
    }
    else if s == "B"@ {
        Some(KeyImpl::B)
    }
    else if s == "C"@ {
        Some(KeyImpl::C)
    }
    else if s == "D"@ {
        Some(KeyImpl::D)
    }
    else if s == "E"@ {
        Some(KeyImpl::E)
    }
    else if s == "F"@ {
        Some(KeyImpl::F)
    }
    else if s == "G"@ {
        Some(KeyImpl::G)
    }
    else if s == "H"@ {
        Some(KeyImpl::H)
    }
    else if s == "I"@ {
        Some(KeyImpl::I)
    }
    else if s == "J"@ {
        Some(KeyImpl::J)
    }
    else if s == "K"@ {
        Some(KeyImpl::K)
    }
    else if s == "L"@ {
        Some(KeyImpl::L)
    }
    else if s == "M"@ {
        Some(KeyImpl::M)
    }
    else if s == "N"@ {
        Some(KeyImpl::N)
    }
    else if s == "O"@ {
        Some(KeyImpl::O)
    }
    else if s == "P"@ {
        Some(KeyImpl::P)
    }
    else if s == "Q"@ {
        Some(KeyImpl::Q)
    }
    else if s == "R"@ {
        Some(KeyImpl::R)
    }
    else if s == "S"@ {
        Some(KeyImpl::S)
    }
    else if s == "T"@ {
        Some(KeyImpl::T)
    }
    else if s == "U"@ {
        Some(KeyImpl::U)
    }
    else if s == "V"@ {
        Some(KeyImpl::V)
    }
    else if s == "W"@ {
        Some(KeyImpl::W)
    }
    else if s == "X"@ {
        Some(KeyImpl::X)
    }
    else if s == "Y"@ {
        Some(KeyImpl::Y)
    }
    else if s == "Z"@ {
        Some(KeyImpl::Z)
    }
    else if s == "LeftBracket"@ {
        Some(KeyImpl::LeftBracket)
    }
    else if s == "Backslash"@ {
        Some(KeyImpl::Backslash)
    }
    else if s == "RightBracket"@ {
        Some(KeyImpl::RightBracket)
    }
    else if s == "GraveAccent"@ {
        Some(KeyImpl::GraveAccent)
    }
    else if s == "World1"@ {
        Some(KeyImpl::World1)
    }
    else if s == "World2"@ {
        Some(KeyImpl::World2)
    }
    else if s == "Escape"@ {
        Some(KeyImpl::Escape)
    }
    else if s == "Enter"@ {
        Some(KeyImpl::Enter)
    }
    else if s == "Tab"@ {
        Some(KeyImpl::Tab)
    }
    else if s == "Backspace"@ {
        Some(KeyImpl::Backspace)
    }
    else if s == "Insert"@ {
        Some(KeyImpl::Insert)
    }
    else if s == "Delete"@ {
        Some(KeyImpl::Delete)
    }
    else if s == "Right"@ {
        Some(KeyImpl::Right)
    }
    else if s == "Left"@ {
        Some(KeyImpl::Left)
    }
    else if s == "Down"@ {
        Some(KeyImpl::Down)
    }
    else if s == "Up"@ {
        Some(KeyImpl::Up)
    }
    else if s == "PageUp"@ {
        Some(KeyImpl::PageUp)
    }
    else if s == "PageDown"@ {
        Some(KeyImpl::PageDown)
    }
    else if s == "Home"@ {
        Some(KeyImpl::Home)
    }
    else if s == "End"@ {
        Some(KeyImpl::End)
    }
    else if s == "CapsLock"@ {
        Some(KeyImpl::CapsLock)
    }
    else if s == "ScrollLock"@ {
        Some(KeyImpl::ScrollLock)
    }
    else if s == "NumLock"@ {
        Some(KeyImpl::NumLock)
    }
    else if s == "PrintScreen"@ {
        Some(KeyImpl::PrintScreen)
    }
    else if s == "Pause"@ {
        Some(KeyImpl::Pause)
    }
    else if s == "F1"@ {
        Some(KeyImpl::F1)
    }
    else if s == "F2"@ {
        Some(KeyImpl::F2)
    }
    else if s == "F3"@ {
        Some(KeyImpl::F3)
    }
    else if s == "F4"@ {
        Some(KeyImpl::F4)
    }
    else if s == "F5"@ {
        Some(KeyImpl::F5)
    }
    else if s == "F6"@ {
        Some(KeyImpl::F6)
    }
    else if s == "F7"@ {
        Some(KeyImpl::F7)
    }
    else if s == "F8"@ {
        Some(KeyImpl::F8)
    }
    else if s == "F9"@ {
        Some(KeyImpl::F9)
    }
    else if s == "F10"@ {
        Some(KeyImpl::F10)
    }
    else if s == "F11"@ {
        Some(KeyImpl::F11)
    }
    else if s == "F12"@ {
        Some(KeyImpl::F12)
    }
    else if s == "F13"@ {
        Some(KeyImpl::F13)
    }
    else if s == "F14"@ {
        Some(KeyImpl::F14)
    }
    else if s == "F15"@ {
        Some(KeyImpl::F15)
    }
    else if s == "F16"@ {
        Some(KeyImpl::F16)
    }
    else if s == "F17"@ {
        Some(KeyImpl::F17)
    }
    else if s == "F18"@ {
        Some(KeyImpl::F18)
    }
    else if s == "F19"@ {
        Some(KeyImpl::F19)
    }
    else if s == "F20"@ {
        Some(KeyImpl::F20)
    }
    else if s == "F21"@ {
        Some(KeyImpl::F21)
    }
    else if s == "F22"@ {
        Some(KeyImpl::F22)
    }
    else if s == "F23"@ {
        Some(KeyImpl::F23)
    }
    else if s == "F24"@ {
        Some(KeyImpl::F24)
    }
    else if s == "F25"@ {
        Some(KeyImpl::F25)
    }
    else if s == "Kp0"@ {
        Some(KeyImpl::Kp0)
    }
    else if s == "Kp1"@ {
        Some(KeyImpl::Kp1)
    }
    else if s == "Kp2"@ {
        Some(KeyImpl::Kp2)
    }
    else if s == "Kp3"@ {
        Some(KeyImpl::Kp3)
    }
    else if s == "Kp4"@ {
        Some(KeyImpl::Kp4)
    }
    else if s == "Kp5"@ {
        Some(KeyImpl::Kp5)
    }
    else if s == "Kp6"@ {
        Some(KeyImpl::Kp6)
    }
    else if s == "Kp7"@ {
        Some(KeyImpl::Kp7)
    }
    else if s == "Kp8"@ {
        Some(KeyImpl::Kp8)
    }
    else if s == "Kp9"@ {
        Some(KeyImpl::Kp9)
    }
    else if s == "KpDecimal"@ {
        Some(KeyImpl::KpDecimal)
    }
    else if s == "KpDivide"@ {
        Some(KeyImpl::KpDivide)
    }
    else if s == "KpMultiply"@ {
        Some(KeyImpl::KpMultiply)
    }
    else if s == "KpSubtract"@ {
        Some(KeyImpl::KpSubtract)
    }
    else if s == "KpAdd"@ {
        Some(KeyImpl::KpAdd)
    }
    else if s == "KpEnter"@ {
        Some(KeyImpl::KpEnter)
    }
    else if s == "KpEqual"@ {
        Some(KeyImpl::KpEqual)
    }
    else if s == "LeftShift"@ {
        Some(KeyImpl::LeftShift)
    }
    else if s == "LeftControl"@ {
        Some(KeyImpl::LeftControl)
    }
    else if s == "LeftAlt"@ {
        Some(KeyImpl::LeftAlt)
    }
    else if s == "LeftSuper"@ {
        Some(KeyImpl::LeftSuper)
    }
    else if s == "RightShift"@ {
        Some(KeyImpl::RightShift)
    }
    else if s == "RightControl"@ {
        Some(KeyImpl::RightControl)
    }
    else if s == "RightAlt"@ {
        Some(KeyImpl::RightAlt)
    }
    else if s == "RightSuper"@ {
        Some(KeyImpl::RightSuper)
    }
    else if s == "Menu"@ {
        Some(KeyImpl::Menu)
    }
    else if s == "Unknown"@ {
        Some(KeyImpl::Unknown)
    }
 else {
        None
    }
}

/// Looking up a key's configuration name gives that key: no two keys share
/// a name.
pub proof fn lemma_key_name_unique(k: KeyImpl)
    ensures
        key_from_name(key_debug_name(k)) == Some(k),
{
    reveal_strlit("Space");
    reveal_strlit("Apostrophe");
    reveal_strlit("Comma");
    reveal_strlit("Minus");
    reveal_strlit("Period");
    reveal_strlit("Slash");
    reveal_strlit("Num0");
    reveal_strlit("Num1");
    reveal_strlit("Num2");
    reveal_strlit("Num3");
    reveal_strlit("Num4");
    reveal_strlit("Num5");
    reveal_strlit("Num6");
    reveal_strlit("Num7");
    reveal_strlit("Num8");
    reveal_strlit("Num9");
    reveal_strlit("Semicolon");
    reveal_strlit("Equal");
    reveal_strlit("A");
    reveal_strlit("B");
    reveal_strlit("C");
    reveal_strlit("D");
    reveal_strlit("E");
    reveal_strlit("F");
    reveal_strlit("G");
    reveal_strlit("H");
    reveal_strlit("I");
    reveal_strlit("J");
    reveal_strlit("K");
    reveal_strlit("L");
    reveal_strlit("M");
    reveal_strlit("N");
    reveal_strlit("O");
    reveal_strlit("P");
    reveal_strlit("Q");
    reveal_strlit("R");
    reveal_strlit("S");
    reveal_strlit("T");
    reveal_strlit("U");
    reveal_strlit("V");
    reveal_strlit("W");
    reveal_strlit("X");
    reveal_strlit("Y");
    reveal_strlit("Z");
    reveal_strlit("LeftBracket");
    reveal_strlit("Backslash");
    reveal_strlit("RightBracket");
    reveal_strlit("GraveAccent");
    reveal_strlit("World1");
    reveal_strlit("World2");
    reveal_strlit("Escape");
    reveal_strlit("Enter");
    reveal_strlit("Tab");
    reveal_strlit("Backspace");
    reveal_strlit("Insert");
    reveal_strlit("Delete");
    reveal_strlit("Right");
    reveal_strlit("Left");
    reveal_strlit("Down");
    reveal_strlit("Up");
    reveal_strlit("PageUp");
    reveal_strlit("PageDown");
    reveal_strlit("Home");
    reveal_strlit("End");
    reveal_strlit("CapsLock");
    reveal_strlit("ScrollLock");
    reveal_strlit("NumLock");
    reveal_strlit("PrintScreen");
    reveal_strlit("Pause");
    reveal_strlit("F1");
    reveal_strlit("F2");
    reveal_strlit("F3");
    reveal_strlit("F4");
    reveal_strlit("F5");
    reveal_strlit("F6");
    reveal_strlit("F7");
    reveal_strlit("F8");
    reveal_strlit("F9");
    reveal_strlit("F10");
    reveal_strlit("F11");
    reveal_strlit("F12");
    reveal_strlit("F13");
    reveal_strlit("F14");
    reveal_strlit("F15");
    reveal_strlit("F16");
    reveal_strlit("F17");
    reveal_strlit("F18");
    reveal_strlit("F19");
    reveal_strlit("F20");
    reveal_strlit("F21");
    reveal_strlit("F22");
    reveal_strlit("F23");
    reveal_strlit("F24");
    reveal_strlit("F25");
    reveal_strlit("Kp0");
    reveal_strlit("Kp1");
    reveal_strlit("Kp2");
    reveal_strlit("Kp3");
    reveal_strlit("Kp4");
    reveal_strlit("Kp5");
    reveal_strlit("Kp6");
    reveal_strlit("Kp7");
    reveal_strlit("Kp8");
    reveal_strlit("Kp9");
    reveal_strlit("KpDecimal");
    reveal_strlit("KpDivide");
    reveal_strlit("KpMultiply");
    reveal_strlit("KpSubtract");
    reveal_strlit("KpAdd");
    reveal_strlit("KpEnter");
    reveal_strlit("KpEqual");
    reveal_strlit("LeftShift");
    reveal_strlit("LeftControl");
    reveal_strlit("LeftAlt");
    reveal_strlit("LeftSuper");
    reveal_strlit("RightShift");
    reveal_strlit("RightControl");
    reveal_strlit("RightAlt");
    reveal_strlit("RightSuper");
    reveal_strlit("Menu");
    reveal_strlit("Unknown");
    assert("Space"@.len() == 5);
    assert("Apostrophe"@.len() == 10);
    assert("Comma"@.len() == 5);
    assert("Minus"@.len() == 5);
    assert("Period"@.len() == 6);
    assert("Slash"@.len() == 5);
    assert("Num0"@.len() == 4);
    assert("Num1"@.len() == 4);
    assert("Num2"@.len() == 4);
    assert("Num3"@.len() == 4);
    assert("Num4"@.len() == 4);
    assert("Num5"@.len() == 4);
    assert("Num6"@.len() == 4);
    assert("Num7"@.len() == 4);
    assert("Num8"@.len() == 4);
    assert("Num9"@.len() == 4);
    assert("Semicolon"@.len() == 9);
    assert("Equal"@.len() == 5);
    assert("A"@.len() == 1);
    assert("B"@.len() == 1);
    assert("C"@.len() == 1);
    assert("D"@.len() == 1);
    assert("E"@.len() == 1);
    assert("F"@.len() == 1);
    assert("G"@.len() == 1);
    assert("H"@.len() == 1);
    assert("I"@.len() == 1);
    assert("J"@.len() == 1);
    assert("K"@.len() == 1);
    assert("L"@.len() == 1);
    assert("M"@.len() == 1);
    assert("N"@.len() == 1);
    assert("O"@.len() == 1);
    assert("P"@.len() == 1);
    assert("Q"@.len() == 1);
    assert("R"@.len() == 1);
    assert("S"@.len() == 1);
    assert("T"@.len() == 1);
    assert("U"@.len() == 1);
    assert("V"@.len() == 1);
    assert("W"@.len() == 1);
    assert("X"@.len() == 1);
    assert("Y"@.len() == 1);
    assert("Z"@.len() == 1);
    assert("LeftBracket"@.len() == 11);
    assert("Backslash"@.len() == 9);
    assert("RightBracket"@.len() == 12);
    assert("GraveAccent"@.len() == 11);
    assert("World1"@.len() == 6);
    assert("World2"@.len() == 6);
    assert("Escape"@.len() == 6);
    assert("Enter"@.len() == 5);
    assert("Tab"@.len() == 3);
    assert("Backspace"@.len() == 9);
    assert("Insert"@.len() == 6);
    assert("Delete"@.len() == 6);
    assert("Right"@.len() == 5);
    assert("Left"@.len() == 4);
    assert("Down"@.len() == 4);
    assert("Up"@.len() == 2);
    assert("PageUp"@.len() == 6);
    assert("PageDown"@.len() == 8);
    assert("Home"@.len() == 4);
    assert("End"@.len() == 3);
    assert("CapsLock"@.len() == 8);
    assert("ScrollLock"@.len() == 10);
    assert("NumLock"@.len() == 7);
    assert("PrintScreen"@.len() == 11);
    assert("Pause"@.len() == 5);
    assert("F1"@.len() == 2);
    assert("F2"@.len() == 2);
    assert("F3"@.len() == 2);
    assert("F4"@.len() == 2);
    assert("F5"@.len() == 2);
    assert("F6"@.len() == 2);
    assert("F7"@.len() == 2);
    assert("F8"@.len() == 2);
    assert("F9"@.len() == 2);
    assert("F10"@.len() == 3);
    assert("F11"@.len() == 3);
    assert("F12"@.len() == 3);
    assert("F13"@.len() == 3);
    assert("F14"@.len() == 3);
    assert("F15"@.len() == 3);
    assert("F16"@.len() == 3);
    assert("F17"@.len() == 3);
    assert("F18"@.len() == 3);
    assert("F19"@.len() == 3);
    assert("F20"@.len() == 3);
    assert("F21"@.len() == 3);
    assert("F22"@.len() == 3);
    assert("F23"@.len() == 3);
    assert("F24"@.len() == 3);
    assert("F25"@.len() == 3);
    assert("Kp0"@.len() == 3);
    assert("Kp1"@.len() == 3);
    assert("Kp2"@.len() == 3);
    assert("Kp3"@.len() == 3);
    assert("Kp4"@.len() == 3);
    assert("Kp5"@.len() == 3);
    assert("Kp6"@.len() == 3);
    assert("Kp7"@.len() == 3);
    assert("Kp8"@.len() == 3);
    assert("Kp9"@.len() == 3);
    assert("KpDecimal"@.len() == 9);
    assert("KpDivide"@.len() == 8);
    assert("KpMultiply"@.len() == 10);
    assert("KpSubtract"@.len() == 10);
    assert("KpAdd"@.len() == 5);
    assert("KpEnter"@.len() == 7);
    assert("KpEqual"@.len() == 7);
    assert("LeftShift"@.len() == 9);
    assert("LeftControl"@.len() == 11);
    assert("LeftAlt"@.len() == 7);
    assert("LeftSuper"@.len() == 9);
    assert("RightShift"@.len() == 10);
    assert("RightControl"@.len() == 12);
    assert("RightAlt"@.len() == 8);
    assert("RightSuper"@.len() == 10);
    assert("Menu"@.len() == 4);
    assert("Unknown"@.len() == 7);
    match k {
        KeyImpl::Space => {
        },
        KeyImpl::Apostrophe => {
        },
        KeyImpl::Comma => {
            assert("Comma"@[0] != "Space"@[0]);
        },
        KeyImpl::Minus => {
            assert("Minus"@[0] != "Space"@[0]);
            assert("Minus"@[0] != "Comma"@[0]);
        },
        KeyImpl::Period => {
        },
        KeyImpl::Slash => {
            assert("Slash"@[1] != "Space"@[1]);
            assert("Slash"@[0] != "Comma"@[0]);
            assert("Slash"@[0] != "Minus"@[0]);
        },
        KeyImpl::Num0 => {
        },
        KeyImpl::Num1 => {
            assert("Num1"@[3] != "Num0"@[3]);
        },
        KeyImpl::Num2 => {
            assert("Num2"@[3] != "Num0"@[3]);
            assert("Num2"@[3] != "Num1"@[3]);
        },
        KeyImpl::Num3 => {
            assert("Num3"@[3] != "Num0"@[3]);
            assert("Num3"@[3] != "Num1"@[3]);
            assert("Num3"@[3] != "Num2"@[3]);
        },
        KeyImpl::Num4 => {
            assert("Num4"@[3] != "Num0"@[3]);
            assert("Num4"@[3] != "Num1"@[3]);
            assert("Num4"@[3] != "Num2"@[3]);
            assert("Num4"@[3] != "Num3"@[3]);
        },
        KeyImpl::Num5 => {
            assert("Num5"@[3] != "Num0"@[3]);
            assert("Num5"@[3] != "Num1"@[3]);
            assert("Num5"@[3] != "Num2"@[3]);
            assert("Num5"@[3] != "Num3"@[3]);
            assert("Num5"@[3] != "Num4"@[3]);
        },
        KeyImpl::Num6 => {
            assert("Num6"@[3] != "Num0"@[3]);
            assert("Num6"@[3] != "Num1"@[3]);
            assert("Num6"@[3] != "Num2"@[3]);
            assert("Num6"@[3] != "Num3"@[3]);
            assert("Num6"@[3] != "Num4"@[3]);
            assert("Num6"@[3] != "Num5"@[3]);
        },
        KeyImpl::Num7 => {
            assert("Num7"@[3] != "Num0"@[3]);
            assert("Num7"@[3] != "Num1"@[3]);
            assert("Num7"@[3] != "Num2"@[3]);
            assert("Num7"@[3] != "Num3"@[3]);
            assert("Num7"@[3] != "Num4"@[3]);
            assert("Num7"@[3] != "Num5"@[3]);
            assert("Num7"@[3] != "Num6"@[3]);
        },
        KeyImpl::Num8 => {
            assert("Num8"@[3] != "Num0"@[3]);
            assert("Num8"@[3] != "Num1"@[3]);
            assert("Num8"@[3] != "Num2"@[3]);
            assert("Num8"@[3] != "Num3"@[3]);
            assert("Num8"@[3] != "Num4"@[3]);
            assert("Num8"@[3] != "Num5"@[3]);
            assert("Num8"@[3] != "Num6"@[3]);
            assert("Num8"@[3] != "Num7"@[3]);
        },
        KeyImpl::Num9 => {
            assert("Num9"@[3] != "Num0"@[3]);
            assert("Num9"@[3] != "Num1"@[3]);
            assert("Num9"@[3] != "Num2"@[3]);
            assert("Num9"@[3] != "Num3"@[3]);
            assert("Num9"@[3] != "Num4"@[3]);
            assert("Num9"@[3] != "Num5"@[3]);
            assert("Num9"@[3] != "Num6"@[3]);
            assert("Num9"@[3] != "Num7"@[3]);
            assert("Num9"@[3] != "Num8"@[3]);
        },
        KeyImpl::Semicolon => {
        },
        KeyImpl::Equal => {
            assert("Equal"@[0] != "Space"@[0]);
            assert("Equal"@[0] != "Comma"@[0]);
            assert("Equal"@[0] != "Minus"@[0]);
            assert("Equal"@[0] != "Slash"@[0]);
        },
        KeyImpl::A => {
        },
        KeyImpl::B => {
            assert("B"@[0] != "A"@[0]);
        },
        KeyImpl::C => {
            assert("C"@[0] != "A"@[0]);
            assert("C"@[0] != "B"@[0]);
        },
        KeyImpl::D => {
            assert("D"@[0] != "A"@[0]);
            assert("D"@[0] != "B"@[0]);
            assert("D"@[0] != "C"@[0]);
        },
        KeyImpl::E => {
            assert("E"@[0] != "A"@[0]);
            assert("E"@[0] != "B"@[0]);
            assert("E"@[0] != "C"@[0]);
            assert("E"@[0] != "D"@[0]);
        },
        KeyImpl::F => {
            assert("F"@[0] != "A"@[0]);
            assert("F"@[0] != "B"@[0]);
            assert("F"@[0] != "C"@[0]);
            assert("F"@[0] != "D"@[0]);
            assert("F"@[0] != "E"@[0]);
        },
        KeyImpl::G => {
            assert("G"@[0] != "A"@[0]);
            assert("G"@[0] != "B"@[0]);
            assert("G"@[0] != "C"@[0]);
            assert("G"@[0] != "D"@[0]);
            assert("G"@[0] != "E"@[0]);
            assert("G"@[0] != "F"@[0]);
        },
        KeyImpl::H => {
            assert("H"@[0] != "A"@[0]);
            assert("H"@[0] != "B"@[0]);
            assert("H"@[0] != "C"@[0]);
            assert("H"@[0] != "D"@[0]);
            assert("H"@[0] != "E"@[0]);
            assert("H"@[0] != "F"@[0]);
            assert("H"@[0] != "G"@[0]);
        },
        KeyImpl::I => {
            assert("I"@[0] != "A"@[0]);
            assert("I"@[0] != "B"@[0]);
            assert("I"@[0] != "C"@[0]);
            assert("I"@[0] != "D"@[0]);
            assert("I"@[0] != "E"@[0]);
            assert("I"@[0] != "F"@[0]);
            assert("I"@[0] != "G"@[0]);
            assert("I"@[0] != "H"@[0]);
        },
        KeyImpl::J => {
            assert("J"@[0] != "A"@[0]);
            assert("J"@[0] != "B"@[0]);
            assert("J"@[0] != "C"@[0]);
            assert("J"@[0] != "D"@[0]);
            assert("J"@[0] != "E"@[0]);
            assert("J"@[0] != "F"@[0]);
            assert("J"@[0] != "G"@[0]);
            assert("J"@[0] != "H"@[0]);
            assert("J"@[0] != "I"@[0]);
        },
        KeyImpl::K => {
            assert("K"@[0] != "A"@[0]);
            assert("K"@[0] != "B"@[0]);
            assert("K"@[0] != "C"@[0]);
            assert("K"@[0] != "D"@[0]);
            assert("K"@[0] != "E"@[0]);
            assert("K"@[0] != "F"@[0]);
            assert("K"@[0] != "G"@[0]);
            assert("K"@[0] != "H"@[0]);
            assert("K"@[0] != "I"@[0]);
            assert("K"@[0] != "J"@[0]);
        },
        KeyImpl::L => {
            assert("L"@[0] != "A"@[0]);
            assert("L"@[0] != "B"@[0]);
            assert("L"@[0] != "C"@[0]);
            assert("L"@[0] != "D"@[0]);
            assert("L"@[0] != "E"@[0]);
            assert("L"@[0] != "F"@[0]);
            assert("L"@[0] != "G"@[0]);
            assert("L"@[0] != "H"@[0]);
            assert("L"@[0] != "I"@[0]);
            assert("L"@[0] != "J"@[0]);
            assert("L"@[0] != "K"@[0]);
        },
        KeyImpl::M => {
            assert("M"@[0] != "A"@[0]);
            assert("M"@[0] != "B"@[0]);
            assert("M"@[0] != "C"@[0]);
            assert("M"@[0] != "D"@[0]);
            assert("M"@[0] != "E"@[0]);
            assert("M"@[0] != "F"@[0]);
            assert("M"@[0] != "G"@[0]);
            assert("M"@[0] != "H"@[0]);
            assert("M"@[0] != "I"@[0]);
            assert("M"@[0] != "J"@[0]);
            assert("M"@[0] != "K"@[0]);
            assert("M"@[0] != "L"@[0]);
        },
        KeyImpl::N => {
            assert("N"@[0] != "A"@[0]);
            assert("N"@[0] != "B"@[0]);
            assert("N"@[0] != "C"@[0]);
            assert("N"@[0] != "D"@[0]);
            assert("N"@[0] != "E"@[0]);
            assert("N"@[0] != "F"@[0]);
            assert("N"@[0] != "G"@[0]);
            assert("N"@[0] != "H"@[0]);
            assert("N"@[0] != "I"@[0]);
            assert("N"@[0] != "J"@[0]);
            assert("N"@[0] != "K"@[0]);
            assert("N"@[0] != "L"@[0]);
            assert("N"@[0] != "M"@[0]);
        },
        KeyImpl::O => {
            assert("O"@[0] != "A"@[0]);
            assert("O"@[0] != "B"@[0]);
            assert("O"@[0] != "C"@[0]);
            assert("O"@[0] != "D"@[0]);
            assert("O"@[0] != "E"@[0]);
            assert("O"@[0] != "F"@[0]);
            assert("O"@[0] != "G"@[0]);
            assert("O"@[0] != "H"@[0]);
            assert("O"@[0] != "I"@[0]);
            assert("O"@[0] != "J"@[0]);
            assert("O"@[0] != "K"@[0]);
            assert("O"@[0] != "L"@[0]);
            assert("O"@[0] != "M"@[0]);
            assert("O"@[0] != "N"@[0]);
        },
        KeyImpl::P => {
            assert("P"@[0] != "A"@[0]);
            assert("P"@[0] != "B"@[0]);
            assert("P"@[0] != "C"@[0]);
            assert("P"@[0] != "D"@[0]);
            assert("P"@[0] != "E"@[0]);
            assert("P"@[0] != "F"@[0]);
            assert("P"@[0] != "G"@[0]);
            assert("P"@[0] != "H"@[0]);
            assert("P"@[0] != "I"@[0]);
            assert("P"@[0] != "J"@[0]);
            assert("P"@[0] != "K"@[0]);
            assert("P"@[0] != "L"@[0]);
            assert("P"@[0] != "M"@[0]);
            assert("P"@[0] != "N"@[0]);
            assert("P"@[0] != "O"@[0]);
        },
        KeyImpl::Q => {
            assert("Q"@[0] != "A"@[0]);
            assert("Q"@[0] != "B"@[0]);
            assert("Q"@[0] != "C"@[0]);
            assert("Q"@[0] != "D"@[0]);
            assert("Q"@[0] != "E"@[0]);
            assert("Q"@[0] != "F"@[0]);
            assert("Q"@[0] != "G"@[0]);
            assert("Q"@[0] != "H"@[0]);
            assert("Q"@[0] != "I"@[0]);
            assert("Q"@[0] != "J"@[0]);
            assert("Q"@[0] != "K"@[0]);
            assert("Q"@[0] != "L"@[0]);
            assert("Q"@[0] != "M"@[0]);
            assert("Q"@[0] != "N"@[0]);
            assert("Q"@[0] != "O"@[0]);
            assert("Q"@[0] != "P"@[0]);
        },
        KeyImpl::R => {
            assert("R"@[0] != "A"@[0]);
            assert("R"@[0] != "B"@[0]);
            assert("R"@[0] != "C"@[0]);
            assert("R"@[0] != "D"@[0]);
            assert("R"@[0] != "E"@[0]);
            assert("R"@[0] != "F"@[0]);
            assert("R"@[0] != "G"@[0]);
            assert("R"@[0] != "H"@[0]);
            assert("R"@[0] != "I"@[0]);
            assert("R"@[0] != "J"@[0]);
            assert("R"@[0] != "K"@[0]);
            assert("R"@[0] != "L"@[0]);
            assert("R"@[0] != "M"@[0]);
            assert("R"@[0] != "N"@[0]);
            assert("R"@[0] != "O"@[0]);
            assert("R"@[0] != "P"@[0]);
            assert("R"@[0] != "Q"@[0]);
        },
        KeyImpl::S => {
            assert("S"@[0] != "A"@[0]);
            assert("S"@[0] != "B"@[0]);
            assert("S"@[0] != "C"@[0]);
            assert("S"@[0] != "D"@[0]);
            assert("S"@[0] != "E"@[0]);
            assert("S"@[0] != "F"@[0]);
            assert("S"@[0] != "G"@[0]);
            assert("S"@[0] != "H"@[0]);
            assert("S"@[0] != "I"@[0]);
            assert("S"@[0] != "J"@[0]);
            assert("S"@[0] != "K"@[0]);
            assert("S"@[0] != "L"@[0]);
            assert("S"@[0] != "M"@[0]);
            assert("S"@[0] != "N"@[0]);
            assert("S"@[0] != "O"@[0]);
            assert("S"@[0] != "P"@[0]);
            assert("S"@[0] != "Q"@[0]);
            assert("S"@[0] != "R"@[0]);
        },
        KeyImpl::T => {
            assert("T"@[0] != "A"@[0]);
            assert("T"@[0] != "B"@[0]);
            assert("T"@[0] != "C"@[0]);
            assert("T"@[0] != "D"@[0]);
            assert("T"@[0] != "E"@[0]);
            assert("T"@[0] != "F"@[0]);
            assert("T"@[0] != "G"@[0]);
            assert("T"@[0] != "H"@[0]);
            assert("T"@[0] != "I"@[0]);
            assert("T"@[0] != "J"@[0]);
            assert("T"@[0] != "K"@[0]);
            assert("T"@[0] != "L"@[0]);
            assert("T"@[0] != "M"@[0]);
            assert("T"@[0] != "N"@[0]);
            assert("T"@[0] != "O"@[0]);
            assert("T"@[0] != "P"@[0]);
            assert("T"@[0] != "Q"@[0]);
            assert("T"@[0] != "R"@[0]);
            assert("T"@[0] != "S"@[0]);
        },
        KeyImpl::U => {
            assert("U"@[0] != "A"@[0]);
            assert("U"@[0] != "B"@[0]);
            assert("U"@[0] != "C"@[0]);
            assert("U"@[0] != "D"@[0]);
            assert("U"@[0] != "E"@[0]);
            assert("U"@[0] != "F"@[0]);
            assert("U"@[0] != "G"@[0]);
            assert("U"@[0] != "H"@[0]);
            assert("U"@[0] != "I"@[0]);
            assert("U"@[0] != "J"@[0]);
            assert("U"@[0] != "K"@[0]);
            assert("U"@[0] != "L"@[0]);
            assert("U"@[0] != "M"@[0]);
            assert("U"@[0] != "N"@[0]);
            assert("U"@[0] != "O"@[0]);
            assert("U"@[0] != "P"@[0]);
            assert("U"@[0] != "Q"@[0]);
            assert("U"@[0] != "R"@[0]);
            assert("U"@[0] != "S"@[0]);
            assert("U"@[0] != "T"@[0]);
        },
        KeyImpl::V => {
            assert("V"@[0] != "A"@[0]);
            assert("V"@[0] != "B"@[0]);
            assert("V"@[0] != "C"@[0]);
            assert("V"@[0] != "D"@[0]);
            assert("V"@[0] != "E"@[0]);
            assert("V"@[0] != "F"@[0]);
            assert("V"@[0] != "G"@[0]);
            assert("V"@[0] != "H"@[0]);
            assert("V"@[0] != "I"@[0]);
            assert("V"@[0] != "J"@[0]);
            assert("V"@[0] != "K"@[0]);
            assert("V"@[0] != "L"@[0]);
            assert("V"@[0] != "M"@[0]);
            assert("V"@[0] != "N"@[0]);
            assert("V"@[0] != "O"@[0]);
            assert("V"@[0] != "P"@[0]);
            assert("V"@[0] != "Q"@[0]);
            assert("V"@[0] != "R"@[0]);
            assert("V"@[0] != "S"@[0]);
            assert("V"@[0] != "T"@[0]);
            assert("V"@[0] != "U"@[0]);
        },
        KeyImpl::W => {
            assert("W"@[0] != "A"@[0]);
            assert("W"@[0] != "B"@[0]);
            assert("W"@[0] != "C"@[0]);
            assert("W"@[0] != "D"@[0]);
            assert("W"@[0] != "E"@[0]);
            assert("W"@[0] != "F"@[0]);
            assert("W"@[0] != "G"@[0]);
            assert("W"@[0] != "H"@[0]);
            assert("W"@[0] != "I"@[0]);
            assert("W"@[0] != "J"@[0]);
            assert("W"@[0] != "K"@[0]);
            assert("W"@[0] != "L"@[0]);
            assert("W"@[0] != "M"@[0]);
            assert("W"@[0] != "N"@[0]);
            assert("W"@[0] != "O"@[0]);
            assert("W"@[0] != "P"@[0]);
            assert("W"@[0] != "Q"@[0]);
            assert("W"@[0] != "R"@[0]);
            assert("W"@[0] != "S"@[0]);
            assert("W"@[0] != "T"@[0]);
            assert("W"@[0] != "U"@[0]);
            assert("W"@[0] != "V"@[0]);
        },
        KeyImpl::X => {
            assert("X"@[0] != "A"@[0]);
            assert("X"@[0] != "B"@[0]);
            assert("X"@[0] != "C"@[0]);
            assert("X"@[0] != "D"@[0]);
            assert("X"@[0] != "E"@[0]);
            assert("X"@[0] != "F"@[0]);
            assert("X"@[0] != "G"@[0]);
            assert("X"@[0] != "H"@[0]);
            assert("X"@[0] != "I"@[0]);
            assert("X"@[0] != "J"@[0]);
            assert("X"@[0] != "K"@[0]);
            assert("X"@[0] != "L"@[0]);
            assert("X"@[0] != "M"@[0]);
            assert("X"@[0] != "N"@[0]);
            assert("X"@[0] != "O"@[0]);
            assert("X"@[0] != "P"@[0]);
            assert("X"@[0] != "Q"@[0]);
            assert("X"@[0] != "R"@[0]);
            assert("X"@[0] != "S"@[0]);
            assert("X"@[0] != "T"@[0]);
            assert("X"@[0] != "U"@[0]);
            assert("X"@[0] != "V"@[0]);
            assert("X"@[0] != "W"@[0]);
        },
        KeyImpl::Y => {
            assert("Y"@[0] != "A"@[0]);
            assert("Y"@[0] != "B"@[0]);
            assert("Y"@[0] != "C"@[0]);
            assert("Y"@[0] != "D"@[0]);
            assert("Y"@[0] != "E"@[0]);
            assert("Y"@[0] != "F"@[0]);
            assert("Y"@[0] != "G"@[0]);
            assert("Y"@[0] != "H"@[0]);
            assert("Y"@[0] != "I"@[0]);
            assert("Y"@[0] != "J"@[0]);
            assert("Y"@[0] != "K"@[0]);
            assert("Y"@[0] != "L"@[0]);
            assert("Y"@[0] != "M"@[0]);
            assert("Y"@[0] != "N"@[0]);
            assert("Y"@[0] != "O"@[0]);
            assert("Y"@[0] != "P"@[0]);
            assert("Y"@[0] != "Q"@[0]);
            assert("Y"@[0] != "R"@[0]);
            assert("Y"@[0] != "S"@[0]);
            assert("Y"@[0] != "T"@[0]);
            assert("Y"@[0] != "U"@[0]);
            assert("Y"@[0] != "V"@[0]);
            assert("Y"@[0] != "W"@[0]);
            assert("Y"@[0] != "X"@[0]);
        },
        KeyImpl::Z => {
            assert("Z"@[0] != "A"@[0]);
            assert("Z"@[0] != "B"@[0]);
            assert("Z"@[0] != "C"@[0]);
            assert("Z"@[0] != "D"@[0]);
            assert("Z"@[0] != "E"@[0]);
            assert("Z"@[0] != "F"@[0]);
            assert("Z"@[0] != "G"@[0]);
            assert("Z"@[0] != "H"@[0]);
            assert("Z"@[0] != "I"@[0]);
            assert("Z"@[0] != "J"@[0]);
            assert("Z"@[0] != "K"@[0]);
            assert("Z"@[0] != "L"@[0]);
            assert("Z"@[0] != "M"@[0]);
            assert("Z"@[0] != "N"@[0]);
            assert("Z"@[0] != "O"@[0]);
            assert("Z"@[0] != "P"@[0]);
            assert("Z"@[0] != "Q"@[0]);
            assert("Z"@[0] != "R"@[0]);
            assert("Z"@[0] != "S"@[0]);
            assert("Z"@[0] != "T"@[0]);
            assert("Z"@[0] != "U"@[0]);
            assert("Z"@[0] != "V"@[0]);
            assert("Z"@[0] != "W"@[0]);
            assert("Z"@[0] != "X"@[0]);
            assert("Z"@[0] != "Y"@[0]);
        },
        KeyImpl::LeftBracket => {
        },
        KeyImpl::Backslash => {
            assert("Backslash"@[0] != "Semicolon"@[0]);
        },
        KeyImpl::RightBracket => {
        },
        KeyImpl::GraveAccent => {
            assert("GraveAccent"@[0] != "LeftBracket"@[0]);
        },
        KeyImpl::World1 => {
            assert("World1"@[0] != "Period"@[0]);
        },
        KeyImpl::World2 => {
            assert("World2"@[0] != "Period"@[0]);
            assert("World2"@[5] != "World1"@[5]);
        },
        KeyImpl::Escape => {
            assert("Escape"@[0] != "Period"@[0]);
            assert("Escape"@[0] != "World1"@[0]);
            assert("Escape"@[0] != "World2"@[0]);
        },
        KeyImpl::Enter => {
            assert("Enter"@[0] != "Space"@[0]);
            assert("Enter"@[0] != "Comma"@[0]);
            assert("Enter"@[0] != "Minus"@[0]);
            assert("Enter"@[0] != "Slash"@[0]);
            assert("Enter"@[1] != "Equal"@[1]);
        },
        KeyImpl::Tab => {
        },
        KeyImpl::Backspace => {
            assert("Backspace"@[0] != "Semicolon"@[0]);
            assert("Backspace"@[5] != "Backslash"@[5]);
        },
        KeyImpl::Insert => {
            assert("Insert"@[0] != "Period"@[0]);
            assert("Insert"@[0] != "World1"@[0]);
            assert("Insert"@[0] != "World2"@[0]);
            assert("Insert"@[0] != "Escape"@[0]);
        },
        KeyImpl::Delete => {
            assert("Delete"@[0] != "Period"@[0]);
            assert("Delete"@[0] != "World1"@[0]);
            assert("Delete"@[0] != "World2"@[0]);
            assert("Delete"@[0] != "Escape"@[0]);
            assert("Delete"@[0] != "Insert"@[0]);
        },
        KeyImpl::Right => {
            assert("Right"@[0] != "Space"@[0]);
            assert("Right"@[0] != "Comma"@[0]);
            assert("Right"@[0] != "Minus"@[0]);
            assert("Right"@[0] != "Slash"@[0]);
            assert("Right"@[0] != "Equal"@[0]);
            assert("Right"@[0] != "Enter"@[0]);
        },
        KeyImpl::Left => {
            assert("Left"@[0] != "Num0"@[0]);
            assert("Left"@[0] != "Num1"@[0]);
            assert("Left"@[0] != "Num2"@[0]);
            assert("Left"@[0] != "Num3"@[0]);
            assert("Left"@[0] != "Num4"@[0]);
            assert("Left"@[0] != "Num5"@[0]);
            assert("Left"@[0] != "Num6"@[0]);
            assert("Left"@[0] != "Num7"@[0]);
            assert("Left"@[0] != "Num8"@[0]);
            assert("Left"@[0] != "Num9"@[0]);
        },
        KeyImpl::Down => {
            assert("Down"@[0] != "Num0"@[0]);
            assert("Down"@[0] != "Num1"@[0]);
            assert("Down"@[0] != "Num2"@[0]);
            assert("Down"@[0] != "Num3"@[0]);
            assert("Down"@[0] != "Num4"@[0]);
            assert("Down"@[0] != "Num5"@[0]);
            assert("Down"@[0] != "Num6"@[0]);
            assert("Down"@[0] != "Num7"@[0]);
            assert("Down"@[0] != "Num8"@[0]);
            assert("Down"@[0] != "Num9"@[0]);
            assert("Down"@[0] != "Left"@[0]);
        },
        KeyImpl::Up => {
        },
        KeyImpl::PageUp => {
            assert("PageUp"@[1] != "Period"@[1]);
            assert("PageUp"@[0] != "World1"@[0]);
            assert("PageUp"@[0] != "World2"@[0]);
            assert("PageUp"@[0] != "Escape"@[0]);
            assert("PageUp"@[0] != "Insert"@[0]);
            assert("PageUp"@[0] != "Delete"@[0]);
        },
        KeyImpl::PageDown => {
        },
        KeyImpl::Home => {
            assert("Home"@[0] != "Num0"@[0]);
            assert("Home"@[0] != "Num1"@[0]);
            assert("Home"@[0] != "Num2"@[0]);
            assert("Home"@[0] != "Num3"@[0]);
            assert("Home"@[0] != "Num4"@[0]);
            assert("Home"@[0] != "Num5"@[0]);
            assert("Home"@[0] != "Num6"@[0]);
            assert("Home"@[0] != "Num7"@[0]);
            assert("Home"@[0] != "Num8"@[0]);
            assert("Home"@[0] != "Num9"@[0]);
            assert("Home"@[0] != "Left"@[0]);
            assert("Home"@[0] != "Down"@[0]);
        },
        KeyImpl::End => {
            assert("End"@[0] != "Tab"@[0]);
        },
        KeyImpl::CapsLock => {
            assert("CapsLock"@[0] != "PageDown"@[0]);
        },
        KeyImpl::ScrollLock => {
            assert("ScrollLock"@[0] != "Apostrophe"@[0]);
        },
        KeyImpl::NumLock => {
        },
        KeyImpl::PrintScreen => {
            assert("PrintScreen"@[0] != "LeftBracket"@[0]);
            assert("PrintScreen"@[0] != "GraveAccent"@[0]);
        },
        KeyImpl::Pause => {
            assert("Pause"@[0] != "Space"@[0]);
            assert("Pause"@[0] != "Comma"@[0]);
            assert("Pause"@[0] != "Minus"@[0]);
            assert("Pause"@[0] != "Slash"@[0]);
            assert("Pause"@[0] != "Equal"@[0]);
            assert("Pause"@[0] != "Enter"@[0]);
            assert("Pause"@[0] != "Right"@[0]);
        },
        KeyImpl::F1 => {
            assert("F1"@[0] != "Up"@[0]);
        },
        KeyImpl::F2 => {
            assert("F2"@[0] != "Up"@[0]);
            assert("F2"@[1] != "F1"@[1]);
        },
        KeyImpl::F3 => {
            assert("F3"@[0] != "Up"@[0]);
            assert("F3"@[1] != "F1"@[1]);
            assert("F3"@[1] != "F2"@[1]);
        },
        KeyImpl::F4 => {
            assert("F4"@[0] != "Up"@[0]);
            assert("F4"@[1] != "F1"@[1]);
            assert("F4"@[1] != "F2"@[1]);
            assert("F4"@[1] != "F3"@[1]);
        },
        KeyImpl::F5 => {
            assert("F5"@[0] != "Up"@[0]);
            assert("F5"@[1] != "F1"@[1]);
            assert("F5"@[1] != "F2"@[1]);
            assert("F5"@[1] != "F3"@[1]);
            assert("F5"@[1] != "F4"@[1]);
        },
        KeyImpl::F6 => {
            assert("F6"@[0] != "Up"@[0]);
            assert("F6"@[1] != "F1"@[1]);
            assert("F6"@[1] != "F2"@[1]);
            assert("F6"@[1] != "F3"@[1]);
            assert("F6"@[1] != "F4"@[1]);
            assert("F6"@[1] != "F5"@[1]);
        },
        KeyImpl::F7 => {
            assert("F7"@[0] != "Up"@[0]);
            assert("F7"@[1] != "F1"@[1]);
            assert("F7"@[1] != "F2"@[1]);
            assert("F7"@[1] != "F3"@[1]);
            assert("F7"@[1] != "F4"@[1]);
            assert("F7"@[1] != "F5"@[1]);
            assert("F7"@[1] != "F6"@[1]);
        },
        KeyImpl::F8 => {
            assert("F8"@[0] != "Up"@[0]);
            assert("F8"@[1] != "F1"@[1]);
            assert("F8"@[1] != "F2"@[1]);
            assert("F8"@[1] != "F3"@[1]);
            assert("F8"@[1] != "F4"@[1]);
            assert("F8"@[1] != "F5"@[1]);
            assert("F8"@[1] != "F6"@[1]);
            assert("F8"@[1] != "F7"@[1]);
        },
        KeyImpl::F9 => {
            assert("F9"@[0] != "Up"@[0]);
            assert("F9"@[1] != "F1"@[1]);
            assert("F9"@[1] != "F2"@[1]);
            assert("F9"@[1] != "F3"@[1]);
            assert("F9"@[1] != "F4"@[1]);
            assert("F9"@[1] != "F5"@[1]);
            assert("F9"@[1] != "F6"@[1]);
            assert("F9"@[1] != "F7"@[1]);
            assert("F9"@[1] != "F8"@[1]);
        },
        KeyImpl::F10 => {
            assert("F10"@[0] != "Tab"@[0]);
            assert("F10"@[0] != "End"@[0]);
        },
        KeyImpl::F11 => {
            assert("F11"@[0] != "Tab"@[0]);
            assert("F11"@[0] != "End"@[0]);
            assert("F11"@[2] != "F10"@[2]);
        },
        KeyImpl::F12 => {
            assert("F12"@[0] != "Tab"@[0]);
            assert("F12"@[0] != "End"@[0]);
            assert("F12"@[2] != "F10"@[2]);
            assert("F12"@[2] != "F11"@[2]);
        },
        KeyImpl::F13 => {
            assert("F13"@[0] != "Tab"@[0]);
            assert("F13"@[0] != "End"@[0]);
            assert("F13"@[2] != "F10"@[2]);
            assert("F13"@[2] != "F11"@[2]);
            assert("F13"@[2] != "F12"@[2]);
        },
        KeyImpl::F14 => {
            assert("F14"@[0] != "Tab"@[0]);
            assert("F14"@[0] != "End"@[0]);
            assert("F14"@[2] != "F10"@[2]);
            assert("F14"@[2] != "F11"@[2]);
            assert("F14"@[2] != "F12"@[2]);
            assert("F14"@[2] != "F13"@[2]);
        },
        KeyImpl::F15 => {
            assert("F15"@[0] != "Tab"@[0]);
            assert("F15"@[0] != "End"@[0]);
            assert("F15"@[2] != "F10"@[2]);
            assert("F15"@[2] != "F11"@[2]);
            assert("F15"@[2] != "F12"@[2]);
            assert("F15"@[2] != "F13"@[2]);
            assert("F15"@[2] != "F14"@[2]);
        },
        KeyImpl::F16 => {
            assert("F16"@[0] != "Tab"@[0]);
            assert("F16"@[0] != "End"@[0]);
            assert("F16"@[2] != "F10"@[2]);
            assert("F16"@[2] != "F11"@[2]);
            assert("F16"@[2] != "F12"@[2]);
            assert("F16"@[2] != "F13"@[2]);
            assert("F16"@[2] != "F14"@[2]);
            assert("F16"@[2] != "F15"@[2]);
        },
        KeyImpl::F17 => {
            assert("F17"@[0] != "Tab"@[0]);
            assert("F17"@[0] != "End"@[0]);
            assert("F17"@[2] != "F10"@[2]);
            assert("F17"@[2] != "F11"@[2]);
            assert("F17"@[2] != "F12"@[2]);
            assert("F17"@[2] != "F13"@[2]);
            assert("F17"@[2] != "F14"@[2]);
            assert("F17"@[2] != "F15"@[2]);
            assert("F17"@[2] != "F16"@[2]);
        },
        KeyImpl::F18 => {
            assert("F18"@[0] != "Tab"@[0]);
            assert("F18"@[0] != "End"@[0]);
            assert("F18"@[2] != "F10"@[2]);
            assert("F18"@[2] != "F11"@[2]);
            assert("F18"@[2] != "F12"@[2]);
            assert("F18"@[2] != "F13"@[2]);
            assert("F18"@[2] != "F14"@[2]);
            assert("F18"@[2] != "F15"@[2]);
            assert("F18"@[2] != "F16"@[2]);
            assert("F18"@[2] != "F17"@[2]);
        },
        KeyImpl::F19 => {
            assert("F19"@[0] != "Tab"@[0]);
            assert("F19"@[0] != "End"@[0]);
            assert("F19"@[2] != "F10"@[2]);
            assert("F19"@[2] != "F11"@[2]);
            assert("F19"@[2] != "F12"@[2]);
            assert("F19"@[2] != "F13"@[2]);
            assert("F19"@[2] != "F14"@[2]);
            assert("F19"@[2] != "F15"@[2]);
            assert("F19"@[2] != "F16"@[2]);
            assert("F19"@[2] != "F17"@[2]);
            assert("F19"@[2] != "F18"@[2]);
        },
        KeyImpl::F20 => {
            assert("F20"@[0] != "Tab"@[0]);
            assert("F20"@[0] != "End"@[0]);
            assert("F20"@[1] != "F10"@[1]);
            assert("F20"@[1] != "F11"@[1]);
            assert("F20"@[1] != "F12"@[1]);
            assert("F20"@[1] != "F13"@[1]);
            assert("F20"@[1] != "F14"@[1]);
            assert("F20"@[1] != "F15"@[1]);
            assert("F20"@[1] != "F16"@[1]);
            assert("F20"@[1] != "F17"@[1]);
            assert("F20"@[1] != "F18"@[1]);
            assert("F20"@[1] != "F19"@[1]);
        },
        KeyImpl::F21 => {
            assert("F21"@[0] != "Tab"@[0]);
            assert("F21"@[0] != "End"@[0]);
            assert("F21"@[1] != "F10"@[1]);
            assert("F21"@[1] != "F11"@[1]);
            assert("F21"@[1] != "F12"@[1]);
            assert("F21"@[1] != "F13"@[1]);
            assert("F21"@[1] != "F14"@[1]);
            assert("F21"@[1] != "F15"@[1]);
            assert("F21"@[1] != "F16"@[1]);
            assert("F21"@[1] != "F17"@[1]);
            assert("F21"@[1] != "F18"@[1]);
            assert("F21"@[1] != "F19"@[1]);
            assert("F21"@[2] != "F20"@[2]);
        },
        KeyImpl::F22 => {
            assert("F22"@[0] != "Tab"@[0]);
            assert("F22"@[0] != "End"@[0]);
            assert("F22"@[1] != "F10"@[1]);
            assert("F22"@[1] != "F11"@[1]);
            assert("F22"@[1] != "F12"@[1]);
            assert("F22"@[1] != "F13"@[1]);
            assert("F22"@[1] != "F14"@[1]);
            assert("F22"@[1] != "F15"@[1]);
            assert("F22"@[1] != "F16"@[1]);
            assert("F22"@[1] != "F17"@[1]);
            assert("F22"@[1] != "F18"@[1]);
            assert("F22"@[1] != "F19"@[1]);
            assert("F22"@[2] != "F20"@[2]);
            assert("F22"@[2] != "F21"@[2]);
        },
        KeyImpl::F23 => {
            assert("F23"@[0] != "Tab"@[0]);
            assert("F23"@[0] != "End"@[0]);
            assert("F23"@[1] != "F10"@[1]);
            assert("F23"@[1] != "F11"@[1]);
            assert("F23"@[1] != "F12"@[1]);
            assert("F23"@[1] != "F13"@[1]);
            assert("F23"@[1] != "F14"@[1]);
            assert("F23"@[1] != "F15"@[1]);
            assert("F23"@[1] != "F16"@[1]);
            assert("F23"@[1] != "F17"@[1]);
            assert("F23"@[1] != "F18"@[1]);
            assert("F23"@[1] != "F19"@[1]);
            assert("F23"@[2] != "F20"@[2]);
            assert("F23"@[2] != "F21"@[2]);
            assert("F23"@[2] != "F22"@[2]);
        },
        KeyImpl::F24 => {
            assert("F24"@[0] != "Tab"@[0]);
            assert("F24"@[0] != "End"@[0]);
            assert("F24"@[1] != "F10"@[1]);
            assert("F24"@[1] != "F11"@[1]);
            assert("F24"@[1] != "F12"@[1]);
            assert("F24"@[1] != "F13"@[1]);
            assert("F24"@[1] != "F14"@[1]);
            assert("F24"@[1] != "F15"@[1]);
            assert("F24"@[1] != "F16"@[1]);
            assert("F24"@[1] != "F17"@[1]);
            assert("F24"@[1] != "F18"@[1]);
            assert("F24"@[1] != "F19"@[1]);
            assert("F24"@[2] != "F20"@[2]);
            assert("F24"@[2] != "F21"@[2]);
            assert("F24"@[2] != "F22"@[2]);
            assert("F24"@[2] != "F23"@[2]);
        },
        KeyImpl::F25 => {
            assert("F25"@[0] != "Tab"@[0]);
            assert("F25"@[0] != "End"@[0]);
            assert("F25"@[1] != "F10"@[1]);
            assert("F25"@[1] != "F11"@[1]);
            assert("F25"@[1] != "F12"@[1]);
            assert("F25"@[1] != "F13"@[1]);
            assert("F25"@[1] != "F14"@[1]);
            assert("F25"@[1] != "F15"@[1]);
            assert("F25"@[1] != "F16"@[1]);
            assert("F25"@[1] != "F17"@[1]);
            assert("F25"@[1] != "F18"@[1]);
            assert("F25"@[1] != "F19"@[1]);
            assert("F25"@[2] != "F20"@[2]);
            assert("F25"@[2] != "F21"@[2]);
            assert("F25"@[2] != "F22"@[2]);
            assert("F25"@[2] != "F23"@[2]);
            assert("F25"@[2] != "F24"@[2]);
        },
        KeyImpl::Kp0 => {
            assert("Kp0"@[0] != "Tab"@[0]);
            assert("Kp0"@[0] != "End"@[0]);
            assert("Kp0"@[0] != "F10"@[0]);
            assert("Kp0"@[0] != "F11"@[0]);
            assert("Kp0"@[0] != "F12"@[0]);
            assert("Kp0"@[0] != "F13"@[0]);
            assert("Kp0"@[0] != "F14"@[0]);
            assert("Kp0"@[0] != "F15"@[0]);
            assert("Kp0"@[0] != "F16"@[0]);
            assert("Kp0"@[0] != "F17"@[0]);
            assert("Kp0"@[0] != "F18"@[0]);
            assert("Kp0"@[0] != "F19"@[0]);
            assert("Kp0"@[0] != "F20"@[0]);
            assert("Kp0"@[0] != "F21"@[0]);
            assert("Kp0"@[0] != "F22"@[0]);
            assert("Kp0"@[0] != "F23"@[0]);
            assert("Kp0"@[0] != "F24"@[0]);
            assert("Kp0"@[0] != "F25"@[0]);
        },
        KeyImpl::Kp1 => {
            assert("Kp1"@[0] != "Tab"@[0]);
            assert("Kp1"@[0] != "End"@[0]);
            assert("Kp1"@[0] != "F10"@[0]);
            assert("Kp1"@[0] != "F11"@[0]);
            assert("Kp1"@[0] != "F12"@[0]);
            assert("Kp1"@[0] != "F13"@[0]);
            assert("Kp1"@[0] != "F14"@[0]);
            assert("Kp1"@[0] != "F15"@[0]);
            assert("Kp1"@[0] != "F16"@[0]);
            assert("Kp1"@[0] != "F17"@[0]);
            assert("Kp1"@[0] != "F18"@[0]);
            assert("Kp1"@[0] != "F19"@[0]);
            assert("Kp1"@[0] != "F20"@[0]);
            assert("Kp1"@[0] != "F21"@[0]);
            assert("Kp1"@[0] != "F22"@[0]);
            assert("Kp1"@[0] != "F23"@[0]);
            assert("Kp1"@[0] != "F24"@[0]);
            assert("Kp1"@[0] != "F25"@[0]);
            assert("Kp1"@[2] != "Kp0"@[2]);
        },
        KeyImpl::Kp2 => {
            assert("Kp2"@[0] != "Tab"@[0]);
            assert("Kp2"@[0] != "End"@[0]);
            assert("Kp2"@[0] != "F10"@[0]);
            assert("Kp2"@[0] != "F11"@[0]);
            assert("Kp2"@[0] != "F12"@[0]);
            assert("Kp2"@[0] != "F13"@[0]);
            assert("Kp2"@[0] != "F14"@[0]);
            assert("Kp2"@[0] != "F15"@[0]);
            assert("Kp2"@[0] != "F16"@[0]);
            assert("Kp2"@[0] != "F17"@[0]);
            assert("Kp2"@[0] != "F18"@[0]);
            assert("Kp2"@[0] != "F19"@[0]);
            assert("Kp2"@[0] != "F20"@[0]);
            assert("Kp2"@[0] != "F21"@[0]);
            assert("Kp2"@[0] != "F22"@[0]);
            assert("Kp2"@[0] != "F23"@[0]);
            assert("Kp2"@[0] != "F24"@[0]);
            assert("Kp2"@[0] != "F25"@[0]);
            assert("Kp2"@[2] != "Kp0"@[2]);
            assert("Kp2"@[2] != "Kp1"@[2]);
        },
        KeyImpl::Kp3 => {
            assert("Kp3"@[0] != "Tab"@[0]);
            assert("Kp3"@[0] != "End"@[0]);
            assert("Kp3"@[0] != "F10"@[0]);
            assert("Kp3"@[0] != "F11"@[0]);
            assert("Kp3"@[0] != "F12"@[0]);
            assert("Kp3"@[0] != "F13"@[0]);
            assert("Kp3"@[0] != "F14"@[0]);
            assert("Kp3"@[0] != "F15"@[0]);
            assert("Kp3"@[0] != "F16"@[0]);
            assert("Kp3"@[0] != "F17"@[0]);
            assert("Kp3"@[0] != "F18"@[0]);
            assert("Kp3"@[0] != "F19"@[0]);
            assert("Kp3"@[0] != "F20"@[0]);
            assert("Kp3"@[0] != "F21"@[0]);
            assert("Kp3"@[0] != "F22"@[0]);
            assert("Kp3"@[0] != "F23"@[0]);
            assert("Kp3"@[0] != "F24"@[0]);
            assert("Kp3"@[0] != "F25"@[0]);
            assert("Kp3"@[2] != "Kp0"@[2]);
            assert("Kp3"@[2] != "Kp1"@[2]);
            assert("Kp3"@[2] != "Kp2"@[2]);
        },
        KeyImpl::Kp4 => {
            assert("Kp4"@[0] != "Tab"@[0]);
            assert("Kp4"@[0] != "End"@[0]);
            assert("Kp4"@[0] != "F10"@[0]);
            assert("Kp4"@[0] != "F11"@[0]);
            assert("Kp4"@[0] != "F12"@[0]);
            assert("Kp4"@[0] != "F13"@[0]);
            assert("Kp4"@[0] != "F14"@[0]);
            assert("Kp4"@[0] != "F15"@[0]);
            assert("Kp4"@[0] != "F16"@[0]);
            assert("Kp4"@[0] != "F17"@[0]);
            assert("Kp4"@[0] != "F18"@[0]);
            assert("Kp4"@[0] != "F19"@[0]);
            assert("Kp4"@[0] != "F20"@[0]);
            assert("Kp4"@[0] != "F21"@[0]);
            assert("Kp4"@[0] != "F22"@[0]);
            assert("Kp4"@[0] != "F23"@[0]);
            assert("Kp4"@[0] != "F24"@[0]);
            assert("Kp4"@[0] != "F25"@[0]);
            assert("Kp4"@[2] != "Kp0"@[2]);
            assert("Kp4"@[2] != "Kp1"@[2]);
            assert("Kp4"@[2] != "Kp2"@[2]);
            assert("Kp4"@[2] != "Kp3"@[2]);
        },
        KeyImpl::Kp5 => {
            assert("Kp5"@[0] != "Tab"@[0]);
            assert("Kp5"@[0] != "End"@[0]);
            assert("Kp5"@[0] != "F10"@[0]);
            assert("Kp5"@[0] != "F11"@[0]);
            assert("Kp5"@[0] != "F12"@[0]);
            assert("Kp5"@[0] != "F13"@[0]);
            assert("Kp5"@[0] != "F14"@[0]);
            assert("Kp5"@[0] != "F15"@[0]);
            assert("Kp5"@[0] != "F16"@[0]);
            assert("Kp5"@[0] != "F17"@[0]);
            assert("Kp5"@[0] != "F18"@[0]);
            assert("Kp5"@[0] != "F19"@[0]);
            assert("Kp5"@[0] != "F20"@[0]);
            assert("Kp5"@[0] != "F21"@[0]);
            assert("Kp5"@[0] != "F22"@[0]);
            assert("Kp5"@[0] != "F23"@[0]);
            assert("Kp5"@[0] != "F24"@[0]);
            assert("Kp5"@[0] != "F25"@[0]);
            assert("Kp5"@[2] != "Kp0"@[2]);
            assert("Kp5"@[2] != "Kp1"@[2]);
            assert("Kp5"@[2] != "Kp2"@[2]);
            assert("Kp5"@[2] != "Kp3"@[2]);
            assert("Kp5"@[2] != "Kp4"@[2]);
        },
        KeyImpl::Kp6 => {
            assert("Kp6"@[0] != "Tab"@[0]);
            assert("Kp6"@[0] != "End"@[0]);
            assert("Kp6"@[0] != "F10"@[0]);
            assert("Kp6"@[0] != "F11"@[0]);
            assert("Kp6"@[0] != "F12"@[0]);
            assert("Kp6"@[0] != "F13"@[0]);
            assert("Kp6"@[0] != "F14"@[0]);
            assert("Kp6"@[0] != "F15"@[0]);
            assert("Kp6"@[0] != "F16"@[0]);
            assert("Kp6"@[0] != "F17"@[0]);
            assert("Kp6"@[0] != "F18"@[0]);
            assert("Kp6"@[0] != "F19"@[0]);
            assert("Kp6"@[0] != "F20"@[0]);
            assert("Kp6"@[0] != "F21"@[0]);
            assert("Kp6"@[0] != "F22"@[0]);
            assert("Kp6"@[0] != "F23"@[0]);
            assert("Kp6"@[0] != "F24"@[0]);
            assert("Kp6"@[0] != "F25"@[0]);
            assert("Kp6"@[2] != "Kp0"@[2]);
            assert("Kp6"@[2] != "Kp1"@[2]);
            assert("Kp6"@[2] != "Kp2"@[2]);
            assert("Kp6"@[2] != "Kp3"@[2]);
            assert("Kp6"@[2] != "Kp4"@[2]);
            assert("Kp6"@[2] != "Kp5"@[2]);
        },
        KeyImpl::Kp7 => {
            assert("Kp7"@[0] != "Tab"@[0]);
            assert("Kp7"@[0] != "End"@[0]);
            assert("Kp7"@[0] != "F10"@[0]);
            assert("Kp7"@[0] != "F11"@[0]);
            assert("Kp7"@[0] != "F12"@[0]);
            assert("Kp7"@[0] != "F13"@[0]);
            assert("Kp7"@[0] != "F14"@[0]);
            assert("Kp7"@[0] != "F15"@[0]);
            assert("Kp7"@[0] != "F16"@[0]);
            assert("Kp7"@[0] != "F17"@[0]);
            assert("Kp7"@[0] != "F18"@[0]);
            assert("Kp7"@[0] != "F19"@[0]);
            assert("Kp7"@[0] != "F20"@[0]);
            assert("Kp7"@[0] != "F21"@[0]);
            assert("Kp7"@[0] != "F22"@[0]);
            assert("Kp7"@[0] != "F23"@[0]);
            assert("Kp7"@[0] != "F24"@[0]);
            assert("Kp7"@[0] != "F25"@[0]);
            assert("Kp7"@[2] != "Kp0"@[2]);
            assert("Kp7"@[2] != "Kp1"@[2]);
            assert("Kp7"@[2] != "Kp2"@[2]);
            assert("Kp7"@[2] != "Kp3"@[2]);
            assert("Kp7"@[2] != "Kp4"@[2]);
            assert("Kp7"@[2] != "Kp5"@[2]);
            assert("Kp7"@[2] != "Kp6"@[2]);
        },
        KeyImpl::Kp8 => {
            assert("Kp8"@[0] != "Tab"@[0]);
            assert("Kp8"@[0] != "End"@[0]);
            assert("Kp8"@[0] != "F10"@[0]);
            assert("Kp8"@[0] != "F11"@[0]);
            assert("Kp8"@[0] != "F12"@[0]);
            assert("Kp8"@[0] != "F13"@[0]);
            assert("Kp8"@[0] != "F14"@[0]);
            assert("Kp8"@[0] != "F15"@[0]);
            assert("Kp8"@[0] != "F16"@[0]);
            assert("Kp8"@[0] != "F17"@[0]);
            assert("Kp8"@[0] != "F18"@[0]);
            assert("Kp8"@[0] != "F19"@[0]);
            assert("Kp8"@[0] != "F20"@[0]);
            assert("Kp8"@[0] != "F21"@[0]);
            assert("Kp8"@[0] != "F22"@[0]);
            assert("Kp8"@[0] != "F23"@[0]);
            assert("Kp8"@[0] != "F24"@[0]);
            assert("Kp8"@[0] != "F25"@[0]);
            assert("Kp8"@[2] != "Kp0"@[2]);
            assert("Kp8"@[2] != "Kp1"@[2]);
            assert("Kp8"@[2] != "Kp2"@[2]);
            assert("Kp8"@[2] != "Kp3"@[2]);
            assert("Kp8"@[2] != "Kp4"@[2]);
            assert("Kp8"@[2] != "Kp5"@[2]);
            assert("Kp8"@[2] != "Kp6"@[2]);
            assert("Kp8"@[2] != "Kp7"@[2]);
        },
        KeyImpl::Kp9 => {
            assert("Kp9"@[0] != "Tab"@[0]);
            assert("Kp9"@[0] != "End"@[0]);
            assert("Kp9"@[0] != "F10"@[0]);
            assert("Kp9"@[0] != "F11"@[0]);
            assert("Kp9"@[0] != "F12"@[0]);
            assert("Kp9"@[0] != "F13"@[0]);
            assert("Kp9"@[0] != "F14"@[0]);
            assert("Kp9"@[0] != "F15"@[0]);
            assert("Kp9"@[0] != "F16"@[0]);
            assert("Kp9"@[0] != "F17"@[0]);
            assert("Kp9"@[0] != "F18"@[0]);
            assert("Kp9"@[0] != "F19"@[0]);
            assert("Kp9"@[0] != "F20"@[0]);
            assert("Kp9"@[0] != "F21"@[0]);
            assert("Kp9"@[0] != "F22"@[0]);
            assert("Kp9"@[0] != "F23"@[0]);
            assert("Kp9"@[0] != "F24"@[0]);
            assert("Kp9"@[0] != "F25"@[0]);
            assert("Kp9"@[2] != "Kp0"@[2]);
            assert("Kp9"@[2] != "Kp1"@[2]);
            assert("Kp9"@[2] != "Kp2"@[2]);
            assert("Kp9"@[2] != "Kp3"@[2]);
            assert("Kp9"@[2] != "Kp4"@[2]);
            assert("Kp9"@[2] != "Kp5"@[2]);
            assert("Kp9"@[2] != "Kp6"@[2]);
            assert("Kp9"@[2] != "Kp7"@[2]);
            assert("Kp9"@[2] != "Kp8"@[2]);
        },
        KeyImpl::KpDecimal => {
            assert("KpDecimal"@[0] != "Semicolon"@[0]);
            assert("KpDecimal"@[0] != "Backslash"@[0]);
            assert("KpDecimal"@[0] != "Backspace"@[0]);
        },
        KeyImpl::KpDivide => {
            assert("KpDivide"@[0] != "PageDown"@[0]);
            assert("KpDivide"@[0] != "CapsLock"@[0]);
        },
        KeyImpl::KpMultiply => {
            assert("KpMultiply"@[0] != "Apostrophe"@[0]);
            assert("KpMultiply"@[0] != "ScrollLock"@[0]);
        },
        KeyImpl::KpSubtract => {
            assert("KpSubtract"@[0] != "Apostrophe"@[0]);
            assert("KpSubtract"@[0] != "ScrollLock"@[0]);
            assert("KpSubtract"@[2] != "KpMultiply"@[2]);
        },
        KeyImpl::KpAdd => {
            assert("KpAdd"@[0] != "Space"@[0]);
            assert("KpAdd"@[0] != "Comma"@[0]);
            assert("KpAdd"@[0] != "Minus"@[0]);
            assert("KpAdd"@[0] != "Slash"@[0]);
            assert("KpAdd"@[0] != "Equal"@[0]);
            assert("KpAdd"@[0] != "Enter"@[0]);
            assert("KpAdd"@[0] != "Right"@[0]);
            assert("KpAdd"@[0] != "Pause"@[0]);
        },
        KeyImpl::KpEnter => {
            assert("KpEnter"@[0] != "NumLock"@[0]);
        },
        KeyImpl::KpEqual => {
            assert("KpEqual"@[0] != "NumLock"@[0]);
            assert("KpEqual"@[3] != "KpEnter"@[3]);
        },
        KeyImpl::LeftShift => {
            assert("LeftShift"@[0] != "Semicolon"@[0]);
            assert("LeftShift"@[0] != "Backslash"@[0]);
            assert("LeftShift"@[0] != "Backspace"@[0]);
            assert("LeftShift"@[0] != "KpDecimal"@[0]);
        },
        KeyImpl::LeftControl => {
            assert("LeftControl"@[4] != "LeftBracket"@[4]);
            assert("LeftControl"@[0] != "GraveAccent"@[0]);
            assert("LeftControl"@[0] != "PrintScreen"@[0]);
        },
        KeyImpl::LeftAlt => {
            assert("LeftAlt"@[0] != "NumLock"@[0]);
            assert("LeftAlt"@[0] != "KpEnter"@[0]);
            assert("LeftAlt"@[0] != "KpEqual"@[0]);
        },
        KeyImpl::LeftSuper => {
            assert("LeftSuper"@[0] != "Semicolon"@[0]);
            assert("LeftSuper"@[0] != "Backslash"@[0]);
            assert("LeftSuper"@[0] != "Backspace"@[0]);
            assert("LeftSuper"@[0] != "KpDecimal"@[0]);
            assert("LeftSuper"@[5] != "LeftShift"@[5]);
        },
        KeyImpl::RightShift => {
            assert("RightShift"@[0] != "Apostrophe"@[0]);
            assert("RightShift"@[0] != "ScrollLock"@[0]);
            assert("RightShift"@[0] != "KpMultiply"@[0]);
            assert("RightShift"@[0] != "KpSubtract"@[0]);
        },
        KeyImpl::RightControl => {
            assert("RightControl"@[5] != "RightBracket"@[5]);
        },
        KeyImpl::RightAlt => {
            assert("RightAlt"@[0] != "PageDown"@[0]);
            assert("RightAlt"@[0] != "CapsLock"@[0]);
            assert("RightAlt"@[0] != "KpDivide"@[0]);
        },
        KeyImpl::RightSuper => {
            assert("RightSuper"@[0] != "Apostrophe"@[0]);
            assert("RightSuper"@[0] != "ScrollLock"@[0]);
            assert("RightSuper"@[0] != "KpMultiply"@[0]);
            assert("RightSuper"@[0] != "KpSubtract"@[0]);
            assert("RightSuper"@[6] != "RightShift"@[6]);
        },
        KeyImpl::Menu => {
            assert("Menu"@[0] != "Num0"@[0]);
            assert("Menu"@[0] != "Num1"@[0]);
            assert("Menu"@[0] != "Num2"@[0]);
            assert("Menu"@[0] != "Num3"@[0]);
            assert("Menu"@[0] != "Num4"@[0]);
            assert("Menu"@[0] != "Num5"@[0]);
            assert("Menu"@[0] != "Num6"@[0]);
            assert("Menu"@[0] != "Num7"@[0]);
            assert("Menu"@[0] != "Num8"@[0]);
            assert("Menu"@[0] != "Num9"@[0]);
            assert("Menu"@[0] != "Left"@[0]);
            assert("Menu"@[0] != "Down"@[0]);
            assert("Menu"@[0] != "Home"@[0]);
        },
        KeyImpl::Unknown => {
            assert("Unknown"@[0] != "NumLock"@[0]);
            assert("Unknown"@[0] != "KpEnter"@[0]);
            assert("Unknown"@[0] != "KpEqual"@[0]);
            assert("Unknown"@[0] != "LeftAlt"@[0]);
        },
    }
}

/// Two keys with the same configuration name are the same key.
pub proof fn lemma_key_names_distinct(j: KeyImpl, k: KeyImpl)
    requires
        key_debug_name(j) == key_debug_name(k),
    ensures
        j == k,
{
    lemma_key_name_unique(j);
    lemma_key_name_unique(k);
}


/// Each GLFW key code belongs to one key: reading a key back from its code
/// gives the key.
pub proof fn lemma_key_code_round_trip(k: KeyImpl)
    ensures
        forall|j: KeyImpl| spec_key_code(j) == spec_key_code(k) ==> j == k,
{
}

} // verus!
