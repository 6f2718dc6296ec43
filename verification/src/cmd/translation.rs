//! What user input is translated to, so that keys can be mapped to commands
//! by configuration.
use vstd::prelude::*;

use super::keybindings::KeyAction;
use super::keyimpl::{KeyImpl, ModifiersImpl};
use crate::textbuffer::operations::LineOperation;
use crate::textbuffer::Movement;

verus! {

/// A command that user input translates to. In the comments, `|foo|` marks
/// text that the cursor and its selection mark span.
#[derive(Debug, Clone, PartialEq, Eq)]
pub enum InputTranslation {
    Cancel,
    Enter,
    Movement(Movement),
    TextSelect(Movement),
    Delete(Movement),
    /// `let |v| = vec![1, 2]` moves the cursor to `let v = vec![|1, 2|]`, so
    /// that the next input replaces what is between the bars.
    ChangeValueOfAssignment,
    InsertStr(String),
    Cut,
    Copy,
    Paste,
    Undo,
    Redo,
    OpenFile,
    SaveFile,
    Search,
    Goto,
    CycleFocus,
    HideFocused,
    ShowAll,
    ShowDebugInterface,
    CloseActiveView(bool),
    Quit,
    OpenNewView,
    LineOperation(LineOperation),
    Debug,
}

pub enum ViewUserInput {
    Enter,
    Movement(Movement),
    TextSelect(Movement),
    Delete(Movement),
    ChangeValueOfAssignment,
    InsertStr(String),
    Search,
    Goto,
    LineOperation(LineOperation),
    Undo,
    Redo,
    Copy,
    Cut,
    Paste,
}

pub enum CommandUserInput {
    Cancel,
    MovecursorLeft,
    MovecursorRight,
    SelectTextLeft,
    SelectTextRight,
    ScrollSelectionUp,
    ScrollSelectionDown,
    Cut,
    Copy,
    Paste,
    Confirm,
}

pub enum InputContext {
    ActiveView(ViewUserInput),
    InputBox(CommandUserInput),
    Application(InputTranslation),
}

/// Translates a key event to a command; every key event is taken as `Cancel` for now.
pub fn translate_key_input(_key: KeyImpl, _action: KeyAction, _modifier: ModifiersImpl) -> (r: InputTranslation)
    ensures
        r == InputTranslation::Cancel,
{
    InputTranslation::Cancel
}

} // verus!
