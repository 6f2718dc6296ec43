//! What input handlers report back, and the actions keys are bound to.
use vstd::prelude::*;

use crate::cmd::CommandTag;
use crate::textbuffer::operations::LineOperation;
use crate::textbuffer::Movement;

verus! {

/// What an input handler reports back to the application: results of
/// commands, text to copy and the like.
pub enum CommandOutput {
    ClipboardCopy(Option<String>),
    /// The path of the file to open
    OpenFile(String),
    /// The path to save to, if one was given
    SaveFile(Option<String>),
    Goto(u32),
    Find(String),
    /// Nothing to report
    Nothing,
    CommandSelection(CommandTag),
}

pub enum InputElement {
    PopUp,
    InputBox,
    TextView,
}

/// Actions that take place inside an input box.
#[derive(Debug, Clone, Copy, PartialEq, Eq, Structural)]
pub enum InputboxAction {
    Cancel,
    Delete(Movement),
    MovecursorLeft,
    MovecursorRight,
    ScrollSelectionUp,
    ScrollSelectionDown,
    Cut,
    Copy,
    Paste,
    Confirm,
}

/// Actions that take place in a text view.
#[derive(Debug)]
pub enum ViewAction {
    Cancel,
    SaveFile,
    OpenFile,
    Movement(Movement),
    TextSelect(Movement),
    Find,
    Goto,
    Delete(Movement),
    ChangeValueOfAssignment,
    InsertStr(String),
    Cut,
    Copy,
    Paste,
    Undo,
    Redo,
    LineOperation(LineOperation),
    Debug,
}

impl Clone for ViewAction {
    fn clone(&self) -> (r: ViewAction)
        ensures
            r == *self,
    {
        match self {
            ViewAction::Cancel => ViewAction::Cancel,
            ViewAction::SaveFile => ViewAction::SaveFile,
            ViewAction::OpenFile => ViewAction::OpenFile,
            ViewAction::Movement(m) => ViewAction::Movement(*m),
            ViewAction::TextSelect(m) => ViewAction::TextSelect(*m),
            ViewAction::Find => ViewAction::Find,
            ViewAction::Goto => ViewAction::Goto,
            ViewAction::Delete(m) => ViewAction::Delete(*m),
            ViewAction::ChangeValueOfAssignment => ViewAction::ChangeValueOfAssignment,
            ViewAction::InsertStr(s) => ViewAction::InsertStr(s.clone()),
            ViewAction::Cut => ViewAction::Cut,
            ViewAction::Copy => ViewAction::Copy,
            ViewAction::Paste => ViewAction::Paste,
            ViewAction::Undo => ViewAction::Undo,
            ViewAction::Redo => ViewAction::Redo,
            ViewAction::LineOperation(op) => ViewAction::LineOperation(*op),
            ViewAction::Debug => ViewAction::Debug,
        }
    }
}

/// Actions on the application as a whole.
#[derive(Debug, Clone, Copy, PartialEq, Eq, Structural)]
pub enum AppAction {
    Cancel,
    OpenFile,
    SaveFile,
    SearchInFiles,
    GotoLineInFile,
    CycleFocus,
    HideFocused,
    ShowAll,
    ShowDebugInterface,
    CloseActiveView(bool),
    Quit,
    OpenNewView,
    ListCommands,
}

/// The input handler used where no element takes input.
pub struct InvalidInputElement {}

} // verus!
