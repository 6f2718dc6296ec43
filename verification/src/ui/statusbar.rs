//! What the status bar shows: the file being edited and the cursor's
//! position in it, or a message.
use vstd::prelude::*;

use crate::textbuffer::metadata::{Column, Line};
use crate::textbuffer::strings::{push_str, string_from_chars};
use crate::utils::{decimal, push_decimal};

verus! {

pub enum StatusBarContent {
    /// The path of the file, if it has one, with the cursor's line and column.
    FileEdit(Option<String>, (Line, Column)),
    Message(Vec<char>),
}

/// The text the status bar shows for its content.
pub open spec fn status_text(content: StatusBarContent) -> Seq<char> {
    match content {
        StatusBarContent::FileEdit(path, (line, column)) => (match path {
            Some(p) => p@,
            None => "unnamed_file"@,
        }) + seq![':'] + decimal(line.0 as nat) + seq![':'] + decimal(column.0 as nat),
        StatusBarContent::Message(msg) => msg@,
    }
}

impl StatusBarContent {
    /// `path:line:column` for a file (`unnamed_file` when it has no path), or the message.
    pub fn to_str(&self) -> (r: String)
        ensures
            r@ == status_text(*self),
    {
        match self {
            StatusBarContent::FileEdit(path, (line, column)) => {
                let mut v: Vec<char> = Vec::new();
                match path {
                    Some(p) => push_str(&mut v, p.as_str()),
                    None => push_str(&mut v, "unnamed_file"),
                }
                v.push(':');
                push_decimal(&mut v, line.0);
                v.push(':');
                push_decimal(&mut v, column.0);
                proof {
                    assert(v@ =~= status_text(*self));
                }
                string_from_chars(v.as_slice())
            },
            StatusBarContent::Message(msg) => string_from_chars(msg.as_slice()),
        }
    }
}

} // verus!
