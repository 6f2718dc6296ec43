//! The input box: a line of typed text over a list of choices.
use vstd::prelude::*;

use crate::cmd::{ascii_upper, spec_ascii_upper, str_to_uppercase, unicode_uppercase, CommandTag};
use crate::textbuffer::strings::chars_of;

verus! {

/// What the input box is used for.
#[derive(Debug, Clone, Copy, PartialEq, Eq, Structural)]
pub enum Mode {
    /// Typing in a command and showing a list of commands matching that input
    CommandList,
    /// Typing in the parameters of a command
    CommandInput(CommandTag),
}

/// What the list of the input box offers.
#[derive(Debug, Clone, Copy, PartialEq, Eq, Structural)]
pub enum InputBoxMode {
    Command,
    FileList,
}

/// The choices the input box lists, and which of them is selected.
pub struct ListBox {
    pub data: Vec<Vec<char>>,
    pub selection: Option<usize>,
}

impl ListBox {
    pub fn new() -> (r: ListBox)
        ensures
            r.data@.len() == 0,
            r.selection is None,
    {
        ListBox { data: Vec::new(), selection: None }
    }

    /// The selected item, if one is selected and the list has it.
    pub fn get_selected(&self) -> (r: Option<&Vec<char>>)
        ensures
            match self.selection {
                Some(i) => if i < self.data@.len() {
                    r == Some(&self.data@[i as int])
                } else {
                    r is None
                },
                None => r is None,
            },
    {
        match self.selection {
            Some(index) => if index < self.data.len() {
                Some(&self.data[index])
            } else {
                None
            },
            None => None,
        }
    }

    /// Takes the selected item out of the list, if one is selected and the list has it.
    pub fn pop_selected(&mut self) -> (r: Option<Vec<char>>)
        ensures
            final(self).selection == old(self).selection,
            match old(self).selection {
                Some(i) => if i < old(self).data@.len() {
                    r == Some(old(self).data@[i as int]) && final(self).data@ == old(
                        self,
                    ).data@.remove(i as int)
                } else {
                    r is None && final(self).data@ == old(self).data@
                },
                None => r is None && final(self).data@ == old(self).data@,
            },
    {
        match self.selection {
            Some(index) => if index < self.data.len() {
                Some(self.data.remove(index))
            } else {
                None
            },
            None => None,
        }
    }

    /// Empties the list and drops the selection.
    pub fn clear(&mut self)
        ensures
            final(self).data@.len() == 0,
            final(self).selection is None,
    {
        self.selection = None;
        self.data.clear();
    }

    /// Selects the item above, wrapping from the first to the last; selects
    /// the first when nothing is selected.
    pub fn scroll_selection_up(&mut self)
        requires
            old(self).selection is Some && old(self).selection->0 == 0 ==> old(self).data@.len() > 0,
        ensures
            final(self).data == old(self).data,
            final(self).selection == match old(self).selection {
                Some(f) => Some(if f == 0 { (old(self).data@.len() - 1) as usize } else { (f - 1) as usize }),
                None => Some(0usize),
            },
    {
        self.selection = match self.selection {
            Some(f) => Some(if f == 0 { self.data.len() - 1 } else { f - 1 }),
            None => Some(0),
        };
    }

    /// Selects the item below, wrapping from the last to the first; selects
    /// the first when nothing is selected.
    pub fn scroll_selection_down(&mut self)
        requires
            old(self).selection is Some ==> old(self).selection->0 < usize::MAX,
        ensures
            final(self).data == old(self).data,
            final(self).selection == match old(self).selection {
                Some(f) => Some(if f + 1 >= old(self).data@.len() { 0usize } else { (f + 1) as usize }),
                None => Some(0usize),
            },
    {
        self.selection = match self.selection {
            Some(f) => Some(if f + 1 >= self.data.len() { 0 } else { f + 1 }),
            None => Some(0),
        };
    }
}

/// Whether `needle` occurs in `hay` as a run of consecutive characters.
pub open spec fn occurs_in(needle: Seq<char>, hay: Seq<char>) -> bool {
    exists|i: int| 0 <= i <= hay.len() - needle.len() && #[trigger] hay.subrange(i, i + needle.len()) == needle
}

/// Whether `needle` occurs in `hay` starting at `at`.
fn occurs_at(hay: &Vec<char>, needle: &Vec<char>, at: usize) -> (r: bool)
    requires
        at + needle@.len() <= hay@.len(),
    ensures
        r == (hay@.subrange(at as int, at + needle@.len()) == needle@),
{
    let n = needle.len();
    let hl = hay.len();
    let mut k: usize = 0;
    while k < n
        invariant
            k <= n,
            n == needle@.len(),
            hl == hay@.len(),
            at + n <= hl,
            forall|j: int| 0 <= j < k ==> hay@[at + j] == needle@[j],
        decreases needle@.len() - k,
    {
        if hay[at + k] != needle[k] {
            proof {
                assert(hay@.subrange(at as int, at + needle@.len())[k as int] != needle@[k as int]);
            }
            return false;
        }
        k = k + 1;
    }
    proof {
        assert(hay@.subrange(at as int, at + needle@.len()) =~= needle@);
    }
    true
}

/// Whether a file path is listed for what was typed: the typed text in upper
/// case occurs in the path with its ASCII letters in upper case.
pub fn path_matches(path: &str, typed: &str) -> (r: bool)
    ensures
        r == occurs_in(unicode_uppercase(typed@), path@.map_values(|c: char| spec_ascii_upper(c))),
{
    let needle = chars_of(str_to_uppercase(typed).as_str());
    let raw = chars_of(path);
    let mut hay: Vec<char> = Vec::new();
    let mut i: usize = 0;
    while i < raw.len()
        invariant
            i <= raw@.len(),
            raw@ == path@,
            hay@ == path@.subrange(0, i as int).map_values(|c: char| spec_ascii_upper(c)),
        decreases raw@.len() - i,
    {
        hay.push(ascii_upper(raw[i]));
        proof {
            assert(hay@ =~= path@.subrange(0, i + 1).map_values(|c: char| spec_ascii_upper(c)));
        }
        i = i + 1;
    }
    proof {
        assert(path@.subrange(0, raw@.len() as int) =~= path@);
    }
    proof {
        assert(hay@ =~= path@.map_values(|c: char| spec_ascii_upper(c)));
    }
    if needle.len() > hay.len() {
        return false;
    }
    let last = hay.len() - needle.len();
    let mut at: usize = 0;
    loop
        invariant
            last + needle@.len() == hay@.len(),
            at <= last,
            needle@ == unicode_uppercase(typed@),
            hay@ == path@.map_values(|c: char| spec_ascii_upper(c)),
            forall|j: int| 0 <= j < at ==> #[trigger] hay@.subrange(j, j + needle@.len()) != needle@,
        ensures
            forall|j: int| 0 <= j <= last ==> #[trigger] hay@.subrange(j, j + needle@.len()) != needle@,
        decreases last - at,
    {
        if occurs_at(&hay, &needle, at) {
            proof {
                assert(hay@.subrange(at as int, at + needle@.len()) == needle@);
                assert(occurs_in(needle@, hay@));
            }
            return true;
        }
        if at == last {
            break;
        }
        at = at + 1;
    }
    false
}

} // verus!
