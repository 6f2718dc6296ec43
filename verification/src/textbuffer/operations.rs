//! Edit operations: the undo history, and operations on whole lines.
use vstd::prelude::*;

use super::chars::{is_whitespace, spec_is_whitespace};
use super::metadata::Index;
use super::strings::{string_push, string_push_front};

verus! {

/// The argument of a recorded edit: one character, or a run of them.
#[derive(Debug, PartialEq, Eq, Clone)]
pub enum OperationParameter {
    Char(char),
    Range(String),
}

/// A recorded edit: characters inserted or deleted at a buffer index.
#[derive(Debug, PartialEq, Eq, Clone)]
pub enum Operation {
    Insert(Index, OperationParameter),
    Delete(Index, OperationParameter),
}

/// What a recorded edit says, with its characters as a sequence.
pub struct OperationView {
    pub insert: bool,
    pub index: usize,
    pub single: bool,
    pub text: Seq<char>,
}

/// Byte length of the UTF-8 encoding of `s`, as `str::len` gives it.
pub open spec fn utf8_len(s: Seq<char>) -> int {
    (vstd::utf8::encode_utf8(s).len() as usize) as int
}

impl OperationParameter {
    pub open spec fn chars(self) -> Seq<char> {
        match self {
            OperationParameter::Char(c) => seq![c],
            OperationParameter::Range(s) => s@,
        }
    }
}

impl Operation {
    pub open spec fn view(self) -> OperationView {
        match self {
            Operation::Insert(i, p) => OperationView {
                insert: true,
                index: i.0,
                single: p is Char,
                text: p.chars(),
            },
            Operation::Delete(i, p) => OperationView {
                insert: false,
                index: i.0,
                single: p is Char,
                text: p.chars(),
            },
        }
    }

    pub fn index(&self) -> (r: Index)
        ensures
            r.0 == self.view().index,
    {
        match self {
            Operation::Insert(i, ..) => *i,
            Operation::Delete(i, ..) => *i,
        }
    }
}

/// The views of a sequence of operations.
pub open spec fn ops_view(ops: Seq<Operation>) -> Seq<OperationView> {
    ops.map_values(|o: Operation| o.view())
}

/// Whether an insertion of `ch` at `index` joins the last recorded insertion `last`.
pub open spec fn insert_coalesces(last: OperationView, index: usize, ch: char) -> bool {
    &&& !spec_is_whitespace(ch)
    &&& last.insert
    &&& if last.single {
        !spec_is_whitespace(last.text[0]) && last.index + 1 == index
    } else {
        last.index + utf8_len(last.text) == index
    }
}

/// The history after recording the insertion of `ch` at `index`.
pub open spec fn after_push_insert(h: Seq<OperationView>, index: usize, ch: char) -> Seq<OperationView> {
    if h.len() > 0 && insert_coalesces(h.last(), index, ch) {
        h.drop_last().push(
            OperationView { insert: true, index: h.last().index, single: false, text: h.last().text.push(ch) },
        )
    } else {
        h.push(OperationView { insert: true, index, single: true, text: seq![ch] })
    }
}

/// Whether a deletion of `ch` at `index` joins the last recorded deletion
/// `last`: with backspace (just before it) or with the delete key (at it).
pub open spec fn delete_coalesces_backward(last: OperationView, index: usize, ch: char) -> bool {
    &&& !spec_is_whitespace(ch)
    &&& !last.insert
    &&& (last.single ==> !spec_is_whitespace(last.text[0]))
    &&& index + 1 == last.index
}

pub open spec fn delete_coalesces_forward(last: OperationView, index: usize, ch: char) -> bool {
    &&& !spec_is_whitespace(ch)
    &&& !last.insert
    &&& (last.single ==> !spec_is_whitespace(last.text[0]))
    &&& index == last.index
}

/// The history after recording the deletion of `ch` at `index`.
pub open spec fn after_push_delete(h: Seq<OperationView>, index: usize, ch: char) -> Seq<OperationView> {
    if h.len() > 0 && delete_coalesces_backward(h.last(), index, ch) {
        h.drop_last().push(
            OperationView { insert: false, index, single: false, text: seq![ch] + h.last().text },
        )
    } else if h.len() > 0 && delete_coalesces_forward(h.last(), index, ch) {
        h.drop_last().push(
            OperationView { insert: false, index, single: false, text: h.last().text.push(ch) },
        )
    } else {
        h.push(OperationView { insert: false, index, single: true, text: seq![ch] })
    }
}

/// The edits made so far, and the ones undone since, which redo gives back.
#[derive(Debug)]
pub struct History {
    pub history_stack: Vec<Operation>,
    /// the undo stack are just for operation which we want to redo
    /// so if we undo an operation, it gets put here. Every time the user types something, it
    /// invalidates the undo stack, since the user has created a new time line (which still exists in the history stack, but the undone operations are now purged)
    pub undo_stack: Vec<Operation>,
}

impl History {
    pub open spec fn done(&self) -> Seq<OperationView> {
        ops_view(self.history_stack@)
    }

    pub open spec fn undone(&self) -> Seq<OperationView> {
        ops_view(self.undo_stack@)
    }

    pub fn new() -> (r: History)
        ensures
            r.history_stack@.len() == 0,
            r.undo_stack@.len() == 0,
    {
        History { history_stack: Vec::new(), undo_stack: Vec::new() }
    }

    fn invalidate_undo_stack(&mut self)
        ensures
            final(self).undo_stack@.len() == 0,
            final(self).history_stack == old(self).history_stack,
    {
        self.undo_stack.clear();
    }

    /// Records the insertion of the characters of `op_param` at `index`.
    pub fn push_insert_range(&mut self, index: Index, op_param: String)
        ensures
            final(self).history_stack@ == old(self).history_stack@.push(
                Operation::Insert(index, OperationParameter::Range(op_param)),
            ),
            final(self).undo_stack@.len() == 0,
    {
        self.history_stack.push(Operation::Insert(index, OperationParameter::Range(op_param)));
        self.invalidate_undo_stack();
    }

    /// Records the insertion of `ch` at `index`; it joins the last recorded
    /// insertion when both are not whitespace and `index` follows it directly.
    pub fn push_insert(&mut self, index: Index, ch: char)
        ensures
            final(self).done() == after_push_insert(old(self).done(), index.0, ch),
            final(self).undo_stack@.len() == 0,
    {
        self.invalidate_undo_stack();
        let ghost h = self.done();
        let mut coalesced = false;
        if !is_whitespace(ch) && self.history_stack.len() > 0 {
            let last = self.history_stack.pop().unwrap();
            proof {
                assert(self.history_stack@ =~= old(self).history_stack@.drop_last());
                assert(ops_view(self.history_stack@) =~= h.drop_last());
                assert(h.last() == last.view());
                assert(h.drop_last().push(last.view()) =~= h);
            }
            match last {
                Operation::Insert(i, OperationParameter::Char(c)) => {
                    if !is_whitespace(c) && index.0 > 0 && i.0 == index.0 - 1 {
                        let mut s = String::new();
                        string_push(&mut s, c);
                        string_push(&mut s, ch);
                        proof {
                            assert(s@ =~= seq![c].push(ch));
                        }
                        self.history_stack.push(Operation::Insert(i, OperationParameter::Range(s)));
                        coalesced = true;
                        proof {
                            assert(self.done() =~= after_push_insert(h, index.0, ch));
                        }
                    } else {
                        self.history_stack.push(Operation::Insert(i, OperationParameter::Char(c)));
                    }
                },
                Operation::Insert(i, OperationParameter::Range(d)) => {
                    let ds = d.as_str();
                    let n = ds.len();
                    proof {
                        assert(ds@ == d@);
                        assert(n == utf8_len(d@));
                    }
                    if n <= index.0 && i.0 == index.0 - n {
                        let mut d = d;
                        string_push(&mut d, ch);
                        self.history_stack.push(Operation::Insert(i, OperationParameter::Range(d)));
                        coalesced = true;
                        proof {
                            assert(self.done() =~= after_push_insert(h, index.0, ch));
                        }
                    } else {
                        self.history_stack.push(Operation::Insert(i, OperationParameter::Range(d)));
                    }
                },
                other => {
                    self.history_stack.push(other);
                },
            }
            proof {
                if !coalesced {
                    assert(self.done() =~= h);
                }
            }
        }
        if !coalesced {
            proof {
                assert(self.done() =~= h);
            }
            self.history_stack.push(Operation::Insert(index, OperationParameter::Char(ch)));
            proof {
                assert(self.done() =~= after_push_insert(h, index.0, ch));
            }
        }
    }

    /// Records the deletion of `ch` at `index`; it joins the last recorded
    /// deletion when both are not whitespace and `index` is just before it
    /// (a backspace) or at it (the delete key).
    pub fn push_delete(&mut self, index: Index, ch: char)
        ensures
            final(self).done() == after_push_delete(old(self).done(), index.0, ch),
            final(self).undo_stack@.len() == 0,
    {
        self.invalidate_undo_stack();
        let ghost h = self.done();
        let mut coalesced = false;
        if !is_whitespace(ch) && self.history_stack.len() > 0 {
            let last = self.history_stack.pop().unwrap();
            proof {
                assert(self.history_stack@ =~= old(self).history_stack@.drop_last());
                assert(ops_view(self.history_stack@) =~= h.drop_last());
                assert(h.last() == last.view());
                assert(h.drop_last().push(last.view()) =~= h);
            }
            match last {
                Operation::Delete(i, OperationParameter::Char(c)) => {
                    if !is_whitespace(c) && index.0 < usize::MAX && index.0 + 1 == i.0 {
                        let mut s = String::new();
                        string_push(&mut s, ch);
                        string_push(&mut s, c);
                        proof {
                            assert(s@ =~= seq![ch] + seq![c]);
                        }
                        self.history_stack.push(Operation::Delete(index, OperationParameter::Range(s)));
                        coalesced = true;
                        proof {
                            assert(self.done() =~= after_push_delete(h, index.0, ch));
                        }
                    } else if !is_whitespace(c) && i.0 == index.0 {
                        let mut s = String::new();
                        string_push(&mut s, c);
                        string_push(&mut s, ch);
                        proof {
                            assert(s@ =~= seq![c].push(ch));
                        }
                        self.history_stack.push(Operation::Delete(index, OperationParameter::Range(s)));
                        coalesced = true;
                        proof {
                            assert(self.done() =~= after_push_delete(h, index.0, ch));
                        }
                    } else {
                        self.history_stack.push(Operation::Delete(i, OperationParameter::Char(c)));
                    }
                },
                Operation::Delete(i, OperationParameter::Range(d)) => {
                    if i.0 == index.0 {
                        let mut d = d;
                        string_push(&mut d, ch);
                        self.history_stack.push(Operation::Delete(i, OperationParameter::Range(d)));
                        coalesced = true;
                        proof {
                            assert(self.done() =~= after_push_delete(h, index.0, ch));
                        }
                    } else if index.0 < usize::MAX && index.0 + 1 == i.0 {
                        let mut d = d;
                        string_push_front(&mut d, ch);
                        self.history_stack.push(Operation::Delete(index, OperationParameter::Range(d)));
                        coalesced = true;
                        proof {
                            assert(self.done() =~= after_push_delete(h, index.0, ch));
                        }
                    } else {
                        self.history_stack.push(Operation::Delete(i, OperationParameter::Range(d)));
                    }
                },
                other => {
                    self.history_stack.push(other);
                },
            }
            proof {
                if !coalesced {
                    assert(self.done() =~= h);
                }
            }
        }
        if !coalesced {
            proof {
                assert(self.done() =~= h);
            }
            self.history_stack.push(Operation::Delete(index, OperationParameter::Char(ch)));
            proof {
                assert(self.done() =~= after_push_delete(h, index.0, ch));
            }
        }
    }

    /// Pops the latest operation from the history stack and pushes it onto the undo stack.
    pub fn undo(&mut self) -> (r: Option<&Operation>)
        ensures
            old(self).history_stack@.len() == 0 ==> r is None && final(self).history_stack@ == old(
                self,
            ).history_stack@ && final(self).undo_stack@ == old(self).undo_stack@,
            old(self).history_stack@.len() > 0 ==> {
                &&& final(self).history_stack@ == old(self).history_stack@.drop_last()
                &&& final(self).undo_stack@ == old(self).undo_stack@.push(
                    old(self).history_stack@.last(),
                )
                &&& r == Some(&old(self).history_stack@.last())
            },
    {
        let popped = self.history_stack.pop();
        match popped {
            Some(op) => {
                self.undo_stack.push(op);
                self.undo_stack.last()
            },
            None => None,
        }
    }

    /// Pops the latest undone operation and pushes it back onto the history stack.
    pub fn redo(&mut self) -> (r: Option<&Operation>)
        ensures
            old(self).undo_stack@.len() == 0 ==> r is None && final(self).history_stack@ == old(
                self,
            ).history_stack@ && final(self).undo_stack@ == old(self).undo_stack@,
            old(self).undo_stack@.len() > 0 ==> {
                &&& final(self).undo_stack@ == old(self).undo_stack@.drop_last()
                &&& final(self).history_stack@ == old(self).history_stack@.push(
                    old(self).undo_stack@.last(),
                )
                &&& r == Some(&old(self).undo_stack@.last())
            },
    {
        let popped = self.undo_stack.pop();
        match popped {
            Some(op) => {
                self.history_stack.push(op);
                self.history_stack.last()
            },
            None => None,
        }
    }
}

/// An insertion that does not directly follow the last recorded edit (its
/// index is neither where that edit's characters end nor where their UTF-8
/// bytes end) is recorded on its own: every earlier entry stays as it was,
/// and one new single-character insertion at that index is added.
pub proof fn lemma_insert_elsewhere_is_recorded_apart(hist: History, index: Index, ch: char)
    requires
        hist.history_stack@.len() > 0 ==> ({
            let last = hist.history_stack@.last().view();
            &&& index.0 != last.index + last.text.len()
            &&& index.0 != last.index + utf8_len(last.text)
        }),
    ensures
        after_push_insert(hist.done(), index.0, ch) == hist.done().push(
            OperationView { insert: true, index: index.0, single: true, text: seq![ch] },
        ),
        after_push_insert(hist.done(), index.0, ch).subrange(0, hist.done().len() as int) == hist.done(),
{
    let h = hist.done();
    if h.len() > 0 {
        assert(h.last() == hist.history_stack@.last().view());
    }
    assert(h.push(OperationView { insert: true, index: index.0, single: true, text: seq![ch] }).subrange(
        0,
        h.len() as int,
    ) =~= h);
}

/// Undoing the latest edit and then redoing it gives back the history as it was.
pub proof fn lemma_undo_redo(h: History, h1: History, h2: History)
    requires
        h.history_stack@.len() > 0,
        h1.history_stack@ == h.history_stack@.drop_last(),
        h1.undo_stack@ == h.undo_stack@.push(h.history_stack@.last()),
        h2.undo_stack@ == h1.undo_stack@.drop_last(),
        h2.history_stack@ == h1.history_stack@.push(h1.undo_stack@.last()),
    ensures
        h2.history_stack@ == h.history_stack@,
        h2.undo_stack@ == h.undo_stack@,
{
    assert(h2.history_stack@ =~= h.history_stack@);
    assert(h2.undo_stack@ =~= h.undo_stack@);
}

/// An operation on a range of lines.
#[derive(Debug, Hash, PartialEq, Eq, Structural, Clone, Copy)]
pub enum LineOperation {
    ShiftLeft { shift_by: usize },
    ShiftRight { shift_by: usize },
    PasteAt { insertion: char },
}

} // verus!
