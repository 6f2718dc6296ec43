//! ClipBoard: the text last copied or cut, held until it is taken out.
use vstd::prelude::*;

verus! {

pub struct ClipBoard {
    data: String,
}

impl ClipBoard {
    /// The text the clipboard holds; empty when it holds none.
    pub closed spec fn contents(&self) -> Seq<char> {
        self.data@
    }

    pub fn new() -> (r: ClipBoard)
        ensures
            r.contents() == Seq::<char>::empty(),
    {
        ClipBoard { data: String::new() }
    }

    /// Replaces the contents with a copy of `data`.
    pub fn copy(&mut self, data: &str)
        ensures
            final(self).contents() == data@,
    {
        self.data = data.to_owned();
    }

    /// Replaces the contents with `data`.
    pub fn take(&mut self, data: String)
        ensures
            final(self).contents() == data@,
    {
        self.data = data;
    }

    /// The contents, or `None` when there are none.
    pub fn give(&self) -> (r: Option<&String>)
        ensures
            self.contents().len() == 0 ==> r is None,
            self.contents().len() > 0 ==> r is Some && r->0@ == self.contents(),
    {
        if self.data.as_str().is_empty() {
            None
        } else {
            Some(&self.data)
        }
    }

    /// Takes the contents out, leaving the clipboard empty; `None` when it was empty.
    pub fn release(&mut self) -> (r: Option<String>)
        ensures
            old(self).contents().len() == 0 ==> r is None && final(self).contents() == old(
                self,
            ).contents(),
            old(self).contents().len() > 0 ==> r is Some && r->0@ == old(self).contents()
                && final(self).contents() == Seq::<char>::empty(),
    {
        if self.data.as_str().is_empty() {
            None
        } else {
            let mut res = String::new();
            std::mem::swap(&mut res, &mut self.data);
            Some(res)
        }
    }
}

} // verus!
