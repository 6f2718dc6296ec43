//! Buffers: the text buffers that no view holds at the moment, and the ids
//! of all buffers handed out.
use vstd::prelude::*;

use super::contiguous::ContiguousBuffer;

verus! {

pub struct Buffers {
    pub buffers: Vec<Box<ContiguousBuffer>>,
    /// The ids of the buffers handed out so far and not destroyed. A view may
    /// take a buffer and give it back later, so this is not `buffers`' ids.
    pub live_buffer_ids: Vec<u32>,
    /// How many buffers were opened so far; it never goes down, and the next
    /// buffer gets it as its id.
    pub buffers_opened: u32,
}

/// The index of the first buffer with id `id`.
pub open spec fn first_with_id(bufs: Seq<Box<ContiguousBuffer>>, id: u32) -> Option<int> {
    if exists|i: int| 0 <= i < bufs.len() && bufs[i].id == id {
        Some(choose|i: int| 0 <= i < bufs.len() && bufs[i].id == id && (forall|j: int| 0 <= j < i ==> bufs[j].id != id))
    } else {
        None
    }
}

impl Buffers {
    /// Every live id was handed out before the count reached its present value.
    pub open spec fn wf(&self) -> bool {
        forall|i: int| 0 <= i < self.live_buffer_ids@.len() ==> #[trigger] self.live_buffer_ids@[i] < self.buffers_opened
    }

    pub fn new() -> (r: Self)
        ensures
            r.wf(),
            r.buffers@.len() == 0,
            r.live_buffer_ids@.len() == 0,
            r.buffers_opened == 0,
    {
        Buffers { buffers: Vec::new(), live_buffer_ids: Vec::new(), buffers_opened: 0 }
    }

    /// A buffer that no `Buffers` manages, for views that keep one buffer of their own.
    pub fn free_buffer() -> (r: Box<ContiguousBuffer>)
        ensures
            r.wf(),
            r.id == 0,
            r.data@.len() == 0,
    {
        Box::new(ContiguousBuffer::new(0, 1024))
    }

    /// A new empty buffer whose id is the number of buffers opened so far,
    /// which no live buffer has; that id is recorded as live, and the count
    /// goes up by one.
    pub fn request_new_buffer(&mut self) -> (r: Box<ContiguousBuffer>)
        requires
            old(self).wf(),
            old(self).buffers_opened < u32::MAX,
        ensures
            final(self).wf(),
            r.wf(),
            r.data@.len() == 0,
            r.id == old(self).buffers_opened,
            !old(self).live_buffer_ids@.contains(r.id),
            final(self).live_buffer_ids@ == old(self).live_buffer_ids@.push(r.id),
            final(self).buffers_opened == old(self).buffers_opened + 1,
            final(self).buffers == old(self).buffers,
    {
        let id = self.buffers_opened;
        let buf = ContiguousBuffer::new(id, 1024);
        self.live_buffer_ids.push(id);
        self.buffers_opened = id + 1;
        Box::new(buf)
    }

    /// Takes out the first buffer with id `id`, if there is one.
    pub fn take_buffer(&mut self, id: u32) -> (r: Option<Box<ContiguousBuffer>>)
        ensures
            final(self).live_buffer_ids == old(self).live_buffer_ids,
            final(self).buffers_opened == old(self).buffers_opened,
            match first_with_id(old(self).buffers@, id) {
                Some(i) => r == Some(old(self).buffers@[i]) && final(self).buffers@ == old(
                    self,
                ).buffers@.remove(i),
                None => r is None && final(self).buffers@ == old(self).buffers@,
            },
    {
        let mut i: usize = 0;
        while i < self.buffers.len()
            invariant
                i <= self.buffers@.len(),
                self.buffers == old(self).buffers,
                self.live_buffer_ids == old(self).live_buffer_ids,
                self.buffers_opened == old(self).buffers_opened,
                forall|j: int| 0 <= j < i ==> self.buffers@[j].id != id,
            decreases self.buffers@.len() - i,
        {
            if self.buffers[i].id == id {
                proof {
                    let bufs = old(self).buffers@;
                    assert(0 <= i < bufs.len() && bufs[i as int].id == id);
                    let k = first_with_id(bufs, id)->0;
                    assert(k == i as int) by {
                        if k < i {
                            assert(bufs[k].id != id);
                        } else if k > i {
                            assert(bufs[i as int].id != id);
                        }
                    }
                }
                return Some(self.buffers.remove(i));
            }
            i = i + 1;
        }
        None
    }

    /// Puts a buffer back among those that no view holds.
    pub fn give_back_buffer(&mut self, buffer: Box<ContiguousBuffer>)
        ensures
            final(self).buffers@ == old(self).buffers@.push(buffer),
            final(self).live_buffer_ids == old(self).live_buffer_ids,
            final(self).buffers_opened == old(self).buffers_opened,
    {
        self.buffers.push(buffer);
    }

    /// Drops a buffer and its id from the live ids.
    pub fn destroy_buffer(&mut self, buffer: Box<ContiguousBuffer>)
        requires
            old(self).live_buffer_ids@.contains(buffer.id),
        ensures
            final(self).live_buffer_ids@ == old(self).live_buffer_ids@.filter(|i: u32| i != buffer.id),
            final(self).buffers == old(self).buffers,
            final(self).buffers_opened == old(self).buffers_opened,
            old(self).wf() ==> final(self).wf(),
    {
        let id = buffer.id;
        let mut kept: Vec<u32> = Vec::new();
        let mut i: usize = 0;
        while i < self.live_buffer_ids.len()
            invariant
                i <= self.live_buffer_ids@.len(),
                self.live_buffer_ids == old(self).live_buffer_ids,
                self.buffers == old(self).buffers,
                kept@ == self.live_buffer_ids@.subrange(0, i as int).filter(|x: u32| x != id),
            decreases self.live_buffer_ids@.len() - i,
        {
            let x = self.live_buffer_ids[i];
            proof {
                reveal(Seq::filter);
                let t = self.live_buffer_ids@.subrange(0, i + 1);
                assert(t.drop_last() =~= self.live_buffer_ids@.subrange(0, i as int));
                assert(t.last() == x);
            }
            if x != id {
                kept.push(x);
            }
            i = i + 1;
        }
        proof {
            assert(self.live_buffer_ids@.subrange(0, self.live_buffer_ids@.len() as int)
                =~= self.live_buffer_ids@);
        }
        self.live_buffer_ids = kept;
        proof {
            let before = old(self).live_buffer_ids@;
            let after = self.live_buffer_ids@;
            if old(self).wf() {
                assert forall|k: int| 0 <= k < after.len() implies #[trigger] after[k] < self.buffers_opened by {
                    assert(after.contains(after[k]));
                    before.lemma_filter_contains_rev(|x: u32| x != id, after[k]);
                }
            }
        }
    }
}

} // verus!
