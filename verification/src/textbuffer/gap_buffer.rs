//! GapBuffer: a sequence with a gap of free slots at the edit position, so
//! that edits there need no shifting of the rest.
use vstd::prelude::*;

use super::strings::string_from_chars;
use super::vecops::{vec_drain, vec_splice_in};
use super::cursor::BufferCursor;
use super::metadata::MetaData;
use super::SubstringClone;

verus! {

/// Where an iteration starts or stops: at an absolute index, or at the gap.
#[derive(Clone, Copy)]
pub enum Cursor {
    Absolute(usize),
    Buffer,
}

/// The elements before the gap are `front`, those after it `back`; the buffer
/// has room for `cap` elements, and the gap is what `front` and `back` leave free.
pub struct GapBuffer<T> where T: Clone + Copy {
    front: Vec<T>,
    back: Vec<T>,
    cap: usize,
}

impl<T> GapBuffer<T> where T: Clone + Copy {
    /// The elements, in order.
    pub closed spec fn view(&self) -> Seq<T> {
        self.front@ + self.back@
    }

    /// Number of element slots, the gap included.
    pub closed spec fn spec_capacity(&self) -> nat {
        self.cap as nat
    }

    /// Index at which the gap begins (where the next insertion goes).
    pub closed spec fn gap_start(&self) -> nat {
        self.front@.len()
    }

    pub closed spec fn wf(&self) -> bool {
        self.front@.len() + self.back@.len() <= self.cap
    }

    pub proof fn lemma_view_len(&self)
        requires
            self.wf(),
        ensures
            self.view().len() <= self.spec_capacity(),
            self.gap_start() <= self.view().len(),
    {
    }

    pub fn new() -> (r: GapBuffer<T>)
        ensures
            r.wf(),
            r.view() == Seq::<T>::empty(),
            r.spec_capacity() == 0,
            r.gap_start() == 0,
    {
        let r = GapBuffer { front: Vec::new(), back: Vec::new(), cap: 0 };
        proof {
            assert(r.view() =~= Seq::<T>::empty());
        }
        r
    }

    pub fn new_with_capacity(cap: usize) -> (r: GapBuffer<T>)
        ensures
            r.wf(),
            r.view() == Seq::<T>::empty(),
            r.spec_capacity() == cap,
            r.gap_start() == 0,
    {
        let r = GapBuffer { front: Vec::new(), back: Vec::new(), cap };
        proof {
            assert(r.view() =~= Seq::<T>::empty());
        }
        r
    }

    pub fn capacity(&self) -> (r: usize)
        ensures
            r == self.spec_capacity(),
    {
        self.cap
    }

    pub fn len(&self) -> (r: usize)
        requires
            self.wf(),
        ensures
            r == self.view().len(),
    {
        self.front.len() + self.back.len()
    }

    /// The slots of the gap.
    pub fn gap(&self) -> (r: std::ops::Range<usize>)
        requires
            self.wf(),
        ensures
            r.start == self.gap_start(),
            r.end == self.spec_capacity() - (self.view().len() - self.gap_start()),
    {
        self.front.len()..(self.cap - self.back.len())
    }

    /// Requires for us to *only* have one gap: the number of free slots.
    pub fn free_space_size(&self) -> (r: usize)
        requires
            self.wf(),
        ensures
            r == self.spec_capacity() - self.view().len(),
    {
        self.cap - self.front.len() - self.back.len()
    }

    pub fn get_pos(&self) -> (r: usize)
        ensures
            r == self.gap_start(),
    {
        self.front.len()
    }

    pub fn get(&self, index: usize) -> (r: Option<&T>)
        requires
            self.wf(),
        ensures
            r == if index < self.view().len() {
                Some(&self.view()[index as int])
            } else {
                None::<&T>
            },
    {
        let n = self.front.len();
        if index < n {
            Some(&self.front[index])
        } else if index - n < self.back.len() {
            Some(&self.back[index - n])
        } else {
            None
        }
    }

    /// Moves the gap so that it begins at `pos`; the elements stay as they are.
    pub fn set_gap_position(&mut self, pos: usize)
        requires
            old(self).wf(),
            pos <= old(self).view().len(),
        ensures
            final(self).wf(),
            final(self).view() == old(self).view(),
            final(self).gap_start() == pos,
            final(self).spec_capacity() == old(self).spec_capacity(),
    {
        let start = self.front.len();
        if pos > start {
            let distance = pos - start;
            let mut j: usize = 0;
            while j < distance
                invariant
                    j <= distance,
                    start + distance == pos,
                    distance <= self.back@.len(),
                    self.back == old(self).back,
                    self.cap == old(self).cap,
                    self.front@ == old(self).front@ + old(self).back@.subrange(0, j as int),
                decreases distance - j,
            {
                self.front.push(self.back[j]);
                proof {
                    assert(self.front@ =~= old(self).front@ + old(self).back@.subrange(0, j + 1));
                }
                j = j + 1;
            }
            vec_drain(&mut self.back, 0, distance);
            proof {
                assert(self.view() =~= old(self).view());
            }
        } else if pos < start {
            let moved = self.front.as_slice();
            let sl = &moved[pos..start];
            vec_splice_in(&mut self.back, 0, sl);
            self.front.truncate(pos);
            proof {
                assert(self.view() =~= old(self).view());
            }
        }
    }

    /// Inserts the elements of `slice` at the gap, growing the gap first when
    /// it has no more room than the slice needs.
    pub fn insert_slice(&mut self, slice: &[T])
        requires
            old(self).wf(),
            old(self).spec_capacity() + 3 * slice@.len() <= usize::MAX,
        ensures
            final(self).wf(),
            final(self).view() == old(self).view().subrange(0, old(self).gap_start() as int)
                + slice@ + old(self).view().subrange(
                old(self).gap_start() as int,
                old(self).view().len() as int,
            ),
            final(self).gap_start() == old(self).gap_start() + slice@.len(),
            final(self).spec_capacity() == if old(self).spec_capacity() - old(self).view().len()
                <= slice@.len() {
                (old(self).spec_capacity() + 3 * slice@.len()) as int
            } else {
                old(self).spec_capacity() as int
            },
    {
        if self.cap - self.front.len() - self.back.len() <= slice.len() {
            self.cap = self.cap + slice.len() * 3;
        }
        let mut i: usize = 0;
        let ghost f0 = self.front@;
        while i < slice.len()
            invariant
                i <= slice@.len(),
                self.front@ == f0 + slice@.subrange(0, i as int),
                self.back == old(self).back,
                f0 == old(self).front@,
                self.front@.len() + self.back@.len() + slice@.len() - i <= self.cap,
                self.cap == (if old(self).cap - old(self).front@.len() - old(self).back@.len()
                    <= slice@.len() {
                    old(self).cap + 3 * slice@.len()
                } else {
                    old(self).cap as int
                }),
            decreases slice@.len() - i,
        {
            self.front.push(slice[i]);
            proof {
                assert(self.front@ =~= f0 + slice@.subrange(0, i + 1));
            }
            i = i + 1;
        }
        proof {
            assert(slice@.subrange(0, slice@.len() as int) =~= slice@);
            assert(old(self).view().subrange(0, old(self).gap_start() as int) =~= old(self).front@);
            assert(old(self).view().subrange(
                old(self).gap_start() as int,
                old(self).view().len() as int,
            ) =~= old(self).back@);
            assert(self.view() =~= f0 + slice@ + old(self).back@);
        }
    }

    /// Inserts `elem` at the gap, growing the gap first when it is full.
    pub fn insert_item(&mut self, elem: T)
        requires
            old(self).wf(),
            old(self).spec_capacity() <= usize::MAX / 8,
        ensures
            final(self).wf(),
            final(self).view() == old(self).view().insert(old(self).gap_start() as int, elem),
            final(self).gap_start() == old(self).gap_start() + 1,
            final(self).spec_capacity() == if old(self).view().len() == old(self).spec_capacity() {
                grown_capacity(old(self).spec_capacity() as int)
            } else {
                old(self).spec_capacity() as int
            },
    {
        if self.cap - self.front.len() - self.back.len() == 0 {
            self.enlarge_gap();
        }
        self.front.push(elem);
        proof {
            assert(self.view() =~= old(self).view().insert(old(self).gap_start() as int, elem));
        }
    }

    /// Inserts the items in order at the gap.
    pub fn map_into(&mut self, items: Vec<T>)
        requires
            old(self).wf(),
            old(self).spec_capacity() + items@.len() <= usize::MAX / 32,
        ensures
            final(self).wf(),
            final(self).view() == old(self).view().subrange(0, old(self).gap_start() as int)
                + items@ + old(self).view().subrange(
                old(self).gap_start() as int,
                old(self).view().len() as int,
            ),
            final(self).gap_start() == old(self).gap_start() + items@.len(),
    {
        let ghost v0 = self.view();
        let ghost g0 = self.gap_start() as int;
        let mut i: usize = 0;
        while i < items.len()
            invariant
                self.wf(),
                i <= items@.len(),
                0 <= g0 <= v0.len(),
                self.gap_start() == g0 + i,
                self.view() == v0.subrange(0, g0) + items@.subrange(0, i as int) + v0.subrange(
                    g0,
                    v0.len() as int,
                ),
                v0.len() <= old(self).spec_capacity(),
                self.view().len() == v0.len() + i,
                self.spec_capacity() <= old(self).spec_capacity() || self.spec_capacity() <= 2
                    * self.view().len() + 512,
                old(self).spec_capacity() + items@.len() <= usize::MAX / 32,
            decreases items@.len() - i,
        {
            let ghost before = self.view();
            let ghost c0 = self.spec_capacity();
            self.insert_item(items[i]);
            proof {
                let pre = v0.subrange(0, g0) + items@.subrange(0, i as int);
                let suf = v0.subrange(g0, v0.len() as int);
                assert(before =~= pre + suf);
                assert(before.insert(pre.len() as int, items@[i as int]) =~= pre.push(
                    items@[i as int],
                ) + suf);
                assert(pre.push(items@[i as int]) =~= v0.subrange(0, g0) + items@.subrange(
                    0,
                    i + 1,
                ));
                assert(grown_capacity(c0 as int) <= 2 * c0 + 512);
                assert(pre.len() == g0 + i);
                assert(self.view() == pre.push(items@[i as int]) + suf);
            }
            i = i + 1;
        }
        proof {
            assert(items@.subrange(0, items@.len() as int) =~= items@);
        }
    }

    /// Works like the "delete" key when you edit text: removes and returns the
    /// element just after the gap.
    pub fn delete(&mut self) -> (r: Option<T>)
        requires
            old(self).wf(),
        ensures
            final(self).wf(),
            final(self).gap_start() == old(self).gap_start(),
            final(self).spec_capacity() == old(self).spec_capacity(),
            old(self).gap_start() == old(self).view().len() ==> r is None && final(self).view()
                == old(self).view(),
            old(self).gap_start() < old(self).view().len() ==> r == Some(
                old(self).view()[old(self).gap_start() as int],
            ) && final(self).view() == old(self).view().remove(old(self).gap_start() as int),
    {
        if self.back.len() == 0 {
            return None;
        }
        let e = self.back.remove(0);
        proof {
            assert(self.view() =~= old(self).view().remove(old(self).gap_start() as int));
        }
        Some(e)
    }

    /// Erases the elements `text_range.start .. text_range.end`; the gap ends up where they were.
    pub fn erase(&mut self, text_range: std::ops::Range<usize>)
        requires
            old(self).wf(),
            text_range.start <= old(self).view().len(),
            text_range.end <= old(self).view().len(),
        ensures
            final(self).wf(),
            final(self).view() == if text_range.start < text_range.end {
                old(self).view().subrange(0, text_range.start as int) + old(self).view().subrange(
                    text_range.end as int,
                    old(self).view().len() as int,
                )
            } else {
                old(self).view()
            },
            final(self).gap_start() == text_range.start,
            final(self).spec_capacity() == old(self).spec_capacity(),
    {
        let len = if text_range.start < text_range.end {
            text_range.end - text_range.start
        } else {
            0
        };
        self.set_gap_position(text_range.start);
        vec_drain(&mut self.back, 0, len);
        proof {
            assert(self.view() =~= if text_range.start < text_range.end {
                old(self).view().subrange(0, text_range.start as int) + old(self).view().subrange(
                    text_range.end as int,
                    old(self).view().len() as int,
                )
            } else {
                old(self).view()
            });
        }
    }

    /// Works like the "backspace" key when you edit text: removes and returns
    /// the element just before the gap.
    pub fn remove(&mut self) -> (r: Option<T>)
        requires
            old(self).wf(),
        ensures
            final(self).wf(),
            final(self).spec_capacity() == old(self).spec_capacity(),
            old(self).gap_start() == 0 ==> r is None && final(self).view() == old(self).view()
                && final(self).gap_start() == 0,
            old(self).gap_start() > 0 ==> r == Some(
                old(self).view()[old(self).gap_start() - 1],
            ) && final(self).view() == old(self).view().remove(old(self).gap_start() - 1)
                && final(self).gap_start() == old(self).gap_start() - 1,
    {
        let e = self.front.pop();
        proof {
            assert(self.view() =~= if old(self).gap_start() == 0 {
                old(self).view()
            } else {
                old(self).view().remove(old(self).gap_start() - 1)
            });
        }
        e
    }

    /// Grows the buffer by about 40% (to 512 slots when it has none), the new
    /// slots joining the gap.
    fn enlarge_gap(&mut self)
        requires
            old(self).wf(),
            old(self).spec_capacity() <= usize::MAX / 8,
        ensures
            final(self).wf(),
            final(self).view() == old(self).view(),
            final(self).gap_start() == old(self).gap_start(),
            final(self).spec_capacity() == grown_capacity(old(self).spec_capacity() as int),
            final(self).spec_capacity() > old(self).spec_capacity(),
    {
        let c = self.cap;
        let mut newcap = (c * 7 + 2) / 5;
        if newcap <= c {
            newcap = c + 1;
        }
        if c == 0 {
            newcap = 512;
        }
        self.cap = newcap;
    }

    /// Enlarge gap with added_gap_size elements
    pub fn enlarge_gap_sized(&mut self, added_gap_size: usize)
        requires
            old(self).wf(),
            old(self).spec_capacity() + added_gap_size <= usize::MAX,
        ensures
            final(self).wf(),
            final(self).view() == old(self).view(),
            final(self).gap_start() == old(self).gap_start(),
            final(self).spec_capacity() == old(self).spec_capacity() + added_gap_size,
    {
        self.cap = self.cap + added_gap_size;
    }

    pub fn iter_begin_to_cursor(&self, cursor: Cursor) -> (r: GapBufferIterator<'_, T>)
        ensures
            r.pos == 0,
            r.end == match cursor {
                Cursor::Absolute(p) => p,
                Cursor::Buffer => self.gap_start() as usize,
            },
            r.buffer == self,
    {
        let pos = match cursor {
            Cursor::Absolute(pos) => pos,
            Cursor::Buffer => self.get_pos(),
        };
        GapBufferIterator { pos: 0, end: pos, buffer: self }
    }

    pub fn iter_cursor_to_end(&self, cursor: Cursor) -> (r: GapBufferIterator<'_, T>)
        requires
            self.wf(),
        ensures
            r.pos == match cursor {
                Cursor::Absolute(p) => p,
                Cursor::Buffer => self.gap_start() as usize,
            },
            r.end == self.view().len(),
            r.buffer == self,
    {
        let pos = match cursor {
            Cursor::Absolute(pos) => pos,
            Cursor::Buffer => self.get_pos(),
        };
        GapBufferIterator { pos, end: self.len(), buffer: self }
    }

    pub fn iter(&self) -> (r: GapBufferIterator<'_, T>)
        requires
            self.wf(),
        ensures
            r.pos == 0,
            r.end == self.view().len(),
            r.buffer == self,
    {
        GapBufferIterator { pos: 0, end: self.len(), buffer: self }
    }

    /// The elements before the gap and the elements after it.
    pub fn data_slices(&self) -> (r: (&[T], &[T]))
        ensures
            r.0@ + r.1@ == self.view(),
            r.0@.len() == self.gap_start(),
    {
        (self.front.as_slice(), self.back.as_slice())
    }
}

/// Removing the element before the gap right after inserting one at the gap
/// gives back the elements as they were, and the gap where it was.
pub proof fn lemma_remove_undoes_insert_item<T>(elems: Seq<T>, gap: int, elem: T)
    requires
        0 <= gap <= elems.len(),
    ensures
        elems.insert(gap, elem).remove((gap + 1) - 1) == elems,
        elems.insert(gap, elem)[(gap + 1) - 1] == elem,
{
    assert(elems.insert(gap, elem).remove(gap) =~= elems);
}

/// The capacity that `enlarge_gap` grows a full buffer of `c` slots to.
pub open spec fn grown_capacity(c: int) -> int {
    if c == 0 {
        512
    } else if (c * 7 + 2) / 5 <= c {
        c + 1
    } else {
        (c * 7 + 2) / 5
    }
}

impl GapBuffer<char> {
    /// The contents with the gap drawn as dashes, one per free slot.
    pub fn debug(&self) -> (r: String)
        requires
            self.wf(),
        ensures
            r@ == self.view().subrange(0, self.gap_start() as int) + Seq::new(
                (self.spec_capacity() - self.view().len()) as nat,
                |i: int| '-',
            ) + self.view().subrange(self.gap_start() as int, self.view().len() as int),
    {
        let mut v: Vec<char> = Vec::new();
        let mut i: usize = 0;
        while i < self.front.len()
            invariant
                i <= self.front@.len(),
                v@ == self.front@.subrange(0, i as int),
            decreases self.front@.len() - i,
        {
            v.push(self.front[i]);
            proof {
                assert(v@ =~= self.front@.subrange(0, i + 1));
            }
            i = i + 1;
        }
        let gap = self.cap - self.front.len() - self.back.len();
        let mut j: usize = 0;
        while j < gap
            invariant
                j <= gap,
                v@ == self.front@ + Seq::new(j as nat, |i: int| '-'),
            decreases gap - j,
        {
            v.push('-');
            proof {
                assert(v@ =~= self.front@ + Seq::new((j + 1) as nat, |i: int| '-'));
            }
            j = j + 1;
        }
        let mut k: usize = 0;
        let ghost g = v@;
        while k < self.back.len()
            invariant
                k <= self.back@.len(),
                v@ == g + self.back@.subrange(0, k as int),
            decreases self.back@.len() - k,
        {
            v.push(self.back[k]);
            proof {
                assert(v@ =~= g + self.back@.subrange(0, k + 1));
            }
            k = k + 1;
        }
        proof {
            assert(self.back@.subrange(0, self.back@.len() as int) =~= self.back@);
            assert(self.front@.subrange(0, self.front@.len() as int) =~= self.front@);
            assert(self.view().subrange(0, self.gap_start() as int) =~= self.front@);
            assert(self.view().subrange(self.gap_start() as int, self.view().len() as int)
                =~= self.back@);
        }
        string_from_chars(v.as_slice())
    }
}

/// Every result `predicate` may give on `x` is `true`.
pub open spec fn surely_holds<X, P: Fn(X) -> bool>(predicate: P, x: X) -> bool {
    forall|b: bool| #[trigger] predicate.ensures((x,), b) ==> b
}

/// A walk over a gap buffer's elements from `pos`; `next` walks to the end of
/// the buffer, `next_back` walks down from `end`.
pub struct GapBufferIterator<'a, T> where T: Clone + Copy {
    pub pos: usize,
    pub end: usize,
    pub buffer: &'a GapBuffer<T>,
}

impl<'a, T> GapBufferIterator<'a, T> where T: Clone + Copy {
    pub fn next(&mut self) -> (r: Option<&'a T>)
        requires
            old(self).buffer.wf(),
        ensures
            final(self).buffer == old(self).buffer,
            final(self).end == old(self).end,
            old(self).pos < old(self).buffer.view().len() ==> final(self).pos == old(self).pos + 1
                && r == Some(&old(self).buffer.view()[old(self).pos as int]),
            old(self).pos >= old(self).buffer.view().len() ==> final(self).pos == old(self).pos
                && r is None,
    {
        if self.pos < self.buffer.len() {
            self.pos = self.pos + 1;
            self.buffer.get(self.pos - 1)
        } else {
            None
        }
    }

    pub fn next_back(&mut self) -> (r: Option<&'a T>)
        requires
            old(self).buffer.wf(),
            !(old(self).end == 0 && old(self).pos == 0 && 0 < old(self).buffer.view().len()),
        ensures
            final(self).buffer == old(self).buffer,
            final(self).pos == old(self).pos,
            old(self).end >= old(self).pos && old(self).end < old(self).buffer.view().len() ==> final(self).end == old(self).end - 1 && r == Some(&old(self).buffer.view()[old(self).end as int]),
            !(old(self).end >= old(self).pos && old(self).end < old(self).buffer.view().len()) ==> final(self).end == old(self).end && r is None,
    {
        if self.end >= self.pos {
            match self.buffer.get(self.end) {
                Some(c) => {
                    self.end = self.end - 1;
                    Some(c)
                },
                None => None,
            }
        } else {
            None
        }
    }

    /// How many elements are left between the iterator's position and its end
    /// mark, as both the lower and the upper bound: the iterator knows its length.
    pub fn size_hint(&self) -> (r: (usize, Option<usize>))
        requires
            self.pos <= self.end,
        ensures
            r == ((self.end - self.pos) as usize, Some((self.end - self.pos) as usize)),
    {
        (self.end - self.pos, Some(self.end - self.pos))
    }

    /// Walks forward with `next` until `predicate` holds of an element, and
    /// gives the position the walk stopped at, one past that element's index;
    /// `None` when it holds of no element from the starting position on.
    pub fn position<P: Fn(&'a T) -> bool>(&mut self, predicate: P) -> (r: Option<usize>)
        requires
            old(self).buffer.wf(),
            forall|x: &'a T| predicate.requires((x,)),
        ensures
            final(self).buffer == old(self).buffer,
            final(self).end == old(self).end,
            match r {
                Some(p) => {
                    &&& old(self).pos < p <= old(self).buffer.view().len()
                    &&& final(self).pos == p
                    &&& predicate.ensures((&old(self).buffer.view()[p - 1],), true)
                    &&& forall|k: int|
                        old(self).pos <= k < p - 1 ==> predicate.ensures(
                            (&old(self).buffer.view()[k],),
                            false,
                        )
                },
                None => {
                    &&& final(self).pos == (if old(self).pos < old(self).buffer.view().len() {
                        old(self).buffer.view().len() as usize
                    } else {
                        old(self).pos
                    })
                    &&& forall|k: int|
                        old(self).pos <= k < old(self).buffer.view().len() ==> predicate.ensures(
                            (&old(self).buffer.view()[k],),
                            false,
                        )
                },
            },
    {
        loop
            invariant
                self.buffer == old(self).buffer,
                self.end == old(self).end,
                self.buffer.wf(),
                forall|x: &'a T| predicate.requires((x,)),
                old(self).pos <= self.pos,
                self.pos == old(self).pos || self.pos <= self.buffer.view().len(),
                forall|k: int|
                    old(self).pos <= k < self.pos ==> predicate.ensures(
                        (&old(self).buffer.view()[k],),
                        false,
                    ),
            decreases self.buffer.view().len() - self.pos,
        {
            match self.next() {
                Some(item) => {
                    if predicate(item) {
                        return Some(self.pos);
                    }
                },
                None => {
                    return None;
                },
            }
        }
    }

    /// Walks backward with `next_back` until `predicate` holds of an element,
    /// and gives where the walk's end stopped, one below that element's index;
    /// `None` when the walk gives no element of which it holds. A walk that
    /// starts at position 0 and reaches element 0 would step its end below 0,
    /// so such walks must meet an element of which `predicate` surely holds
    /// before that.
    pub fn rposition<P: Fn(&'a T) -> bool>(&mut self, predicate: P) -> (r: Option<usize>)
        requires
            old(self).buffer.wf(),
            forall|x: &'a T| predicate.requires((x,)),
            old(self).pos == 0 && old(self).end < old(self).buffer.view().len() ==> exists|k: int|
                1 <= k <= old(self).end && #[trigger] surely_holds(
                    predicate,
                    &old(self).buffer.view()[k],
                ),
        ensures
            final(self).buffer == old(self).buffer,
            final(self).pos == old(self).pos,
            match r {
                Some(q) => {
                    &&& old(self).pos <= q + 1 <= old(self).end < old(self).buffer.view().len()
                    &&& final(self).end == q
                    &&& predicate.ensures((&old(self).buffer.view()[q + 1],), true)
                    &&& forall|k: int|
                        q + 1 < k <= old(self).end ==> predicate.ensures(
                            (&old(self).buffer.view()[k],),
                            false,
                        )
                },
                None => if old(self).pos <= old(self).end < old(self).buffer.view().len() {
                    &&& final(self).end + 1 == old(self).pos
                    &&& forall|k: int|
                        old(self).pos <= k <= old(self).end ==> predicate.ensures(
                            (&old(self).buffer.view()[k],),
                            false,
                        )
                } else {
                    final(self).end == old(self).end
                },
            },
    {
        let ghost walking: bool = old(self).pos <= old(self).end
            && old(self).end < old(self).buffer.view().len();
        loop
            invariant
                self.buffer == old(self).buffer,
                self.pos == old(self).pos,
                self.buffer.wf(),
                forall|x: &'a T| predicate.requires((x,)),
                walking == (old(self).pos <= old(self).end && old(self).end
                    < old(self).buffer.view().len()),
                !walking ==> self.end == old(self).end,
                walking ==> self.end <= old(self).end && self.end + 1 >= self.pos,
                walking ==> forall|k: int|
                    self.end < k <= old(self).end ==> predicate.ensures(
                        (&old(self).buffer.view()[k],),
                        false,
                    ),
                self.pos == 0 && self.end < self.buffer.view().len() ==> exists|k: int|
                    1 <= k <= self.end && #[trigger] surely_holds(
                        predicate,
                        &old(self).buffer.view()[k],
                    ),
            decreases self.end,
        {
            let ghost e: int = self.end as int;
            match self.next_back() {
                Some(item) => {
                    if predicate(item) {
                        return Some(self.end);
                    }
                    proof {
                        if self.pos == 0 {
                            let w = choose|k: int|
                                1 <= k <= e && #[trigger] surely_holds(
                                    predicate,
                                    &old(self).buffer.view()[k],
                                );
                            assert(predicate.ensures((&old(self).buffer.view()[e],), false));
                            assert(w != e);
                        }
                    }
                },
                None => {
                    return None;
                },
            }
        }
    }
}

impl SubstringClone for GapBuffer<char> {
    /// The characters `range.start .. range.end`, cut off at the end of the buffer.
    fn read_string(&self, range: std::ops::Range<usize>) -> (r: String)
        ensures
            self.wf() ==> r@ == self.view().subrange(
                if range.start <= self.view().len() { range.start as int } else { self.view().len() as int },
                if range.start < range.end && range.end <= self.view().len() {
                    range.end as int
                } else if range.start < range.end {
                    self.view().len() as int
                } else if range.start <= self.view().len() {
                    range.start as int
                } else {
                    self.view().len() as int
                },
            ),
    {
        if !self.wf_check() {
            return String::new();
        }
        let n = self.len();
        let start = if range.start <= n {
            range.start
        } else {
            n
        };
        let end = if range.start < range.end && range.end <= n {
            range.end
        } else if range.start < range.end {
            n
        } else {
            start
        };
        let mut v: Vec<char> = Vec::new();
        let mut i = start;
        while i < end
            invariant
                self.wf(),
                start <= i <= end,
                end <= self.view().len(),
                v@ == self.view().subrange(start as int, i as int),
            decreases end - i,
        {
            let c = self.get(i);
            match c {
                Some(c) => v.push(*c),
                None => {},
            }
            proof {
                assert(v@ =~= self.view().subrange(start as int, i + 1));
            }
            i = i + 1;
        }
        string_from_chars(v.as_slice())
    }
}

impl<T> GapBuffer<T> where T: Clone + Copy {
    /// Whether the parts fit in the capacity.
    fn wf_check(&self) -> (r: bool)
        ensures
            r == self.wf(),
    {
        self.front.len() <= self.cap && self.back.len() <= self.cap - self.front.len()
    }
}

/// A text buffer kept in a gap buffer, with its line table and cursor.
pub struct TextBuffer {
    data: GapBuffer<char>,
    meta_data: MetaData,
    cursor: BufferCursor,
    size: usize,
}

impl TextBuffer {
    /// The characters of the text.
    pub closed spec fn text(&self) -> Seq<char> {
        self.data.view()
    }

    /// Where the next character goes.
    pub closed spec fn insert_position(&self) -> nat {
        self.data.gap_start()
    }

    pub closed spec fn wf(&self) -> bool {
        self.data.wf()
    }

    pub closed spec fn room(&self) -> nat {
        self.data.spec_capacity()
    }

    /// An empty text, named `file_name` when it has a name.
    pub fn new(file_name: Option<String>) -> (r: TextBuffer)
        ensures
            r.wf(),
            r.text() == Seq::<char>::empty(),
            r.insert_position() == 0,
            r.room() == 0,
    {
        TextBuffer {
            data: GapBuffer::new(),
            meta_data: MetaData::new(file_name),
            cursor: BufferCursor::default(),
            size: 0,
        }
    }

    /// Inserts `data` at the insert position.
    pub fn insert(&mut self, data: char)
        requires
            old(self).wf(),
            old(self).room() <= usize::MAX / 8,
        ensures
            final(self).wf(),
            final(self).text() == old(self).text().insert(old(self).insert_position() as int, data),
            final(self).insert_position() == old(self).insert_position() + 1,
    {
        self.data.insert_item(data);
    }

    /// Inserts the characters of `slice` at the insert position.
    pub fn insert_slice_fast(&mut self, slice: &[char])
        requires
            old(self).wf(),
            old(self).room() + 3 * slice@.len() <= usize::MAX,
        ensures
            final(self).wf(),
            final(self).text() == old(self).text().subrange(0, old(self).insert_position() as int)
                + slice@ + old(self).text().subrange(
                old(self).insert_position() as int,
                old(self).text().len() as int,
            ),
            final(self).insert_position() == old(self).insert_position() + slice@.len(),
    {
        self.data.insert_slice(slice);
    }
}

} // verus!
