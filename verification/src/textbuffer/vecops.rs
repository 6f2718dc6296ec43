//! Range edits on vectors.
use vstd::prelude::*;

verus! {

/// Takes the elements `start .. end` out of the vector; the others keep their order.
pub fn vec_drain<T>(v: &mut Vec<T>, start: usize, end: usize)
    requires
        start <= end <= old(v)@.len(),
    ensures
        final(v)@ == old(v)@.subrange(0, start as int) + old(v)@.subrange(
            end as int,
            old(v)@.len() as int,
        ),
{
    let mut tail = v.split_off(end);
    v.truncate(start);
    v.append(&mut tail);
}

/// Inserts the elements of `items`, in order, before position `at`.
pub fn vec_splice_in<T: Copy>(v: &mut Vec<T>, at: usize, items: &[T])
    requires
        at <= old(v)@.len(),
    ensures
        final(v)@ == old(v)@.subrange(0, at as int) + items@ + old(v)@.subrange(
            at as int,
            old(v)@.len() as int,
        ),
{
    let mut tail = v.split_off(at);
    let ghost head = v@;
    let mut i: usize = 0;
    while i < items.len()
        invariant
            i <= items@.len(),
            head == old(v)@.subrange(0, at as int),
            v@ == head + items@.subrange(0, i as int),
        decreases items@.len() - i,
    {
        v.push(items[i]);
        proof {
            assert(v@ =~= head + items@.subrange(0, i + 1));
        }
        i = i + 1;
    }
    proof {
        assert(items@.subrange(0, items@.len() as int) =~= items@);
    }
    v.append(&mut tail);
}

} // verus!
