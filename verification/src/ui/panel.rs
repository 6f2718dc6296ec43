//! Panels: containers of views, and how their space is shared out.
use vstd::prelude::*;

use super::basic::boundingbox::div_toward_zero;

verus! {

#[derive(PartialEq, Clone, Copy, Eq, Hash, PartialOrd, Ord, Debug)]
pub struct PanelId(pub u32);

/// The sum of a run of integers.
pub open spec fn sum_i32(s: Seq<i32>) -> int
    decreases s.len(),
{
    if s.len() == 0 {
        0
    } else {
        sum_i32(s.drop_last()) + s.last() as int
    }
}

proof fn lemma_sum_constant_tail(s: Seq<i32>, value: int, n: int)
    requires
        1 <= n <= s.len(),
        forall|i: int| 1 <= i < n ==> s[i] == value,
    ensures
        sum_i32(s.subrange(0, n)) == s[0] + (n - 1) * value,
    decreases n,
{
    if n > 1 {
        lemma_sum_constant_tail(s, value, n - 1);
        let t = s.subrange(0, n);
        assert(t.drop_last() =~= s.subrange(0, n - 1));
        assert(t.last() == s[n - 1]);
        assert(s[n - 1] == value);
        assert(sum_i32(t) == sum_i32(t.drop_last()) + t.last() as int);
        assert((n - 1) * value == (n - 2) * value + value) by (nonlinear_arith);
    } else {
        let t = s.subrange(0, 1);
        assert(t.drop_last() =~= Seq::<i32>::empty());
        assert(t.last() == s[0]);
        assert(sum_i32(t) == sum_i32(t.drop_last()) + t.last() as int);
        assert((n - 1) * value == 0) by (nonlinear_arith)
            requires
                n == 1,
        ;
    }
}

/// Divides `number` into `spread_count` parts of `number / spread_count`
/// (rounded towards zero); the first part takes what is left over, so that
/// the parts add up to `number`.
pub fn divide_scatter(number: i32, spread_count: usize) -> (r: Vec<i32>)
    requires
        0 < spread_count <= i32::MAX,
    ensures
        r@.len() == spread_count,
        forall|i: int| 1 <= i < r@.len() ==> r@[i] == div_toward_zero(number as int, spread_count as int),
        r@[0] == number - (spread_count - 1) * div_toward_zero(number as int, spread_count as int),
        sum_i32(r@) == number,
{
    let n: i32 = spread_count as i32;
    let neg: bool = number < 0;
    let magnitude: i64 = if neg { -(number as i64) } else { number as i64 };
    let q: i64 = magnitude / (n as i64);
    let element_val: i32 = if neg { (0 - q) as i32 } else { q as i32 };
    proof {
        assert(0 <= q <= magnitude && q <= q * n <= magnitude && magnitude - q * n < n) by (nonlinear_arith)
            requires
                magnitude >= 0,
                n > 0,
                q == (magnitude as int) / (n as int),
        ;
        assert(element_val * n == if neg { -(q * n) } else { q * n }) by (nonlinear_arith)
            requires
                element_val == if neg { -q } else { q as int },
        ;
        assert(element_val == div_toward_zero(number as int, spread_count as int));
    }
    let mut r: Vec<i32> = Vec::new();
    let mut i: usize = 0;
    while i < spread_count
        invariant
            i <= spread_count,
            r@.len() == i,
            forall|k: int| 0 <= k < i ==> r@[k] == element_val,
        decreases spread_count - i,
    {
        r.push(element_val);
        i = i + 1;
    }
    let check_total: i32 = element_val * n;
    if check_total - number != 0 {
        let first = r[0] + (number - check_total);
        r.set(0, first);
    }
    proof {
        assert(number - check_total + element_val == number - (n - 1) * element_val)
            by (nonlinear_arith)
            requires
                check_total == element_val * n,
        ;
        lemma_sum_constant_tail(r@, element_val as int, n as int);
        assert(r@.subrange(0, n as int) =~= r@);
        assert(r@[0] + (n - 1) * element_val == number) by (nonlinear_arith)
            requires
                r@[0] == number - (n - 1) * element_val,
        ;
    }
    r
}

} // verus!
