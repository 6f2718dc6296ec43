//! The mathematical model of a text: characters, lines, and the cursor
//! position that an absolute index into the text stands for.
use vstd::prelude::*;

use super::metadata::Index;

verus! {

/// Number of newline characters among the first `i` characters of `s`.
pub open spec fn newlines_before(s: Seq<char>, i: int) -> nat
    decreases i,
{
    if i <= 0 {
        0
    } else {
        newlines_before(s, i - 1) + if s[i - 1] == '\n' { 1nat } else { 0nat }
    }
}

/// The index at which the line holding position `i` begins: one past the last
/// newline before `i`, or 0 when there is none.
pub open spec fn line_start_before(s: Seq<char>, i: int) -> int
    decreases i,
{
    if i <= 0 {
        0
    } else if s[i - 1] == '\n' {
        i
    } else {
        line_start_before(s, i - 1)
    }
}

/// `st` holds, in order, the index of the first character of every line among
/// the first `n` characters of `s`: 0, then one past each newline.
pub open spec fn is_line_starts_upto(s: Seq<char>, n: int, st: Seq<Index>) -> bool {
    &&& st.len() == newlines_before(s, n) + 1
    &&& st[0].0 == 0
    &&& forall|k: int|
        1 <= k < st.len() ==> {
            &&& 1 <= #[trigger] st[k].0 <= n
            &&& s[st[k].0 - 1] == '\n'
            &&& newlines_before(s, st[k].0 - 1) == k - 1
        }
}

/// `st` holds the line start indices of the whole text `s`.
pub open spec fn is_line_starts(s: Seq<char>, st: Seq<Index>) -> bool {
    is_line_starts_upto(s, s.len() as int, st)
}

/// The line starts as plain integers, and strictly increasing.
pub open spec fn strictly_increasing(st: Seq<Index>) -> bool {
    forall|i: int, j: int| 0 <= i < j < st.len() ==> #[trigger] st[i].0 < #[trigger] st[j].0
}

/// Column of position `i`: its distance from the start of its line.
pub open spec fn column_of(s: Seq<char>, i: int) -> int {
    i - line_start_before(s, i)
}

pub proof fn lemma_newlines_step(s: Seq<char>, i: int)
    requires
        0 <= i,
    ensures
        newlines_before(s, i + 1) == newlines_before(s, i) + if s[i] == '\n' { 1nat } else { 0nat },
{
}

pub proof fn lemma_newlines_monotone(s: Seq<char>, i: int, j: int)
    requires
        i <= j,
    ensures
        newlines_before(s, i) <= newlines_before(s, j),
    decreases j - i,
{
    if i < j {
        lemma_newlines_monotone(s, i, j - 1);
    }
}

/// Past a newline at `a`, the count of newlines is strictly larger.
pub proof fn lemma_newline_counted(s: Seq<char>, a: int, j: int)
    requires
        0 <= a < j,
        s[a] == '\n',
    ensures
        newlines_before(s, j) >= newlines_before(s, a) + 1,
{
    lemma_newlines_monotone(s, a + 1, j);
}

/// Two newlines with the same count of newlines before them are the same newline.
pub proof fn lemma_newline_unique(s: Seq<char>, a: int, b: int)
    requires
        0 <= a,
        0 <= b,
        s[a] == '\n',
        s[b] == '\n',
        newlines_before(s, a) == newlines_before(s, b),
    ensures
        a == b,
{
    if a < b {
        lemma_newline_counted(s, a, b);
    } else if b < a {
        lemma_newline_counted(s, b, a);
    }
}

pub proof fn lemma_line_start_before(s: Seq<char>, i: int)
    requires
        0 <= i <= s.len(),
    ensures
        0 <= line_start_before(s, i) <= i,
        line_start_before(s, i) > 0 ==> s[line_start_before(s, i) - 1] == '\n',
        newlines_before(s, line_start_before(s, i)) == newlines_before(s, i),
        line_start_before(s, i) == 0 <==> newlines_before(s, i) == 0,
    decreases i,
{
    if i > 0 {
        lemma_line_start_before(s, i - 1);
        if s[i - 1] != '\n' {
            assert(newlines_before(s, i) == newlines_before(s, i - 1));
        }
    }
    let l = line_start_before(s, i);
    if l > 0 {
        lemma_newline_counted(s, l - 1, l);
    }
}

/// Line start indices are strictly increasing.
pub proof fn lemma_starts_increasing(s: Seq<char>, n: int, st: Seq<Index>)
    requires
        is_line_starts_upto(s, n, st),
    ensures
        strictly_increasing(st),
{
    assert forall|i: int, j: int| 0 <= i < j < st.len() implies #[trigger] st[i].0 < #[trigger] st[j].0 by {
        if i > 0 && st[j].0 <= st[i].0 {
            lemma_newlines_monotone(s, st[j].0 - 1, st[i].0 - 1);
        }
    }
}

/// The line that holds position `i` is line `newlines_before(s, i)`; it starts at
/// `line_start_before(s, i)`, and the next line (if any) starts after `i`.
pub proof fn lemma_line_of(s: Seq<char>, n: int, st: Seq<Index>, i: int)
    requires
        is_line_starts_upto(s, n, st),
        0 <= i <= n,
        n <= s.len(),
    ensures
        newlines_before(s, i) < st.len(),
        st[newlines_before(s, i) as int].0 == line_start_before(s, i),
        newlines_before(s, i) + 1 < st.len() ==> i < st[newlines_before(s, i) + 1int].0,
        newlines_before(s, i) + 1 == st.len() ==> forall|j: int|
            i <= j < n ==> s[j] != '\n',
{
    let r = newlines_before(s, i);
    lemma_newlines_monotone(s, i, n);
    lemma_line_start_before(s, i);
    let l = line_start_before(s, i);
    if r > 0 {
        let k = r as int;
        assert(1 <= st[k].0 <= n);
        lemma_newline_unique(s, st[k].0 - 1, l - 1);
    }
    if r + 1 < st.len() {
        let k = r + 1int;
        let p = st[k].0 - 1;
        if p < i {
            lemma_newline_counted(s, p, i);
        }
    }
    if r + 1 == st.len() {
        assert forall|j: int| i <= j < n implies s[j] != '\n' by {
            if s[j] == '\n' {
                lemma_newline_counted(s, j, n);
                lemma_newlines_monotone(s, i, j);
            }
        }
    }
}

/// Extending the scanned prefix by one character keeps the line starts when that
/// character is not a newline, and adds one start when it is.
pub proof fn lemma_starts_extend(s: Seq<char>, n: int, st: Seq<Index>)
    requires
        is_line_starts_upto(s, n, st),
        0 <= n < s.len(),
        n + 1 <= usize::MAX,
    ensures
        s[n] == '\n' ==> is_line_starts_upto(s, n + 1, st.push(Index((n + 1) as usize))),
        s[n] != '\n' ==> is_line_starts_upto(s, n + 1, st),
{
    lemma_newlines_step(s, n);
    if s[n] == '\n' {
        let st2 = st.push(Index((n + 1) as usize));
        assert forall|k: int| 1 <= k < st2.len() implies {
            &&& 1 <= #[trigger] st2[k].0 <= n + 1
            &&& s[st2[k].0 - 1] == '\n'
            &&& newlines_before(s, st2[k].0 - 1) == k - 1
        } by {
            if k < st.len() {
                assert(st2[k] == st[k]);
            }
        }
    }
}

/// The count of newlines in a text after inserting `c` at `p`.
pub proof fn lemma_newlines_insert(s: Seq<char>, p: int, c: char, i: int)
    requires
        0 <= p <= s.len(),
        0 <= i <= s.len() + 1,
    ensures
        newlines_before(s.insert(p, c), i) == if i <= p {
            newlines_before(s, i)
        } else {
            newlines_before(s, i - 1) + if c == '\n' { 1nat } else { 0nat }
        },
    decreases i,
{
    let t = s.insert(p, c);
    if i > 0 {
        lemma_newlines_insert(s, p, c, i - 1);
        if i - 1 < p {
            assert(t[i - 1] == s[i - 1]);
        } else if i - 1 == p {
            assert(t[i - 1] == c);
        } else {
            assert(t[i - 1] == s[i - 2]);
        }
    }
}

/// Line start positions after inserting `c` at `p`.
pub proof fn lemma_line_start_insert(s: Seq<char>, p: int, c: char, i: int)
    requires
        0 <= p <= s.len(),
        0 <= i <= s.len() + 1,
    ensures
        line_start_before(s.insert(p, c), i) == if i <= p {
            line_start_before(s, i)
        } else if c == '\n' && line_start_before(s, i - 1) <= p {
            p + 1
        } else if line_start_before(s, i - 1) <= p {
            line_start_before(s, i - 1)
        } else {
            line_start_before(s, i - 1) + 1
        },
    decreases i,
{
    let t = s.insert(p, c);
    if i > 0 {
        lemma_line_start_insert(s, p, c, i - 1);
        lemma_line_start_before(s, i - 1);
        if i - 1 < p {
            assert(t[i - 1] == s[i - 1]);
        } else if i - 1 == p {
            assert(t[i - 1] == c);
        } else {
            assert(t[i - 1] == s[i - 2]);
            if i - 2 >= 0 {
                lemma_line_start_before(s, i - 2);
            }
        }
    }
}

/// The line starts are the same for two texts that agree up to `n`.
pub proof fn lemma_newlines_prefix(s: Seq<char>, t: Seq<char>, n: int, i: int)
    requires
        0 <= i <= n,
        n <= s.len(),
        n <= t.len(),
        forall|j: int| 0 <= j < n ==> s[j] == t[j],
    ensures
        newlines_before(s, i) == newlines_before(t, i),
        line_start_before(s, i) == line_start_before(t, i),
    decreases i,
{
    if i > 0 {
        lemma_newlines_prefix(s, t, n, i - 1);
    }
}

/// The line table of `s.insert(p, c)`, built from the table `st` of `s`, where
/// `r` is the line that holds position `p`.
pub open spec fn starts_after_insert(st: Seq<Index>, r: int, p: int, c: char) -> Seq<Index> {
    if c == '\n' {
        Seq::new(
            (st.len() + 1) as nat,
            |k: int|
                if k <= r {
                    st[k]
                } else if k == r + 1 {
                    Index((p + 1) as usize)
                } else {
                    Index((st[k - 1].0 + 1) as usize)
                },
        )
    } else {
        Seq::new(st.len(), |k: int| if k > r { Index((st[k].0 + 1) as usize) } else { st[k] })
    }
}

pub proof fn lemma_starts_after_insert(s: Seq<char>, st: Seq<Index>, p: int, c: char)
    requires
        is_line_starts(s, st),
        0 <= p <= s.len(),
        s.len() + 1 < usize::MAX,
    ensures
        is_line_starts(
            s.insert(p, c),
            starts_after_insert(st, newlines_before(s, p) as int, p, c),
        ),
{
    let t = s.insert(p, c);
    let r = newlines_before(s, p) as int;
    let st2 = starts_after_insert(st, r, p, c);
    let n = s.len() as int;
    lemma_line_of(s, n, st, p);
    lemma_starts_increasing(s, n, st);
    lemma_line_start_before(s, p);
    lemma_newlines_insert(s, p, c, n + 1);
    lemma_newlines_insert(s, p, c, p);
    assert forall|k: int| 1 <= k < st2.len() implies {
        &&& 1 <= #[trigger] st2[k].0 <= t.len()
        &&& t[st2[k].0 - 1] == '\n'
        &&& newlines_before(t, st2[k].0 - 1) == k - 1
    } by {
        if c == '\n' {
            if k <= r {
                assert(st[k].0 <= st[r].0);
                lemma_newlines_insert(s, p, c, st[k].0 - 1);
            } else if k == r + 1 {
                assert(t[p] == c);
            } else {
                let j = k - 1;
                assert(j > r);
                assert(st[j].0 >= st[r + 1].0);
                assert(t[st[j].0 as int] == s[st[j].0 - 1]);
                lemma_newlines_insert(s, p, c, st[j].0 as int);
            }
        } else {
            if k <= r {
                assert(st[k].0 <= st[r].0);
                lemma_newlines_insert(s, p, c, st[k].0 - 1);
            } else {
                assert(st[k].0 >= st[r + 1].0);
                assert(t[st[k].0 as int] == s[st[k].0 - 1]);
                lemma_newlines_insert(s, p, c, st[k].0 as int);
            }
        }
    }
}

pub proof fn lemma_newlines_bound(s: Seq<char>, i: int)
    requires
        0 <= i,
    ensures
        newlines_before(s, i) <= i,
    decreases i,
{
    if i > 0 {
        lemma_newlines_bound(s, i - 1);
    }
}

} // verus!
