//! What the buffer's cursor moves, deletions, searches and copies do, stated
//! over the text, its newlines and its line table.
use vstd::prelude::*;

use super::chars::{char_is_alphanumeric, spec_is_whitespace};
use super::contiguous::{copy_result, delete_result, movement_target, search_from};
use super::cursor::MetaCursor;
use super::metadata::Index;
use super::model::{
    column_of, is_line_starts, lemma_line_of, lemma_line_start_before, lemma_newline_counted,
    lemma_newlines_monotone, lemma_newlines_step, line_start_before, newlines_before,
};
use super::{Movement, TextKind};

verus! {

/// A position between the start of line `k` and its newline (or the end of
/// the text on the last line) lies on line `k`, at its distance from that start.
pub proof fn lemma_position_on_line(s: Seq<char>, st: Seq<Index>, k: int, i: int)
    requires
        is_line_starts(s, st),
        0 <= k < st.len(),
        st[k].0 <= i,
        k + 1 < st.len() ==> i <= st[k + 1].0 - 1,
        k + 1 == st.len() ==> i <= s.len(),
    ensures
        newlines_before(s, i) == k,
        line_start_before(s, i) == st[k].0,
        column_of(s, i) == i - st[k].0,
{
    let a = st[k].0 as int;
    if k > 0 {
        lemma_newlines_step(s, a - 1);
        assert(newlines_before(s, a) == k);
    }
    lemma_newlines_monotone(s, a, i);
    if k + 1 < st.len() {
        let e = st[k + 1].0 - 1;
        assert(newlines_before(s, e) == k);
        lemma_newlines_monotone(s, i, e);
    } else {
        lemma_newlines_monotone(s, i, s.len() as int);
    }
    lemma_line_of(s, s.len() as int, st, i);
}

/// Moving down one line from column `c` of line `r`, when line `r + 1`
/// exists and holds more than `c` characters before its end (its newline, or
/// the end of the text), puts the cursor on line `r + 1` at the same column `c`.
pub proof fn lemma_line_down_keeps_column(s: Seq<char>, st: Seq<Index>, pos: int)
    requires
        is_line_starts(s, st),
        0 <= pos <= s.len(),
        newlines_before(s, pos) + 1 < st.len(),
        ({
            let r = newlines_before(s, pos) as int;
            let next_end = if r + 2 < st.len() { st[r + 2].0 - 1 } else { s.len() as int };
            st[r + 1].0 + column_of(s, pos) < next_end + (if r + 2 < st.len() { 1int } else { 0int })
        }),
    ensures
        ({
            let r = newlines_before(s, pos) as int;
            let c = column_of(s, pos);
            let t = movement_target(s, st, pos, Movement::Forward(TextKind::Line, 1));
            &&& t == st[r + 1].0 + c
            &&& newlines_before(s, t) == r + 1
            &&& column_of(s, t) == c
        }),
{
    let r = newlines_before(s, pos) as int;
    let c = column_of(s, pos);
    lemma_line_start_before(s, pos);
    lemma_line_of(s, s.len() as int, st, pos);
    reveal_with_fuel(super::contiguous::repeat_line_down, 2);
    let t = st[r + 1].0 + c;
    lemma_position_on_line(s, st, r + 1, t);
}

/// Moving down one line from column `c` of line `r` onto a next line that
/// holds `len` characters (its newline included) with `len <= c`: the cursor
/// goes to the last of them, on line `r + 1`. From the last line, it stays.
pub proof fn lemma_line_down_clamps_to_line_end(s: Seq<char>, st: Seq<Index>, pos: int)
    requires
        is_line_starts(s, st),
        0 <= pos <= s.len(),
    ensures
        ({
            let r = newlines_before(s, pos) as int;
            let c = column_of(s, pos);
            let t = movement_target(s, st, pos, Movement::Forward(TextKind::Line, 1));
            if r + 1 < st.len() {
                let len = if r + 2 < st.len() { st[r + 2].0 - st[r + 1].0 } else { s.len() - st[r + 1].0 };
                &&& newlines_before(s, t) == r + 1
                &&& len >= 1 && c >= len ==> t == st[r + 1].0 + len - 1
                &&& len == 0 ==> t == st[r + 1].0
            } else {
                t == pos
            }
        }),
{
    let r = newlines_before(s, pos) as int;
    lemma_line_start_before(s, pos);
    lemma_line_of(s, s.len() as int, st, pos);
    reveal_with_fuel(super::contiguous::repeat_line_down, 2);
    if r + 1 < st.len() {
        let t = movement_target(s, st, pos, Movement::Forward(TextKind::Line, 1));
        super::contiguous::lemma_starts_are_ordered(s, st);
        lemma_position_on_line(s, st, r + 1, t);
    }
}

/// Moving up one line from column `c` of line `r > 0` puts the cursor on line
/// `r - 1`, at column `c` when that line holds more than `c` characters (its
/// newline included), else at its newline. From the first line it goes to
/// the start of the text.
pub proof fn lemma_line_up(s: Seq<char>, st: Seq<Index>, pos: int)
    requires
        is_line_starts(s, st),
        0 <= pos <= s.len(),
    ensures
        ({
            let r = newlines_before(s, pos) as int;
            let c = column_of(s, pos);
            let t = movement_target(s, st, pos, Movement::Backward(TextKind::Line, 1));
            if r == 0 {
                t == 0
            } else {
                let len = st[r].0 - st[r - 1].0;
                &&& newlines_before(s, t) == r - 1
                &&& c < len ==> t == st[r - 1].0 + c && column_of(s, t) == c
                &&& c >= len ==> t == st[r].0 - 1
            }
        }),
{
    let r = newlines_before(s, pos) as int;
    lemma_line_start_before(s, pos);
    lemma_line_of(s, s.len() as int, st, pos);
    reveal_with_fuel(super::contiguous::repeat_line_up, 2);
    if r > 0 {
        let t = movement_target(s, st, pos, Movement::Backward(TextKind::Line, 1));
        super::contiguous::lemma_starts_are_ordered(s, st);
        lemma_position_on_line(s, st, r - 1, t);
    }
}

/// Deleting forward by a word from an alphanumeric character at `pos`, with no
/// selection, takes out the run of alphanumeric characters from `pos` up to
/// the first character after it that is not alphanumeric, when there is one:
/// every removed character is alphanumeric, the character that comes to
/// stand at `pos` is not, and the cursor stays.
pub proof fn lemma_delete_word_forward(s: Seq<char>, st: Seq<Index>, pos: int, n: usize)
    requires
        0 <= pos < s.len(),
        char_is_alphanumeric(s[pos]),
        !spec_is_whitespace(s[pos]),
        exists|k: int| pos < k < s.len() && !char_is_alphanumeric(#[trigger] s[k]),
    ensures
        ({
            let (t, q) = delete_result(s, st, pos, None, Movement::Forward(TextKind::Word, n));
            &&& q == pos
            &&& exists|k: int|
                pos < k < s.len() && !char_is_alphanumeric(#[trigger] s[k]) && (forall|j: int|
                    pos <= j < k ==> char_is_alphanumeric(#[trigger] s[j])) && t == s.subrange(0, pos)
                    + s.subrange(k, s.len() as int)
        }),
{
    let w = choose|k: int| pos < k < s.len() && !char_is_alphanumeric(#[trigger] s[k]);
    super::contiguous::lemma_first_match_from(s, pos + 1, super::chars::CharPredicate::NotAlphanumeric);
    match super::contiguous::first_match_from(s, pos + 1, super::chars::CharPredicate::NotAlphanumeric) {
        Some(k) => {
            assert(forall|j: int| pos <= j < k ==> char_is_alphanumeric(#[trigger] s[j]));
            assert(!char_is_alphanumeric(s[k]));
        },
        None => {
            assert(!char_is_alphanumeric(s[w]));
        },
    }
}

/// Deleting forward by a word from a whitespace character at `pos`, with no
/// selection, takes out the run of whitespace from `pos` up to the first
/// character after it that is not whitespace, when there is one; the cursor stays.
pub proof fn lemma_delete_whitespace_forward(s: Seq<char>, st: Seq<Index>, pos: int, n: usize)
    requires
        0 <= pos < s.len(),
        spec_is_whitespace(s[pos]),
        exists|k: int| pos < k < s.len() && !spec_is_whitespace(#[trigger] s[k]),
    ensures
        ({
            let (t, q) = delete_result(s, st, pos, None, Movement::Forward(TextKind::Word, n));
            &&& q == pos
            &&& exists|k: int|
                pos < k < s.len() && !spec_is_whitespace(#[trigger] s[k]) && (forall|j: int|
                    pos <= j < k ==> spec_is_whitespace(#[trigger] s[j])) && t == s.subrange(0, pos)
                    + s.subrange(k, s.len() as int)
        }),
{
    let w = choose|k: int| pos < k < s.len() && !spec_is_whitespace(#[trigger] s[k]);
    super::contiguous::lemma_first_match_from(s, pos + 1, super::chars::CharPredicate::NotWhitespace);
    match super::contiguous::first_match_from(s, pos + 1, super::chars::CharPredicate::NotWhitespace) {
        Some(k) => {
            assert(forall|j: int| pos <= j < k ==> spec_is_whitespace(#[trigger] s[j]));
        },
        None => {
            assert(!spec_is_whitespace(s[w]));
        },
    }
}

/// Deleting one character backward with no selection, from a cursor after
/// the start, takes out the character just before the cursor, and the cursor
/// steps back onto where it was; at the start nothing changes.
pub proof fn lemma_backspace_removes_previous_char(s: Seq<char>, st: Seq<Index>, pos: int)
    requires
        0 <= pos <= s.len(),
        s.len() > 0,
    ensures
        ({
            let (t, q) = delete_result(s, st, pos, None, Movement::Backward(TextKind::Char, 1));
            if pos > 0 {
                &&& q == pos - 1
                &&& t.len() == s.len() - 1
                &&& forall|j: int| 0 <= j < pos - 1 ==> t[j] == s[j]
                &&& forall|j: int| pos - 1 <= j < t.len() ==> t[j] == s[j + 1]
            } else {
                t == s && q == pos
            }
        }),
{
}

/// Where the search stops, the whole searched text occurs: the text from
/// that position on begins with it, and the position is not before where the
/// search started.
pub proof fn lemma_search_finds_occurrence(s: Seq<char>, v: Seq<char>, idx: int)
    ensures
        search_from(s, v, idx) matches Some(k) ==> idx <= k && k + v.len() <= s.len()
            && s.subrange(k, k + v.len()) == v,
    decreases s.len() - idx,
{
    if v.len() == 0 || idx < 0 || idx >= s.len() {
    } else if s[idx] == v[0] {
        if idx + v.len() <= s.len() && s.subrange(idx, idx + v.len()) != v {
            lemma_search_finds_occurrence(s, v, idx + v.len());
        }
    } else {
        lemma_search_finds_occurrence(s, v, idx + 1);
    }
}

/// With nothing selected, the copied text is the whole line that holds the
/// cursor: it starts where that line starts (at the beginning of the text or
/// just after a newline, with no newline between there and the cursor), and
/// runs past the cursor up to and including the line's newline, or to the end
/// of the text when no newline follows.
pub proof fn lemma_copy_without_selection_is_the_line(s: Seq<char>, st: Seq<Index>, pos: int)
    requires
        is_line_starts(s, st),
        0 <= pos <= s.len(),
    ensures
        copy_result(s, st, pos, None::<MetaCursor>) matches Some(t) && exists|a: int, e: int|
            #![trigger s.subrange(a, e)]
            {
                &&& t == s.subrange(a, e)
                &&& 0 <= a <= pos <= e <= s.len()
                &&& (a == 0 || s[a - 1] == '\n')
                &&& forall|j: int| a <= j < pos ==> s[j] != '\n'
                &&& ((e == s.len() && forall|j: int| pos <= j < s.len() ==> s[j] != '\n') || (pos < e
                    && s[e - 1] == '\n' && forall|j: int| pos <= j < e - 1 ==> s[j] != '\n'))
            },
{
    let r = newlines_before(s, pos) as int;
    lemma_line_start_before(s, pos);
    lemma_line_of(s, s.len() as int, st, pos);
    let a = st[r].0 as int;
    assert forall|j: int| a <= j < pos implies s[j] != '\n' by {
        if s[j] == '\n' {
            lemma_newline_counted(s, j, pos);
            lemma_newlines_monotone(s, a, j);
        }
    }
    if r + 1 < st.len() {
        let e = st[r + 1].0 as int;
        assert(s[e - 1] == '\n');
        assert(newlines_before(s, e - 1) == r);
        assert forall|j: int| pos <= j < e - 1 implies s[j] != '\n' by {
            if s[j] == '\n' {
                lemma_newline_counted(s, j, e - 1);
                lemma_newlines_monotone(s, pos, j);
            }
        }
        assert(s.subrange(a, e) == s.subrange(a, e));
    } else {
        let e = s.len() as int;
        assert(s.subrange(a, e) == s.subrange(a, e));
    }
}

} // verus!
