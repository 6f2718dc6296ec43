//! Reading movements from their text form, such as `Forward(Word, 3)`.
use vstd::prelude::*;

use super::chars::{is_ascii_whitespace, spec_is_ascii_whitespace};
use super::strings::{chars_eq_str, chars_of};
use super::{text_kind_from_name, Movement, TextKind};

verus! {

/// The first index at or after `i` that is not ASCII whitespace, or the end.
pub open spec fn skip_space(s: Seq<char>, i: int) -> int
    decreases s.len() - i,
{
    if i < 0 || i >= s.len() || !spec_is_ascii_whitespace(s[i]) {
        i
    } else {
        skip_space(s, i + 1)
    }
}

/// The first index at or after `i` that is ASCII whitespace, or the end.
pub open spec fn word_end(s: Seq<char>, i: int) -> int
    decreases s.len() - i,
{
    if i < 0 || i >= s.len() || spec_is_ascii_whitespace(s[i]) {
        i
    } else {
        word_end(s, i + 1)
    }
}

/// The first two words of `s`, split at ASCII whitespace, when it has two.
pub open spec fn first_two_words(s: Seq<char>) -> Option<(Seq<char>, Seq<char>)> {
    let a0 = skip_space(s, 0);
    let a1 = word_end(s, a0);
    let b0 = skip_space(s, a1);
    let b1 = word_end(s, b0);
    if a0 < s.len() && b0 < s.len() {
        Some((s.subrange(a0, a1), s.subrange(b0, b1)))
    } else {
        None
    }
}

/// The number the decimal digits of `s` write.
pub open spec fn digits_value(s: Seq<char>) -> nat
    decreases s.len(),
{
    if s.len() == 0 {
        0
    } else {
        digits_value(s.drop_last()) * 10 + ((s.last() as u32) - 48) as nat
    }
}

/// Whether every character of `s` is a decimal digit.
pub open spec fn all_digits(s: Seq<char>) -> bool {
    forall|i: int| 0 <= i < s.len() ==> 48 <= #[trigger] (s[i] as u32) <= 57
}

/// What `usize::from_str` reads: an optional `+` and at least one decimal
/// digit, for a value that fits.
pub open spec fn parsed_usize(s: Seq<char>) -> Option<usize> {
    let d = if s.len() > 0 && s[0] == '+' {
        s.drop_first()
    } else {
        s
    };
    if d.len() > 0 && all_digits(d) && digits_value(d) <= usize::MAX {
        Some(digits_value(d) as usize)
    } else {
        None
    }
}

/// Reads a `usize` as `usize::from_str` does.
pub fn parse_usize(s: &[char]) -> (r: Option<usize>)
    ensures
        r == parsed_usize(s@),
{
    let start: usize = if s.len() > 0 && s[0] == '+' {
        1
    } else {
        0
    };
    let ghost d = if s@.len() > 0 && s@[0] == '+' {
        s@.drop_first()
    } else {
        s@
    };
    proof {
        assert(d =~= s@.subrange(start as int, s@.len() as int));
    }
    if start == s.len() {
        return None;
    }
    let mut value: usize = 0;
    let mut i = start;
    while i < s.len()
        invariant
            start <= i <= s@.len(),
            d == s@.subrange(start as int, s@.len() as int),
            d == (if s@.len() > 0 && s@[0] == '+' {
                s@.drop_first()
            } else {
                s@
            }),
            all_digits(s@.subrange(start as int, i as int)),
            value == digits_value(s@.subrange(start as int, i as int)),
        decreases s@.len() - i,
    {
        let c = s[i];
        let x = c as u32;
        let ghost pre = s@.subrange(start as int, i as int);
        let ghost next = s@.subrange(start as int, i + 1);
        proof {
            assert(next.drop_last() =~= pre);
            assert(next.last() == c);
        }
        if x < 48 || x > 57 {
            proof {
                assert(d[i - start] == c);
                assert(!all_digits(d));
            }
            return None;
        }
        let digit = (x - 48) as usize;
        if value > (usize::MAX - digit) / 10 {
            proof {
                assert(digits_value(next) == value * 10 + digit);
                assert(value * 10 + digit > usize::MAX) by (nonlinear_arith)
                    requires
                        value > (usize::MAX - digit) / 10,
                        digit <= 9,
                ;
                if all_digits(d) {
                    assert(d.subrange(0, i + 1 - start) =~= next);
                    lemma_digits_value_prefix_grows(d, i + 1 - start);
                }
            }
            return None;
        }
        proof {
            assert(value * 10 + digit <= usize::MAX) by (nonlinear_arith)
                requires
                    value <= (usize::MAX - digit) / 10,
                    digit <= 9,
            ;
            assert(all_digits(next));
        }
        value = value * 10 + digit;
        i = i + 1;
    }
    proof {
        assert(s@.subrange(start as int, s@.len() as int) == d);
    }
    Some(value)
}

/// A longer prefix of digits writes a number at least as large.
proof fn lemma_digits_value_prefix_grows(d: Seq<char>, k: int)
    requires
        0 <= k <= d.len(),
        all_digits(d.subrange(0, k)),
        all_digits(d),
    ensures
        digits_value(d.subrange(0, k)) <= digits_value(d),
    decreases d.len() - k,
{
    if k < d.len() {
        let a = d.subrange(0, k);
        let b = d.subrange(0, k + 1);
        assert(b.drop_last() =~= a);
        assert(48 <= (b.last() as u32) <= 57);
        assert(all_digits(b));
        lemma_digits_value_prefix_grows(d, k + 1);
    } else {
        assert(d.subrange(0, k) =~= d);
    }
}

/// The reading of the inside of `Forward(...)` or `Backward(...)`: a unit
/// name with one character after it (the comma) and a count.
pub open spec fn counted_movement(inner: Seq<char>) -> Result<Movement, Seq<char>> {
    match first_two_words(inner) {
        Some((kind, count)) => match (text_kind_from_name(kind.drop_last()), parsed_usize(count)) {
            (Some(k), Some(c)) => Ok(Movement::Forward(k, c)),
            _ => Err("Could not parse movement"@),
        },
        None => Err("could not create Movement from str"@),
    }
}

/// The reading of the inside of `Begin(...)` or `End(...)`: a unit name.
pub open spec fn bounded_movement(inner: Seq<char>) -> Result<Movement, Seq<char>> {
    match text_kind_from_name(inner) {
        Some(k) => Ok(Movement::Begin(k)),
        None => Err("could not create Movement from str"@),
    }
}

/// What a movement's text reads as. A backward movement reads as a forward
/// one, and a movement to the end as one to the beginning.
pub open spec fn movement_from_text(s: Seq<char>) -> Result<Movement, Seq<char>> {
    let inside = |from: int| s.subrange(from, s.len() - 1);
    if s.subrange(0, 8) == "Forward("@ {
        counted_movement(inside(8))
    } else if s.subrange(0, 9) == "Backward("@ {
        counted_movement(inside(9))
    } else if s.subrange(0, 6) == "Begin("@ {
        bounded_movement(inside(6))
    } else if s.subrange(0, 4) == "End("@ {
        bounded_movement(inside(4))
    } else {
        Err("could not create Movement from str"@)
    }
}

proof fn lemma_skip_space(s: Seq<char>, i: int)
    requires
        0 <= i <= s.len(),
    ensures
        i <= skip_space(s, i) <= s.len(),
        skip_space(s, i) < s.len() ==> !spec_is_ascii_whitespace(s[skip_space(s, i)]),
    decreases s.len() - i,
{
    if i < s.len() && spec_is_ascii_whitespace(s[i]) {
        lemma_skip_space(s, i + 1);
    }
}

proof fn lemma_word_end(s: Seq<char>, i: int)
    requires
        0 <= i <= s.len(),
    ensures
        i <= word_end(s, i) <= s.len(),
    decreases s.len() - i,
{
    if i < s.len() && !spec_is_ascii_whitespace(s[i]) {
        lemma_word_end(s, i + 1);
    }
}

/// The first index at or after `i` that is not ASCII whitespace.
fn skip_space_at(s: &Vec<char>, i: usize) -> (r: usize)
    requires
        i <= s@.len(),
    ensures
        r == skip_space(s@, i as int),
        i <= r <= s@.len(),
{
    let mut j = i;
    while j < s.len() && is_ascii_whitespace(s[j])
        invariant
            i <= j <= s@.len(),
            skip_space(s@, i as int) == skip_space(s@, j as int),
        decreases s@.len() - j,
    {
        j = j + 1;
    }
    j
}

/// The first index at or after `i` that is ASCII whitespace.
fn word_end_at(s: &Vec<char>, i: usize) -> (r: usize)
    requires
        i <= s@.len(),
    ensures
        r == word_end(s@, i as int),
        i <= r <= s@.len(),
{
    let mut j = i;
    while j < s.len() && !is_ascii_whitespace(s[j])
        invariant
            i <= j <= s@.len(),
            word_end(s@, i as int) == word_end(s@, j as int),
        decreases s@.len() - j,
    {
        j = j + 1;
    }
    j
}

/// A copy of `s[from..to]`.
fn slice_of(s: &Vec<char>, from: usize, to: usize) -> (r: Vec<char>)
    requires
        from <= to <= s@.len(),
    ensures
        r@ == s@.subrange(from as int, to as int),
{
    let mut v: Vec<char> = Vec::new();
    let mut i = from;
    while i < to
        invariant
            from <= i <= to,
            to <= s@.len(),
            v@ == s@.subrange(from as int, i as int),
        decreases to - i,
    {
        v.push(s[i]);
        proof {
            assert(v@ =~= s@.subrange(from as int, i + 1));
        }
        i = i + 1;
    }
    v
}

/// Whether `s[from..to]` is the text of `lit`.
fn range_is(s: &Vec<char>, from: usize, to: usize, lit: &str) -> (r: bool)
    requires
        from <= to <= s@.len(),
    ensures
        r == (s@.subrange(from as int, to as int) == lit@),
{
    let v = slice_of(s, from, to);
    chars_eq_str(v.as_slice(), lit)
}

/// The unit a name stands for.
fn text_kind_of(v: &[char]) -> (r: Option<TextKind>)
    ensures
        r == text_kind_from_name(v@),
{
    if chars_eq_str(v, "Char") {
        Some(TextKind::Char)
    } else if chars_eq_str(v, "Word") {
        Some(TextKind::Word)
    } else if chars_eq_str(v, "Line") {
        Some(TextKind::Line)
    } else if chars_eq_str(v, "Block") {
        Some(TextKind::Block)
    } else if chars_eq_str(v, "Page") {
        Some(TextKind::Page)
    } else if chars_eq_str(v, "File") {
        Some(TextKind::File)
    } else {
        None
    }
}

fn read_counted(s: &Vec<char>, from: usize, to: usize) -> (r: Result<Movement, &'static str>)
    requires
        from <= to <= s@.len(),
    ensures
        match counted_movement(s@.subrange(from as int, to as int)) {
            Ok(m) => r == Ok::<Movement, &'static str>(m),
            Err(e) => r is Err && r->Err_0@ == e,
        },
{
    let inner = slice_of(s, from, to);
    let a0 = skip_space_at(&inner, 0);
    let a1 = word_end_at(&inner, a0);
    let b0 = skip_space_at(&inner, a1);
    let b1 = word_end_at(&inner, b0);
    if a0 < inner.len() && b0 < inner.len() {
        proof {
            assert(a0 < a1) by {
                lemma_skip_space(inner@, 0);
                lemma_word_end(inner@, a0 + 1);
                assert(word_end(inner@, a0 as int) == word_end(inner@, a0 + 1));
            }
        }
        let kind = slice_of(&inner, a0, a1 - 1);
        let count = slice_of(&inner, b0, b1);
        proof {
            assert(kind@ =~= inner@.subrange(a0 as int, a1 as int).drop_last());
        }
        match (text_kind_of(kind.as_slice()), parse_usize(count.as_slice())) {
            (Some(k), Some(c)) => Ok(Movement::Forward(k, c)),
            _ => Err("Could not parse movement"),
        }
    } else {
        Err("could not create Movement from str")
    }
}

fn read_bounded(s: &Vec<char>, from: usize, to: usize) -> (r: Result<Movement, &'static str>)
    requires
        from <= to <= s@.len(),
    ensures
        match bounded_movement(s@.subrange(from as int, to as int)) {
            Ok(m) => r == Ok::<Movement, &'static str>(m),
            Err(e) => r is Err && r->Err_0@ == e,
        },
{
    let inner = slice_of(s, from, to);
    match text_kind_of(inner.as_slice()) {
        Some(k) => Ok(Movement::Begin(k)),
        None => Err("could not create Movement from str"),
    }
}

/// Whether the character is ASCII, one byte in UTF-8.
pub open spec fn one_byte(c: char) -> bool {
    (c as u32) < 128
}

/// Whether the reader's cuts fall between characters: it cuts the text at
/// fixed byte offsets up to 9 and before its last byte, and cuts the last
/// byte off the unit name of a counted movement. That holds when the first
/// nine characters, the last one and the last one of that unit name are
/// ASCII; the text must also be long enough for those cuts.
pub open spec fn movement_text_readable(s: Seq<char>) -> bool {
    &&& s.len() >= 9
    &&& s.subrange(0, 9) == "Backward("@ ==> s.len() >= 10
    &&& forall|i: int| 0 <= i < 9 ==> one_byte(#[trigger] s[i])
    &&& one_byte(s.last())
    &&& s.subrange(0, 8) == "Forward("@ ==> (first_two_words(s.subrange(8, s.len() - 1)) matches Some(
        (kind, _),
    ) ==> one_byte(kind.last()))
    &&& s.subrange(0, 9) == "Backward("@ ==> (first_two_words(s.subrange(9, s.len() - 1)) matches Some(
        (kind, _),
    ) ==> one_byte(kind.last()))
}

impl Movement {
    /// Reads a movement from its text form: `Forward(Unit, count)`,
    /// `Backward(Unit, count)`, `Begin(Unit)` or `End(Unit)`. Text on which
    /// the reader's byte cuts would split a character is left out.
    pub fn from_str(s: &str) -> (r: Result<Movement, &'static str>)
        requires
            movement_text_readable(s@),
        ensures
            match movement_from_text(s@) {
                Ok(m) => r == Ok::<Movement, &'static str>(m),
                Err(e) => r is Err && r->Err_0@ == e,
            },
    {
        let t = chars_of(s);
        let n = t.len();
        if range_is(&t, 0, 8, "Forward(") {
            read_counted(&t, 8, n - 1)
        } else if range_is(&t, 0, 9, "Backward(") {
            read_counted(&t, 9, n - 1)
        } else if range_is(&t, 0, 6, "Begin(") {
            read_bounded(&t, 6, n - 1)
        } else if range_is(&t, 0, 4, "End(") {
            read_bounded(&t, 4, n - 1)
        } else {
            Err("could not create Movement from str")
        }
    }
}

} // verus!
