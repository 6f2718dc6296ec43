//! Character classes used by the word and block movements.
use vstd::prelude::*;

verus! {

/// Whether `c` has the Unicode `White_Space` property.
pub open spec fn spec_is_whitespace(c: char) -> bool {
    let x = c as u32;
    (0x9 <= x <= 0xd) || x == 0x20 || x == 0x85 || x == 0xa0 || x == 0x1680 || (0x2000 <= x
        <= 0x200a) || x == 0x2028 || x == 0x2029 || x == 0x202f || x == 0x205f || x == 0x3000
}

/// Whether `c` is one of the ASCII whitespace characters: space, tab, line feed, form feed, carriage return.
pub open spec fn spec_is_ascii_whitespace(c: char) -> bool {
    let x = c as u32;
    x == 0x20 || x == 0x9 || x == 0xa || x == 0xc || x == 0xd
}

/// Whether `c` is an ASCII punctuation character.
pub open spec fn spec_is_ascii_punctuation(c: char) -> bool {
    let x = c as u32;
    (33 <= x <= 47) || (58 <= x <= 64) || (91 <= x <= 96) || (123 <= x <= 126)
}

/// Whether `c` is an ASCII decimal digit.
pub open spec fn spec_is_digit(c: char) -> bool {
    let x = c as u32;
    48 <= x <= 57
}

/// Whether `c` is alphabetic or numeric in the Unicode sense.
pub uninterp spec fn char_is_alphanumeric(c: char) -> bool;

pub fn is_whitespace(c: char) -> (r: bool)
    ensures
        r == spec_is_whitespace(c),
{
    let x = c as u32;
    (0x9 <= x && x <= 0xd) || x == 0x20 || x == 0x85 || x == 0xa0 || x == 0x1680 || (0x2000 <= x
        && x <= 0x200a) || x == 0x2028 || x == 0x2029 || x == 0x202f || x == 0x205f || x == 0x3000
}

pub fn is_ascii_whitespace(c: char) -> (r: bool)
    ensures
        r == spec_is_ascii_whitespace(c),
{
    let x = c as u32;
    x == 0x20 || x == 0x9 || x == 0xa || x == 0xc || x == 0xd
}

pub fn is_ascii_punctuation(c: char) -> (r: bool)
    ensures
        r == spec_is_ascii_punctuation(c),
{
    let x = c as u32;
    (33 <= x && x <= 47) || (58 <= x && x <= 64) || (91 <= x && x <= 96) || (123 <= x && x <= 126)
}

pub fn is_digit(c: char) -> (r: bool)
    ensures
        r == spec_is_digit(c),
{
    let x = c as u32;
    48 <= x && x <= 57
}

/// Calls `char::is_alphanumeric`, which is true for characters that are
/// alphabetic or numeric in the Unicode sense; the contract only names the
/// result, as the Unicode tables behind it are not restated here.
#[verifier::external_body]
pub fn is_alphanumeric(c: char) -> (r: bool)
    ensures
        r == char_is_alphanumeric(c),
{
    c.is_alphanumeric()
}

/// A test on single characters, used to find where a word or a block ends.
#[derive(Debug, Clone, Copy, PartialEq, Eq, Structural)]
pub enum CharPredicate {
    Whitespace,
    NotWhitespace,
    Alphanumeric,
    NotAlphanumeric,
    NotAsciiPunctuation,
    Is(char),
}

impl CharPredicate {
    pub open spec fn holds(self, c: char) -> bool {
        match self {
            CharPredicate::Whitespace => spec_is_whitespace(c),
            CharPredicate::NotWhitespace => !spec_is_whitespace(c),
            CharPredicate::Alphanumeric => char_is_alphanumeric(c),
            CharPredicate::NotAlphanumeric => !char_is_alphanumeric(c),
            CharPredicate::NotAsciiPunctuation => !spec_is_ascii_punctuation(c),
            CharPredicate::Is(x) => c == x,
        }
    }

    pub fn test(&self, c: char) -> (r: bool)
        ensures
            r == self.holds(c),
    {
        match self {
            CharPredicate::Whitespace => is_whitespace(c),
            CharPredicate::NotWhitespace => !is_whitespace(c),
            CharPredicate::Alphanumeric => is_alphanumeric(c),
            CharPredicate::NotAlphanumeric => !is_alphanumeric(c),
            CharPredicate::NotAsciiPunctuation => !is_ascii_punctuation(c),
            CharPredicate::Is(x) => c == *x,
        }
    }
}

/// The test that finds the end of the run of characters of the same kind as `c`.
pub open spec fn spec_predicate_generate(c: char) -> CharPredicate {
    if spec_is_whitespace(c) {
        CharPredicate::NotWhitespace
    } else if char_is_alphanumeric(c) {
        CharPredicate::NotAlphanumeric
    } else {
        CharPredicate::NotAsciiPunctuation
    }
}

pub fn predicate_generate(c: &char) -> (r: CharPredicate)
    ensures
        r == spec_predicate_generate(*c),
{
    if is_whitespace(*c) {
        CharPredicate::NotWhitespace
    } else if is_alphanumeric(*c) {
        CharPredicate::NotAlphanumeric
    } else {
        CharPredicate::NotAsciiPunctuation
    }
}

} // verus!
