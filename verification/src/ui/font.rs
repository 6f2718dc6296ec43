//! Glyph metrics of a font, and the size a text takes when laid out with them.
use vstd::prelude::*;

use super::basic::boundingbox::fits_i32;
use super::basic::coordinate::Size;
use crate::datastructure::Vec2i;
use std::collections::HashMap;

verus! {

broadcast use vstd::std_specs::hash::group_hash_axioms;

/// The texture coordinates of a glyph, with its size and placement.
#[derive(Clone, Copy, Debug, PartialEq, Eq, Structural)]
pub struct GlyphInfo {
    pub x0: i32,
    pub x1: i32,
    pub y0: i32,
    pub y1: i32,
    pub advance: i32,
    pub offsets: Vec2i,
    pub size: Vec2i,
    pub bearing: Vec2i,
}

/// What text layout reads of a font: the height of a row and the glyphs by character.
pub struct Font {
    pub row_height: i32,
    pub glyph_cache: HashMap<u32, GlyphInfo>,
}

impl Font {
    pub fn new(row_height: i32) -> (r: Font)
        ensures
            r.row_height == row_height,
            r.glyph_cache@ == Map::<u32, GlyphInfo>::empty(),
    {
        Font { row_height, glyph_cache: HashMap::new() }
    }

    /// Records the glyph of a character.
    pub fn add_glyph(&mut self, c: char, glyph: GlyphInfo)
        ensures
            final(self).row_height == old(self).row_height,
            final(self).glyph_cache@ == old(self).glyph_cache@.insert(c as u32, glyph),
    {
        self.glyph_cache.insert(c as u32, glyph);
    }

    pub fn get_glyph(&self, c: char) -> (r: Option<&GlyphInfo>)
        ensures
            r == if self.glyph_cache@.contains_key(c as u32) {
                Some(&self.glyph_cache@[c as u32])
            } else {
                None
            },
    {
        self.glyph_cache.get(&(c as u32))
    }

    pub fn row_height(&self) -> (r: i32)
        ensures
            r == self.row_height,
    {
        self.row_height
    }
}

/// The character drawn for `text[i]`: `<`, `>` and `!` followed by `=` are
/// drawn as the single signs `≤`, `≥` and `≠`.
pub open spec fn shown_char(text: Seq<char>, i: int) -> char {
    let c = text[i];
    if (c == '<' || c == '>' || c == '!') && i + 1 < text.len() && text[i + 1] == '=' {
        if c == '<' {
            '\u{2264}'
        } else if c == '>' {
            '\u{2265}'
        } else {
            '\u{2260}'
        }
    } else {
        c
    }
}

/// The glyph that lays out `text[i]`, if any: an `=` that ends a two-character
/// sign has none, and an `=` the font has no glyph for has none.
pub open spec fn laid_glyph(text: Seq<char>, i: int, glyphs: Map<u32, GlyphInfo>) -> Option<GlyphInfo> {
    let c = shown_char(text, i);
    if c == '=' && i >= 1 && (text[i - 1] == '<' || text[i - 1] == '>' || text[i - 1] == '!') {
        None
    } else if glyphs.contains_key(c as u32) {
        Some(glyphs[c as u32])
    } else {
        None
    }
}

/// How far `text[i]` moves the pen.
pub open spec fn step_advance(text: Seq<char>, i: int, glyphs: Map<u32, GlyphInfo>) -> int {
    match laid_glyph(text, i, glyphs) {
        Some(g) => g.advance as int,
        None => 0,
    }
}

/// The width of the current row, the height so far and the widest row so
/// far, after the first `n` characters.
pub open spec fn text_extent(text: Seq<char>, glyphs: Map<u32, GlyphInfo>, row_height: int, n: int) -> (int, int, int)
    decreases n,
{
    if n <= 0 {
        (0, row_height, 0)
    } else {
        let (w, h, m) = text_extent(text, glyphs, row_height, n - 1);
        if text[n - 1] == '\n' {
            (0, h + row_height, if m < 0 { 0 } else { m })
        } else {
            let w2 = w + step_advance(text, n - 1, glyphs);
            (w2, h, if m < w2 { w2 } else { m })
        }
    }
}

/// Whether text can be laid out with the font as `calculate_text_dimensions`
/// does: it does not start with `=`, every character drawn other than `=` has
/// a glyph, and the sizes on the way fit in `i32`.
pub open spec fn layout_defined(text: Seq<char>, font: Font) -> bool {
    &&& !(text.len() > 0 && text[0] == '=')
    &&& forall|i: int|
        0 <= i < text.len() && text[i] != '\n' && text[i] != '=' ==> font.glyph_cache@.contains_key(
            #[trigger] shown_char(text, i) as u32,
        )
    &&& forall|n: int|
        0 <= n <= text.len() ==> {
            let e = #[trigger] text_extent(text, font.glyph_cache@, font.row_height as int, n);
            fits_i32(e.0) && fits_i32(e.1) && fits_i32(e.2)
        }
}

fn shown_char_at(text: &[char], i: usize) -> (r: char)
    requires
        i < text@.len(),
    ensures
        r == shown_char(text@, i as int),
{
    let c = text[i];
    if (c == '<' || c == '>' || c == '!') && i + 1 < text.len() && text[i + 1] == '=' {
        if c == '<' {
            '\u{2264}'
        } else if c == '>' {
            '\u{2265}'
        } else {
            '\u{2260}'
        }
    } else {
        c
    }
}

/// The size of the text laid out with the font: the widest row, and a row
/// height for each row.
pub fn calculate_text_dimensions(text: &[char], font: &Font) -> (r: Size)
    requires
        layout_defined(text@, *font),
    ensures
        r.width == text_extent(text@, font.glyph_cache@, font.row_height as int, text@.len() as int).2,
        r.height == text_extent(text@, font.glyph_cache@, font.row_height as int, text@.len() as int).1,
{
    let mut size = Size { width: 0, height: font.row_height() };
    let mut max_x: i32 = 0;
    let mut index: usize = 0;
    proof {
        assert(text_extent(text@, font.glyph_cache@, font.row_height as int, 0) == (0int, font.row_height as int, 0int));
    }
    while index < text.len()
        invariant
            index <= text@.len(),
            layout_defined(text@, *font),
            (size.width as int, size.height as int, max_x as int) == text_extent(
                text@,
                font.glyph_cache@,
                font.row_height as int,
                index as int,
            ),
        decreases text@.len() - index,
    {
        let c = text[index];
        let ghost e = text_extent(text@, font.glyph_cache@, font.row_height as int, index + 1);
        proof {
            assert(0 <= index + 1 <= text@.len());
            assert(fits_i32(e.0) && fits_i32(e.1) && fits_i32(e.2));
        }
        if c == '\n' {
            size.height = size.height + font.row_height();
            size.width = 0;
        } else {
            let shown = shown_char_at(text, index);
            if shown == '=' {
                let prev = text[index - 1];
                let adv = if prev == '<' || prev == '>' || prev == '!' {
                    0
                } else {
                    match font.get_glyph(shown) {
                        Some(g) => g.advance,
                        None => 0,
                    }
                };
                size.width = size.width + adv;
            } else {
                proof {
                    assert(text@[index as int] != '=');
                    assert(font.glyph_cache@.contains_key(shown_char(text@, index as int) as u32));
                }
                let adv = match font.get_glyph(shown) {
                    Some(g) => g.advance,
                    None => 0,
                };
                size.width = size.width + adv;
            }
        }
        if size.width > max_x {
            max_x = size.width;
        }
        index = index + 1;
    }
    size.width = max_x;
    size
}

/// The sum of the advances of the first `n` characters laid out on one row.
pub open spec fn line_advance(text: Seq<char>, glyphs: Map<u32, GlyphInfo>, n: int) -> int
    decreases n,
{
    if n <= 0 {
        0
    } else {
        line_advance(text, glyphs, n - 1) + step_advance(text, n - 1, glyphs)
    }
}

/// The size of one row of text laid out with the font: the sum of the
/// advances of the glyphs, and one row's height. Characters the font has no
/// glyph for take no room.
pub fn dimensions_of_text_line(text: &[char], font: &Font) -> (r: Size)
    requires
        !(text@.len() > 0 && text@[0] == '='),
        forall|n: int| 0 <= n <= text@.len() ==> fits_i32(#[trigger] line_advance(text@, font.glyph_cache@, n)),
    ensures
        r.width == line_advance(text@, font.glyph_cache@, text@.len() as int),
        r.height == font.row_height,
{
    let mut width: i32 = 0;
    let mut index: usize = 0;
    while index < text.len()
        invariant
            index <= text@.len(),
            !(text@.len() > 0 && text@[0] == '='),
            forall|n: int| 0 <= n <= text@.len() ==> fits_i32(#[trigger] line_advance(text@, font.glyph_cache@, n)),
            width == line_advance(text@, font.glyph_cache@, index as int),
        decreases text@.len() - index,
    {
        let shown = shown_char_at(text, index);
        let glyph = if shown == '=' && index >= 1 && (text[index - 1] == '<' || text[index - 1] == '>' || text[index - 1] == '!') {
            None
        } else {
            font.get_glyph(shown)
        };
        proof {
            assert(fits_i32(line_advance(text@, font.glyph_cache@, index + 1)));
        }
        match glyph {
            Some(g) => {
                width = width + g.advance;
            },
            None => {},
        }
        index = index + 1;
    }
    Size { width, height: font.row_height() }
}

} // verus!
