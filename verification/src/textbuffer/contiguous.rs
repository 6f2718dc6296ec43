//! ContiguousBuffer: a buffer that keeps its characters in one vector, with a
//! line table kept beside it.
use vstd::prelude::*;

use std::collections::hash_map::DefaultHasher;
use std::hash::{Hash, Hasher};
use vstd::std_specs::hash::DefaultHasherAdditionalSpecFns;

use super::chars::{is_ascii_whitespace, spec_is_ascii_whitespace, is_alphanumeric, is_whitespace, predicate_generate, spec_is_whitespace, char_is_alphanumeric, spec_predicate_generate, CharPredicate};
use super::cursor::{BufferCursor, MetaCursor};
use super::strings::{chars_of, string_from_chars};
use super::vecops::{vec_drain, vec_splice_in};
use super::metadata::{spec_line_len, spec_offset, table_ok, Column, Index, Length, Line, MetaData};
use super::operations::LineOperation;
use super::{Movement, TextKind};
use super::model::{column_of, lemma_newlines_bound, is_line_starts, is_line_starts_upto, lemma_line_of, lemma_line_start_before, lemma_starts_extend, lemma_starts_increasing, lemma_newlines_step, lemma_newlines_insert, lemma_line_start_insert, lemma_starts_after_insert, lemma_newlines_prefix, line_start_before, newlines_before, starts_after_insert, strictly_increasing};

verus! {

/// Calls `Vec::capacity`: the number of elements the vector can hold without
/// reallocating, which is never below its length; how much more the allocator
/// gave is not stated.
#[verifier::external_body]
pub(crate) fn vec_capacity<T>(v: &Vec<T>) -> (r: usize)
    ensures
        r >= v@.len(),
{
    v.capacity()
}

/// Most characters a vector of `char` can hold.
pub open spec fn max_chars() -> int {
    (isize::MAX as int) / 4
}

/// The cursor that stands for position `pos` of text `s`.
pub open spec fn cursor_at(s: Seq<char>, pos: int) -> BufferCursor {
    BufferCursor {
        pos: Index(pos as usize),
        row: Line(newlines_before(s, pos) as usize),
        col: Column(column_of(s, pos) as usize),
    }
}

/// The file name as a sequence of characters.
pub open spec fn name_view(name: Option<String>) -> Option<Seq<char>> {
    match name {
        Some(n) => Some(n@),
        None => None,
    }
}

/// The writes that `Hash` for a slice of `char` makes into a `DefaultHasher`
/// holding the characters `data`. They depend on the characters alone.
pub uninterp spec fn char_slice_writes(data: Seq<char>) -> Seq<Seq<u8>>;

/// The writes that `Hash` for `std::path::Path` makes into a `DefaultHasher`
/// for the path with the characters `path`. They depend on the path alone.
pub uninterp spec fn path_writes(path: Seq<char>) -> Seq<Seq<u8>>;

/// The writes that `Hash` for `usize` makes into a `DefaultHasher` for `n`.
/// They depend on `n` alone.
pub uninterp spec fn usize_writes(n: usize) -> Seq<Seq<u8>>;

/// Calls `<[char] as Hash>::hash` on `state`: the hasher has taken in the
/// writes for the characters of `data` after those it had. The writes
/// themselves are named, not restated.
#[verifier::external_body]
fn hash_chars(state: &mut DefaultHasher, data: &[char])
    ensures
        final(state)@ == old(state)@ + char_slice_writes(data@),
{
    data.hash(state);
}

/// Calls `<Path as Hash>::hash` on `state` for the path `path` names: the
/// hasher has taken in the writes for that path after those it had. The
/// writes themselves are named, not restated.
#[verifier::external_body]
fn hash_path(state: &mut DefaultHasher, path: &String)
    ensures
        final(state)@ == old(state)@ + path_writes(path@),
{
    std::path::Path::new(path.as_str()).hash(state);
}

/// Calls `<usize as Hash>::hash` on `state`: the hasher has taken in the
/// writes for `n` after those it had.
#[verifier::external_body]
fn hash_usize(state: &mut DefaultHasher, n: usize)
    ensures
        final(state)@ == old(state)@ + usize_writes(n),
{
    n.hash(state);
}

/// What a fresh `DefaultHasher` takes in for a buffer: its characters, its
/// file path when it has one, and its length.
pub open spec fn hash_writes(data: Seq<char>, file_name: Option<Seq<char>>) -> Seq<Seq<u8>> {
    char_slice_writes(data) + match file_name {
        Some(p) => path_writes(p),
        None => Seq::<Seq<u8>>::empty(),
    } + usize_writes(data.len() as usize)
}

/// The digest a fresh `DefaultHasher` gives for a buffer's characters, its
/// file path (when it has one) and its length.
pub open spec fn text_hash(data: Seq<char>, file_name: Option<Seq<char>>) -> u64 {
    DefaultHasher::spec_finish(hash_writes(data, file_name))
}

/// Hashes the characters, the path made from `file_name` (when there is one)
/// and the character count with a fresh `DefaultHasher`, and gives its digest.
fn default_hash(data: &[char], file_name: &Option<String>) -> (r: u64)
    ensures
        r == text_hash(data@, name_view(*file_name)),
{
    let mut s = DefaultHasher::new();
    hash_chars(&mut s, data);
    proof {
        assert(s@ =~= char_slice_writes(data@));
    }
    match file_name {
        Some(p) => hash_path(&mut s, p),
        None => {},
    }
    hash_usize(&mut s, data.len());
    proof {
        assert(s@ =~= hash_writes(data@, name_view(*file_name)));
    }
    s.finish()
}

pub struct ContiguousBuffer {
    pub id: u32,
    pub data: Vec<char>,
    pub edit_cursor: BufferCursor,
    pub meta_cursor: Option<MetaCursor>,
    pub size: usize,
    pub meta_data: MetaData,
}

impl ContiguousBuffer {
    pub open spec fn text(&self) -> Seq<char> {
        self.data@
    }

    pub open spec fn pos(&self) -> int {
        self.edit_cursor.pos.0 as int
    }

    pub open spec fn starts(&self) -> Seq<Index> {
        self.meta_data.starts()
    }

    /// The buffer's invariant: the line table describes the text, the sizes
    /// agree with it, and the cursor stands on a position of the text with the
    /// line and column of that position.
    pub open spec fn wf(&self) -> bool {
        &&& self.data@.len() <= max_chars()
        &&& is_line_starts(self.data@, self.meta_data.starts())
        &&& self.meta_data.buffer_size == self.data@.len()
        &&& self.size == self.data@.len()
        &&& self.edit_cursor.pos.0 <= self.data@.len()
        &&& self.edit_cursor == cursor_at(self.data@, self.pos())
    }

    pub proof fn lemma_wf_table(&self)
        requires
            self.wf(),
        ensures
            self.meta_data.well_formed(),
            strictly_increasing(self.starts()),
            forall|k: int| 0 <= k < self.starts().len() ==> #[trigger] self.starts()[k].0 <= self.data@.len(),
    {
        let s = self.data@;
        let st = self.starts();
        lemma_starts_increasing(s, s.len() as int, st);
        assert forall|k: int| 0 <= k < st.len() implies #[trigger] st[k].0 <= s.len() by {
            if k > 0 {
                assert(1 <= st[k].0 <= s.len());
            }
        }
    }

    pub fn new(id: u32, capacity: usize) -> (r: ContiguousBuffer)
        ensures
            r.wf(),
            r.id == id,
            r.data@ == Seq::<char>::empty(),
            r.edit_cursor == cursor_at(r.data@, 0),
            r.meta_cursor is None,
            r.meta_data.file_name is None,
    {
        ContiguousBuffer {
            id: id,
            data: Vec::with_capacity(capacity),
            edit_cursor: BufferCursor { pos: Index(0), row: Line(0), col: Column(0) },
            meta_cursor: None,
            size: 0,
            meta_data: MetaData::new(None),
        }
    }

    /// The file name of the buffer, and its cursor.
    pub fn buffer_info(&self) -> (r: (Option<&String>, BufferCursor))
        ensures
            r.0 == match self.meta_data.file_name {
                Some(n) => Some(&n),
                None => None::<&String>,
            },
            r.1 == self.edit_cursor,
    {
        (self.file_name(), self.cursor())
    }

    pub fn cursor(&self) -> (r: BufferCursor)
        ensures
            r == self.edit_cursor,
    {
        self.edit_cursor
    }

    pub fn get_cursor(&self) -> (r: &BufferCursor)
        ensures
            *r == self.edit_cursor,
    {
        &self.edit_cursor
    }

    pub fn set_absolute_meta_cursor(&mut self, pos: Index)
        ensures
            final(self).meta_cursor == Some(MetaCursor::Absolute(pos)),
            final(self).data == old(self).data,
            final(self).edit_cursor == old(self).edit_cursor,
            final(self).size == old(self).size,
            final(self).meta_data == old(self).meta_data,
            final(self).id == old(self).id,
    {
        self.meta_cursor = Some(MetaCursor::Absolute(pos));
    }

    pub fn get(&self, idx: Index) -> (r: Option<&char>)
        ensures
            r == if idx.0 < self.data@.len() {
                Some(&self.data@[idx.0 as int])
            } else {
                None::<&char>
            },
    {
        if idx.0 < self.data.len() {
            Some(&self.data[idx.0])
        } else {
            None
        }
    }

    /// The character at `idx`, which must lie inside the buffer.
    pub fn get_unchecked(&self, idx: Index) -> (r: &char)
        requires
            idx.0 < self.data@.len(),
        ensures
            *r == self.data@[idx.0 as int],
    {
        &self.data[idx.0]
    }

    /// The characters in `range`, which must lie inside the buffer.
    pub fn get_slice(&self, range: std::ops::Range<usize>) -> (r: &[char])
        requires
            range.start <= range.end <= self.data@.len(),
        ensures
            r@ == self.data@.subrange(range.start as int, range.end as int),
    {
        let sl = self.data.as_slice();
        &sl[range.start..range.end]
    }

    pub fn file_name(&self) -> (r: Option<&String>)
        ensures
            r == match self.meta_data.file_name {
                Some(n) => Some(&n),
                None => None::<&String>,
            },
    {
        match &self.meta_data.file_name {
            Some(n) => Some(n),
            None => None,
        }
    }

    pub fn len(&self) -> (r: usize)
        ensures
            r == self.data@.len(),
    {
        self.data.len()
    }

    pub fn capacity(&self) -> (r: usize)
        ensures
            r >= self.data@.len(),
    {
        vec_capacity(&self.data)
    }

    /// Free space in the buffer: what it can hold without growing, less what
    /// it holds. That capacity is some `usize` no smaller than the length, so
    /// the free space and the length add up to at most `usize::MAX`; which
    /// capacity the allocator gave is not known here.
    pub fn available_space(&self) -> (r: usize)
        ensures
            r + self.data@.len() <= usize::MAX,
    {
        self.capacity() - self.len()
    }

    /// Check if the buffer is empty
    pub fn empty(&self) -> (r: bool)
        ensures
            r == (self.data@.len() == 0),
    {
        self.len() == 0
    }

    #[inline(always)]
    pub fn cursor_row(&self) -> (r: Line)
        ensures
            r == self.edit_cursor.row,
    {
        self.edit_cursor.row
    }

    #[inline(always)]
    pub fn cursor_col(&self) -> (r: Column)
        ensures
            r == self.edit_cursor.col,
    {
        self.edit_cursor.col
    }

    #[inline(always)]
    pub fn cursor_abs(&self) -> (r: Index)
        ensures
            r == self.edit_cursor.pos,
    {
        self.edit_cursor.pos
    }

    #[inline(always)]
    pub fn meta_data(&self) -> (r: &MetaData)
        ensures
            *r == self.meta_data,
    {
        &self.meta_data
    }

    /// Checks if the index is a valid buffer index
    pub fn is_valid_index(&self, index: Index) -> (r: bool)
        ensures
            r == (index.0 <= self.data@.len()),
    {
        self.len() >= index.0
    }

    /// Overwrites the cursor; the caller takes care that it describes a position of the buffer.
    pub fn set_cursor(&mut self, cursor: BufferCursor)
        ensures
            final(self).edit_cursor == cursor,
            final(self).data == old(self).data,
            final(self).meta_cursor == old(self).meta_cursor,
            final(self).size == old(self).size,
            final(self).meta_data == old(self).meta_data,
            final(self).id == old(self).id,
    {
        self.edit_cursor = cursor;
    }

    /// Hash of the buffer's characters, file name and length.
    pub fn calculate_hash(&self) -> (r: u64)
        ensures
            r == text_hash(self.data@, name_view(self.meta_data.file_name)),
    {
        default_hash(self.data.as_slice(), &self.meta_data.file_name)
    }

    /// Hashes the contents of the buffer, and compares it to the last saved state.
    pub fn pristine(&self) -> (r: bool)
        ensures
            r == (self.meta_data.pristine_hash() == text_hash(
                self.data@,
                name_view(self.meta_data.file_name),
            )),
    {
        let hash = self.calculate_hash();
        self.meta_data.get_pristine_hash() == hash
    }

    /// Rebuilds the line table from the text, and records the text's checksum.
    pub fn rebuild_metadata(&mut self)
        requires
            old(self).data@.len() <= max_chars(),
        ensures
            is_line_starts(final(self).data@, final(self).meta_data.starts()),
            final(self).meta_data.buffer_size == final(self).data@.len(),
            final(self).meta_data.checksum() == text_hash(
                final(self).data@,
                name_view(final(self).meta_data.file_name),
            ),
            final(self).meta_data.pristine_hash() == old(self).meta_data.pristine_hash(),
            final(self).meta_data.file_name == old(self).meta_data.file_name,
            final(self).data == old(self).data,
            final(self).edit_cursor == old(self).edit_cursor,
            final(self).meta_cursor == old(self).meta_cursor,
            final(self).size == old(self).size,
            final(self).id == old(self).id,
    {
        self.meta_data.clear_line_index_metadata();
        let n = self.data.len();
        let mut i: usize = 0;
        while i < n
            invariant
                n == self.data@.len(),
                n <= max_chars(),
                i <= n,
                is_line_starts_upto(self.data@, i as int, self.meta_data.starts()),
                self.data == old(self).data,
                self.edit_cursor == old(self).edit_cursor,
                self.meta_cursor == old(self).meta_cursor,
                self.size == old(self).size,
                self.id == old(self).id,
                self.meta_data.file_name == old(self).meta_data.file_name,
                self.meta_data.hash_on_open == old(self).meta_data.hash_on_open,
            decreases n - i,
        {
            proof {
                lemma_starts_extend(self.data@, i as int, self.meta_data.starts());
            }
            if self.data[i] == '\n' {
                self.meta_data.push_new_line_begin(Index(i + 1));
            }
            i = i + 1;
        }
        self.meta_data.set_buffer_size(n);
        let cs = self.calculate_hash();
        self.meta_data.set_checksum(cs);
    }

    /// Builds the cursor that stands for absolute position `absolute_position`.
    pub fn cursor_from_metadata(&self, absolute_position: Index) -> (r: Option<BufferCursor>)
        requires
            self.wf(),
            absolute_position.0 <= self.data@.len(),
        ensures
            r == Some(cursor_at(self.data@, absolute_position.0 as int)),
    {
        let s = Ghost(self.data@);
        let st = Ghost(self.starts());
        let p = absolute_position.0;
        proof {
            self.lemma_wf_table();
            lemma_line_of(s@, s@.len() as int, st@, p as int);
            lemma_line_start_before(s@, p as int);
        }
        if p == self.len() {
            let last = self.meta_data.get_last_line();
            Some(
                BufferCursor {
                    pos: Index(p),
                    row: Line(self.meta_data.line_count() - 1),
                    col: Column(p - last.0),
                },
            )
        } else {
            let line = self.meta_data.get_line_number_of_buffer_index(Index(p));
            match line {
                Some(k) => {
                    proof {
                        let r = newlines_before(s@, p as int) as int;
                        if (k as int) < r {
                            assert(st@[k + 1].0 <= st@[r].0);
                        }
                        if (k as int) > r {
                            assert(st@[r + 1].0 <= st@[k as int].0);
                        }
                    }
                    let begin = self.meta_data.get_line_start_index(Line(k));
                    match begin {
                        Some(b) => Some(BufferCursor { pos: Index(p), row: Line(k), col: Column(p - b.0) }),
                        None => None,
                    }
                },
                None => None,
            }
        }
    }

    /// Moves cursor to absolute buffer index
    pub fn cursor_goto(&mut self, buffer_index: Index)
        requires
            old(self).wf(),
        ensures
            final(self).wf(),
            final(self).edit_cursor == if buffer_index.0 <= old(self).data@.len() {
                cursor_at(old(self).data@, buffer_index.0 as int)
            } else {
                old(self).edit_cursor
            },
            final(self).data == old(self).data,
            final(self).meta_cursor == old(self).meta_cursor,
            final(self).meta_data == old(self).meta_data,
            final(self).size == old(self).size,
            final(self).id == old(self).id,
    {
        if self.is_valid_index(buffer_index) {
            let c = self.cursor_from_metadata(buffer_index);
            match c {
                Some(c) => self.set_cursor(c),
                None => {},
            }
        }
    }
}


/// First position at or after `from` whose character satisfies `p`.
pub open spec fn first_match_from(s: Seq<char>, from: int, p: CharPredicate) -> Option<int>
    decreases s.len() - from,
{
    if 0 <= from < s.len() {
        if p.holds(s[from]) {
            Some(from)
        } else {
            first_match_from(s, from + 1, p)
        }
    } else {
        None
    }
}

/// Last position before `end` whose character satisfies `p`.
pub open spec fn last_match_before(s: Seq<char>, end: int, p: CharPredicate) -> Option<int>
    decreases end,
{
    if 0 < end <= s.len() {
        if p.holds(s[end - 1]) {
            Some(end - 1)
        } else {
            last_match_before(s, end - 1, p)
        }
    } else {
        None
    }
}

pub proof fn lemma_first_match_from(s: Seq<char>, from: int, p: CharPredicate)
    requires
        0 <= from,
    ensures
        first_match_from(s, from, p) matches Some(k) ==> from <= k < s.len() && p.holds(s[k])
            && forall|j: int| from <= j < k ==> !p.holds(#[trigger] s[j]),
        first_match_from(s, from, p) is None ==> forall|j: int|
            from <= j < s.len() ==> !p.holds(#[trigger] s[j]),
    decreases s.len() - from,
{
    if 0 <= from < s.len() && !p.holds(s[from]) {
        lemma_first_match_from(s, from + 1, p);
    }
}

pub proof fn lemma_last_match_before(s: Seq<char>, end: int, p: CharPredicate)
    requires
        end <= s.len(),
    ensures
        last_match_before(s, end, p) matches Some(k) ==> 0 <= k < end && p.holds(s[k])
            && forall|j: int| k < j < end ==> !p.holds(#[trigger] s[j]),
        last_match_before(s, end, p) is None ==> forall|j: int|
            0 <= j < end ==> !p.holds(#[trigger] s[j]),
    decreases end,
{
    if 0 < end && !p.holds(s[end - 1]) {
        lemma_last_match_before(s, end - 1, p);
    }
}

/// Line starts increase strictly and lie within the text.
pub proof fn lemma_starts_are_ordered(s: Seq<char>, st: Seq<Index>)
    requires
        is_line_starts(s, st),
    ensures
        strictly_increasing(st),
        forall|k: int| 0 <= k < st.len() ==> #[trigger] st[k].0 <= s.len(),
{
    lemma_starts_increasing(s, s.len() as int, st);
    assert forall|k: int| 0 <= k < st.len() implies #[trigger] st[k].0 <= s.len() by {
        if k > 0 {
            assert(1 <= st[k].0 <= s.len());
        }
    }
}

/// Position reached by stepping `n` characters forward, stopping at the end.
pub open spec fn step_forward_target(s: Seq<char>, pos: int, n: int) -> int {
    if pos + n <= s.len() {
        pos + n
    } else {
        s.len() as int
    }
}

/// Position reached by stepping `n` characters backward; stepping to or past
/// the start lands on 0.
pub open spec fn step_backward_target(pos: int, n: int) -> int {
    if pos - n > 0 {
        pos - n
    } else {
        0
    }
}

/// Forward by one word: from a word to the whitespace after it, from
/// whitespace to the next word; the end of the text when there is none.
pub open spec fn word_forward_target(s: Seq<char>, pos: int) -> int {
    if 0 <= pos < s.len() {
        let c = s[pos];
        if char_is_alphanumeric(c) {
            match first_match_from(s, pos + 1, CharPredicate::Whitespace) {
                Some(k) => k,
                None => s.len() as int,
            }
        } else if spec_is_whitespace(c) {
            match first_match_from(s, pos + 1, CharPredicate::Alphanumeric) {
                Some(k) => k,
                None => s.len() as int,
            }
        } else {
            pos
        }
    } else {
        pos
    }
}

/// Backward by one word: to the last whitespace (from a word) or the last
/// word character (from whitespace) before the cursor; at the end of the
/// text, one character back.
pub open spec fn word_backward_target(s: Seq<char>, pos: int) -> int {
    if 0 <= pos < s.len() {
        let c = s[pos];
        if char_is_alphanumeric(c) {
            match last_match_before(s, pos, CharPredicate::Whitespace) {
                Some(k) => k,
                None => pos,
            }
        } else if spec_is_whitespace(c) {
            match last_match_before(s, pos, CharPredicate::Alphanumeric) {
                Some(k) => k,
                None => pos,
            }
        } else {
            pos
        }
    } else {
        step_backward_target(pos, 1)
    }
}

/// One line down, keeping the column where the next line is long enough.
pub open spec fn line_down_target(s: Seq<char>, st: Seq<Index>, pos: int) -> int {
    let r = newlines_before(s, pos) as int;
    let col = column_of(s, pos);
    if r + 1 < st.len() {
        let b = st[r + 1].0 as int;
        let last = spec_offset(spec_line_len(st, s.len() as int, r + 1), -1);
        b + if col <= last {
            col
        } else {
            last
        }
    } else {
        pos
    }
}

/// One line up, keeping the column where the previous line is long enough;
/// on the first line, to the start of the text.
pub open spec fn line_up_target(s: Seq<char>, st: Seq<Index>, pos: int) -> int {
    let r = newlines_before(s, pos) as int;
    let col = column_of(s, pos);
    if r == 0 {
        0
    } else {
        let b = st[r - 1].0 as int;
        let last = spec_offset(st[r].0 - st[r - 1].0, -1);
        b + if last <= col {
            last
        } else {
            col
        }
    }
}

/// The next closing brace after the cursor, if any.
pub open spec fn block_end_target(s: Seq<char>, pos: int) -> int {
    match first_match_from(s, pos + 1, CharPredicate::Is('}')) {
        Some(k) => k,
        None => pos,
    }
}

/// The last opening brace before the cursor, if any.
pub open spec fn block_begin_target(s: Seq<char>, pos: int) -> int {
    let start = spec_offset(pos, -1);
    if start < s.len() {
        match last_match_before(s, start + 1, CharPredicate::Is('{')) {
            Some(k) => k,
            None => pos,
        }
    } else {
        pos
    }
}

/// To the start of the run of characters of the kind of the character before the cursor.
pub open spec fn word_begin_target(s: Seq<char>, pos: int) -> int {
    let q = spec_offset(pos, -1);
    if q < s.len() {
        let pr = spec_predicate_generate(s[q]);
        let start = spec_offset(pos, -2);
        let i = match last_match_before(s, start + 1, pr) {
            Some(k) => k + 1,
            None => 1,
        };
        step_backward_target(pos, if pos >= i { pos - i } else { 0 })
    } else {
        pos
    }
}

/// To the end of the run of characters of the kind of the character under the cursor.
pub open spec fn word_end_target(s: Seq<char>, pos: int) -> int {
    if 0 <= pos < s.len() {
        let pr = spec_predicate_generate(s[pos]);
        match first_match_from(s, pos + 1, pr) {
            Some(k) => k,
            None => s.len() as int,
        }
    } else {
        pos
    }
}

/// The start of the cursor's line.
pub open spec fn line_begin_target(s: Seq<char>, st: Seq<Index>, pos: int) -> int {
    st[newlines_before(s, pos) as int].0 as int
}

/// The end of the cursor's line: its newline, or the end of the text on the last line.
pub open spec fn line_end_target(s: Seq<char>, st: Seq<Index>, pos: int) -> int {
    let r = newlines_before(s, pos) as int;
    if r + 1 < st.len() {
        st[r + 1].0 - 1
    } else {
        s.len() as int
    }
}

pub open spec fn repeat_line_down(s: Seq<char>, st: Seq<Index>, pos: int, n: int) -> int
    decreases n,
{
    if n <= 0 {
        pos
    } else {
        line_down_target(s, st, repeat_line_down(s, st, pos, n - 1))
    }
}

pub open spec fn repeat_line_up(s: Seq<char>, st: Seq<Index>, pos: int, n: int) -> int
    decreases n,
{
    if n <= 0 {
        pos
    } else {
        line_up_target(s, st, repeat_line_up(s, st, pos, n - 1))
    }
}

pub open spec fn repeat_block_end(s: Seq<char>, pos: int, n: int) -> int
    decreases n,
{
    if n <= 0 {
        pos
    } else {
        block_end_target(s, repeat_block_end(s, pos, n - 1))
    }
}

pub open spec fn repeat_block_begin(s: Seq<char>, pos: int, n: int) -> int
    decreases n,
{
    if n <= 0 {
        pos
    } else {
        block_begin_target(s, repeat_block_begin(s, pos, n - 1))
    }
}

/// Whether a movement of this kind is one the buffer carries out (pages and
/// whole files are not, nor word movements by more than one word).
pub open spec fn movement_supported(m: Movement) -> bool {
    match m {
        Movement::Forward(k, n) => k != TextKind::Page && k != TextKind::File && (k
            == TextKind::Word ==> n == 1),
        Movement::Backward(k, n) => k != TextKind::Page && k != TextKind::File && (k
            == TextKind::Word ==> n == 1),
        Movement::Begin(k) => k != TextKind::Page && k != TextKind::File,
        Movement::End(k) => k != TextKind::Page && k != TextKind::File,
    }
}

/// Whether movement `m` from `pos` can be carried out: moving to the
/// beginning of a word needs a character before the cursor when the text is
/// not empty (the step back from position 0 would go below 0).
pub open spec fn movement_in_range(s: Seq<char>, pos: int, m: Movement) -> bool {
    match m {
        Movement::Begin(TextKind::Word) => pos == 0 ==> s.len() == 0,
        _ => true,
    }
}

/// Where movement `m` takes a cursor at `pos` in text `s` with line table `st`.
pub open spec fn movement_target(s: Seq<char>, st: Seq<Index>, pos: int, m: Movement) -> int {
    match m {
        Movement::Forward(k, n) => match k {
            TextKind::Char => step_forward_target(s, pos, n as int),
            TextKind::Word => word_forward_target(s, pos),
            TextKind::Line => repeat_line_down(s, st, pos, n as int),
            TextKind::Block => repeat_block_end(s, pos, n as int),
            _ => pos,
        },
        Movement::Backward(k, n) => match k {
            TextKind::Char => step_backward_target(pos, n as int),
            TextKind::Word => word_backward_target(s, pos),
            TextKind::Line => repeat_line_up(s, st, pos, n as int),
            TextKind::Block => repeat_block_begin(s, pos, n as int),
            _ => pos,
        },
        Movement::Begin(k) => match k {
            TextKind::Char => step_backward_target(pos, 1),
            TextKind::Word => word_begin_target(s, pos),
            TextKind::Line => line_begin_target(s, st, pos),
            TextKind::Block => block_begin_target(s, pos),
            _ => pos,
        },
        Movement::End(k) => match k {
            TextKind::Char => step_forward_target(s, pos, 1),
            TextKind::Word => word_end_target(s, pos),
            TextKind::Line => line_end_target(s, st, pos),
            TextKind::Block => block_end_target(s, pos),
            _ => pos,
        },
    }
}


impl ContiguousBuffer {
    /// Only the cursor changed, and it now stands for position `p` of the text.
    pub open spec fn cursor_moved(&self, old: &Self, p: int) -> bool {
        &&& self.data == old.data
        &&& self.meta_data == old.meta_data
        &&& self.size == old.size
        &&& self.id == old.id
        &&& self.meta_cursor == old.meta_cursor
        &&& self.edit_cursor == cursor_at(old.data@, p)
    }

    proof fn lemma_cursor_moved_wf(&self, old: &Self, p: int)
        requires
            old.wf(),
            self.cursor_moved(old, p),
            0 <= p <= old.data@.len(),
        ensures
            self.wf(),
    {
    }

    fn find_index_of_prev_from(&self, start_position: Index, f: CharPredicate) -> (r: Option<Index>)
        requires
            self.wf(),
        ensures
            r == if start_position.0 < self.data@.len() {
                match last_match_before(self.data@, start_position.0 + 1, f) {
                    Some(k) => Some(Index(k as usize)),
                    None => None::<Index>,
                }
            } else {
                None::<Index>
            },
    {
        if start_position.0 >= self.data.len() {
            return None;
        }
        let mut i = start_position.0 + 1;
        while i > 0
            invariant
                self.wf(),
                0 <= i <= start_position.0 + 1,
                start_position.0 < self.data@.len(),
                last_match_before(self.data@, start_position.0 + 1, f) == last_match_before(
                    self.data@,
                    i as int,
                    f,
                ),
            decreases i,
        {
            if f.test(self.data[i - 1]) {
                return Some(Index(i - 1));
            }
            i = i - 1;
        }
        None
    }

    fn find_index_of_next_from(&self, start_position: Index, f: CharPredicate) -> (r: Option<Index>)
        requires
            self.wf(),
        ensures
            r == match first_match_from(self.data@, start_position.0 as int, f) {
                Some(k) => Some(Index(k as usize)),
                None => None::<Index>,
            },
    {
        let n = self.data.len();
        let mut i = start_position.0;
        while i < n
            invariant
                self.wf(),
                n == self.data@.len(),
                start_position.0 <= i,
                first_match_from(self.data@, start_position.0 as int, f) == first_match_from(
                    self.data@,
                    i as int,
                    f,
                ),
            decreases n - i,
        {
            if f.test(self.data[i]) {
                return Some(Index(i));
            }
            i = i + 1;
        }
        None
    }

    /// Cursor at the first position after the cursor whose character satisfies `f`.
    fn find_next(&self, f: CharPredicate) -> (r: Option<BufferCursor>)
        requires
            self.wf(),
        ensures
            r == match first_match_from(self.data@, self.pos() + 1, f) {
                Some(k) => Some(cursor_at(self.data@, k)),
                None => None::<BufferCursor>,
            },
    {
        let found = self.find_index_of_next_from(Index(self.edit_cursor.pos.0 + 1), f);
        match found {
            Some(i) => {
                proof {
                    lemma_first_match_from(self.data@, self.pos() + 1, f);
                }
                self.cursor_from_metadata(i)
            },
            None => None,
        }
    }

    /// Cursor at the last position before the cursor whose character satisfies `f`.
    fn find_prev(&self, f: CharPredicate) -> (r: Option<BufferCursor>)
        requires
            self.wf(),
        ensures
            r == match last_match_before(self.data@, self.pos(), f) {
                Some(k) => Some(cursor_at(self.data@, k)),
                None => None::<BufferCursor>,
            },
    {
        let p = self.edit_cursor.pos.0;
        if p == 0 {
            return None;
        }
        let found = self.find_index_of_prev_from(Index(p - 1), f);
        match found {
            Some(i) => {
                proof {
                    lemma_last_match_before(self.data@, self.pos(), f);
                }
                self.cursor_from_metadata(i)
            },
            None => None,
        }
    }

    /// One past the last newline before `abs_pos` (the start of its line), when
    /// there is such a newline; at or past the end, the start of the last line.
    fn find_prev_newline_pos_from(&self, abs_pos: Index) -> (r: Option<Index>)
        requires
            self.wf(),
        ensures
            r == if abs_pos.0 >= self.data@.len() {
                Some(self.starts().last())
            } else if newlines_before(self.data@, abs_pos.0 as int) == 0 {
                None::<Index>
            } else {
                Some(Index(line_start_before(self.data@, abs_pos.0 as int) as usize))
            },
    {
        let a = abs_pos.0;
        if a >= self.data.len() {
            return Some(self.meta_data.get_last_line());
        }
        let ghost s = self.data@;
        proof {
            lemma_newline_search(s, a as int);
            lemma_line_start_before(s, a as int);
            lemma_last_match_before(s, a as int, CharPredicate::Is('\n'));
        }
        if a == 0 {
            return None;
        }
        let found = self.find_index_of_prev_from(Index(a - 1), CharPredicate::Is('\n'));
        match found {
            Some(i) => Some(Index(i.0 + 1)),
            None => None,
        }
    }
}

/// The last newline before `i` is where the line of `i` begins, less one.
proof fn lemma_newline_search(s: Seq<char>, i: int)
    requires
        0 <= i <= s.len(),
    ensures
        i > 0 ==> match last_match_before(s, i, CharPredicate::Is('\n')) {
            Some(k) => newlines_before(s, i) > 0 && line_start_before(s, i) == k + 1,
            None => newlines_before(s, i) == 0,
        },
    decreases i,
{
    if i > 0 {
        let p = CharPredicate::Is('\n');
        assert(p.holds(s[i - 1]) == (s[i - 1] == '\n'));
        if s[i - 1] != '\n' {
            lemma_newline_search(s, i - 1);
            assert(last_match_before(s, i, p) == last_match_before(s, i - 1, p));
            assert(newlines_before(s, i) == newlines_before(s, i - 1));
            assert(line_start_before(s, i) == line_start_before(s, i - 1));
            if i == 1 {
                assert(last_match_before(s, 0, p) is None);
                assert(newlines_before(s, 0) == 0);
            }
        } else {
            assert(last_match_before(s, i, p) == Some(i - 1));
            assert(newlines_before(s, i) == newlines_before(s, i - 1) + 1);
        }
    }
}


impl ContiguousBuffer {
    /// Length of line `line`, when the line exists.
    pub fn line_length(&self, line: Line) -> (r: Option<Length>)
        requires
            self.wf(),
        ensures
            r == if line.0 < self.starts().len() {
                Some(Length(spec_line_len(self.starts(), self.data@.len() as int, line.0 as int) as usize))
            } else {
                None::<Length>
            },
    {
        proof {
            self.lemma_wf_table();
        }
        self.meta_data.line_length(line)
    }

    fn cursor_step_forward(&mut self, count: usize)
        requires
            old(self).wf(),
        ensures
            final(self).wf(),
            final(self).cursor_moved(
                old(self),
                step_forward_target(old(self).data@, old(self).pos(), count as int),
            ),
    {
        let n = self.data.len();
        let start = self.edit_cursor.pos.0;
        let steps = if count <= n - start {
            count
        } else {
            n - start
        };
        let ghost s = self.data@;
        let mut i: usize = 0;
        while i < steps
            invariant
                old(self).wf(),
                s == old(self).data@,
                n == s.len(),
                start == old(self).pos(),
                start + steps <= n,
                i <= steps,
                self.cursor_moved(old(self), start + i),
            decreases steps - i,
        {
            let q = self.edit_cursor.pos.0;
            proof {
                lemma_newlines_bound(s, q as int);
                lemma_newlines_bound(s, q + 1);
                lemma_line_start_before(s, q as int);
                lemma_line_start_before(s, q + 1);
            }
            if self.data[q] == '\n' {
                self.edit_cursor.row = Line(self.edit_cursor.row.0 + 1);
                self.edit_cursor.col = Column(0);
            } else {
                self.edit_cursor.col = Column(self.edit_cursor.col.0 + 1);
            }
            self.edit_cursor.pos = Index(q + 1);
            i = i + 1;
        }
        proof {
            self.lemma_cursor_moved_wf(old(self), start + steps);
        }
    }

    fn cursor_step_backward(&mut self, count: usize)
        requires
            old(self).wf(),
        ensures
            final(self).wf(),
            final(self).cursor_moved(old(self), step_backward_target(old(self).pos(), count as int)),
    {
        let start = self.edit_cursor.pos.0;
        let ghost s = self.data@;
        if start > count {
            let mut i: usize = 0;
            while i < count
                invariant
                    old(self).wf(),
                    s == old(self).data@,
                    start == old(self).pos(),
                    start > count,
                    i <= count,
                    self.cursor_moved(old(self), start - i),
                decreases count - i,
            {
                let q = self.edit_cursor.pos.0 - 1;
                proof {
                    lemma_newlines_bound(s, q as int);
                    lemma_newlines_bound(s, q + 1);
                    lemma_line_start_before(s, q as int);
                    lemma_line_start_before(s, q + 1);
                    self.lemma_cursor_moved_wf(old(self), start - i);
                }
                let prev = self.find_prev_newline_pos_from(Index(q));
                self.edit_cursor.pos = Index(q);
                if self.data[q] == '\n' {
                    self.edit_cursor.row = Line(self.edit_cursor.row.0 - 1);
                    let b = match prev {
                        Some(b) => b.0,
                        None => 0,
                    };
                    self.edit_cursor.col = Column(q - b);
                } else {
                    self.edit_cursor.col = Column(self.edit_cursor.col.0 - 1);
                }
                i = i + 1;
            }
        } else {
            self.edit_cursor = BufferCursor { pos: Index(0), row: Line(0), col: Column(0) };
        }
    }

    fn cursor_move_up(&mut self)
        requires
            old(self).wf(),
        ensures
            final(self).wf(),
            final(self).cursor_moved(
                old(self),
                line_up_target(old(self).data@, old(self).starts(), old(self).pos()),
            ),
            0 <= line_up_target(old(self).data@, old(self).starts(), old(self).pos()) <= old(self).data@.len(),
    {
        let ghost s = self.data@;
        let ghost st = self.starts();
        let ghost p = self.pos();
        proof {
            self.lemma_wf_table();
            lemma_line_of(s, s.len() as int, st, p);
            lemma_line_start_before(s, p);
            lemma_newlines_bound(s, p);
        }
        if self.edit_cursor.row.0 == 0 {
            self.cursor_goto(Index(0));
        } else {
            let prior_line = Line(self.edit_cursor.row.0 - 1);
            let index = self.meta_data.get_line_start_index(prior_line);
            let len = self.meta_data.get_line_length_of(prior_line);
            match (index, len) {
                (Some(index), Some(len)) => {
                    let last = len.offset(-1);
                    let step = if last.0 <= self.edit_cursor.col.0 {
                        last.0
                    } else {
                        self.edit_cursor.col.0
                    };
                    proof {
                        let r = newlines_before(s, p) as int;
                        assert(st[r - 1].0 < st[r].0);
                    }
                    let pos = index.offset(step as isize);
                    let c = self.cursor_from_metadata(pos);
                    match c {
                        Some(c) => self.edit_cursor = c,
                        None => {},
                    }
                },
                _ => {},
            }
        }
    }

    fn cursor_move_down(&mut self)
        requires
            old(self).wf(),
        ensures
            final(self).wf(),
            final(self).cursor_moved(
                old(self),
                line_down_target(old(self).data@, old(self).starts(), old(self).pos()),
            ),
            0 <= line_down_target(old(self).data@, old(self).starts(), old(self).pos()) <= old(self).data@.len(),
    {
        let ghost s = self.data@;
        let ghost st = self.starts();
        let ghost p = self.pos();
        proof {
            self.lemma_wf_table();
            lemma_line_of(s, s.len() as int, st, p);
            lemma_line_start_before(s, p);
            lemma_newlines_bound(s, p);
        }
        let next_line_index = Line(self.edit_cursor.row.0 + 1);
        let next_len = self.line_length(next_line_index);
        match next_len {
            Some(l) => {
                let next_line_length = l.as_column();
                let begin = self.meta_data.get(next_line_index);
                match begin {
                    Some(line_begin) => {
                        let last = next_line_length.offset(-1);
                        let step = if self.edit_cursor.col.0 <= last.0 {
                            self.edit_cursor.col.0
                        } else {
                            last.0
                        };
                        proof {
                            let r = newlines_before(s, p) as int;
                            if r + 2 < st.len() {
                                assert(st[r + 1].0 < st[r + 2].0);
                            }
                        }
                        let new_buffer_index = line_begin.offset(step as isize);
                        let c = self.cursor_from_metadata(new_buffer_index);
                        match c {
                            Some(c) => self.set_cursor(c),
                            None => {},
                        }
                    },
                    None => {},
                }
            },
            None => {},
        }
    }
}


impl ContiguousBuffer {
    fn word_forward(&mut self)
        requires
            old(self).wf(),
        ensures
            final(self).wf(),
            final(self).cursor_moved(old(self), word_forward_target(old(self).data@, old(self).pos())),
    {
        let ghost s = self.data@;
        let ghost p = self.pos();
        let n = self.data.len();
        match self.get(self.edit_cursor.pos) {
            Some(c) => {
                let c = *c;
                if is_alphanumeric(c) {
                    let found = self.find_next(CharPredicate::Whitespace);
                    proof {
                        lemma_first_match_from(s, p + 1, CharPredicate::Whitespace);
                    }
                    match found {
                        Some(cur) => self.edit_cursor = cur,
                        None => {
                            let end = self.cursor_from_metadata(Index(n));
                            match end {
                                Some(cur) => self.edit_cursor = cur,
                                None => {},
                            }
                        },
                    }
                } else if is_whitespace(c) {
                    let found = self.find_next(CharPredicate::Alphanumeric);
                    proof {
                        lemma_first_match_from(s, p + 1, CharPredicate::Alphanumeric);
                    }
                    match found {
                        Some(cur) => self.edit_cursor = cur,
                        None => {
                            let end = self.cursor_from_metadata(Index(n));
                            match end {
                                Some(cur) => self.edit_cursor = cur,
                                None => {},
                            }
                        },
                    }
                }
            },
            None => {},
        }
    }

    fn word_backward(&mut self)
        requires
            old(self).wf(),
        ensures
            final(self).wf(),
            final(self).cursor_moved(old(self), word_backward_target(old(self).data@, old(self).pos())),
    {
        let ghost s = self.data@;
        let ghost p = self.pos();
        match self.get(self.edit_cursor.pos) {
            Some(c) => {
                let c = *c;
                if is_alphanumeric(c) {
                    let found = self.find_prev(CharPredicate::Whitespace);
                    proof {
                        lemma_last_match_before(s, p, CharPredicate::Whitespace);
                    }
                    match found {
                        Some(cur) => self.edit_cursor = cur,
                        None => {},
                    }
                } else if is_whitespace(c) {
                    let found = self.find_prev(CharPredicate::Alphanumeric);
                    proof {
                        lemma_last_match_before(s, p, CharPredicate::Alphanumeric);
                    }
                    match found {
                        Some(cur) => self.edit_cursor = cur,
                        None => {},
                    }
                }
            },
            None => {
                self.cursor_step_backward(1);
            },
        }
    }

    fn block_end(&mut self)
        requires
            old(self).wf(),
        ensures
            final(self).wf(),
            final(self).cursor_moved(old(self), block_end_target(old(self).data@, old(self).pos())),
            0 <= block_end_target(old(self).data@, old(self).pos()) <= old(self).data@.len(),
    {
        proof {
            lemma_first_match_from(self.data@, self.pos() + 1, CharPredicate::Is('}'));
        }
        let found = self.find_index_of_next_from(Index(self.edit_cursor.pos.0 + 1), CharPredicate::Is('}'));
        match found {
            Some(block_end) => self.cursor_goto(block_end),
            None => {},
        }
    }

    fn block_begin(&mut self)
        requires
            old(self).wf(),
        ensures
            final(self).wf(),
            final(self).cursor_moved(old(self), block_begin_target(old(self).data@, old(self).pos())),
            0 <= block_begin_target(old(self).data@, old(self).pos()) <= old(self).data@.len(),
    {
        let start = self.edit_cursor.pos.offset(-1);
        proof {
            if start.0 < self.data@.len() {
                lemma_last_match_before(self.data@, start.0 + 1, CharPredicate::Is('{'));
            }
        }
        let found = self.find_index_of_prev_from(start, CharPredicate::Is('{'));
        match found {
            Some(block_begin) => self.cursor_goto(block_begin),
            None => {},
        }
    }

    fn word_begin(&mut self)
        requires
            old(self).wf(),
            old(self).pos() == 0 ==> old(self).data@.len() == 0,
        ensures
            final(self).wf(),
            final(self).cursor_moved(old(self), word_begin_target(old(self).data@, old(self).pos())),
    {
        let q = self.edit_cursor.pos.offset(-1);
        match self.get(q) {
            Some(c) => {
                let predicate = predicate_generate(c);
                let start_position = self.edit_cursor.pos.offset(-2);
                proof {
                    lemma_last_match_before(self.data@, start_position.0 + 1, predicate);
                }
                let found = self.find_index_of_prev_from(start_position, predicate);
                let i = match found {
                    Some(k) => k.0 + 1,
                    None => 1,
                };
                let p = self.edit_cursor.pos.0;
                let len = p - i;
                self.cursor_step_backward(len);
            },
            None => {},
        }
    }

    fn word_end(&mut self)
        requires
            old(self).wf(),
        ensures
            final(self).wf(),
            final(self).cursor_moved(old(self), word_end_target(old(self).data@, old(self).pos())),
    {
        let ghost s = self.data@;
        let p = self.edit_cursor.pos.0;
        match self.get(self.edit_cursor.pos) {
            Some(c) => {
                let start = Index(p + 1);
                let predicate = predicate_generate(c);
                proof {
                    lemma_first_match_from(s, p + 1, predicate);
                }
                let found = self.find_index_of_next_from(start, predicate);
                let new_pos = match found {
                    Some(k) => k.0,
                    None => self.data.len(),
                };
                let step_length = new_pos - p;
                self.cursor_step_forward(step_length);
            },
            None => {},
        }
    }

    fn line_begin(&mut self)
        requires
            old(self).wf(),
        ensures
            final(self).wf(),
            final(self).cursor_moved(
                old(self),
                line_begin_target(old(self).data@, old(self).starts(), old(self).pos()),
            ),
    {
        proof {
            self.lemma_wf_table();
            lemma_line_of(self.data@, self.data@.len() as int, self.starts(), self.pos());
            lemma_line_start_before(self.data@, self.pos());
            lemma_newlines_bound(self.data@, self.pos());
        }
        let start = self.meta_data.get(self.edit_cursor.row);
        match start {
            Some(start) => self.cursor_goto(start),
            None => {},
        }
    }

    fn line_end(&mut self)
        requires
            old(self).wf(),
        ensures
            final(self).wf(),
            final(self).cursor_moved(
                old(self),
                line_end_target(old(self).data@, old(self).starts(), old(self).pos()),
            ),
    {
        proof {
            self.lemma_wf_table();
            lemma_line_of(self.data@, self.data@.len() as int, self.starts(), self.pos());
            lemma_newlines_bound(self.data@, self.pos());
        }
        let next = self.meta_data.get(Line(self.edit_cursor.row.0 + 1));
        let end = match next {
            Some(Index(start)) => Index(start - 1),
            None => Index(self.data.len()),
        };
        self.cursor_goto(end);
    }

    /// Moves cursor forward, in the fashion specified by TextKind
    pub fn cursor_move_forward(&mut self, kind: TextKind, count: usize)
        requires
            old(self).wf(),
            movement_supported(Movement::Forward(kind, count)),
            movement_in_range(old(self).data@, old(self).pos(), Movement::Forward(kind, count)),
        ensures
            final(self).wf(),
            final(self).data == old(self).data,
            final(self).meta_data == old(self).meta_data,
            final(self).size == old(self).size,
            final(self).id == old(self).id,
            final(self).edit_cursor == cursor_at(
                old(self).data@,
                movement_target(
                    old(self).data@,
                    old(self).starts(),
                    old(self).pos(),
                    Movement::Forward(kind, count),
                ),
            ),
            final(self).meta_cursor == if kind == TextKind::Block && count > 0 {
                None::<MetaCursor>
            } else {
                old(self).meta_cursor
            },
    {
        let ghost s = self.data@;
        let ghost st = self.starts();
        let ghost p0 = self.pos();
        match kind {
            TextKind::Char => self.cursor_step_forward(count),
            TextKind::Word => self.word_forward(),
            TextKind::Line => {
                let mut i: usize = 0;
                while i < count
                    invariant
                        old(self).wf(),
                        s == old(self).data@,
                        st == old(self).starts(),
                        p0 == old(self).pos(),
                        i <= count,
                        self.wf(),
                        0 <= repeat_line_down(s, st, p0, i as int) <= s.len(),
                        self.cursor_moved(old(self), repeat_line_down(s, st, p0, i as int)),
                    decreases count - i,
                {
                    self.cursor_move_down();
                    i = i + 1;
                }
            },
            TextKind::Block => {
                let ghost old_meta = self.meta_cursor;
                let mut i: usize = 0;
                while i < count
                    invariant
                        old(self).wf(),
                        s == old(self).data@,
                        p0 == old(self).pos(),
                        i <= count,
                        self.wf(),
                        self.data == old(self).data,
                        self.meta_data == old(self).meta_data,
                        self.size == old(self).size,
                        self.id == old(self).id,
                        0 <= repeat_block_end(s, p0, i as int) <= s.len(),
                        self.edit_cursor == cursor_at(s, repeat_block_end(s, p0, i as int)),
                        self.meta_cursor == if i > 0 {
                            None::<MetaCursor>
                        } else {
                            old(self).meta_cursor
                        },
                    decreases count - i,
                {
                    self.meta_cursor = None;
                    self.block_end();
                    i = i + 1;
                }
            },
            _ => {},
        }
    }

    /// Moves cursor backward, in the fashion specified by TextKind
    pub fn cursor_move_backward(&mut self, kind: TextKind, count: usize)
        requires
            old(self).wf(),
            movement_supported(Movement::Backward(kind, count)),
        ensures
            final(self).wf(),
            final(self).data == old(self).data,
            final(self).meta_data == old(self).meta_data,
            final(self).size == old(self).size,
            final(self).id == old(self).id,
            final(self).edit_cursor == cursor_at(
                old(self).data@,
                movement_target(
                    old(self).data@,
                    old(self).starts(),
                    old(self).pos(),
                    Movement::Backward(kind, count),
                ),
            ),
            final(self).meta_cursor == if kind == TextKind::Block && count > 0 {
                None::<MetaCursor>
            } else {
                old(self).meta_cursor
            },
    {
        let ghost s = self.data@;
        let ghost st = self.starts();
        let ghost p0 = self.pos();
        match kind {
            TextKind::Char => self.cursor_step_backward(count),
            TextKind::Word => self.word_backward(),
            TextKind::Line => {
                let mut i: usize = 0;
                while i < count
                    invariant
                        old(self).wf(),
                        s == old(self).data@,
                        st == old(self).starts(),
                        p0 == old(self).pos(),
                        i <= count,
                        self.wf(),
                        0 <= repeat_line_up(s, st, p0, i as int) <= s.len(),
                        self.cursor_moved(old(self), repeat_line_up(s, st, p0, i as int)),
                    decreases count - i,
                {
                    self.cursor_move_up();
                    i = i + 1;
                }
            },
            TextKind::Block => {
                let mut i: usize = 0;
                while i < count
                    invariant
                        old(self).wf(),
                        s == old(self).data@,
                        p0 == old(self).pos(),
                        i <= count,
                        self.wf(),
                        self.data == old(self).data,
                        self.meta_data == old(self).meta_data,
                        self.size == old(self).size,
                        self.id == old(self).id,
                        0 <= repeat_block_begin(s, p0, i as int) <= s.len(),
                        self.edit_cursor == cursor_at(s, repeat_block_begin(s, p0, i as int)),
                        self.meta_cursor == if i > 0 {
                            None::<MetaCursor>
                        } else {
                            old(self).meta_cursor
                        },
                    decreases count - i,
                {
                    self.meta_cursor = None;
                    self.block_begin();
                    i = i + 1;
                }
            },
            _ => {},
        }
    }

    /// Moves the cursor and clears the meta cursor, so if the desired action is to set a range of selected data
    /// the start position of the meta cursor has to be set _after_ calling this method
    pub fn move_cursor(&mut self, dir: Movement)
        requires
            old(self).wf(),
            movement_supported(dir),
            movement_in_range(old(self).data@, old(self).pos(), dir),
        ensures
            final(self).wf(),
            final(self).data == old(self).data,
            final(self).meta_data == old(self).meta_data,
            final(self).size == old(self).size,
            final(self).id == old(self).id,
            final(self).meta_cursor is None,
            final(self).edit_cursor == cursor_at(
                old(self).data@,
                movement_target(old(self).data@, old(self).starts(), old(self).pos(), dir),
            ),
    {
        self.meta_cursor = None;
        match dir {
            Movement::Forward(kind, count) => {
                self.cursor_move_forward(kind, count);
            },
            Movement::Backward(kind, count) => {
                self.cursor_move_backward(kind, count);
            },
            Movement::Begin(kind) => match kind {
                TextKind::Char => self.cursor_step_backward(1),
                TextKind::Word => self.word_begin(),
                TextKind::Line => self.line_begin(),
                TextKind::Block => self.block_begin(),
                _ => {},
            },
            Movement::End(kind) => match kind {
                TextKind::Char => self.cursor_step_forward(1),
                TextKind::Word => self.word_end(),
                TextKind::Line => self.line_end(),
                TextKind::Block => self.block_end(),
                _ => {},
            },
        }
    }
}


/// Text with the characters `from .. to` taken out.
pub open spec fn erase_span(s: Seq<char>, from: int, to: int) -> Seq<char> {
    s.subrange(0, from) + s.subrange(to, s.len() as int)
}

/// Text and cursor position after an absolute selection, ends included, is
/// replaced by what is typed next; without a selection both stay.
pub open spec fn erase_selection_result(s: Seq<char>, pos: int, meta: Option<MetaCursor>) -> (
    Seq<char>,
    int,
) {
    match meta {
        Some(MetaCursor::Absolute(m)) => {
            let (from, to) = if (m.0 as int) < pos {
                (m.0 as int, pos)
            } else {
                (pos, m.0 as int)
            };
            (erase_span(s, from, to + 1), from)
        },
        _ => (s, pos),
    }
}

/// An insertion can replace the selection: it is absolute and lies inside the text.
pub open spec fn selection_replaceable(s: Seq<char>, pos: int, meta: Option<MetaCursor>) -> bool {
    match meta {
        Some(MetaCursor::Absolute(m)) => m.0 < s.len() && pos < s.len(),
        Some(MetaCursor::LineRange { .. }) => false,
        None => true,
    }
}

impl ContiguousBuffer {
    /// Inserts `ch` at the cursor, updating the line table in place.
    fn insert_at_cursor(&mut self, ch: char)
        requires
            old(self).wf(),
            old(self).data@.len() < max_chars(),
        ensures
            final(self).wf(),
            final(self).data@ == old(self).data@.insert(old(self).pos(), ch),
            final(self).edit_cursor == cursor_at(final(self).data@, old(self).pos() + 1),
            final(self).meta_cursor == old(self).meta_cursor,
            final(self).id == old(self).id,
            final(self).meta_data.file_name == old(self).meta_data.file_name,
            final(self).meta_data.checksum() == old(self).meta_data.checksum(),
            final(self).meta_data.pristine_hash() == old(self).meta_data.pristine_hash(),
    {
        let ghost s = self.data@;
        let ghost st = self.starts();
        let ghost p = self.pos();
        let ghost r = newlines_before(s, p) as int;
        proof {
            self.lemma_wf_table();
            lemma_line_of(s, s.len() as int, st, p);
            lemma_line_start_before(s, p);
            lemma_newlines_bound(s, p);
            lemma_starts_after_insert(s, st, p, ch);
            lemma_newlines_insert(s, p, ch, p + 1);
            lemma_line_start_insert(s, p, ch, p + 1);
        }
        let q = self.edit_cursor.pos.0;
        if ch == '\n' {
            self.data.insert(q, ch);
            self.edit_cursor.pos = Index(q + 1);
            self.edit_cursor.col = Column(0);
            self.edit_cursor.row = Line(self.edit_cursor.row.0 + 1);
            self.meta_data.insert_line_begin(self.edit_cursor.pos, self.edit_cursor.row);
            self.meta_data.update_line_metadata_after_line(self.edit_cursor.row, 1);
        } else {
            self.data.insert(q, ch);
            self.edit_cursor.pos = Index(q + 1);
            self.edit_cursor.col = Column(self.edit_cursor.col.0 + 1);
            self.meta_data.update_line_metadata_after_line(self.edit_cursor.row, 1);
        }
        self.size = self.size + 1;
        self.meta_data.set_buffer_size(self.size);
        proof {
            assert(self.starts() =~= starts_after_insert(st, r, p, ch));
        }
    }

    /// Removes an absolute selection, ends included, and puts the cursor where it began.
    fn erase_selection(&mut self)
        requires
            old(self).wf(),
            selection_replaceable(old(self).data@, old(self).pos(), old(self).meta_cursor),
        ensures
            final(self).wf(),
            final(self).meta_cursor is None,
            final(self).data@ == erase_selection_result(
                old(self).data@,
                old(self).pos(),
                old(self).meta_cursor,
            ).0,
            final(self).edit_cursor == cursor_at(
                final(self).data@,
                erase_selection_result(old(self).data@, old(self).pos(), old(self).meta_cursor).1,
            ),
            final(self).id == old(self).id,
            final(self).meta_data.file_name == old(self).meta_data.file_name,
            final(self).meta_data.pristine_hash() == old(self).meta_data.pristine_hash(),
            old(self).meta_cursor is None ==> final(self).meta_data == old(self).meta_data,
    {
        match self.meta_cursor {
            Some(MetaCursor::Absolute(marker)) => {
                let p = self.edit_cursor.pos.0;
                let (erase_from, erase_to) = if marker.0 < p {
                    (marker.0, p)
                } else {
                    (p, marker.0)
                };
                vec_drain(&mut self.data, erase_from, erase_to + 1);
                self.meta_cursor = None;
                self.size = self.data.len();
                self.rebuild_metadata();
                self.edit_cursor = BufferCursor { pos: Index(0), row: Line(0), col: Column(0) };
                self.cursor_goto(Index(erase_from));
            },
            _ => {},
        }
    }

    /// Inserts `ch` at the cursor, replacing the selection when there is one.
    pub fn insert(&mut self, ch: char)
        requires
            old(self).wf(),
            old(self).data@.len() < max_chars(),
            selection_replaceable(old(self).data@, old(self).pos(), old(self).meta_cursor),
        ensures
            final(self).wf(),
            final(self).meta_cursor is None,
            ({
                let (t, q) = erase_selection_result(
                    old(self).data@,
                    old(self).pos(),
                    old(self).meta_cursor,
                );
                &&& final(self).data@ == t.insert(q, ch)
                &&& final(self).edit_cursor == cursor_at(final(self).data@, q + 1)
            }),
            final(self).id == old(self).id,
            final(self).meta_data.file_name == old(self).meta_data.file_name,
            final(self).meta_data.pristine_hash() == old(self).meta_data.pristine_hash(),
    {
        self.erase_selection();
        self.insert_at_cursor(ch);
    }
}


/// Text and cursor position after deleting in direction `dir` from `pos`.
pub open spec fn delete_dir_result(s: Seq<char>, pos: int, dir: Movement) -> (Seq<char>, int) {
    match dir {
        Movement::Forward(TextKind::Char, count) => {
            let c = if pos + count <= s.len() {
                count as int
            } else {
                s.len() - pos
            };
            (erase_span(s, pos, pos + c), pos)
        },
        Movement::Forward(TextKind::Word, _) => {
            if 0 <= pos < s.len() {
                let c = s[pos];
                if spec_is_whitespace(c) {
                    match first_match_from(s, pos + 1, CharPredicate::NotWhitespace) {
                        Some(k) => (erase_span(s, pos, k), pos),
                        None => (s, pos),
                    }
                } else if char_is_alphanumeric(c) {
                    match first_match_from(s, pos + 1, CharPredicate::NotAlphanumeric) {
                        Some(k) => (erase_span(s, pos, k), pos),
                        None => (s, pos),
                    }
                } else {
                    (erase_span(s, pos, pos + 1), pos)
                }
            } else {
                (s, pos)
            }
        },
        Movement::Backward(TextKind::Char, count) => {
            if pos != 0 {
                let c = if pos - count >= 0 {
                    count as int
                } else {
                    pos
                };
                let q = step_backward_target(pos, c);
                (erase_span(s, q, pos), q)
            } else {
                (s, pos)
            }
        },
        Movement::Backward(TextKind::Word, _) => {
            if pos != 0 {
                let q = word_begin_target(s, pos);
                (erase_span(s, q, pos), q)
            } else {
                (s, pos)
            }
        },
        _ => (s, pos),
    }
}

/// The selection part of a deletion: text, cursor position, and whether the
/// deletion is finished with it.
pub open spec fn delete_selection_result(
    s: Seq<char>,
    st: Seq<Index>,
    pos: int,
    meta: Option<MetaCursor>,
) -> (Seq<char>, int, bool) {
    if s.len() == 0 {
        (s, pos, true)
    } else {
        match meta {
            Some(MetaCursor::Absolute(m)) => {
                let last = s.len() - 1;
                let (from, to) = if (m.0 as int) < pos {
                    (m.0 as int, if pos <= last { pos } else { last })
                } else {
                    (pos, if m.0 <= last { m.0 as int } else { last })
                };
                (erase_span(s, from, to + 1), from, true)
            },
            Some(MetaCursor::LineRange { column, begin, end }) => {
                if begin.0 < st.len() && end.0 + 1 < st.len() {
                    let b = st[begin.0 as int].0 as int;
                    (erase_span(s, b, st[end.0 + 1].0 as int), b, false)
                } else {
                    (s, pos, false)
                }
            },
            None => (s, pos, false),
        }
    }
}

/// Text and cursor position after `delete(dir)`.
pub open spec fn delete_result(
    s: Seq<char>,
    st: Seq<Index>,
    pos: int,
    meta: Option<MetaCursor>,
    dir: Movement,
) -> (Seq<char>, int) {
    let (t, q, done) = delete_selection_result(s, st, pos, meta);
    if done {
        (t, q)
    } else {
        delete_dir_result(t, q, dir)
    }
}

/// The deletions that are carried out: by characters or words, and a line
/// range selection that goes forward.
pub open spec fn delete_supported(
    s: Seq<char>,
    st: Seq<Index>,
    pos: int,
    meta: Option<MetaCursor>,
    dir: Movement,
) -> bool {
    let (t, q, done) = delete_selection_result(s, st, pos, meta);
    &&& match meta {
        Some(MetaCursor::LineRange { column, begin, end }) => end.0 < isize::MAX && (begin.0
            < st.len() && end.0 + 1 < st.len() ==> begin.0 <= end.0 + 1),
        _ => true,
    }
    &&& !done ==> match dir {
        Movement::Forward(k, _) => k == TextKind::Char || k == TextKind::Word,
        Movement::Backward(k, _) => q != 0 ==> (k == TextKind::Char || k == TextKind::Word),
        _ => true,
    }
}

/// A buffer just loaded from a file needs no saving: the saved state is
/// the digest of what was loaded, under the file's name.
pub proof fn lemma_loaded_buffer_is_pristine(loaded: ContiguousBuffer, path: String)
    requires
        loaded.meta_data.file_name == Some(path),
        loaded.meta_data.pristine_hash() == text_hash(loaded.data@, Some(path@)),
    ensures
        text_hash(loaded.data@, name_view(loaded.meta_data.file_name))
            == loaded.meta_data.pristine_hash(),
{
}

/// Saving a buffer makes it pristine, and it stays so as long as its text
/// is the text that was saved and its name the name it was saved under:
/// whether it needs saving depends only on its text and its name.
pub proof fn lemma_saved_buffer_is_pristine(
    before: ContiguousBuffer,
    saved: ContiguousBuffer,
    later: ContiguousBuffer,
    path: String,
)
    requires
        saved.data == before.data,
        saved.meta_data.file_name == Some(path),
        saved.meta_data.pristine_hash() == text_hash(before.data@, Some(path@)),
        later.data@ == saved.data@,
        name_view(later.meta_data.file_name) == name_view(saved.meta_data.file_name),
        later.meta_data.pristine_hash() == saved.meta_data.pristine_hash(),
    ensures
        text_hash(saved.data@, name_view(saved.meta_data.file_name)) == saved.meta_data.pristine_hash(),
        text_hash(later.data@, name_view(later.meta_data.file_name)) == later.meta_data.pristine_hash(),
{
}

/// Typing a character without a selection and then deleting one character
/// backward gives back the text and the cursor position from before: the
/// text `insert` leaves is the one `delete` starts from, and what `delete`
/// leaves is the text and position `insert` started from.
pub proof fn lemma_backspace_undoes_typing(s: Seq<char>, st: Seq<Index>, pos: int, ch: char)
    requires
        0 <= pos <= s.len(),
    ensures
        ({
            let (typed, q) = erase_selection_result(s, pos, None);
            &&& typed == s
            &&& q == pos
            &&& delete_result(
                typed.insert(q, ch),
                st,
                q + 1,
                None,
                Movement::Backward(TextKind::Char, 1),
            ) == (s, pos)
        }),
{
    let t = s.insert(pos, ch);
    assert(erase_span(t, pos, pos + 1) =~= s);
}

impl ContiguousBuffer {
    /// Erases one character at the index of the cursor position; the line
    /// table is left for the caller to rebuild. A cursor at the end, or any
    /// cursor on an empty buffer, erases nothing; a cursor beyond the end of a
    /// text that is not empty would index past it, and is left out.
    pub fn remove(&mut self)
        requires
            old(self).pos() <= old(self).data@.len() || old(self).data@.len() == 0,
        ensures
            final(self).data@ == if old(self).pos() < old(self).data@.len() {
                old(self).data@.remove(old(self).pos())
            } else {
                old(self).data@
            },
            final(self).edit_cursor == old(self).edit_cursor,
            final(self).meta_cursor == old(self).meta_cursor,
            final(self).meta_data == old(self).meta_data,
            final(self).size == old(self).size,
            final(self).id == old(self).id,
    {
        let idx = self.edit_cursor.pos.0;
        if idx != self.data.len() && self.data.len() != 0 {
            self.data.remove(idx);
        }
    }

    /// Removes `count` characters at the cursor, which stays.
    fn remove_n(&mut self, count: usize)
        requires
            old(self).pos() + count <= old(self).data@.len(),
        ensures
            final(self).data@ == erase_span(old(self).data@, old(self).pos(), old(self).pos() + count),
            final(self).edit_cursor == old(self).edit_cursor,
            final(self).meta_cursor == old(self).meta_cursor,
            final(self).meta_data == old(self).meta_data,
            final(self).size == old(self).size,
            final(self).id == old(self).id,
    {
        let ghost s = self.data@;
        let ghost q = self.pos();
        let mut i: usize = 0;
        while i < count
            invariant
                i <= count,
                q == old(self).pos(),
                s == old(self).data@,
                q + count <= s.len(),
                self.data@ == erase_span(s, q, q + i),
                self.edit_cursor == old(self).edit_cursor,
                self.meta_cursor == old(self).meta_cursor,
                self.meta_data == old(self).meta_data,
                self.size == old(self).size,
                self.id == old(self).id,
            decreases count - i,
        {
            self.remove();
            proof {
                assert(erase_span(s, q, q + i).remove(q) =~= erase_span(s, q, q + i + 1));
            }
            i = i + 1;
        }
        proof {
            if count == 0 {
                assert(erase_span(s, q, q) =~= s);
            }
        }
    }

    /// The deletion in direction `dir`, with no selection left; the line table
    /// is left for the caller to rebuild.
    fn delete_in_direction(&mut self, dir: Movement)
        requires
            old(self).wf(),
            match dir {
                Movement::Forward(k, _) => k == TextKind::Char || k == TextKind::Word,
                Movement::Backward(k, _) => old(self).pos() != 0 ==> (k == TextKind::Char || k
                    == TextKind::Word),
                _ => true,
            },
        ensures
            final(self).data@ == delete_dir_result(old(self).data@, old(self).pos(), dir).0,
            final(self).edit_cursor == cursor_at(
                final(self).data@,
                delete_dir_result(old(self).data@, old(self).pos(), dir).1,
            ),
            0 <= delete_dir_result(old(self).data@, old(self).pos(), dir).1 <= final(self).data@.len(),
            final(self).data@.len() <= old(self).data@.len(),
            final(self).meta_data.file_name == old(self).meta_data.file_name,
            final(self).meta_data.pristine_hash() == old(self).meta_data.pristine_hash(),
            final(self).id == old(self).id,
            final(self).meta_cursor == if (dir matches Movement::Backward(TextKind::Word, _))
                && old(self).pos() != 0 {
                None::<MetaCursor>
            } else {
                old(self).meta_cursor
            },
    {
        let ghost s = self.data@;
        let ghost p = self.pos();
        let n = self.data.len();
        let pos = self.edit_cursor.pos.0;
        match dir {
            Movement::Forward(TextKind::Char, count) => {
                let count = if count <= n - pos {
                    count
                } else {
                    n - pos
                };
                self.remove_n(count);
                proof {
                    lemma_cursor_kept(s, self.data@, p);
                }
            },
            Movement::Forward(TextKind::Word, _) => {
                match self.get(self.edit_cursor.pos) {
                    Some(c) => {
                        let c = *c;
                        if is_whitespace(c) {
                            let found = self.find_next(CharPredicate::NotWhitespace);
                            proof {
                                lemma_first_match_from(s, p + 1, CharPredicate::NotWhitespace);
                            }
                            match found {
                                Some(cur) => vec_drain(&mut self.data, pos, cur.pos.0),
                                None => {},
                            }
                        } else if is_alphanumeric(c) {
                            let found = self.find_next(CharPredicate::NotAlphanumeric);
                            proof {
                                lemma_first_match_from(s, p + 1, CharPredicate::NotAlphanumeric);
                            }
                            match found {
                                Some(cur) => vec_drain(&mut self.data, pos, cur.pos.0),
                                None => {},
                            }
                        } else {
                            self.data.remove(pos);
                            proof {
                                assert(s.remove(p) =~= erase_span(s, p, p + 1));
                            }
                        }
                    },
                    None => {},
                }
                proof {
                    lemma_cursor_kept(s, self.data@, p);
                }
            },
            Movement::Backward(TextKind::Char, count) => {
                if pos != 0 {
                    let count = if pos >= count {
                        count
                    } else {
                        pos
                    };
                    self.cursor_move_backward(TextKind::Char, count);
                    let ghost q = self.pos();
                    self.remove_n(count);
                    proof {
                        lemma_cursor_kept(s, self.data@, q);
                    }
                }
            },
            Movement::Backward(TextKind::Word, _) => {
                if pos != 0 {
                    self.move_cursor(Movement::Begin(TextKind::Word));
                    let ghost q = self.pos();
                    proof {
                        lemma_word_begin_before(s, p);
                    }
                    let len = pos - self.edit_cursor.pos.0;
                    self.remove_n(len);
                    proof {
                        lemma_cursor_kept(s, self.data@, q);
                    }
                }
            },
            _ => {},
        }
        proof {
            if self.data@ == s {
                lemma_cursor_kept(s, self.data@, p);
            }
        }
    }

    /// Deletes a TextKind at given Movement direction. Deleting a character
    /// forward takes Movement::Forward(TextKind::Char, 1); a selection, when
    /// there is one, is deleted first.
    pub fn delete(&mut self, dir: Movement)
        requires
            old(self).wf(),
            delete_supported(
                old(self).data@,
                old(self).starts(),
                old(self).pos(),
                old(self).meta_cursor,
                dir,
            ),
        ensures
            final(self).wf(),
            ({
                let (t, q) = delete_result(
                    old(self).data@,
                    old(self).starts(),
                    old(self).pos(),
                    old(self).meta_cursor,
                    dir,
                );
                &&& final(self).data@ == t
                &&& final(self).edit_cursor == cursor_at(t, q)
            }),
            final(self).meta_cursor == match old(self).meta_cursor {
                Some(MetaCursor::LineRange { column, begin, end }) => if old(self).data@.len() > 0
                    && begin.0 < old(self).starts().len() && end.0 + 1 < old(
                    self,
                ).starts().len() {
                    None::<MetaCursor>
                } else if old(self).data@.len() > 0 && (dir matches Movement::Backward(
                    TextKind::Word,
                    _,
                )) && old(self).pos() != 0 {
                    None::<MetaCursor>
                } else {
                    old(self).meta_cursor
                },
                Some(MetaCursor::Absolute(_)) => if old(self).data@.len() > 0 {
                    None::<MetaCursor>
                } else {
                    old(self).meta_cursor
                },
                None => None::<MetaCursor>,
            },
            final(self).id == old(self).id,
            final(self).meta_data.file_name == old(self).meta_data.file_name,
            final(self).meta_data.pristine_hash() == old(self).meta_data.pristine_hash(),
            old(self).data@.len() > 0 ==> final(self).meta_data.checksum() == text_hash(
                final(self).data@,
                name_view(final(self).meta_data.file_name),
            ),
    {
        let ghost s = self.data@;
        let ghost st = self.starts();
        proof {
            self.lemma_wf_table();
        }
        if self.empty() {
            return ;
        }
        match self.meta_cursor {
            Some(MetaCursor::Absolute(marker)) => {
                let p = self.edit_cursor.pos.0;
                let last = self.data.len() - 1;
                let (erase_from, erase_to) = if marker.0 < p {
                    (marker.0, if p <= last { p } else { last })
                } else {
                    (p, if marker.0 <= last { marker.0 } else { last })
                };
                vec_drain(&mut self.data, erase_from, erase_to + 1);
                self.meta_cursor = None;
                self.size = self.data.len();
                self.rebuild_metadata();
                self.edit_cursor = BufferCursor { pos: Index(0), row: Line(0), col: Column(0) };
                self.cursor_goto(Index(erase_from));
                return ;
            },
            Some(MetaCursor::LineRange { column, begin, end }) => {
                let b = self.meta_data.get(begin);
                let e = self.meta_data.get(Line(end.0 + 1));
                match (b, e) {
                    (Some(b), Some(e)) => {
                        vec_drain(&mut self.data, b.0, e.0);
                        self.meta_cursor = None;
                        self.size = self.data.len();
                        self.rebuild_metadata();
                        self.edit_cursor = BufferCursor { pos: Index(0), row: Line(0), col: Column(0) };
                        self.cursor_goto(b);
                    },
                    _ => {},
                }
            },
            None => {},
        }
        let ghost meta_before = self.meta_cursor;
        self.delete_in_direction(dir);
        self.size = self.data.len();
        self.rebuild_metadata();
        proof {
            let (t, q) = delete_result(s, st, old(self).pos(), old(self).meta_cursor, dir);
            assert(self.data@ == t);
            lemma_cursor_valid(self.data@, q);
        }
    }
}

/// A cursor at `p` keeps its line and column when the text before `p` stays.
proof fn lemma_cursor_kept(s: Seq<char>, t: Seq<char>, p: int)
    requires
        0 <= p <= s.len(),
        p <= t.len(),
        forall|j: int| 0 <= j < p ==> s[j] == t[j],
    ensures
        cursor_at(s, p) == cursor_at(t, p),
{
    lemma_newlines_prefix(s, t, p, p);
}

/// A cursor built for a position within the text has that position.
proof fn lemma_cursor_valid(s: Seq<char>, p: int)
    requires
        0 <= p <= s.len(),
        s.len() <= usize::MAX,
    ensures
        cursor_at(s, p).pos.0 == p,
{
}

proof fn lemma_word_begin_before(s: Seq<char>, p: int)
    requires
        0 <= p <= s.len(),
    ensures
        0 <= word_begin_target(s, p) <= p,
{
}


/// What `copy_range_or_line` gives: the selection with both ends when it lies
/// inside the text, or the whole line of the cursor when there is no selection.
pub open spec fn copy_result(s: Seq<char>, st: Seq<Index>, pos: int, meta: Option<MetaCursor>) -> Option<Seq<char>> {
    match meta {
        Some(MetaCursor::Absolute(m)) => {
            if pos >= s.len() || m.0 >= s.len() {
                None
            } else if (m.0 as int) < pos {
                Some(s.subrange(m.0 as int, pos + 1))
            } else {
                Some(s.subrange(pos, m.0 + 1))
            }
        },
        Some(MetaCursor::LineRange { .. }) => None,
        None => {
            let r = newlines_before(s, pos) as int;
            let end = if r + 1 < st.len() {
                st[r + 1].0 as int
            } else {
                s.len() as int
            };
            Some(s.subrange(st[r].0 as int, end))
        },
    }
}

impl ContiguousBuffer {
    /// Inserts the characters of `slice` at the cursor, replacing the selection when there is one.
    pub fn insert_slice(&mut self, slice: &[char])
        requires
            old(self).wf(),
            old(self).data@.len() + 2 * slice@.len() <= max_chars(),
            selection_replaceable(old(self).data@, old(self).pos(), old(self).meta_cursor),
        ensures
            final(self).wf(),
            final(self).meta_cursor is None,
            ({
                let (t, q) = erase_selection_result(
                    old(self).data@,
                    old(self).pos(),
                    old(self).meta_cursor,
                );
                &&& final(self).data@ == t.subrange(0, q) + slice@ + t.subrange(q, t.len() as int)
                &&& final(self).edit_cursor == cursor_at(final(self).data@, q + slice@.len())
            }),
            final(self).id == old(self).id,
            final(self).meta_data.file_name == old(self).meta_data.file_name,
            final(self).meta_data.pristine_hash() == old(self).meta_data.pristine_hash(),
    {
        self.erase_selection();
        let ghost t = self.data@;
        let ghost q = self.pos();
        if slice.len() > 128 {
            let abs = self.edit_cursor.pos.0;
            vec_splice_in(&mut self.data, abs, slice);
            self.size = self.data.len();
            self.rebuild_metadata();
            self.meta_data.set_buffer_size(self.size);
            self.edit_cursor = BufferCursor { pos: Index(0), row: Line(0), col: Column(0) };
            let c = self.cursor_from_metadata(Index(abs + slice.len()));
            match c {
                Some(c) => self.edit_cursor = c,
                None => {},
            }
        } else {
            let mut i: usize = 0;
            while i < slice.len()
                invariant
                    self.wf(),
                    self.meta_cursor is None,
                    i <= slice@.len(),
                    t.len() + 2 * slice@.len() <= max_chars(),
                    0 <= q <= t.len(),
                    self.data@ == t.subrange(0, q) + slice@.subrange(0, i as int) + t.subrange(q, t.len() as int),
                    self.edit_cursor == cursor_at(self.data@, q + i),
                    self.id == old(self).id,
                    self.meta_data.file_name == old(self).meta_data.file_name,
                    self.meta_data.pristine_hash() == old(self).meta_data.pristine_hash(),
                decreases slice@.len() - i,
            {
                let ghost before = self.data@;
                self.insert(slice[i]);
                proof {
                    assert(before.insert(q + i, slice@[i as int]) =~= t.subrange(0, q) + slice@.subrange(
                        0,
                        i + 1,
                    ) + t.subrange(q, t.len() as int));
                }
                i = i + 1;
            }
            proof {
                assert(slice@.subrange(0, slice@.len() as int) =~= slice@);
            }
        }
    }

    /// Same as `insert_slice`.
    pub fn insert_slice_fast(&mut self, slice: &[char])
        requires
            old(self).wf(),
            old(self).data@.len() + 2 * slice@.len() <= max_chars(),
            selection_replaceable(old(self).data@, old(self).pos(), old(self).meta_cursor),
        ensures
            final(self).wf(),
            final(self).meta_cursor is None,
            ({
                let (t, q) = erase_selection_result(
                    old(self).data@,
                    old(self).pos(),
                    old(self).meta_cursor,
                );
                &&& final(self).data@ == t.subrange(0, q) + slice@ + t.subrange(q, t.len() as int)
                &&& final(self).edit_cursor == cursor_at(final(self).data@, q + slice@.len())
            }),
            final(self).id == old(self).id,
            final(self).meta_data.file_name == old(self).meta_data.file_name,
            final(self).meta_data.pristine_hash() == old(self).meta_data.pristine_hash(),
    {
        self.insert_slice(slice);
        self.meta_data.set_buffer_size(self.size);
    }

    /// Copies the selected text (if any text is selected) otherwise copies the contents of the line
    pub fn copy_range_or_line(&self) -> (r: Option<String>)
        requires
            self.wf(),
            !(self.meta_cursor matches Some(MetaCursor::LineRange { .. })),
        ensures
            match r {
                Some(t) => copy_result(self.data@, self.starts(), self.pos(), self.meta_cursor)
                    == Some(t@),
                None => copy_result(self.data@, self.starts(), self.pos(), self.meta_cursor)
                    is None,
            },
    {
        proof {
            self.lemma_wf_table();
            lemma_line_of(self.data@, self.data@.len() as int, self.starts(), self.pos());
            lemma_newlines_bound(self.data@, self.pos());
        }
        match self.meta_cursor {
            Some(MetaCursor::Absolute(meta_cursor)) => {
                let p = self.edit_cursor.pos.0;
                if p >= self.data.len() || meta_cursor.0 >= self.data.len() {
                    None
                } else if meta_cursor.0 < p {
                    Some(string_from_chars(self.get_slice(meta_cursor.0..p + 1)))
                } else {
                    Some(string_from_chars(self.get_slice(p..meta_cursor.0 + 1)))
                }
            },
            Some(MetaCursor::LineRange { .. }) => None,
            None => {
                let row = self.edit_cursor.row;
                let begin = self.meta_data.get_line_start_index(row);
                let end = match self.meta_data.get_line_start_index(Line(row.0 + 1)) {
                    Some(e) => e,
                    None => Index(self.data.len()),
                };
                match begin {
                    Some(b) => Some(string_from_chars(self.get_slice(b.0..end.0))),
                    None => None,
                }
            },
        }
    }

    /// Returns the (possibly) selected range. This always makes sure to return begin .. end, since the meta cursor can be both behind and in front
    /// of the edit_cursor
    pub fn get_selection(&self) -> (r: Option<(Index, Index)>)
        requires
            self.meta_cursor matches Some(MetaCursor::LineRange { end, .. }) ==> end.0 < isize::MAX,
        ensures
            r == match self.meta_cursor {
                Some(MetaCursor::Absolute(m)) => if (m.0 as int) < self.pos() {
                    Some((m, self.edit_cursor.pos))
                } else {
                    Some((self.edit_cursor.pos, m))
                },
                Some(MetaCursor::LineRange { column, begin, end }) => if begin.0 < self.starts().len()
                    && end.0 + 1 < self.starts().len() {
                    Some(
                        (
                            self.starts()[begin.0 as int],
                            Index(spec_offset(self.starts()[end.0 + 1].0 as int, -1) as usize),
                        ),
                    )
                } else {
                    None::<(Index, Index)>
                },
                None => None::<(Index, Index)>,
            },
    {
        match self.meta_cursor {
            Some(MetaCursor::Absolute(meta_cursor)) => {
                if meta_cursor.0 < self.edit_cursor.pos.0 {
                    Some((meta_cursor, self.edit_cursor.pos))
                } else {
                    Some((self.edit_cursor.pos, meta_cursor))
                }
            },
            Some(MetaCursor::LineRange { column, begin, end }) => {
                let b = self.meta_data.get(begin);
                let e = self.meta_data.get(Line(end.0 + 1));
                match (b, e) {
                    (Some(b), Some(e)) => {
                        if e.0 == 0 {
                            Some((b, Index(0)))
                        } else {
                            Some((b, Index(e.0 - 1)))
                        }
                    },
                    _ => None,
                }
            },
            None => None,
        }
    }

    /// Moves the cursor and keeps (or starts, at the old cursor) an absolute selection.
    pub fn select_move_cursor_absolute(&mut self, movement: Movement)
        requires
            old(self).wf(),
            movement_supported(movement),
            movement_in_range(old(self).data@, old(self).pos(), movement),
            !(old(self).meta_cursor matches Some(MetaCursor::LineRange { .. })),
        ensures
            final(self).wf(),
            final(self).data == old(self).data,
            final(self).meta_data == old(self).meta_data,
            final(self).id == old(self).id,
            final(self).edit_cursor == cursor_at(
                old(self).data@,
                movement_target(old(self).data@, old(self).starts(), old(self).pos(), movement),
            ),
            final(self).meta_cursor == Some(
                MetaCursor::Absolute(
                    match old(self).meta_cursor {
                        Some(MetaCursor::Absolute(i)) => i,
                        _ => old(self).edit_cursor.pos,
                    },
                ),
            ),
    {
        match self.meta_cursor {
            Some(MetaCursor::Absolute(i)) => {
                self.move_cursor(movement);
                self.set_absolute_meta_cursor(i);
            },
            _ => {
                let mc_idx = self.edit_cursor.pos;
                self.move_cursor(movement);
                self.set_absolute_meta_cursor(mc_idx);
            },
        }
    }

    /// Empties the buffer.
    pub fn clear(&mut self)
        requires
            old(self).wf(),
        ensures
            final(self).wf(),
            final(self).data@ == Seq::<char>::empty(),
            final(self).edit_cursor == cursor_at(final(self).data@, 0),
            final(self).meta_cursor == old(self).meta_cursor,
            final(self).id == old(self).id,
            final(self).meta_data.file_name == old(self).meta_data.file_name,
    {
        self.data.clear();
        self.edit_cursor = BufferCursor { pos: Index(0), row: Line(0), col: Column(0) };
        self.meta_data.clear_line_index_metadata();
        self.size = 0;
        self.meta_data.set_buffer_size(0);
    }

    /// Goes to the start of a line in buffer if it exists
    /// * `line` - Line to go to
    pub fn goto_line(&mut self, line: usize)
        requires
            old(self).wf(),
        ensures
            final(self).wf(),
            final(self).cursor_moved(
                old(self),
                if line < old(self).starts().len() {
                    old(self).starts()[line as int].0 as int
                } else {
                    old(self).pos()
                },
            ),
    {
        proof {
            self.lemma_wf_table();
        }
        let target = match self.meta_data.get_line_start_index(Line(line)) {
            Some(i) => i,
            None => self.edit_cursor.pos,
        };
        self.cursor_goto(target);
    }

    /// Copies the characters in `range`.
    pub fn copy(&self, range: std::ops::Range<usize>) -> (r: String)
        requires
            range.start <= range.end <= self.data@.len(),
        ensures
            r@ == self.data@.subrange(range.start as int, range.end as int),
    {
        string_from_chars(self.get_slice(range))
    }

    /// The characters of the lines `first ..= last`, one slice per line.
    pub fn get_lines_as_slices(&self, first: Line, last: Line) -> (r: Vec<&[char]>)
        requires
            self.wf(),
            first.0 < last.0,
            last.0 < self.starts().len(),
        ensures
            r@.len() == last.0 - first.0 + 1,
            forall|i: int|
                0 <= i < r@.len() ==> (#[trigger] r@[i])@ == self.data@.subrange(
                    self.starts()[first.0 + i].0 as int,
                    if first.0 + i + 1 < self.starts().len() {
                        self.starts()[first.0 + i + 1].0 as int
                    } else {
                        self.data@.len() as int
                    },
                ),
    {
        proof {
            self.lemma_wf_table();
        }
        let mut res: Vec<&[char]> = Vec::new();
        let mut l = first.0;
        while l <= last.0
            invariant
                self.wf(),
                first.0 <= l <= last.0 + 1,
                last.0 < self.starts().len(),
                strictly_increasing(self.starts()),
                forall|k: int| 0 <= k < self.starts().len() ==> #[trigger] self.starts()[k].0 <= self.data@.len(),
                res@.len() == l - first.0,
                forall|i: int|
                    0 <= i < res@.len() ==> (#[trigger] res@[i])@ == self.data@.subrange(
                        self.starts()[first.0 + i].0 as int,
                        if first.0 + i + 1 < self.starts().len() {
                            self.starts()[first.0 + i + 1].0 as int
                        } else {
                            self.data@.len() as int
                        },
                    ),
            decreases last.0 + 1 - l,
        {
            let line_begin = self.meta_data.line_begin_indices[l].0;
            let line_end = if l < self.meta_data.line_begin_indices.len() - 1 {
                self.meta_data.line_begin_indices[l + 1].0
            } else {
                self.data.len()
            };
            res.push(self.get_slice(line_begin..line_end));
            l = l + 1;
        }
        res
    }

    /// Removes the character at `index`, and puts the cursor there.
    pub fn delete_at(&mut self, index: Index)
        requires
            old(self).wf(),
            index.0 < old(self).data@.len(),
        ensures
            final(self).wf(),
            final(self).data@ == old(self).data@.remove(index.0 as int),
            final(self).edit_cursor == cursor_at(final(self).data@, index.0 as int),
            final(self).meta_cursor == old(self).meta_cursor,
            final(self).id == old(self).id,
            final(self).meta_data.file_name == old(self).meta_data.file_name,
            final(self).meta_data.pristine_hash() == old(self).meta_data.pristine_hash(),
    {
        self.data.remove(index.0);
        self.size = self.data.len();
        self.rebuild_metadata();
        self.edit_cursor = BufferCursor { pos: Index(0), row: Line(0), col: Column(0) };
        self.cursor_goto(index);
    }

    /// Removes the characters `begin .. end`, and puts the cursor at `begin`.
    pub fn delete_range(&mut self, begin: Index, end: Index)
        requires
            old(self).wf(),
            begin.0 <= end.0 <= old(self).data@.len(),
        ensures
            final(self).wf(),
            final(self).data@ == erase_span(old(self).data@, begin.0 as int, end.0 as int),
            final(self).edit_cursor == cursor_at(final(self).data@, begin.0 as int),
            final(self).meta_cursor == old(self).meta_cursor,
            final(self).id == old(self).id,
            final(self).meta_data.file_name == old(self).meta_data.file_name,
            final(self).meta_data.pristine_hash() == old(self).meta_data.pristine_hash(),
    {
        vec_drain(&mut self.data, begin.0, end.0);
        self.size = self.data.len();
        self.rebuild_metadata();
        self.edit_cursor = BufferCursor { pos: Index(0), row: Line(0), col: Column(0) };
        self.cursor_goto(begin);
    }

    /// Where the cursor is, and where movement `dir` would take it; the buffer is left as it is.
    pub fn get_buffer_movement_result(&self, dir: Movement) -> (r: Option<(Index, Index)>)
        requires
            self.wf(),
            movement_supported(dir),
            movement_in_range(self.data@, self.pos(), dir),
        ensures
            r == Some(
                (
                    self.edit_cursor.pos,
                    Index(movement_target(self.data@, self.starts(), self.pos(), dir) as usize),
                ),
            ),
    {
        let mut probe = ContiguousBuffer {
            id: self.id,
            data: self.data.clone(),
            edit_cursor: self.edit_cursor,
            meta_cursor: None,
            size: self.size,
            meta_data: MetaData {
                file_name: None,
                line_begin_indices: self.meta_data.line_begin_indices.clone(),
                buffer_size: self.meta_data.buffer_size,
                buf_hash: 0,
                hash_on_open: 0,
            },
        };
        proof {
            assert(probe.data@ =~= self.data@);
            assert(probe.starts() =~= self.starts());
        }
        probe.move_cursor(dir);
        Some((self.edit_cursor.pos, probe.edit_cursor.pos))
    }

    /// The characters of the buffer.
    pub fn iter(&self) -> (r: &[char])
        ensures
            r@ == self.data@,
    {
        self.data.as_slice()
    }

    /// The characters of the buffer, for changing in place.
    pub fn iter_mut(&mut self) -> (r: &mut [char])
        ensures
            r@ == old(self).data@,
    {
        self.data.as_mut_slice()
    }

    /// The characters of the buffer after the first `skip`.
    pub fn iter_skip(&self, skip: usize) -> (r: &[char])
        ensures
            r@ == if skip <= self.data@.len() {
                self.data@.subrange(skip as int, self.data@.len() as int)
            } else {
                Seq::<char>::empty()
            },
    {
        let n = self.data.len();
        let start = if skip <= n {
            skip
        } else {
            n
        };
        let sl = self.data.as_slice();
        &sl[start..n]
    }
}


/// Where the search for `v` from position `idx` stops: at a position where the
/// whole of `v` starts; after a partial match it resumes `v.len()` further on;
/// it gives up when a first character matches too close to the end.
pub open spec fn search_from(s: Seq<char>, v: Seq<char>, idx: int) -> Option<int>
    decreases s.len() - idx,
{
    if v.len() == 0 || idx < 0 || idx >= s.len() {
        None
    } else if s[idx] == v[0] {
        if idx + v.len() <= s.len() {
            if s.subrange(idx, idx + v.len()) == v {
                Some(idx)
            } else {
                search_from(s, v, idx + v.len())
            }
        } else {
            None
        }
    } else {
        search_from(s, v, idx + 1)
    }
}

impl ContiguousBuffer {
    /// Moves the cursor to the next place after it where `find` occurs, as
    /// `search_from` finds it; when there is none the cursor stays.
    pub fn search_next(&mut self, find: &str)
        requires
            old(self).wf(),
            find@.len() > 0,
        ensures
            final(self).wf(),
            final(self).cursor_moved(
                old(self),
                match search_from(old(self).data@, find@, old(self).pos() + 1) {
                    Some(k) => k,
                    None => old(self).pos(),
                },
            ),
    {
        let v = chars_of(find);
        let ghost s = self.data@;
        let ghost p = self.pos();
        let n = self.data.len();
        let m = v.len();
        let mut idx = self.edit_cursor.pos.0 + 1;
        while idx < n
            invariant
                self.wf(),
                self.data@ == s,
                s == old(self).data@,
                p == old(self).pos(),
                n == s.len(),
                m == v@.len(),
                v@ == find@,
                m > 0,
                n <= max_chars(),
                p + 1 <= idx <= n + m,
                self.cursor_moved(old(self), p),
                search_from(s, v@, p + 1) == search_from(s, v@, idx as int),
            decreases n + m - idx,
        {
            if self.data[idx] == v[0] {
                if m <= n - idx {
                    let mut equal = true;
                    let mut j: usize = 0;
                    while j < m
                        invariant
                            idx + m <= n,
                            n == self.data@.len(),
                            m == v@.len(),
                            j <= m,
                            equal == (forall|k: int| 0 <= k < j ==> s[idx + k] == v@[k]),
                            self.data@ == s,
                        decreases m - j,
                    {
                        equal = equal && self.data[idx + j] == v[j];
                        j = j + 1;
                    }
                    proof {
                        if equal {
                            assert(s.subrange(idx as int, idx + m) =~= v@);
                        } else {
                            if s.subrange(idx as int, idx + m) == v@ {
                                assert forall|k: int| 0 <= k < m implies s[idx + k] == v@[k] by {
                                    assert(s.subrange(idx as int, idx + m)[k] == s[idx + k]);
                                }
                            }
                        }
                    }
                    if equal {
                        self.cursor_goto(Index(idx));
                        return ;
                    } else {
                        idx = idx + m;
                    }
                } else {
                    return ;
                }
            } else {
                idx = idx + 1;
            }
        }
    }

    /// Puts the characters of `contents` in front of the buffer's text, names
    /// the buffer after `path`, puts the cursor at the end, and records the
    /// checksum of the result as both the current and the saved one.
    pub fn load_contents(&mut self, contents: &str, path: String)
        requires
            old(self).wf(),
            old(self).data@.len() + contents@.len() <= max_chars(),
        ensures
            final(self).wf(),
            final(self).data@ == contents@ + old(self).data@,
            final(self).edit_cursor == cursor_at(final(self).data@, final(self).data@.len() as int),
            final(self).meta_data.file_name == Some(path),
            final(self).meta_data.checksum() == text_hash(final(self).data@, Some(path@)),
            final(self).meta_data.pristine_hash() == text_hash(final(self).data@, Some(path@)),
            final(self).meta_cursor == old(self).meta_cursor,
            final(self).id == old(self).id,
    {
        let chars = chars_of(contents);
        vec_splice_in(&mut self.data, 0, chars.as_slice());
        proof {
            assert(old(self).data@.subrange(0, 0) + chars@ + old(self).data@.subrange(
                0,
                old(self).data@.len() as int,
            ) =~= contents@ + old(self).data@);
        }
        self.size = self.data.len();
        self.rebuild_metadata();
        self.edit_cursor = BufferCursor { pos: Index(0), row: Line(0), col: Column(0) };
        let end = self.cursor_from_metadata(Index(self.data.len()));
        match end {
            Some(c) => self.edit_cursor = c,
            None => {},
        }
        self.meta_data.set_buffer_size(self.size);
        self.meta_data.file_name = Some(path);
        let cs = self.calculate_hash();
        self.meta_data.set_checksum(cs);
        self.meta_data.set_pristine_hash(cs);
    }

    /// Whether the text differs from the last saved state, so that saving has work to do.
    pub fn needs_saving(&self) -> (r: bool)
        ensures
            r == (text_hash(self.data@, name_view(self.meta_data.file_name))
                != self.meta_data.pristine_hash()),
    {
        let checksum = self.calculate_hash();
        checksum != self.meta_data.get_pristine_hash()
    }

    /// The text of the buffer as a string.
    pub fn contents(&self) -> (r: String)
        ensures
            r@ == self.data@,
    {
        string_from_chars(self.data.as_slice())
    }

    /// Records that the text was written to `path`: the buffer is named after
    /// `path`, and the checksum of its text under that name becomes both the
    /// current and the saved one, so that the buffer is pristine.
    pub fn mark_saved(&mut self, path: String)
        ensures
            final(self).meta_data.checksum() == text_hash(old(self).data@, Some(path@)),
            final(self).meta_data.pristine_hash() == text_hash(old(self).data@, Some(path@)),
            final(self).meta_data.file_name == Some(path),
            final(self).data == old(self).data,
            final(self).edit_cursor == old(self).edit_cursor,
            final(self).meta_cursor == old(self).meta_cursor,
            final(self).meta_data.starts() == old(self).meta_data.starts(),
            final(self).meta_data.buffer_size == old(self).meta_data.buffer_size,
            final(self).size == old(self).size,
            final(self).id == old(self).id,
    {
        self.meta_data.file_name = Some(path);
        let checksum = self.calculate_hash();
        self.meta_data.set_checksum(checksum);
        self.meta_data.set_pristine_hash(checksum);
    }
}


/// How many characters from `from` (up to `to`, and at most `cap`) are ASCII
/// whitespace other than a newline.
pub open spec fn blank_prefix(s: Seq<char>, from: int, to: int, cap: int) -> int
    decreases to - from,
{
    if 0 <= from < to && cap > 0 && spec_is_ascii_whitespace(s[from]) && s[from] != '\n' {
        1 + blank_prefix(s, from + 1, to, cap - 1)
    } else {
        0
    }
}

/// Text, and how far later positions moved, after shifting the first `k`
/// lines from line `a` left by up to `shift_by` leading blanks each.
pub open spec fn shift_left_state(s0: Seq<char>, st: Seq<Index>, a: int, shift_by: int, k: int) -> (Seq<char>, int)
    decreases k,
{
    if k <= 0 {
        (s0, 0)
    } else {
        let (cur, t) = shift_left_state(s0, st, a, shift_by, k - 1);
        let line = a + k - 1;
        let lb = st[line].0 + t;
        let end = if line + 1 < st.len() {
            lb + if shift_by <= st[line + 1].0 - st[line].0 {
                shift_by
            } else {
                st[line + 1].0 - st[line].0
            }
        } else {
            cur.len() as int
        };
        let c = blank_prefix(cur, lb, end, shift_by);
        (erase_span(cur, lb, lb + c), t - c)
    }
}

/// `n` spaces.
pub open spec fn spaces(n: int) -> Seq<char> {
    Seq::new(n as nat, |i: int| ' ')
}

/// Text, and how far later positions moved, after putting `shift_by` spaces in
/// front of the first `k` lines from line `a`.
pub open spec fn shift_right_state(s0: Seq<char>, st: Seq<Index>, a: int, shift_by: int, k: int) -> (Seq<char>, int)
    decreases k,
{
    if k <= 0 {
        (s0, 0)
    } else {
        let (cur, t) = shift_right_state(s0, st, a, shift_by, k - 1);
        let lb = st[a + k - 1].0 + t;
        (cur.subrange(0, lb) + spaces(shift_by) + cur.subrange(lb, cur.len() as int), t + shift_by)
    }
}

/// Number of lines a line operation on `start .. end` works on: the range
/// when it lies in the table, and none when it reaches past the last line.
pub open spec fn line_op_count(st: Seq<Index>, start: int, end: int, op: LineOperation) -> int {
    if start <= end <= st.len() {
        end - start
    } else {
        0
    }
}

/// Text, and how far later positions moved, after a line operation.
pub open spec fn line_op_result(s: Seq<char>, st: Seq<Index>, start: int, end: int, op: LineOperation) -> (Seq<char>, int) {
    match op {
        LineOperation::ShiftLeft { shift_by } => shift_left_state(
            s,
            st,
            start,
            shift_by as int,
            line_op_count(st, start, end, op),
        ),
        LineOperation::ShiftRight { shift_by } => shift_right_state(
            s,
            st,
            start,
            shift_by as int,
            line_op_count(st, start, end, op),
        ),
        LineOperation::PasteAt { .. } => (s, 0),
    }
}

impl ContiguousBuffer {
    /// Number of leading blanks (ASCII whitespace other than newline) from `lb`,
    /// before `end` and at most `cap` of them.
    fn count_blank_prefix(&self, lb: usize, end: usize, cap: usize) -> (c: usize)
        requires
            lb <= end <= self.data@.len(),
        ensures
            c == blank_prefix(self.data@, lb as int, end as int, cap as int),
            lb + c <= end,
            c <= cap,
    {
        let mut c: usize = 0;
        while c < cap && lb + c < end && is_ascii_whitespace(self.data[lb + c]) && self.data[lb + c] != '\n'
            invariant
                lb <= end <= self.data@.len(),
                c <= cap,
                lb + c <= end,
                blank_prefix(self.data@, lb as int, end as int, cap as int) == c + blank_prefix(
                    self.data@,
                    lb + c,
                    end as int,
                    cap - c,
                ),
            decreases cap - c,
        {
            c = c + 1;
        }
        c
    }

    /// Shifts the lines `lines` left or right. A range that reaches past the
    /// last line is not operated on, and leaves the text as it was. A selection mark after the
    /// cursor moves with the text; a cursor after the mark moves with the text,
    /// otherwise it keeps its position within the new length.
    #[verifier::spinoff_prover]
    #[verifier::rlimit(40)]
    pub fn line_operation(&mut self, lines: std::ops::Range<usize>, op: LineOperation)
        requires
            old(self).wf(),
            !(op matches LineOperation::PasteAt { .. }),
            !(old(self).meta_cursor matches Some(MetaCursor::LineRange { .. })),
            old(self).meta_cursor matches Some(MetaCursor::Absolute(i)) ==> i.0 <= max_chars(),
            op matches LineOperation::ShiftRight { shift_by } ==> old(self).data@.len() + shift_by
                * line_op_count(old(self).starts(), lines.start as int, lines.end as int, op)
                <= max_chars(),
        ensures
            final(self).wf(),
            ({
                let (t, shift) = line_op_result(
                    old(self).data@,
                    old(self).starts(),
                    lines.start as int,
                    lines.end as int,
                    op,
                );
                &&& final(self).data@ == t
                &&& match old(self).meta_cursor {
                    Some(MetaCursor::Absolute(i)) => if (i.0 as int) < old(self).pos() {
                        &&& final(self).edit_cursor == cursor_at(t, spec_offset(old(self).pos(), shift))
                        &&& final(self).meta_cursor == old(self).meta_cursor
                    } else {
                        &&& final(self).edit_cursor == cursor_at(
                            t,
                            if old(self).pos() <= t.len() { old(self).pos() } else { t.len() as int },
                        )
                        &&& final(self).meta_cursor == Some(
                            MetaCursor::Absolute(Index(spec_offset(i.0 as int, shift) as usize)),
                        )
                    },
                    _ => {
                        &&& final(self).edit_cursor == cursor_at(
                            t,
                            if old(self).pos() <= t.len() { old(self).pos() } else { t.len() as int },
                        )
                        &&& final(self).meta_cursor == old(self).meta_cursor
                    },
                }
            }),
            final(self).id == old(self).id,
            final(self).meta_data.file_name == old(self).meta_data.file_name,
            final(self).meta_data.pristine_hash() == old(self).meta_data.pristine_hash(),
    {
        let ghost s0 = self.data@;
        let ghost st = self.starts();
        proof {
            self.lemma_wf_table();
        }
        let a = lines.start;
        let e = lines.end;
        let mut shift_tracking: isize = 0;
        match op {
            LineOperation::ShiftLeft { shift_by } => {
                let selected = self.meta_data.get_lines(lines);
                match selected {
                    Some(sel) => {
                        let m = sel.len();
                        let nl = self.meta_data.line_begin_indices.len();
                        let mut k: usize = 0;
                        while k < m
                            invariant
                                s0 == old(self).data@,
                                st == old(self).starts(),
                                st == self.starts(),
                                nl == st.len(),
                                sel@ == st.subrange(a as int, a + m),
                                a + m <= st.len(),
                                m == line_op_count(st, a as int, e as int, op),
                                k <= m,
                                strictly_increasing(st),
                                forall|j: int| 0 <= j < st.len() ==> #[trigger] st[j].0 <= s0.len(),
                                s0.len() <= max_chars(),
                                (self.data@, shift_tracking as int) == shift_left_state(
                                    s0,
                                    st,
                                    a as int,
                                    shift_by as int,
                                    k as int,
                                ),
                                shift_tracking <= 0,
                                self.data@.len() == s0.len() + shift_tracking,
                                a + k < st.len() ==> -shift_tracking <= st[a + k].0 - st[a as int].0,
                                a + k < st.len() ==> self.data@.subrange(
                                    st[a + k].0 + shift_tracking,
                                    self.data@.len() as int,
                                ) == s0.subrange(st[a + k].0 as int, s0.len() as int),
                                self.id == old(self).id,
                                self.meta_cursor == old(self).meta_cursor,
                                self.edit_cursor == old(self).edit_cursor,
                                self.meta_data == old(self).meta_data,
                            decreases m - k,
                        {
                            let ghost cur = self.data@;
                            let ghost t = shift_tracking as int;
                            let line = a + k;
                            let lb_orig = sel[k].0;
                            proof {
                                assert(sel@[k as int] == st[line as int]);
                                assert(st[a as int].0 <= st[line as int].0);
                            }
                            let lb = (lb_orig as isize + shift_tracking) as usize;
                            let window_end = if line < nl - 1 {
                                let next = self.meta_data.line_begin_indices[line + 1].0;
                                proof {
                                    assert(st[line as int].0 < st[line + 1].0);
                                }
                                let line_len = next - lb_orig;
                                lb + if shift_by <= line_len {
                                    shift_by
                                } else {
                                    line_len
                                }
                            } else {
                                self.data.len()
                            };
                            let c = self.count_blank_prefix(lb, window_end, shift_by);
                            if c > 0 {
                                vec_drain(&mut self.data, lb, lb + c);
                                shift_tracking = shift_tracking - c as isize;
                            } else {
                                proof {
                                    assert(erase_span(cur, lb as int, lb as int) =~= cur);
                                }
                            }
                            proof {
                                let new = self.data@;
                                if line + 1 < st.len() {
                                    let next = st[line + 1].0 as int;
                                    assert(cur.subrange(next + t, cur.len() as int) =~= cur.subrange(
                                        lb as int,
                                        cur.len() as int,
                                    ).subrange(next - st[line as int].0, cur.len() - lb));
                                    assert(s0.subrange(next, s0.len() as int) =~= s0.subrange(
                                        st[line as int].0 as int,
                                        s0.len() as int,
                                    ).subrange(next - st[line as int].0, s0.len() - st[line as int].0));
                                    assert(new.subrange(next + t - c, new.len() as int) =~= cur.subrange(
                                        next + t,
                                        cur.len() as int,
                                    ));
                                }
                            }
                            k = k + 1;
                        }
                    },
                    None => {},
                }
            },
            LineOperation::ShiftRight { shift_by } => {
                match self.meta_data.get_lines(lines) {
                    Some(sel) => {
                        let m = sel.len();
                        let ghost total = m * shift_by;
                        proof {
                            assert(m * shift_by == shift_by * m) by (nonlinear_arith);
                        }
                        let mut pad: Vec<char> = Vec::new();
                        if m > 0 {
                            proof {
                                assert(shift_by <= shift_by * m) by (nonlinear_arith)
                                    requires
                                        m >= 1,
                                ;
                            }
                            let mut i: usize = 0;
                            while i < shift_by
                                invariant
                                    i <= shift_by,
                                    pad@ == spaces(i as int),
                                decreases shift_by - i,
                            {
                                pad.push(' ');
                                proof {
                                    assert(pad@ =~= spaces(i + 1));
                                }
                                i = i + 1;
                            }
                        }
                        let mut k: usize = 0;
                        while k < m
                            invariant
                                s0 == old(self).data@,
                                st == old(self).starts(),
                                sel@ == st.subrange(a as int, a + m),
                                a + m <= st.len(),
                                m == line_op_count(st, a as int, e as int, op),
                                k <= m,
                                m > 0 ==> pad@ == spaces(shift_by as int),
                                total == m * shift_by,
                                s0.len() + total <= max_chars(),
                                shift_tracking <= total,
                                forall|j: int| 0 <= j < st.len() ==> #[trigger] st[j].0 <= s0.len(),
                                (self.data@, shift_tracking as int) == shift_right_state(
                                    s0,
                                    st,
                                    a as int,
                                    shift_by as int,
                                    k as int,
                                ),
                                shift_tracking == k * shift_by,
                                self.data@.len() == s0.len() + shift_tracking,
                                self.id == old(self).id,
                                self.meta_cursor == old(self).meta_cursor,
                                self.edit_cursor == old(self).edit_cursor,
                                self.meta_data == old(self).meta_data,
                            decreases m - k,
                        {
                            proof {
                                assert(sel@[k as int] == st[a + k]);
                                assert(k * shift_by + shift_by <= m * shift_by) by (nonlinear_arith)
                                    requires
                                        k < m,
                                ;
                                assert(sel@[k as int].0 <= s0.len());
                                let t = shift_tracking as int;
                                let lbs = st[a + k].0 + t;
                                let cur = self.data@;
                            }
                            let lb = sel[k].0 + shift_tracking as usize;
                            vec_splice_in(&mut self.data, lb, pad.as_slice());
                            shift_tracking = shift_tracking + shift_by as isize;
                            k = k + 1;
                            proof {
                                assert((k as int) * shift_by == (k - 1) * shift_by + shift_by) by (nonlinear_arith);
                            }
                        }
                    },
                    None => {},
                }
            },
            LineOperation::PasteAt { .. } => {},
        }
        proof {
            assert(self.data@.len() == s0.len() + shift_tracking);
        }
        self.size = self.data.len();
        self.rebuild_metadata();
        let p = self.edit_cursor.pos.0;
        let n = self.data.len();
        let kept = if p <= n {
            p
        } else {
            n
        };
        self.edit_cursor = BufferCursor { pos: Index(0), row: Line(0), col: Column(0) };
        match self.meta_cursor {
            Some(MetaCursor::Absolute(i)) => {
                if i.0 < p {
                    self.cursor_goto(Index(p).offset(shift_tracking));
                } else {
                    self.meta_cursor = Some(MetaCursor::Absolute(i.offset(shift_tracking)));
                    self.cursor_goto(Index(kept));
                }
            },
            _ => {
                self.cursor_goto(Index(kept));
            },
        }
    }
}

} // verus!
