//! Buffer metadata: the index types used throughout the buffers, and the
//! table of line start indices.
use vstd::prelude::*;

use super::contiguous::{name_view, text_hash, ContiguousBuffer};
use super::model::strictly_increasing;

verus! {

/// The value `v` moved by `offset`, clamped at 0 when it would go negative.
pub open spec fn spec_offset(v: int, offset: int) -> int {
    if v + offset < 0 {
        0
    } else {
        v + offset
    }
}

fn offset_value(value: usize, offset: isize) -> (r: usize)
    requires
        value <= isize::MAX,
        value + offset <= isize::MAX,
    ensures
        r == spec_offset(value as int, offset as int),
{
    let value = value as isize;
    let result = value + offset;
    if result < 0 {
        0
    } else {
        result as usize
    }
}

/// Wrapper around usize to display that this is an index type
#[derive(Default, Debug, Clone, Copy, PartialEq, Eq, Structural, PartialOrd, Ord, Hash)]
pub struct Index(pub usize);

/// A wrapper around the usize type, meant to represent line numbers
#[derive(Default, Debug, Clone, Copy, PartialEq, Eq, Structural, PartialOrd, Ord, Hash)]
pub struct Line(pub usize);

/// Wrapper around usize to signal that this value holds a column position
#[derive(Default, Debug, Clone, Copy, PartialEq, Eq, Structural, PartialOrd, Ord, Hash)]
pub struct Column(pub usize);

/// Wrapper around a usize to signal that this value holds the length of a range in buffer
#[derive(Default, Debug, Clone, Copy, PartialEq, Eq, Structural, PartialOrd, Ord, Hash)]
pub struct Length(pub usize);

impl Index {
    /// Adds `offset` to the index; a result below zero becomes `Index(0)`.
    pub fn offset(&self, offset: isize) -> (r: Self)
        requires
            self.0 <= isize::MAX,
            self.0 + offset <= isize::MAX,
        ensures
            r.0 == spec_offset(self.0 as int, offset as int),
    {
        Index(offset_value(self.0, offset))
    }

    /// Same as `offset`: computes the moved value, leaving `self` as it is.
    pub fn offset_mut(&mut self, offset: isize) -> (r: Self)
        requires
            old(self).0 <= isize::MAX,
            old(self).0 + offset <= isize::MAX,
        ensures
            r.0 == spec_offset(old(self).0 as int, offset as int),
            *final(self) == *old(self),
    {
        Index(offset_value(self.0, offset))
    }
}

impl Line {
    /// Adds `offset` to the line number; a result below zero becomes `Line(0)`.
    pub fn offset(&self, offset: isize) -> (r: Self)
        requires
            self.0 <= isize::MAX,
            self.0 + offset <= isize::MAX,
        ensures
            r.0 == spec_offset(self.0 as int, offset as int),
    {
        Line(offset_value(self.0, offset))
    }
}

impl Column {
    /// Adds `offset` to the column; a result below zero becomes `Column(0)`.
    pub fn offset(&self, offset: isize) -> (r: Self)
        requires
            self.0 <= isize::MAX,
            self.0 + offset <= isize::MAX,
        ensures
            r.0 == spec_offset(self.0 as int, offset as int),
    {
        Column(offset_value(self.0, offset))
    }
}

impl Length {
    /// Adds `offset` to the length; a result below zero becomes `Length(0)`.
    pub fn offset(&self, offset: isize) -> (r: Self)
        requires
            self.0 <= isize::MAX,
            self.0 + offset <= isize::MAX,
        ensures
            r.0 == spec_offset(self.0 as int, offset as int),
    {
        Length(offset_value(self.0, offset))
    }

    pub fn as_column(self) -> (r: Column)
        ensures
            r.0 == self.0,
    {
        Column(self.0)
    }
}

/// The methods of `MetaData` that change it.
#[derive(Debug, Clone, Copy, PartialEq, Eq, Structural)]
pub enum LineTableEdit {
    InsertLineBegin,
    PushNewLineBegin,
    ClearLineIndexMetadata,
    UpdateLineMetadataAfterLine,
    UpdateLineMetadataFromLine,
    SetBufferSize,
    SetChecksum,
    SetPristineHash,
}

/// How many line starts the table holds after `e`, when it held `n` before.
pub open spec fn lines_after_edit(e: LineTableEdit, n: int) -> int {
    match e {
        LineTableEdit::InsertLineBegin => n + 1,
        LineTableEdit::PushNewLineBegin => n + 1,
        LineTableEdit::ClearLineIndexMetadata => 1,
        _ => n,
    }
}

/// How many line starts the table holds after the edits, in order, when it
/// held `n` before.
pub open spec fn lines_after_edits(edits: Seq<LineTableEdit>, n: int) -> int
    decreases edits.len(),
{
    if edits.len() == 0 {
        n
    } else {
        lines_after_edits(edits.drop_first(), lines_after_edit(edits[0], n))
    }
}

/// A line table keeps at least one line start under every sequence of
/// `MetaData`'s mutating methods: `MetaData::new` starts it with one, no
/// method shortens it, and `clear_line_index_metadata` leaves exactly one.
pub proof fn lemma_line_table_never_empty(edits: Seq<LineTableEdit>, n: int)
    requires
        n >= 1,
    ensures
        lines_after_edits(edits, n) >= 1,
    decreases edits.len(),
{
    if edits.len() > 0 {
        lemma_line_table_never_empty(edits.drop_first(), lines_after_edit(edits[0], n));
    }
}

/// The line table of a buffer: where each line begins, and how long the buffer is.
pub struct MetaData {
    pub file_name: Option<String>,
    pub line_begin_indices: Vec<Index>,
    pub buffer_size: usize,
    /// real simple approach to checking file changes
    pub buf_hash: u64,
    pub hash_on_open: u64,
}

/// A table of line starts that is usable on a buffer of `size` characters:
/// it begins at 0, increases strictly and stays within the buffer.
pub open spec fn table_ok(st: Seq<Index>, size: int) -> bool {
    &&& st.len() >= 1
    &&& st[0].0 == 0
    &&& strictly_increasing(st)
    &&& st.last().0 <= size
}

/// Length of line `line` in a table `st` over a buffer of `size` characters.
pub open spec fn spec_line_len(st: Seq<Index>, size: int, line: int) -> int {
    if line + 1 < st.len() {
        st[line + 1].0 - st[line].0
    } else {
        size - st[line].0
    }
}

impl MetaData {
    pub open spec fn starts(&self) -> Seq<Index> {
        self.line_begin_indices@
    }

    pub open spec fn well_formed(&self) -> bool {
        table_ok(self.starts(), self.buffer_size as int)
    }

    pub open spec fn checksum(&self) -> u64 {
        self.buf_hash
    }

    pub open spec fn pristine_hash(&self) -> u64 {
        self.hash_on_open
    }

    pub fn new(file_name: Option<String>) -> (r: MetaData)
        ensures
            r.file_name == file_name,
            r.starts() == seq![Index(0)],
            r.buffer_size == 0,
            r.checksum() == 0,
            r.pristine_hash() == 0,
            r.well_formed(),
    {
        let mut v: Vec<Index> = Vec::new();
        v.push(Index(0));
        MetaData { file_name, line_begin_indices: v, buffer_size: 0, buf_hash: 0, hash_on_open: 0 }
    }

    /// The number of lines: at least 1 for every table that `new` made and
    /// `MetaData`'s own methods changed (see `lemma_line_table_never_empty`).
    pub fn line_count(&self) -> (r: usize)
        ensures
            r == self.starts().len(),
    {
        self.line_begin_indices.len()
    }

    pub fn line_length(&self, line: Line) -> (r: Option<Length>)
        requires
            self.well_formed(),
        ensures
            r == if line.0 < self.starts().len() {
                Some(Length(spec_line_len(self.starts(), self.buffer_size as int, line.0 as int) as usize))
            } else {
                None::<Length>
            },
    {
        if line.0 < self.line_begin_indices.len() {
            let a = self.line_begin_indices[line.0].0;
            if line.0 + 1 < self.line_begin_indices.len() {
                let b = self.line_begin_indices[line.0 + 1].0;
                Some(Length(b - a))
            } else {
                Some(Length(self.buffer_size - a))
            }
        } else {
            None
        }
    }

    /// Length of line `line_index`, when a line follows it.
    pub fn get_line_length_of(&self, line_index: Line) -> (r: Option<Length>)
        requires
            self.well_formed(),
            line_index.0 <= self.starts().len(),
        ensures
            r == if line_index.0 + 1 < self.starts().len() {
                Some(Length((self.starts()[line_index.0 + 1].0 - self.starts()[line_index.0 as int].0) as usize))
            } else {
                None::<Length>
            },
    {
        if line_index.0 < self.line_begin_indices.len() - 1 {
            let a = self.line_begin_indices[line_index.0].0;
            let b = self.line_begin_indices[line_index.0 + 1].0;
            Some(Length(b - a))
        } else {
            None
        }
    }

    /// Get absolute buffer index of beginning of line line_number
    pub fn get_line_start_index(&self, line_number: Line) -> (r: Option<Index>)
        ensures
            r == if line_number.0 < self.starts().len() {
                Some(self.starts()[line_number.0 as int])
            } else {
                None::<Index>
            },
    {
        self.get(line_number)
    }

    /// The start of the last line; there is always one line in any buffer.
    pub fn get_last_line(&self) -> (r: Index)
        requires
            self.starts().len() >= 1,
        ensures
            r == self.starts().last(),
    {
        self.line_begin_indices[self.line_begin_indices.len() - 1]
    }

    /// Returns the buffer indices of the beginning of line a and b. If *either* line does not exist in buffer, function will return None
    /// for both.
    pub fn get_byte_indices_of_lines(&self, line_a: Line, line_b: Line) -> (r: (Option<Index>, Option<Index>))
        ensures
            r == (if line_a.0 < self.starts().len() && line_b.0 < self.starts().len() {
                (Some(self.starts()[line_a.0 as int]), Some(self.starts()[line_b.0 as int]))
            } else {
                (None::<Index>, None::<Index>)
            }),
    {
        let a = self.get_line_start_index(line_a);
        let b = self.get_line_start_index(line_b);
        match (a, b) {
            (Some(x), Some(y)) => (Some(x), Some(y)),
            _ => (None, None),
        }
    }

    /// Finds what line in buffer, the absolute cursor position buffer_index points into
    /// * `buffer_index` - the buffer index, we want to find the line that it lives on for
    pub fn get_line_number_of_buffer_index(&self, buffer_index: Index) -> (r: Option<usize>)
        requires
            self.well_formed(),
        ensures
            r is None <==> buffer_index.0 > self.buffer_size,
            r matches Some(k) ==> {
                &&& k < self.starts().len()
                &&& self.starts()[k as int].0 <= buffer_index.0
                &&& k + 1 < self.starts().len() ==> buffer_index.0 < self.starts()[k + 1].0
            },
    {
        let n = self.line_begin_indices.len();
        let mut k: usize = 0;
        while k + 1 < n
            invariant
                n == self.starts().len(),
                n >= 1,
                k < n,
                self.well_formed(),
                forall|j: int|
                    0 <= j < k ==> !(#[trigger] self.starts()[j].0 <= buffer_index.0 && buffer_index.0
                        < self.starts()[j + 1].0),
            decreases n - k,
        {
            let a = self.line_begin_indices[k].0;
            let b = self.line_begin_indices[k + 1].0;
            if a <= buffer_index.0 && buffer_index.0 < b {
                return Some(k);
            }
            k = k + 1;
        }
        proof {
            lemma_past_all_windows(self.starts(), buffer_index.0 as int, (n - 1) as int);
        }
        if buffer_index.0 <= self.buffer_size {
            Some(n - 1)
        } else {
            None
        }
    }

    pub fn get(&self, line: Line) -> (r: Option<Index>)
        ensures
            r == if line.0 < self.starts().len() {
                Some(self.starts()[line.0 as int])
            } else {
                None::<Index>
            },
    {
        if line.0 < self.line_begin_indices.len() {
            Some(self.line_begin_indices[line.0])
        } else {
            None
        }
    }

    /// Start index and length of line `line_number`.
    pub fn get_line_info(&self, line_number: Line) -> (r: Option<(Index, Length)>)
        requires
            self.well_formed(),
        ensures
            r == if line_number.0 < self.starts().len() {
                Some(
                    (
                        self.starts()[line_number.0 as int],
                        Length(
                            spec_line_len(
                                self.starts(),
                                self.buffer_size as int,
                                line_number.0 as int,
                            ) as usize,
                        ),
                    ),
                )
            } else {
                None::<(Index, Length)>
            },
    {
        if line_number.0 < self.line_begin_indices.len() {
            let index = self.line_begin_indices[line_number.0].0;
            if line_number.0 + 1 < self.line_begin_indices.len() {
                let i = self.line_begin_indices[line_number.0 + 1];
                Some((Index(index), Length(i.0 - index)))
            } else {
                Some((Index(index), Length(self.buffer_size - index)))
            }
        } else {
            None
        }
    }

    /// The start indices of the lines `start .. end`, when all of them exist.
    pub fn get_lines(&self, lines: std::ops::Range<usize>) -> (r: Option<&[Index]>)
        ensures
            r is Some <==> lines.start <= lines.end <= self.starts().len(),
            r matches Some(sl) ==> sl@ == self.starts().subrange(
                lines.start as int,
                lines.end as int,
            ),
    {
        if lines.start <= lines.end && lines.end <= self.line_begin_indices.len() {
            let sl = self.line_begin_indices.as_slice();
            Some(slice_range(sl, lines.start, lines.end))
        } else {
            None
        }
    }

    /// The start indices of the lines from `start` to the last one, when line `start` exists or is one past the last.
    pub fn get_lines_from(&self, start: usize) -> (r: Option<&[Index]>)
        ensures
            r is Some <==> start <= self.starts().len(),
            r matches Some(sl) ==> sl@ == self.starts().subrange(
                start as int,
                self.starts().len() as int,
            ),
    {
        self.get_lines(start..self.line_begin_indices.len())
    }

    /// Insert line begin buffer index, of new line created at line_number
    pub fn insert_line_begin(&mut self, buffer_index: Index, line_number: Line)
        requires
            line_number.0 <= old(self).starts().len(),
        ensures
            final(self).starts().len() == lines_after_edit(LineTableEdit::InsertLineBegin, old(self).starts().len() as int),
            final(self).starts() == old(self).starts().insert(line_number.0 as int, buffer_index),
            final(self).buffer_size == old(self).buffer_size,
            final(self).file_name == old(self).file_name,
            final(self).checksum() == old(self).checksum(),
            final(self).pristine_hash() == old(self).pristine_hash(),
    {
        self.line_begin_indices.insert(line_number.0, buffer_index);
    }

    /// Add line begin buffer index of last line in buffer
    pub fn push_new_line_begin(&mut self, buffer_index: Index)
        ensures
            final(self).starts().len() == lines_after_edit(LineTableEdit::PushNewLineBegin, old(self).starts().len() as int),
            final(self).starts() == old(self).starts().push(buffer_index),
            final(self).buffer_size == old(self).buffer_size,
            final(self).file_name == old(self).file_name,
            final(self).checksum() == old(self).checksum(),
            final(self).pristine_hash() == old(self).pristine_hash(),
    {
        self.line_begin_indices.push(buffer_index);
    }

    /// Clears the line index metadata
    pub fn clear_line_index_metadata(&mut self)
        ensures
            final(self).starts().len() == lines_after_edit(LineTableEdit::ClearLineIndexMetadata, old(self).starts().len() as int),
            final(self).starts() == seq![Index(0)],
            final(self).buffer_size == old(self).buffer_size,
            final(self).file_name == old(self).file_name,
            final(self).checksum() == old(self).checksum(),
            final(self).pristine_hash() == old(self).pristine_hash(),
    {
        self.line_begin_indices.clear();
        self.line_begin_indices.push(Index(0));
    }

    /// Moves the start of every line after `line` by `shift_amount`.
    pub fn update_line_metadata_after_line(&mut self, line: Line, shift_amount: i64)
        requires
            line.0 < usize::MAX,
            isize::MIN <= shift_amount <= isize::MAX,
            forall|k: int|
                line.0 < k < old(self).starts().len() ==> #[trigger] old(self).starts()[k].0
                    <= isize::MAX && old(self).starts()[k].0 + shift_amount <= isize::MAX,
        ensures
            final(self).starts().len() == lines_after_edit(LineTableEdit::UpdateLineMetadataAfterLine, old(self).starts().len() as int),
            final(self).starts().len() == old(self).starts().len(),
            forall|k: int|
                0 <= k < old(self).starts().len() ==> #[trigger] final(self).starts()[k] == if k
                    > line.0 {
                    Index(spec_offset(old(self).starts()[k].0 as int, shift_amount as int) as usize)
                } else {
                    old(self).starts()[k]
                },
            final(self).buffer_size == old(self).buffer_size,
            final(self).file_name == old(self).file_name,
            final(self).checksum() == old(self).checksum(),
            final(self).pristine_hash() == old(self).pristine_hash(),
    {
        let n = self.line_begin_indices.len();
        let mut k = line.0 + 1;
        let shift = shift_amount as isize;
        while k < n
            invariant
                n == old(self).starts().len(),
                self.starts().len() == n,
                line.0 + 1 <= k,
                shift == shift_amount,
                forall|j: int|
                    line.0 < j < n ==> #[trigger] old(self).starts()[j].0 <= isize::MAX && old(
                        self,
                    ).starts()[j].0 + shift_amount <= isize::MAX,
                forall|j: int|
                    0 <= j < n ==> #[trigger] self.starts()[j] == if line.0 < j < k {
                        Index(
                            spec_offset(old(self).starts()[j].0 as int, shift_amount as int) as usize,
                        )
                    } else {
                        old(self).starts()[j]
                    },
                self.buffer_size == old(self).buffer_size,
                self.file_name == old(self).file_name,
                self.buf_hash == old(self).buf_hash,
                self.hash_on_open == old(self).hash_on_open,
            decreases n - k,
        {
            let moved = self.line_begin_indices[k].offset(shift);
            self.line_begin_indices.set(k, moved);
            k = k + 1;
        }
    }

    /// Moves the start of line `line` and every line after it by `shift_amount`.
    pub fn update_line_metadata_from_line(&mut self, line: Line, shift_amount: usize)
        requires
            shift_amount <= isize::MAX,
            forall|k: int|
                line.0 <= k < old(self).starts().len() ==> #[trigger] old(self).starts()[k].0
                    + shift_amount <= isize::MAX,
        ensures
            final(self).starts().len() == lines_after_edit(LineTableEdit::UpdateLineMetadataFromLine, old(self).starts().len() as int),
            final(self).starts().len() == old(self).starts().len(),
            forall|k: int|
                0 <= k < old(self).starts().len() ==> #[trigger] final(self).starts()[k] == if k
                    >= line.0 {
                    Index((old(self).starts()[k].0 + shift_amount) as usize)
                } else {
                    old(self).starts()[k]
                },
            final(self).buffer_size == old(self).buffer_size,
            final(self).file_name == old(self).file_name,
            final(self).checksum() == old(self).checksum(),
            final(self).pristine_hash() == old(self).pristine_hash(),
    {
        let n = self.line_begin_indices.len();
        let mut k = line.0;
        while k < n
            invariant
                n == old(self).starts().len(),
                self.starts().len() == n,
                line.0 <= k,
                shift_amount <= isize::MAX,
                forall|j: int|
                    line.0 <= j < n ==> #[trigger] old(self).starts()[j].0 + shift_amount
                        <= isize::MAX,
                forall|j: int|
                    0 <= j < n ==> #[trigger] self.starts()[j] == if line.0 <= j < k {
                        Index((old(self).starts()[j].0 + shift_amount) as usize)
                    } else {
                        old(self).starts()[j]
                    },
                self.buffer_size == old(self).buffer_size,
                self.file_name == old(self).file_name,
                self.buf_hash == old(self).buf_hash,
                self.hash_on_open == old(self).hash_on_open,
            decreases n - k,
        {
            let moved = self.line_begin_indices[k].offset(shift_amount as isize);
            self.line_begin_indices.set(k, moved);
            k = k + 1;
        }
    }

    pub fn set_buffer_size(&mut self, size: usize)
        ensures
            final(self).starts().len() == lines_after_edit(LineTableEdit::SetBufferSize, old(self).starts().len() as int),
            final(self).buffer_size == size,
            final(self).starts() == old(self).starts(),
            final(self).file_name == old(self).file_name,
            final(self).checksum() == old(self).checksum(),
            final(self).pristine_hash() == old(self).pristine_hash(),
    {
        self.buffer_size = size;
    }

    pub fn set_checksum(&mut self, sum: u64)
        ensures
            final(self).starts().len() == lines_after_edit(LineTableEdit::SetChecksum, old(self).starts().len() as int),
            final(self).checksum() == sum,
            final(self).buffer_size == old(self).buffer_size,
            final(self).starts() == old(self).starts(),
            final(self).file_name == old(self).file_name,
            final(self).pristine_hash() == old(self).pristine_hash(),
    {
        self.buf_hash = sum;
    }

    pub fn set_pristine_hash(&mut self, sum: u64)
        ensures
            final(self).starts().len() == lines_after_edit(LineTableEdit::SetPristineHash, old(self).starts().len() as int),
            final(self).pristine_hash() == sum,
            final(self).buffer_size == old(self).buffer_size,
            final(self).starts() == old(self).starts(),
            final(self).file_name == old(self).file_name,
            final(self).checksum() == old(self).checksum(),
    {
        self.hash_on_open = sum;
    }

    pub fn get_pristine_hash(&self) -> (r: u64)
        ensures
            r == self.pristine_hash(),
    {
        self.hash_on_open
    }

    pub fn get_current_checksum(&self) -> (r: u64)
        ensures
            r == self.checksum(),
    {
        self.buf_hash
    }
}

/// When `x` lies in none of the windows `[st[j], st[j+1])` for `j < m`, and
/// `st[0] <= x`, then every start up to `m` is at or before `x`.
proof fn lemma_past_all_windows(st: Seq<Index>, x: int, m: int)
    requires
        0 <= m < st.len(),
        st[0].0 <= x,
        forall|j: int| 0 <= j < m ==> !(#[trigger] st[j].0 <= x && x < st[j + 1].0),
    ensures
        forall|j: int| 0 <= j <= m ==> st[j].0 <= x,
    decreases m,
{
    if m > 0 {
        lemma_past_all_windows(st, x, m - 1);
        assert(!(st[m - 1].0 <= x && x < st[m].0));
    }
}

/// The sub-slice `s[start..end]`.
fn slice_range<T>(s: &[T], start: usize, end: usize) -> (r: &[T])
    requires
        start <= end <= s@.len(),
    ensures
        r@ == s@.subrange(start as int, end as int),
{
    &s[start..end]
}

/// The digest of a buffer's text, its path and its length, that tells
/// whether the buffer changed since it was last saved.
pub fn calculate_hash(buf: &ContiguousBuffer) -> (r: u64)
    ensures
        r == text_hash(buf.data@, name_view(buf.meta_data.file_name)),
{
    buf.calculate_hash()
}

} // verus!
