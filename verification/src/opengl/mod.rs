//! What the renderers ask of GPU buffers: how much to reserve for a number
//! of quads, and the ids of renderers and draw ranges.
use vstd::prelude::*;

verus! {

/// The bytes of one vertex of text: position, texture coordinates and colour,
/// eight 4-byte floats.
pub const TEXT_VERTEX_BYTES: usize = 32;

/// The bytes of one vertex of a rectangle: position and colour, six 4-byte floats.
pub const RECT_VERTEX_BYTES: usize = 24;

/// The bytes of one index.
pub const INDEX_BYTES: usize = 4;

pub enum Primitive {
    /// A number of quads of text vertices
    CharacterQuad(isize),
    /// A number of quads of rectangle vertices
    RegularQuad(isize),
}

#[derive(Debug, Clone, Copy, PartialEq, Eq, Structural)]
pub enum GPUDataType {
    TextVertex(usize),
    RectVertex(usize),
    Index(usize),
}

/// The number of vertices or indices a data type counts.
pub open spec fn gpu_count(d: GPUDataType) -> usize {
    match d {
        GPUDataType::TextVertex(c) => c,
        GPUDataType::RectVertex(c) => c,
        GPUDataType::Index(c) => c,
    }
}

/// The bytes a data type takes.
pub open spec fn gpu_bytes(d: GPUDataType) -> int {
    match d {
        GPUDataType::TextVertex(c) => TEXT_VERTEX_BYTES * c,
        GPUDataType::RectVertex(c) => RECT_VERTEX_BYTES * c,
        GPUDataType::Index(c) => c * INDEX_BYTES,
    }
}

impl Primitive {
    /// The vertices and indices to reserve for the quads: four vertices and
    /// six indices a quad.
    pub fn request_reserve(&self) -> (r: (GPUDataType, GPUDataType))
        requires
            match *self {
                Primitive::CharacterQuad(c) => 0 <= c && 6 * c <= usize::MAX,
                Primitive::RegularQuad(c) => 0 <= c && 6 * c <= usize::MAX,
            },
        ensures
            match *self {
                Primitive::CharacterQuad(c) => r == (
                    GPUDataType::TextVertex((4 * c) as usize),
                    GPUDataType::Index((6 * c) as usize),
                ),
                Primitive::RegularQuad(c) => r == (
                    GPUDataType::RectVertex((4 * c) as usize),
                    GPUDataType::Index((6 * c) as usize),
                ),
            },
    {
        match *self {
            Primitive::CharacterQuad(count) => (
                GPUDataType::TextVertex(4 * count as usize),
                GPUDataType::Index(6 * count as usize),
            ),
            Primitive::RegularQuad(count) => (
                GPUDataType::RectVertex(4 * count as usize),
                GPUDataType::Index(6 * count as usize),
            ),
        }
    }
}

impl GPUDataType {
    /// The bytes the data takes.
    pub fn bytes_len(&self) -> (r: isize)
        requires
            gpu_bytes(*self) <= isize::MAX,
        ensures
            r == gpu_bytes(*self),
    {
        match *self {
            GPUDataType::TextVertex(count) => (TEXT_VERTEX_BYTES * count) as isize,
            GPUDataType::RectVertex(count) => (RECT_VERTEX_BYTES * count) as isize,
            GPUDataType::Index(count) => (count * INDEX_BYTES) as isize,
        }
    }

    /// The number of vertices or indices.
    pub fn value(&self) -> (r: usize)
        ensures
            r == gpu_count(*self),
    {
        match *self {
            GPUDataType::TextVertex(c) => c,
            GPUDataType::RectVertex(c) => c,
            GPUDataType::Index(c) => c,
        }
    }
}

#[derive(PartialEq, Clone, Copy, Eq, Hash, PartialOrd, Ord, Debug)]
pub struct RendererId(pub u32);

/// A range of the index buffer: where it starts and how many indices it holds.
#[derive(Debug, Clone, Copy, PartialEq, Eq, Structural)]
pub struct BufferIndex {
    pub idx_buffer_idx: usize,
    pub idx_count: usize,
}

impl BufferIndex {
    pub fn new(buffer_index: usize, index_count: usize) -> (r: BufferIndex)
        ensures
            r.idx_buffer_idx == buffer_index,
            r.idx_count == index_count,
    {
        BufferIndex { idx_buffer_idx: buffer_index, idx_count: index_count }
    }
}

} // verus!
