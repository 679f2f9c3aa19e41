use vstd::prelude::*;

verus! {

/// One shader attribute inside an interleaved vertex record.
#[derive(Debug, Clone, PartialEq, Eq)]
pub struct VertexDesc {
    /// Name of the attribute in the shader program.
    pub attribute: String,
    /// Number of components of the attribute.
    pub size: i32,
    /// Distance in bytes between two consecutive vertex records.
    pub stride: i32,
    /// Byte offset of the attribute inside a vertex record.
    pub offset: usize,
}

/// The vertex data of an object: plain vertex records, or vertex records
/// together with 32-bit indices into them.
#[derive(Debug, Clone, PartialEq, Eq)]
pub enum VertexBuffer<T> {
    Array(Vec<T>),
    Indexed(Vec<T>, Vec<u32>),
}

/// A vertex layout together with the data it describes.
#[derive(Debug, Clone, PartialEq, Eq)]
pub struct Vertices<T> {
    pub desc: Vec<VertexDesc>,
    pub buffer: VertexBuffer<T>,
}

impl<T> VertexBuffer<T> {
    /// The number of indices of an indexed source; `None` for plain records.
    pub open spec fn index_len(&self) -> Option<nat> {
        match self {
            VertexBuffer::Array(_) => None,
            VertexBuffer::Indexed(_, indices) => Some(indices.len() as nat),
        }
    }

    /// Every index count fits the graphics API's signed count type.
    pub open spec fn fits(&self) -> bool {
        match self.index_len() {
            None => true,
            Some(m) => m <= i32::MAX,
        }
    }

    /// Whether the source carries indices.
    pub fn is_indexed(&self) -> (r: bool)
        ensures
            r == (self is Indexed),
    {
        match self {
            VertexBuffer::Array(_) => false,
            VertexBuffer::Indexed(_, _) => true,
        }
    }

    /// The number of vertex records.
    pub fn vertex_count(&self) -> (r: usize)
        ensures
            r == match self {
                VertexBuffer::Array(v) => v.len(),
                VertexBuffer::Indexed(v, _) => v.len(),
            },
    {
        match self {
            VertexBuffer::Array(v) => v.len(),
            VertexBuffer::Indexed(v, _) => v.len(),
        }
    }
}

} // verus!
