use vstd::prelude::*;
use crate::gl_object::DrawingMode;

verus! {

/// The two buffer binding points that an object uses.
#[derive(Debug, Clone, Copy, PartialEq, Eq, Structural)]
pub enum BufferTarget {
    /// The vertex-data binding point (`ARRAY_BUFFER`).
    Vertices,
    /// The index-data binding point (`ELEMENT_ARRAY_BUFFER`).
    Indices,
}

/// One call into the graphics API.
#[derive(Debug, Clone, PartialEq, Eq)]
pub enum GlCall {
    /// Make a vertex array the active one.
    BindVertexArray(u32),
    /// Bind a buffer to a binding point.
    BindBuffer(BufferTarget, u32),
    /// Fill the buffer bound to the target with the data of the source at
    /// hand (vertex records or indices), with the static, upload-once hint.
    UploadBuffer(BufferTarget),
    /// Look up the attribute's location in the program, set its pointer
    /// (float components, not normalized) and enable it.
    AttribPointer { attribute: String, size: i32, stride: i32, offset: usize },
    /// Make the object's shader program current; failing that is fatal.
    UseProgram,
    /// Indexed draw of `count` unsigned 32-bit indices from the start of the
    /// bound index buffer.
    DrawElements { mode: DrawingMode, count: i32 },
    /// Non-indexed draw of `count` vertices starting at `first`.
    DrawArrays { mode: DrawingMode, first: i32, count: i32 },
    /// Release a buffer.
    DeleteBuffer(u32),
    /// Release a vertex array.
    DeleteVertexArray(u32),
}

impl GlCall {
    /// Whether the call draws.
    pub open spec fn is_draw(self) -> bool {
        self is DrawElements || self is DrawArrays
    }

    /// Whether the call releases a handle.
    pub open spec fn is_release(self) -> bool {
        self is DeleteBuffer || self is DeleteVertexArray
    }
}

/// How many times `c` occurs in `s`.
pub open spec fn occurrences(s: Seq<GlCall>, c: GlCall) -> nat
    decreases s.len(),
{
    if s.len() == 0 {
        0
    } else {
        occurrences(s.drop_last(), c) + if s.last() == c { 1nat } else { 0nat }
    }
}

/// The calls of `s` that draw, in order.
pub open spec fn draws(s: Seq<GlCall>) -> Seq<GlCall>
    decreases s.len(),
{
    if s.len() == 0 {
        s
    } else if s.last().is_draw() {
        draws(s.drop_last()).push(s.last())
    } else {
        draws(s.drop_last())
    }
}

/// The calls of `s` that release a handle, in order.
pub open spec fn releases(s: Seq<GlCall>) -> Seq<GlCall>
    decreases s.len(),
{
    if s.len() == 0 {
        s
    } else if s.last().is_release() {
        releases(s.drop_last()).push(s.last())
    } else {
        releases(s.drop_last())
    }
}

} // verus!
