use std::rc::Rc;
use vstd::prelude::*;
use crate::call::{draws, occurrences, releases, BufferTarget, GlCall};
use crate::vertex::{VertexBuffer, VertexDesc, Vertices};

verus! {

/// The primitive topology of a draw call.
#[derive(Debug, Clone, Copy, PartialEq, Eq, Structural)]
pub enum DrawingMode {
    Points,
    Lines,
    LineLoop,
    LineStrip,
    Triangles,
    TriangleStrip,
    TriangleFan,
    LinesAdjacency,
    LineStripAdjacency,
    TrianglesAdjacency,
    TrianglesStripAdjacency,
}

/// Handles that the graphics API generated for a new object. The index
/// buffer handle is read only for an indexed source.
#[derive(Debug, Clone, Copy, PartialEq, Eq, Structural)]
pub struct Handles {
    pub vertex_array: u32,
    pub vertex_buffer: u32,
    pub index_buffer: u32,
}

/// How many resources of each kind a new object needs.
#[derive(Debug, Clone, Copy, PartialEq, Eq, Structural)]
pub struct Allocation {
    pub vertex_arrays: usize,
    pub vertex_buffers: usize,
    pub index_buffers: usize,
}

/// What an object is, seen from outside: its three handles (zero for none),
/// the recorded index count and the topology.
#[derive(Debug, Clone, Copy, PartialEq, Eq, Structural)]
pub struct ObjectModel {
    pub vertex_array: u32,
    pub vertex_buffer: u32,
    pub index_buffer: u32,
    pub index_count: i32,
    pub mode: DrawingMode,
}

/// A drawable object. It owns its handles; the shader program is shared.
pub struct GlOject<P> {
    vao: u32,
    vbo: u32,
    ebo: u32,
    index_count: i32,
    drawing_mode: DrawingMode,
    program: Rc<P>,
}

impl<P> View for GlOject<P> {
    type V = ObjectModel;

    closed spec fn view(&self) -> ObjectModel {
        ObjectModel {
            vertex_array: self.vao,
            vertex_buffer: self.vbo,
            index_buffer: self.ebo,
            index_count: self.index_count,
            mode: self.drawing_mode,
        }
    }
}

/// The resources that a source of this shape needs.
pub open spec fn allocation_for(index_len: Option<nat>) -> Allocation {
    Allocation {
        vertex_arrays: 1,
        vertex_buffers: 1,
        index_buffers: if index_len is Some { 1 } else { 0 },
    }
}

/// A well-formed object never shares its index buffer with its vertex buffer,
/// so that no handle is released twice.
pub open spec fn wf(m: ObjectModel) -> bool {
    m.index_buffer == 0 || m.index_buffer != m.vertex_buffer
}

/// The handles that a new object can take: two distinct buffers where an
/// index buffer is used.
pub open spec fn usable_handles(h: Handles, index_len: Option<nat>) -> bool {
    index_len is Some ==> h.index_buffer != h.vertex_buffer
}

/// The state of a new object.
pub open spec fn initial_model(h: Handles, index_len: Option<nat>) -> ObjectModel {
    ObjectModel {
        vertex_array: h.vertex_array,
        vertex_buffer: h.vertex_buffer,
        index_buffer: if index_len is Some { h.index_buffer } else { 0 },
        index_count: match index_len {
            Some(m) => m as i32,
            None => 0,
        },
        mode: DrawingMode::Triangles,
    }
}

/// Bind the vertex array and fill its vertex buffer.
pub open spec fn vertex_setup(vao: u32, vbo: u32) -> Seq<GlCall> {
    seq![
        GlCall::BindVertexArray(vao),
        GlCall::BindBuffer(BufferTarget::Vertices, vbo),
        GlCall::UploadBuffer(BufferTarget::Vertices),
    ]
}

/// Bind and fill the index buffer.
pub open spec fn index_setup(ebo: u32) -> Seq<GlCall> {
    seq![GlCall::BindBuffer(BufferTarget::Indices, ebo), GlCall::UploadBuffer(BufferTarget::Indices)]
}

/// One attribute pointer per descriptor, in order.
pub open spec fn attrib_call(d: VertexDesc) -> GlCall {
    GlCall::AttribPointer { attribute: d.attribute, size: d.size, stride: d.stride, offset: d.offset }
}

pub open spec fn attrib_setup(descs: Seq<VertexDesc>) -> Seq<GlCall> {
    Seq::new(descs.len(), |i: int| attrib_call(descs[i]))
}

/// Every call that building an object issues.
pub open spec fn setup_calls(h: Handles, index_len: Option<nat>, descs: Seq<VertexDesc>) -> Seq<
    GlCall,
> {
    vertex_setup(h.vertex_array, h.vertex_buffer) + (if index_len is Some {
        index_setup(h.index_buffer)
    } else {
        Seq::empty()
    }) + attrib_setup(descs)
}

/// Binding does nothing while the vertex array handle is zero.
pub open spec fn bind_calls(m: ObjectModel) -> Seq<GlCall> {
    if m.vertex_array > 0 {
        seq![GlCall::BindVertexArray(m.vertex_array)]
    } else {
        Seq::empty()
    }
}

/// The draw call itself: indexed while indices are recorded, else a fixed
/// three vertices from the start.
pub open spec fn draw_call(m: ObjectModel) -> GlCall {
    if m.index_count > 0 {
        GlCall::DrawElements { mode: m.mode, count: m.index_count }
    } else {
        GlCall::DrawArrays { mode: m.mode, first: 0, count: 3 }
    }
}

pub open spec fn draw_calls(m: ObjectModel) -> Seq<GlCall> {
    bind_calls(m) + seq![GlCall::UseProgram, draw_call(m)]
}

/// The state after new data: an indexed source records its index count, a
/// plain one leaves the recorded count as it was.
pub open spec fn updated(m: ObjectModel, index_len: Option<nat>) -> ObjectModel {
    match index_len {
        Some(n) => ObjectModel { index_count: n as i32, ..m },
        None => m,
    }
}

/// Indices (if any) are filled before the vertex records, into the existing
/// buffers.
pub open spec fn update_calls(m: ObjectModel, index_len: Option<nat>) -> Seq<GlCall> {
    (if index_len is Some {
        index_setup(m.index_buffer)
    } else {
        Seq::empty()
    }) + seq![
        GlCall::BindBuffer(BufferTarget::Vertices, m.vertex_buffer),
        GlCall::UploadBuffer(BufferTarget::Vertices),
    ]
}

/// Buffers first, then the vertex array; each only if its handle is not zero.
pub open spec fn release_calls(m: ObjectModel) -> Seq<GlCall> {
    (if m.vertex_buffer > 0 {
        seq![GlCall::DeleteBuffer(m.vertex_buffer)]
    } else {
        Seq::empty()
    }) + (if m.index_buffer > 0 {
        seq![GlCall::DeleteBuffer(m.index_buffer)]
    } else {
        Seq::empty()
    }) + (if m.vertex_array > 0 {
        seq![GlCall::DeleteVertexArray(m.vertex_array)]
    } else {
        Seq::empty()
    })
}

/// After release the object holds no handle.
pub open spec fn released(m: ObjectModel) -> ObjectModel {
    ObjectModel { vertex_array: 0, vertex_buffer: 0, index_buffer: 0, ..m }
}

/// The resources to generate before building an object from `buffer`.
pub fn allocation<T>(buffer: &VertexBuffer<T>) -> (r: Allocation)
    ensures
        r == allocation_for(buffer.index_len()),
{
    Allocation {
        vertex_arrays: 1,
        vertex_buffers: 1,
        index_buffers: if buffer.is_indexed() { 1 } else { 0 },
    }
}

fn setup_vertex_objects(vao: u32, vbo: u32, calls: &mut Vec<GlCall>)
    ensures
        final(calls)@ == old(calls)@ + vertex_setup(vao, vbo),
{
    calls.push(GlCall::BindVertexArray(vao));
    calls.push(GlCall::BindBuffer(BufferTarget::Vertices, vbo));
    calls.push(GlCall::UploadBuffer(BufferTarget::Vertices));
    assert(calls@ =~= old(calls)@ + vertex_setup(vao, vbo));
}

fn setup_element_objects(ebo: u32, calls: &mut Vec<GlCall>)
    ensures
        final(calls)@ == old(calls)@ + index_setup(ebo),
{
    calls.push(GlCall::BindBuffer(BufferTarget::Indices, ebo));
    calls.push(GlCall::UploadBuffer(BufferTarget::Indices));
    assert(calls@ =~= old(calls)@ + index_setup(ebo));
}

fn setup_attrib_pointer(descs: &Vec<VertexDesc>, calls: &mut Vec<GlCall>)
    ensures
        final(calls)@ == old(calls)@ + attrib_setup(descs@),
{
    let ghost start = calls@;
    let mut i: usize = 0;
    while i < descs.len()
        invariant
            i <= descs@.len(),
            calls@ == start + attrib_setup(descs@.subrange(0, i as int)),
        decreases descs@.len() - i,
    {
        let d = &descs[i];
        calls.push(
            GlCall::AttribPointer {
                attribute: d.attribute.clone(),
                size: d.size,
                stride: d.stride,
                offset: d.offset,
            },
        );
        assert(attrib_setup(descs@.subrange(0, i + 1)) =~= attrib_setup(
            descs@.subrange(0, i as int),
        ).push(attrib_call(descs@[i as int])));
        i = i + 1;
    }
    assert(descs@.subrange(0, i as int) =~= descs@);
}

impl<P> GlOject<P> {
    /// Builds an object from `vertices` on the handles that were generated as
    /// [`allocation`] asks, and returns it with the calls that fill its
    /// buffers and set its attribute pointers. The topology starts as
    /// triangles.
    pub fn new<T>(vertices: &Vertices<T>, program: Rc<P>, handles: Handles) -> (r: (
        Self,
        Vec<GlCall>,
    ))
        requires
            vertices.buffer.fits(),
            usable_handles(handles, vertices.buffer.index_len()),
        ensures
            r.0@ == initial_model(handles, vertices.buffer.index_len()),
            wf(r.0@),
            r.0.shared_program() == program,
            r.1@ == setup_calls(handles, vertices.buffer.index_len(), vertices.desc@),
    {
        let mut calls: Vec<GlCall> = Vec::new();
        match &vertices.buffer {
            VertexBuffer::Array(_) => {
                setup_vertex_objects(handles.vertex_array, handles.vertex_buffer, &mut calls);
                setup_attrib_pointer(&vertices.desc, &mut calls);
                let obj = GlOject {
                    vao: handles.vertex_array,
                    vbo: handles.vertex_buffer,
                    ebo: 0,
                    index_count: 0,
                    drawing_mode: DrawingMode::Triangles,
                    program,
                };
                assert(calls@ =~= setup_calls(handles, vertices.buffer.index_len(), vertices.desc@));
                (obj, calls)
            },
            VertexBuffer::Indexed(_, indices) => {
                let index_count = indices.len() as i32;
                setup_vertex_objects(handles.vertex_array, handles.vertex_buffer, &mut calls);
                setup_element_objects(handles.index_buffer, &mut calls);
                setup_attrib_pointer(&vertices.desc, &mut calls);
                let obj = GlOject {
                    vao: handles.vertex_array,
                    vbo: handles.vertex_buffer,
                    ebo: handles.index_buffer,
                    index_count,
                    drawing_mode: DrawingMode::Triangles,
                    program,
                };
                assert(calls@ =~= setup_calls(handles, vertices.buffer.index_len(), vertices.desc@));
                (obj, calls)
            },
        }
    }

    /// The shared shader program.
    pub closed spec fn shared_program(&self) -> Rc<P> {
        self.program
    }

    /// The shared shader program, to make current and to look attributes up in.
    pub fn program(&self) -> (r: &Rc<P>)
        ensures
            *r == self.shared_program(),
    {
        &self.program
    }

    /// The calls that make this object's vertex array the active one.
    pub fn bind(&self) -> (calls: Vec<GlCall>)
        ensures
            calls@ == bind_calls(self@),
    {
        let mut calls: Vec<GlCall> = Vec::new();
        if self.vao > 0 {
            calls.push(GlCall::BindVertexArray(self.vao));
        }
        assert(calls@ =~= bind_calls(self@));
        calls
    }

    /// The calls that draw this object: bind it, make its program current,
    /// then draw indexed while indices are recorded and three vertices
    /// otherwise.
    pub fn draw(&self) -> (calls: Vec<GlCall>)
        ensures
            calls@ == draw_calls(self@),
    {
        let mut calls = self.bind();
        calls.push(GlCall::UseProgram);
        if self.index_count > 0 {
            calls.push(GlCall::DrawElements { mode: self.drawing_mode, count: self.index_count });
        } else {
            calls.push(GlCall::DrawArrays { mode: self.drawing_mode, first: 0, count: 3 });
        }
        assert(calls@ =~= draw_calls(self@));
        calls
    }

    /// Takes new data into the existing buffers. An indexed source records
    /// its index count; a plain one leaves the recorded count unchanged.
    pub fn update<T>(&mut self, vertices: &VertexBuffer<T>) -> (calls: Vec<GlCall>)
        requires
            vertices.fits(),
        ensures
            final(self)@ == updated(old(self)@, vertices.index_len()),
            wf(old(self)@) ==> wf(final(self)@),
            final(self).shared_program() == old(self).shared_program(),
            calls@ == update_calls(old(self)@, vertices.index_len()),
    {
        let mut calls: Vec<GlCall> = Vec::new();
        match vertices {
            VertexBuffer::Array(_) => {},
            VertexBuffer::Indexed(_, indices) => {
                self.index_count = indices.len() as i32;
                calls.push(GlCall::BindBuffer(BufferTarget::Indices, self.ebo));
                calls.push(GlCall::UploadBuffer(BufferTarget::Indices));
            },
        }
        calls.push(GlCall::BindBuffer(BufferTarget::Vertices, self.vbo));
        calls.push(GlCall::UploadBuffer(BufferTarget::Vertices));
        assert(calls@ =~= update_calls(old(self)@, vertices.index_len()));
        calls
    }

    /// Sets the topology of later draws.
    pub fn set_drawing_mode(&mut self, mode: DrawingMode)
        ensures
            final(self)@ == (ObjectModel { mode, ..old(self)@ }),
            wf(old(self)@) ==> wf(final(self)@),
            final(self).shared_program() == old(self).shared_program(),
    {
        self.drawing_mode = mode;
    }

    /// The topology of later draws.
    pub fn drawing_mode(&self) -> (r: DrawingMode)
        ensures
            r == self@.mode,
    {
        self.drawing_mode
    }

    /// The calls that release every handle this object holds, each once;
    /// the object holds none afterwards, so a second release issues nothing.
    pub fn release(&mut self) -> (calls: Vec<GlCall>)
        ensures
            final(self)@ == released(old(self)@),
            wf(final(self)@),
            final(self).shared_program() == old(self).shared_program(),
            calls@ == release_calls(old(self)@),
    {
        let mut calls: Vec<GlCall> = Vec::new();
        if self.vbo > 0 {
            calls.push(GlCall::DeleteBuffer(self.vbo));
        }
        if self.ebo > 0 {
            calls.push(GlCall::DeleteBuffer(self.ebo));
        }
        if self.vao > 0 {
            calls.push(GlCall::DeleteVertexArray(self.vao));
        }
        assert(calls@ =~= release_calls(old(self)@));
        self.vbo = 0;
        self.ebo = 0;
        self.vao = 0;
        calls
    }
}

/// Building from plain vertex records asks for one vertex array, one vertex
/// buffer and no index buffer, and records no index buffer and no indices.
pub proof fn law_plain_construction(h: Handles)
    ensures
        allocation_for(None) == (Allocation { vertex_arrays: 1, vertex_buffers: 1, index_buffers: 0 }),
        initial_model(h, None).index_buffer == 0,
        initial_model(h, None).index_count == 0,
        initial_model(h, None).vertex_array == h.vertex_array,
        initial_model(h, None).vertex_buffer == h.vertex_buffer,
{
}

/// Building from an indexed source with `m` indices asks for one resource of
/// each kind and records all three handles and `m` as the index count.
pub proof fn law_indexed_construction(h: Handles, m: nat)
    requires
        m <= i32::MAX,
    ensures
        allocation_for(Some(m)) == (Allocation { vertex_arrays: 1, vertex_buffers: 1, index_buffers: 1 }),
        initial_model(h, Some(m)).index_count == m,
        initial_model(h, Some(m)).vertex_array == h.vertex_array,
        initial_model(h, Some(m)).vertex_buffer == h.vertex_buffer,
        initial_model(h, Some(m)).index_buffer == h.index_buffer,
{
}

/// Drawing an object that records a positive index count issues exactly one
/// draw call, an indexed one over that many indices.
pub proof fn law_draw_indexed(m: ObjectModel)
    requires
        m.index_count > 0,
    ensures
        draws(draw_calls(m)) == seq![GlCall::DrawElements { mode: m.mode, count: m.index_count }],
{
    lemma_draw_calls_draws(m);
}

/// Drawing an object that records no indices issues exactly one draw call, a
/// non-indexed one over three vertices, whatever the vertex count.
pub proof fn law_draw_plain(m: ObjectModel)
    requires
        m.index_count == 0,
    ensures
        draws(draw_calls(m)) == seq![GlCall::DrawArrays { mode: m.mode, first: 0, count: 3 }],
{
    lemma_draw_calls_draws(m);
}

proof fn lemma_draw_calls_draws(m: ObjectModel)
    ensures
        draws(draw_calls(m)) == seq![draw_call(m)],
{
    let s = draw_calls(m);
    reveal_with_fuel(draws, 4);
    assert(s.drop_last().drop_last() =~= bind_calls(m));
    if m.vertex_array > 0 {
        assert(bind_calls(m).drop_last() =~= Seq::<GlCall>::empty());
    }
    assert(draws(s.drop_last()) =~= Seq::<GlCall>::empty());
    assert(draws(s) =~= seq![draw_call(m)]);
}

/// New indexed data overwrites the index count and fills the index buffer,
/// then the vertex buffer; new plain data fills the vertex buffer alone and
/// leaves the index count as it was.
pub proof fn law_update(m: ObjectModel, n: nat)
    requires
        n <= i32::MAX,
    ensures
        updated(m, Some(n)).index_count == n,
        update_calls(m, Some(n)) == seq![
            GlCall::BindBuffer(BufferTarget::Indices, m.index_buffer),
            GlCall::UploadBuffer(BufferTarget::Indices),
            GlCall::BindBuffer(BufferTarget::Vertices, m.vertex_buffer),
            GlCall::UploadBuffer(BufferTarget::Vertices),
        ],
        updated(m, None) == m,
        update_calls(m, None) == seq![
            GlCall::BindBuffer(BufferTarget::Vertices, m.vertex_buffer),
            GlCall::UploadBuffer(BufferTarget::Vertices),
        ],
{
    assert(update_calls(m, Some(n)) =~= seq![
        GlCall::BindBuffer(BufferTarget::Indices, m.index_buffer),
        GlCall::UploadBuffer(BufferTarget::Indices),
        GlCall::BindBuffer(BufferTarget::Vertices, m.vertex_buffer),
        GlCall::UploadBuffer(BufferTarget::Vertices),
    ]);
    assert(update_calls(m, None) =~= seq![
        GlCall::BindBuffer(BufferTarget::Vertices, m.vertex_buffer),
        GlCall::UploadBuffer(BufferTarget::Vertices),
    ]);
}

/// Setting a topology and reading it back gives the topology set, whichever
/// it is.
pub proof fn law_mode_round_trip(m: ObjectModel, mode: DrawingMode)
    ensures
        (ObjectModel { mode, ..m }).mode == mode,
        (ObjectModel { mode, ..m }).index_count == m.index_count,
{
}

/// Releasing a well-formed object deletes each non-zero handle exactly once
/// and nothing else; the released object holds no handle, so releasing it
/// again deletes nothing.
pub proof fn law_release_once(m: ObjectModel)
    requires
        wf(m),
    ensures
        occurrences(release_calls(m), GlCall::DeleteBuffer(m.vertex_buffer)) == if m.vertex_buffer
            > 0 {
            1nat
        } else {
            0nat
        },
        occurrences(release_calls(m), GlCall::DeleteBuffer(m.index_buffer)) == if m.index_buffer
            > 0 {
            1nat
        } else {
            0nat
        },
        occurrences(release_calls(m), GlCall::DeleteVertexArray(m.vertex_array)) == if m.vertex_array
            > 0 {
            1nat
        } else {
            0nat
        },
        releases(release_calls(m)) == release_calls(m),
        release_calls(m).len() == (if m.vertex_buffer > 0 { 1nat } else { 0nat }) + (if m.index_buffer
            > 0 {
            1nat
        } else {
            0nat
        }) + (if m.vertex_array > 0 { 1nat } else { 0nat }),
        release_calls(released(m)) == Seq::<GlCall>::empty(),
{
    let vb = if m.vertex_buffer > 0 { seq![GlCall::DeleteBuffer(m.vertex_buffer)] } else { Seq::empty() };
    let ib = if m.index_buffer > 0 { seq![GlCall::DeleteBuffer(m.index_buffer)] } else { Seq::empty() };
    let va = if m.vertex_array > 0 { seq![GlCall::DeleteVertexArray(m.vertex_array)] } else { Seq::empty() };
    assert(release_calls(m) == vb + ib + va);
    reveal_with_fuel(occurrences, 2);
    reveal_with_fuel(releases, 2);
    if vb.len() == 1 {
        assert(vb.drop_last() =~= Seq::<GlCall>::empty());
    }
    if ib.len() == 1 {
        assert(ib.drop_last() =~= Seq::<GlCall>::empty());
    }
    if va.len() == 1 {
        assert(va.drop_last() =~= Seq::<GlCall>::empty());
    }
    lemma_occurrences_concat(vb, ib, GlCall::DeleteBuffer(m.vertex_buffer));
    lemma_occurrences_concat(vb + ib, va, GlCall::DeleteBuffer(m.vertex_buffer));
    lemma_occurrences_concat(vb, ib, GlCall::DeleteBuffer(m.index_buffer));
    lemma_occurrences_concat(vb + ib, va, GlCall::DeleteBuffer(m.index_buffer));
    lemma_occurrences_concat(vb, ib, GlCall::DeleteVertexArray(m.vertex_array));
    lemma_occurrences_concat(vb + ib, va, GlCall::DeleteVertexArray(m.vertex_array));
    lemma_releases_concat(vb, ib);
    lemma_releases_concat(vb + ib, va);
    assert(release_calls(released(m)) =~= Seq::<GlCall>::empty());
}

proof fn lemma_occurrences_concat(s: Seq<GlCall>, t: Seq<GlCall>, c: GlCall)
    ensures
        occurrences(s + t, c) == occurrences(s, c) + occurrences(t, c),
    decreases t.len(),
{
    if t.len() == 0 {
        assert(s + t =~= s);
    } else {
        assert((s + t).drop_last() =~= s + t.drop_last());
        lemma_occurrences_concat(s, t.drop_last(), c);
    }
}

proof fn lemma_releases_concat(s: Seq<GlCall>, t: Seq<GlCall>)
    ensures
        releases(s + t) == releases(s) + releases(t),
    decreases t.len(),
{
    if t.len() == 0 {
        assert(s + t =~= s);
        assert(releases(s) + releases(t) =~= releases(s));
    } else {
        assert((s + t).drop_last() =~= s + t.drop_last());
        lemma_releases_concat(s, t.drop_last());
        if t.last().is_release() {
            assert(releases(s) + releases(t.drop_last()).push(t.last()) =~= (releases(s) + releases(
                t.drop_last(),
            )).push(t.last()));
        }
    }
}

} // verus!
