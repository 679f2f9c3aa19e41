use std::rc::Rc;

use gl_object::{
    allocation, Allocation, BufferTarget, DrawingMode, GlCall, GlOject, Handles, VertexBuffer, VertexDesc,
    Vertices,
};

struct Program;

fn descs() -> Vec<VertexDesc> {
    vec![
        VertexDesc { attribute: "position".to_string(), size: 3, stride: 20, offset: 0 },
        VertexDesc { attribute: "uv".to_string(), size: 2, stride: 20, offset: 12 },
    ]
}

fn handles() -> Handles {
    Handles { vertex_array: 1, vertex_buffer: 2, index_buffer: 3 }
}

fn plain() -> Vertices<[f32; 5]> {
    Vertices { desc: descs(), buffer: VertexBuffer::Array(vec![[0.0; 5]; 4]) }
}

fn indexed() -> Vertices<[f32; 5]> {
    Vertices {
        desc: descs(),
        buffer: VertexBuffer::Indexed(vec![[0.0; 5]; 4], vec![0, 1, 2, 2, 3, 0]),
    }
}

fn attrib_calls() -> Vec<GlCall> {
    vec![
        GlCall::AttribPointer { attribute: "position".to_string(), size: 3, stride: 20, offset: 0 },
        GlCall::AttribPointer { attribute: "uv".to_string(), size: 2, stride: 20, offset: 12 },
    ]
}

const ALL_MODES: [DrawingMode; 11] = [
    DrawingMode::Points,
    DrawingMode::Lines,
    DrawingMode::LineLoop,
    DrawingMode::LineStrip,
    DrawingMode::Triangles,
    DrawingMode::TriangleStrip,
    DrawingMode::TriangleFan,
    DrawingMode::LinesAdjacency,
    DrawingMode::LineStripAdjacency,
    DrawingMode::TrianglesAdjacency,
    DrawingMode::TrianglesStripAdjacency,
];

#[test]
fn plain_source_allocates_no_index_buffer() {
    let a = allocation(&plain().buffer);
    assert_eq!(a, Allocation { vertex_arrays: 1, vertex_buffers: 1, index_buffers: 0 });
}

#[test]
fn indexed_source_allocates_all_three() {
    let a = allocation(&indexed().buffer);
    assert_eq!(a, Allocation { vertex_arrays: 1, vertex_buffers: 1, index_buffers: 1 });
}

#[test]
fn new_from_plain_source() {
    let (obj, calls) = GlOject::new(&plain(), Rc::new(Program), handles());
    let mut expected = vec![
        GlCall::BindVertexArray(1),
        GlCall::BindBuffer(BufferTarget::Vertices, 2),
        GlCall::UploadBuffer(BufferTarget::Vertices),
    ];
    expected.extend(attrib_calls());
    assert_eq!(calls, expected);
    assert_eq!(obj.drawing_mode(), DrawingMode::Triangles);
}

#[test]
fn new_from_indexed_source() {
    let (obj, calls) = GlOject::new(&indexed(), Rc::new(Program), handles());
    let mut expected = vec![
        GlCall::BindVertexArray(1),
        GlCall::BindBuffer(BufferTarget::Vertices, 2),
        GlCall::UploadBuffer(BufferTarget::Vertices),
        GlCall::BindBuffer(BufferTarget::Indices, 3),
        GlCall::UploadBuffer(BufferTarget::Indices),
    ];
    expected.extend(attrib_calls());
    assert_eq!(calls, expected);
    assert_eq!(obj.drawing_mode(), DrawingMode::Triangles);
}

#[test]
fn new_without_attributes() {
    let v: Vertices<u8> = Vertices { desc: vec![], buffer: VertexBuffer::Array(vec![]) };
    let (_, calls) = GlOject::new(&v, Rc::new(Program), handles());
    assert_eq!(calls.len(), 3);
}

#[test]
fn new_keeps_the_shared_program() {
    let program = Rc::new(Program);
    let (obj, _) = GlOject::new(&plain(), program.clone(), handles());
    assert!(Rc::ptr_eq(obj.program(), &program));
    assert_eq!(Rc::strong_count(&program), 2);
}

#[test]
fn bind_uses_the_vertex_array() {
    let (obj, _) = GlOject::new(&plain(), Rc::new(Program), handles());
    assert_eq!(obj.bind(), vec![GlCall::BindVertexArray(1)]);
}

#[test]
fn bind_with_zero_handle_does_nothing() {
    let h = Handles { vertex_array: 0, vertex_buffer: 2, index_buffer: 3 };
    let (obj, _) = GlOject::new(&plain(), Rc::new(Program), h);
    assert_eq!(obj.bind(), vec![]);
    assert_eq!(
        obj.draw(),
        vec![
            GlCall::UseProgram,
            GlCall::DrawArrays { mode: DrawingMode::Triangles, first: 0, count: 3 },
        ]
    );
}

#[test]
fn draw_indexed_uses_the_index_count() {
    let (obj, _) = GlOject::new(&indexed(), Rc::new(Program), handles());
    assert_eq!(
        obj.draw(),
        vec![
            GlCall::BindVertexArray(1),
            GlCall::UseProgram,
            GlCall::DrawElements { mode: DrawingMode::Triangles, count: 6 },
        ]
    );
}

#[test]
fn draw_plain_always_draws_three_vertices() {
    let v = Vertices { desc: descs(), buffer: VertexBuffer::Array(vec![[0.0f32; 5]; 10]) };
    let (obj, _) = GlOject::new(&v, Rc::new(Program), handles());
    assert_eq!(
        obj.draw(),
        vec![
            GlCall::BindVertexArray(1),
            GlCall::UseProgram,
            GlCall::DrawArrays { mode: DrawingMode::Triangles, first: 0, count: 3 },
        ]
    );
}

#[test]
fn draw_uses_the_mode_set() {
    let (mut obj, _) = GlOject::new(&indexed(), Rc::new(Program), handles());
    obj.set_drawing_mode(DrawingMode::LineStrip);
    assert_eq!(
        obj.draw()[2],
        GlCall::DrawElements { mode: DrawingMode::LineStrip, count: 6 }
    );
}

#[test]
fn update_indexed_overwrites_index_count() {
    let (mut obj, _) = GlOject::new(&indexed(), Rc::new(Program), handles());
    let calls = obj.update(&VertexBuffer::Indexed(vec![[1.0f32; 5]; 3], vec![0, 1, 2]));
    assert_eq!(
        calls,
        vec![
            GlCall::BindBuffer(BufferTarget::Indices, 3),
            GlCall::UploadBuffer(BufferTarget::Indices),
            GlCall::BindBuffer(BufferTarget::Vertices, 2),
            GlCall::UploadBuffer(BufferTarget::Vertices),
        ]
    );
    assert_eq!(obj.draw()[2], GlCall::DrawElements { mode: DrawingMode::Triangles, count: 3 });
}

#[test]
fn update_plain_keeps_stale_index_count() {
    let (mut obj, _) = GlOject::new(&indexed(), Rc::new(Program), handles());
    let calls = obj.update(&VertexBuffer::Array(vec![[1.0f32; 5]; 3]));
    assert_eq!(
        calls,
        vec![
            GlCall::BindBuffer(BufferTarget::Vertices, 2),
            GlCall::UploadBuffer(BufferTarget::Vertices),
        ]
    );
    assert_eq!(obj.draw()[2], GlCall::DrawElements { mode: DrawingMode::Triangles, count: 6 });
}

#[test]
fn update_plain_object_with_plain_data() {
    let (mut obj, _) = GlOject::new(&plain(), Rc::new(Program), handles());
    let calls = obj.update(&VertexBuffer::Array(vec![[1.0f32; 5]; 7]));
    assert_eq!(calls.len(), 2);
    assert_eq!(
        obj.draw()[2],
        GlCall::DrawArrays { mode: DrawingMode::Triangles, first: 0, count: 3 }
    );
}

#[test]
fn update_indexed_with_no_indices_draws_plain() {
    let (mut obj, _) = GlOject::new(&indexed(), Rc::new(Program), handles());
    obj.update(&VertexBuffer::Indexed(vec![[1.0f32; 5]; 3], vec![]));
    assert_eq!(
        obj.draw()[2],
        GlCall::DrawArrays { mode: DrawingMode::Triangles, first: 0, count: 3 }
    );
}

#[test]
fn drawing_mode_round_trip_all_modes() {
    let (mut obj, _) = GlOject::new(&plain(), Rc::new(Program), handles());
    for mode in ALL_MODES {
        obj.set_drawing_mode(mode);
        assert_eq!(obj.drawing_mode(), mode);
    }
}

#[test]
fn release_indexed_object() {
    let (mut obj, _) = GlOject::new(&indexed(), Rc::new(Program), handles());
    assert_eq!(
        obj.release(),
        vec![GlCall::DeleteBuffer(2), GlCall::DeleteBuffer(3), GlCall::DeleteVertexArray(1)]
    );
    assert_eq!(obj.release(), vec![]);
    assert_eq!(obj.bind(), vec![]);
}

#[test]
fn release_plain_object_skips_index_buffer() {
    let (mut obj, _) = GlOject::new(&plain(), Rc::new(Program), handles());
    assert_eq!(obj.release(), vec![GlCall::DeleteBuffer(2), GlCall::DeleteVertexArray(1)]);
    assert_eq!(obj.release(), vec![]);
}

#[test]
fn release_skips_zero_handles() {
    let h = Handles { vertex_array: 0, vertex_buffer: 0, index_buffer: 5 };
    let (mut obj, _) = GlOject::new(&indexed(), Rc::new(Program), h);
    assert_eq!(obj.release(), vec![GlCall::DeleteBuffer(5)]);
}

#[test]
fn vertex_buffer_queries() {
    let b: VertexBuffer<u8> = VertexBuffer::Indexed(vec![1, 2], vec![0]);
    assert!(b.is_indexed());
    assert_eq!(b.vertex_count(), 2);
    let a: VertexBuffer<u8> = VertexBuffer::Array(vec![1, 2, 3]);
    assert!(!a.is_indexed());
    assert_eq!(a.vertex_count(), 3);
}
