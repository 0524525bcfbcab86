use render_core::mesh::AttribSlot;
use render_core::mesh::BufferKind;
use render_core::mesh::BufferState;
use render_core::mesh::DrawCall;
use render_core::mesh::FreshHandles;
use render_core::mesh::Mesh;
use render_core::mesh::UploadRequest;
use render_core::error::RenderError;

fn handles(v: u32, i: u32, n: u32, u: u32, vao: u32) -> FreshHandles {
    FreshHandles {
        vertices: Some(v),
        indices: Some(i),
        normals: Some(n),
        uv: Some(u),
        vao: Some(vao),
    }
}

fn no_handles() -> FreshHandles {
    FreshHandles { vertices: None, indices: None, normals: None, uv: None, vao: None }
}

#[test]
fn cube_preset_shape() {
    let m = Mesh::cube();
    assert_eq!(m.vertices.len(), 24);
    assert_eq!(m.indices.as_ref().unwrap().len(), 36);
    assert_eq!(m.normals.as_ref().unwrap().len(), 18);
    assert_eq!(m.uv.as_ref().unwrap().len(), 48);
    assert_eq!(m.vbo_vertices, BufferState::Unallocated);
    assert_eq!(m.vbo_indices, BufferState::Unallocated);
    assert_eq!(m.vbo_normals, BufferState::Unallocated);
    assert_eq!(m.vbo_uv, BufferState::Unallocated);
    assert_eq!(m.vao, BufferState::Unallocated);
}

#[test]
fn cube_preset_data_decodes() {
    let m = Mesh::cube();
    // every position component is +-1.0, every index under 8
    for w in &m.vertices {
        let f = f32::from_bits(*w);
        assert!(f == 1.0 || f == -1.0);
    }
    for i in m.indices.as_ref().unwrap() {
        assert!(*i < 8);
    }
    // normals are axis unit vectors
    for c in m.normals.as_ref().unwrap().chunks(3) {
        let v: Vec<f32> = c.iter().map(|w| f32::from_bits(*w)).collect();
        let norm2 = v[0] * v[0] + v[1] * v[1] + v[2] * v[2];
        assert_eq!(norm2, 1.0);
    }
    // UV coordinates stay inside the unit square
    for w in m.uv.as_ref().unwrap() {
        let f = f32::from_bits(*w);
        assert!((0.0..=1.0).contains(&f));
    }
}

#[test]
fn fs_quad_preset_shape() {
    let m = Mesh::fs_quad();
    assert_eq!(m.vertices.len(), 12);
    assert!(m.indices.is_none());
    assert!(m.normals.is_none());
    assert_eq!(m.uv.as_ref().unwrap().len(), 12);
    for w in &m.uv.as_ref().unwrap()[..] {
        let f = f32::from_bits(*w);
        assert!(f == 0.0 || f == 1.0);
    }
}

#[test]
fn upload_requests_cover_every_array_once() {
    let m = Mesh::cube();
    let reqs = m.upload_requests();
    assert_eq!(
        reqs,
        vec![
            UploadRequest { kind: BufferKind::Vertices, byte_len: 96 },
            UploadRequest { kind: BufferKind::Indices, byte_len: 144 },
            UploadRequest { kind: BufferKind::Normals, byte_len: 72 },
            UploadRequest { kind: BufferKind::Uv, byte_len: 192 },
        ]
    );

    let q = Mesh::fs_quad();
    let reqs = q.upload_requests();
    assert_eq!(
        reqs,
        vec![
            UploadRequest { kind: BufferKind::Vertices, byte_len: 48 },
            UploadRequest { kind: BufferKind::Uv, byte_len: 48 },
        ]
    );
}

#[test]
fn upload_records_handles() {
    let mut m = Mesh::cube();
    assert!(m.upload(&handles(10, 20, 30, 40, 0)).is_ok());
    assert_eq!(m.vbo_vertices, BufferState::Allocated(10));
    assert_eq!(m.vbo_indices, BufferState::Allocated(20));
    assert_eq!(m.vbo_normals, BufferState::Allocated(30));
    assert_eq!(m.vbo_uv, BufferState::Allocated(40));
    assert_eq!(m.vao, BufferState::Unallocated);
}

#[test]
fn upload_twice_keeps_first_handles() {
    let mut m = Mesh::cube();
    assert!(m.upload(&handles(10, 20, 30, 40, 0)).is_ok());
    // a second round allocates nothing and keeps every handle,
    // whatever handles it is offered
    assert!(m.upload_requests().is_empty());
    assert!(m.upload(&handles(91, 92, 93, 94, 95)).is_ok());
    assert_eq!(m.vbo_vertices, BufferState::Allocated(10));
    assert_eq!(m.vbo_indices, BufferState::Allocated(20));
    assert_eq!(m.vbo_normals, BufferState::Allocated(30));
    assert_eq!(m.vbo_uv, BufferState::Allocated(40));
    // even a round with no handles at all succeeds and changes nothing
    assert!(m.upload(&no_handles()).is_ok());
    assert_eq!(m.vbo_vertices, BufferState::Allocated(10));
}

#[test]
fn upload_without_handles_is_exhausted() {
    let mut m = Mesh::cube();
    let r = m.upload(&no_handles());
    assert!(matches!(r, Err(RenderError::ResourceExhausted)));
    assert_eq!(m.vbo_vertices, BufferState::Unallocated);
    assert_eq!(m.vbo_indices, BufferState::Unallocated);
}

#[test]
fn upload_rejects_null_handle() {
    let mut m = Mesh::fs_quad();
    // the driver's null handle for a needed buffer marks a failed allocation
    let r = m.upload(&FreshHandles {
        vertices: Some(0),
        indices: None,
        normals: None,
        uv: Some(7),
        vao: None,
    });
    assert!(matches!(r, Err(RenderError::ResourceExhausted)));
    assert_eq!(m.vbo_vertices, BufferState::Unallocated);
    assert_eq!(m.vbo_uv, BufferState::Unallocated);
}

#[test]
fn quad_upload_ignores_absent_arrays() {
    let mut m = Mesh::fs_quad();
    // no index or normal array, so no handle is needed for them
    let r = m.upload(&FreshHandles {
        vertices: Some(5),
        indices: None,
        normals: None,
        uv: Some(6),
        vao: None,
    });
    assert!(r.is_ok());
    assert_eq!(m.vbo_vertices, BufferState::Allocated(5));
    assert_eq!(m.vbo_indices, BufferState::Unallocated);
    assert_eq!(m.vbo_normals, BufferState::Unallocated);
    assert_eq!(m.vbo_uv, BufferState::Allocated(6));
}

#[test]
fn ready_up_builds_cube_layout() {
    let mut m = Mesh::cube();
    let plan = m.ready_up(&handles(10, 20, 30, 40, 50), 3, 3, 2).unwrap();
    assert_eq!(plan.vao, 50);
    assert_eq!(plan.vertex_buffer, 10);
    assert_eq!(plan.index_buffer, Some(20));
    assert_eq!(
        plan.slots,
        vec![
            AttribSlot { index: 0, buffer: 10, components: 3 },
            AttribSlot { index: 1, buffer: 30, components: 3 },
            AttribSlot { index: 2, buffer: 40, components: 2 },
        ]
    );
    assert_eq!(m.vao, BufferState::Allocated(50));
}

#[test]
fn ready_up_builds_quad_layout() {
    let mut m = Mesh::fs_quad();
    let plan = m.ready_up(&handles(10, 20, 30, 40, 50), 3, 3, 2).unwrap();
    assert_eq!(plan.vao, 50);
    assert_eq!(plan.vertex_buffer, 10);
    assert_eq!(plan.index_buffer, None);
    // no normals: slot 1 stays disabled, UVs feed slot 2
    assert_eq!(
        plan.slots,
        vec![
            AttribSlot { index: 0, buffer: 10, components: 3 },
            AttribSlot { index: 2, buffer: 40, components: 2 },
        ]
    );
}

#[test]
fn ready_up_twice_keeps_layout() {
    let mut m = Mesh::cube();
    let first = m.ready_up(&handles(10, 20, 30, 40, 50), 3, 3, 2).unwrap();
    let second = m.ready_up(&handles(61, 62, 63, 64, 65), 3, 3, 2).unwrap();
    assert_eq!(second.vao, first.vao);
    assert_eq!(second.vertex_buffer, first.vertex_buffer);
    assert_eq!(second.index_buffer, first.index_buffer);
    assert_eq!(second.slots, first.slots);
}

#[test]
fn ready_up_without_vao_handle_is_exhausted() {
    let mut m = Mesh::fs_quad();
    let r = m.ready_up(
        &FreshHandles { vertices: Some(1), indices: None, normals: None, uv: Some(2), vao: None },
        3,
        3,
        2,
    );
    assert!(matches!(r, Err(RenderError::ResourceExhausted)));
    // a failed round leaves the mesh untouched
    assert_eq!(m.vbo_vertices, BufferState::Unallocated);
    assert_eq!(m.vao, BufferState::Unallocated);
}

#[test]
fn indexed_mesh_draws_all_indices() {
    let mut m = Mesh::cube();
    m.ready_up(&handles(10, 20, 30, 40, 50), 3, 3, 2).unwrap();
    assert_eq!(m.draw(), DrawCall::Elements { index_count: 36 });
}

#[test]
fn unindexed_mesh_draws_every_vertex() {
    let mut m = Mesh::fs_quad();
    m.ready_up(&handles(10, 0, 0, 40, 50), 3, 3, 2).unwrap();
    // 12 position components over 3 per vertex
    assert_eq!(m.draw(), DrawCall::Arrays { vertex_count: 4 });
}
