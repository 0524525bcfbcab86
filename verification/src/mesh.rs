//! Mesh geometry and its GPU buffer lifecycle.
//!
//! A [`Mesh`] owns its CPU-side geometry arrays and tracks, per array, the
//! state of the GPU buffer that mirrors it.  Scalar vertex, normal and UV
//! components are stored as the raw 32-bit words of their single-precision
//! encoding; the layout logic only ever reads their count, and the render
//! loop decodes them when it hands the data to the driver.
//!
//! The GPU driver itself is an outside collaborator: the mesh plans what to
//! allocate ([`Mesh::upload_requests`]), the caller performs the allocations
//! and hands the resulting handles back ([`Mesh::upload`], [`Mesh::ready_up`]),
//! and the mesh records them under the invariant that every buffer is
//! allocated at most once and a recorded handle is never the driver's
//! reserved null handle.

use vstd::prelude::*;

use crate::error::RenderError;

verus! {

/// Number of position components per vertex: the geometry arrays hold
/// tightly packed 3-component positions.
pub const VERTEX_COMPONENTS: usize = 3;

/// Bit pattern of single-precision `1.0`.
pub const F32_ONE_BITS: u32 = 0x3F80_0000;

/// Bit pattern of single-precision `-1.0`.
pub const F32_NEG_ONE_BITS: u32 = 0xBF80_0000;

/// Bit pattern of single-precision `0.0`.
pub const F32_ZERO_BITS: u32 = 0x0000_0000;

/// Bit pattern of single-precision `0.000200`, the cube atlas's inset edge.
pub const UV_INSET_LO_BITS: u32 = 0x3951_B717;

/// Bit pattern of single-precision `0.333134`, one third minus the inset.
pub const UV_THIRD_LO_BITS: u32 = 0x3EAA_908A;

/// Bit pattern of single-precision `0.333533`, one third plus the inset.
pub const UV_THIRD_HI_BITS: u32 = 0x3EAA_C4D6;

/// Bit pattern of single-precision `0.666467`, two thirds minus the inset.
pub const UV_TWO_THIRDS_LO_BITS: u32 = 0x3F2A_9D95;

/// Bit pattern of single-precision `0.666866`, two thirds plus the inset.
pub const UV_TWO_THIRDS_HI_BITS: u32 = 0x3F2A_B7BB;

/// Bit pattern of single-precision `0.999800`, one minus the inset.
pub const UV_INSET_HI_BITS: u32 = 0x3F7F_F2E5;

/// The unit cube's 24 position words: its 8 corners at (±1, ±1, ±1),
/// 3 components each.
pub open spec fn spec_cube_vertices() -> Seq<u32> {
    seq![
        F32_NEG_ONE_BITS, F32_NEG_ONE_BITS, F32_ONE_BITS,
        F32_NEG_ONE_BITS, F32_ONE_BITS, F32_ONE_BITS,
        F32_NEG_ONE_BITS, F32_NEG_ONE_BITS, F32_NEG_ONE_BITS,
        F32_NEG_ONE_BITS, F32_ONE_BITS, F32_NEG_ONE_BITS,
        F32_ONE_BITS, F32_NEG_ONE_BITS, F32_ONE_BITS,
        F32_ONE_BITS, F32_ONE_BITS, F32_ONE_BITS,
        F32_ONE_BITS, F32_NEG_ONE_BITS, F32_NEG_ONE_BITS,
        F32_ONE_BITS, F32_ONE_BITS, F32_NEG_ONE_BITS,
    ]
}

/// The unit cube's 36 element indices: 12 triangles over the 8 corners.
pub open spec fn spec_cube_indices() -> Seq<u32> {
    seq![
        1u32, 2, 0, 3, 6, 2, 7, 4, 6, 5, 0, 4, 6, 0, 2, 3, 5, 7, 1, 3, 2, 3, 7, 6, 7, 5, 4, 5, 1,
        0, 6, 4, 0, 3, 1, 5,
    ]
}

/// The unit cube's 18 normal words: one unit axis vector per face.
pub open spec fn spec_cube_normals() -> Seq<u32> {
    seq![
        F32_NEG_ONE_BITS, F32_ZERO_BITS, F32_ZERO_BITS,
        F32_ZERO_BITS, F32_ZERO_BITS, F32_NEG_ONE_BITS,
        F32_ONE_BITS, F32_ZERO_BITS, F32_ZERO_BITS,
        F32_ZERO_BITS, F32_ZERO_BITS, F32_ONE_BITS,
        F32_ZERO_BITS, F32_NEG_ONE_BITS, F32_ZERO_BITS,
        F32_ZERO_BITS, F32_ONE_BITS, F32_ZERO_BITS,
    ]
}

/// The unit cube's 48 UV words: its face atlas over a 3×3 grid, each cell
/// inset from its edges.
pub open spec fn spec_cube_uv() -> Seq<u32> {
    seq![
        UV_INSET_LO_BITS, UV_TWO_THIRDS_HI_BITS, UV_THIRD_LO_BITS, UV_INSET_HI_BITS,
        UV_INSET_LO_BITS, UV_INSET_HI_BITS, UV_TWO_THIRDS_HI_BITS, UV_INSET_LO_BITS,
        UV_INSET_HI_BITS, UV_THIRD_LO_BITS, UV_TWO_THIRDS_HI_BITS, UV_THIRD_LO_BITS,
        UV_THIRD_LO_BITS, UV_TWO_THIRDS_LO_BITS, UV_INSET_LO_BITS, UV_THIRD_HI_BITS,
        UV_THIRD_LO_BITS, UV_THIRD_HI_BITS, UV_TWO_THIRDS_LO_BITS, UV_TWO_THIRDS_LO_BITS,
        UV_THIRD_HI_BITS, UV_THIRD_HI_BITS, UV_TWO_THIRDS_LO_BITS, UV_THIRD_HI_BITS,
        UV_THIRD_HI_BITS, UV_THIRD_LO_BITS, UV_TWO_THIRDS_LO_BITS, UV_INSET_LO_BITS,
        UV_TWO_THIRDS_LO_BITS, UV_THIRD_LO_BITS, UV_INSET_LO_BITS, UV_THIRD_LO_BITS,
        UV_THIRD_LO_BITS, UV_INSET_LO_BITS, UV_THIRD_LO_BITS, UV_THIRD_LO_BITS,
        UV_THIRD_LO_BITS, UV_TWO_THIRDS_HI_BITS, UV_INSET_HI_BITS, UV_INSET_LO_BITS,
        UV_INSET_LO_BITS, UV_TWO_THIRDS_LO_BITS, UV_THIRD_HI_BITS, UV_TWO_THIRDS_LO_BITS,
        UV_THIRD_HI_BITS, UV_INSET_LO_BITS, UV_INSET_LO_BITS, UV_INSET_LO_BITS,
    ]
}

/// The full-screen quad's 12 position words: two triangles covering the
/// screen, 3 components each.
pub open spec fn spec_quad_vertices() -> Seq<u32> {
    seq![
        F32_NEG_ONE_BITS, F32_ONE_BITS, F32_NEG_ONE_BITS,
        F32_NEG_ONE_BITS, F32_ONE_BITS, F32_NEG_ONE_BITS,
        F32_NEG_ONE_BITS, F32_ONE_BITS, F32_ONE_BITS,
        F32_NEG_ONE_BITS, F32_ONE_BITS, F32_ONE_BITS,
    ]
}

/// The full-screen quad's 12 UV words: the unit UV square, 2 components
/// per vertex.
pub open spec fn spec_quad_uv() -> Seq<u32> {
    seq![
        F32_ZERO_BITS, F32_ONE_BITS, F32_ZERO_BITS,
        F32_ZERO_BITS, F32_ONE_BITS, F32_ZERO_BITS,
        F32_ZERO_BITS, F32_ONE_BITS, F32_ONE_BITS,
        F32_ZERO_BITS, F32_ONE_BITS, F32_ONE_BITS,
    ]
}

/// The lifecycle of one GPU-side object: either never allocated, or
/// allocated exactly once with a non-null handle that is kept for the rest
/// of the owning object's life.
#[derive(Debug, Clone, Copy, PartialEq, Eq, Structural)]
pub enum BufferState {
    Unallocated,
    Allocated(u32),
}

impl BufferState {
    /// A state is well formed when an allocated handle is never the
    /// driver's reserved null handle.
    pub open spec fn wf(self) -> bool {
        match self {
            BufferState::Unallocated => true,
            BufferState::Allocated(h) => h != 0,
        }
    }

    /// Whether a GPU object backs this state.
    pub fn allocated(&self) -> (b: bool)
        ensures
            b == (*self is Allocated),
    {
        match self {
            BufferState::Allocated(_) => true,
            BufferState::Unallocated => false,
        }
    }

    /// The recorded handle of an allocated object.
    pub fn handle(&self) -> (h: u32)
        requires
            *self is Allocated,
        ensures
            h == self->0,
    {
        match self {
            BufferState::Allocated(h) => *h,
            BufferState::Unallocated => unreached(),
        }
    }
}

/// The four per-mesh GPU buffers.
#[derive(Debug, Clone, Copy, PartialEq, Eq, Structural)]
pub enum BufferKind {
    Vertices,
    Indices,
    Normals,
    Uv,
}

/// One pending allocation: the caller must create a GPU buffer of this kind
/// and copy `byte_len` bytes of the corresponding array into it, as a
/// write-once, GPU-resident buffer.
#[derive(Debug, Clone, Copy, PartialEq, Eq, Structural)]
pub struct UploadRequest {
    pub kind: BufferKind,
    pub byte_len: usize,
}

/// Handles the caller obtained from the driver for this round of uploads,
/// one per buffer it was asked to allocate.  `None` or a null handle for a
/// buffer that needs one makes the round fail as exhausted.
#[derive(Debug, Clone, Copy)]
pub struct FreshHandles {
    pub vertices: Option<u32>,
    pub indices: Option<u32>,
    pub normals: Option<u32>,
    pub uv: Option<u32>,
    pub vao: Option<u32>,
}

/// One enabled vertex attribute slot: `buffer` feeds slot `index` with
/// tightly packed floats, `components` per element (stride and offset zero,
/// not normalized).
#[derive(Debug, Clone, Copy, PartialEq, Eq, Structural)]
pub struct AttribSlot {
    pub index: u32,
    pub buffer: u32,
    pub components: i32,
}

/// The attribute bindings to record into a vertex layout object: which
/// buffers to attach and which slots to enable.
#[derive(Debug)]
pub struct AttribPlan {
    /// The vertex layout object to bind while recording.
    pub vao: u32,
    /// The buffer bound to the array target for positions.
    pub vertex_buffer: u32,
    /// The buffer bound to the element target, when the mesh is indexed.
    pub index_buffer: Option<u32>,
    /// The slots to enable, in slot order.
    pub slots: Vec<AttribSlot>,
}

/// The draw call a mesh asks for: indexed over the whole index array, or
/// non-indexed over every vertex.
#[derive(Debug, Clone, Copy, PartialEq, Eq, Structural)]
pub enum DrawCall {
    Arrays { vertex_count: usize },
    Elements { index_count: usize },
}

/// Whether a freshly obtained handle can back a buffer: the driver reserves
/// the null handle, so a returned 0 marks a failed allocation.
pub open spec fn spec_usable(h: Option<u32>) -> bool {
    h matches Some(v) && v != 0
}

/// Exec mirror of [`spec_usable`].
fn usable_handle(h: &Option<u32>) -> (b: bool)
    ensures
        b == spec_usable(*h),
{
    match h {
        Some(v) => *v != 0,
        None => false,
    }
}

/// Where one buffer's state moves when a round of uploads is applied: an
/// allocated buffer keeps its handle, an absent array allocates nothing,
/// and an unallocated buffer with data takes the fresh handle.
pub open spec fn buffer_next_state(state: BufferState, present: bool, fresh: Option<u32>) -> BufferState {
    if state is Allocated || !present {
        state
    } else {
        match fresh {
            Some(h) => BufferState::Allocated(h),
            None => state,
        }
    }
}

/// Whether one buffer can go through a round of uploads: it already has its
/// handle, or needs none, or was handed a usable fresh one.
pub open spec fn buffer_step_ok(state: BufferState, present: bool, fresh: Option<u32>) -> bool {
    state is Allocated || !present || spec_usable(fresh)
}

/// One mesh: CPU-side geometry plus the state of the GPU objects that
/// mirror it.
///
/// `vertices`, `normals` and `uv` hold the raw 32-bit words of
/// single-precision components (3 per vertex for positions and normals, 2
/// for UV); `indices` holds 32-bit element indices.
#[derive(Debug)]
#[verifier::ext_equal]
pub struct Mesh {
    pub vertices: Vec<u32>,
    pub indices: Option<Vec<u32>>,
    pub normals: Option<Vec<u32>>,
    pub uv: Option<Vec<u32>>,

    pub vbo_vertices: BufferState,
    pub vbo_indices: BufferState,
    pub vbo_normals: BufferState,
    pub vbo_uv: BufferState,
    pub vao: BufferState,
}

impl Mesh {
    /// Well-formedness: recorded handles are never null, a buffer is only
    /// allocated for an array the mesh has, and each array's byte size fits
    /// the machine.
    pub open spec fn wf(self) -> bool {
        &&& self.vbo_vertices.wf()
        &&& self.vbo_indices.wf()
        &&& self.vbo_normals.wf()
        &&& self.vbo_uv.wf()
        &&& self.vao.wf()
        &&& self.vbo_indices is Allocated ==> self.indices is Some
        &&& self.vbo_normals is Allocated ==> self.normals is Some
        &&& self.vbo_uv is Allocated ==> self.uv is Some
        &&& self.vertices@.len() * 4 <= usize::MAX
        &&& self.indices matches Some(v) ==> v@.len() * 4 <= usize::MAX
        &&& self.normals matches Some(v) ==> v@.len() * 4 <= usize::MAX
        &&& self.uv matches Some(v) ==> v@.len() * 4 <= usize::MAX
    }

    /// Every array the mesh has is backed by an allocated GPU buffer.
    pub open spec fn uploaded(self) -> bool {
        &&& self.vbo_vertices is Allocated
        &&& self.indices is Some ==> self.vbo_indices is Allocated
        &&& self.normals is Some ==> self.vbo_normals is Allocated
        &&& self.uv is Some ==> self.vbo_uv is Allocated
    }

    /// Uploaded, and the vertex layout object exists: the mesh can be drawn.
    pub open spec fn ready(self) -> bool {
        self.uploaded() && self.vao is Allocated
    }

    /// The allocations a round of uploads must perform: one request per
    /// array that exists but has no GPU buffer yet, in buffer order.
    pub open spec fn spec_upload_requests(self) -> Seq<UploadRequest> {
        (if self.vbo_vertices is Unallocated {
            seq![UploadRequest { kind: BufferKind::Vertices, byte_len: (self.vertices@.len() * 4) as usize }]
        } else {
            Seq::<UploadRequest>::empty()
        }) + (match self.indices {
            Some(v) => if self.vbo_indices is Unallocated {
                seq![UploadRequest { kind: BufferKind::Indices, byte_len: (v@.len() * 4) as usize }]
            } else {
                Seq::<UploadRequest>::empty()
            },
            None => Seq::<UploadRequest>::empty(),
        }) + (match self.normals {
            Some(v) => if self.vbo_normals is Unallocated {
                seq![UploadRequest { kind: BufferKind::Normals, byte_len: (v@.len() * 4) as usize }]
            } else {
                Seq::<UploadRequest>::empty()
            },
            None => Seq::<UploadRequest>::empty(),
        }) + (match self.uv {
            Some(v) => if self.vbo_uv is Unallocated {
                seq![UploadRequest { kind: BufferKind::Uv, byte_len: (v@.len() * 4) as usize }]
            } else {
                Seq::<UploadRequest>::empty()
            },
            None => Seq::<UploadRequest>::empty(),
        })
    }

    /// Whether a round of uploads with these fresh handles succeeds: every
    /// buffer that needs a handle was handed a usable one.
    pub open spec fn spec_upload_ok(self, fresh: FreshHandles) -> bool {
        &&& buffer_step_ok(self.vbo_vertices, true, fresh.vertices)
        &&& buffer_step_ok(self.vbo_indices, self.indices is Some, fresh.indices)
        &&& buffer_step_ok(self.vbo_normals, self.normals is Some, fresh.normals)
        &&& buffer_step_ok(self.vbo_uv, self.uv is Some, fresh.uv)
    }

    /// The mesh after a successful round of uploads: data untouched, every
    /// needed buffer allocated, every existing handle kept.
    pub open spec fn spec_upload(self, fresh: FreshHandles) -> Mesh {
        Mesh {
            vbo_vertices: buffer_next_state(self.vbo_vertices, true, fresh.vertices),
            vbo_indices: buffer_next_state(self.vbo_indices, self.indices is Some, fresh.indices),
            vbo_normals: buffer_next_state(self.vbo_normals, self.normals is Some, fresh.normals),
            vbo_uv: buffer_next_state(self.vbo_uv, self.uv is Some, fresh.uv),
            ..self
        }
    }

    /// The mesh after [`Mesh::ready_up`]: uploaded, with the vertex layout
    /// object allocated as well.
    pub open spec fn spec_ready_up(self, fresh: FreshHandles) -> Mesh {
        Mesh { vao: buffer_next_state(self.vao, true, fresh.vao), ..self.spec_upload(fresh) }
    }

    /// The attribute slots a mesh enables: slot 0 always feeds positions;
    /// slot 1 feeds normals and slot 2 UVs exactly when those buffers
    /// exist.  Component counts are the caller's, strides tight.
    pub open spec fn spec_slots(self, vcomp: i32, ncomp: i32, uvcomp: i32) -> Seq<AttribSlot> {
        seq![AttribSlot { index: 0, buffer: self.vbo_vertices->0, components: vcomp }]
            + (match self.vbo_normals {
            BufferState::Allocated(h) => seq![AttribSlot { index: 1, buffer: h, components: ncomp }],
            BufferState::Unallocated => Seq::<AttribSlot>::empty(),
        }) + (match self.vbo_uv {
            BufferState::Allocated(h) => seq![AttribSlot { index: 2, buffer: h, components: uvcomp }],
            BufferState::Unallocated => Seq::<AttribSlot>::empty(),
        })
    }

    /// The allocations a round of uploads must perform, in buffer order.
    ///
    /// A buffer appears here exactly when its array exists and no GPU
    /// buffer backs it yet; its `byte_len` covers the whole array.
    pub fn upload_requests(&self) -> (r: Vec<UploadRequest>)
        requires
            self.wf(),
        ensures
            r@ == self.spec_upload_requests(),
    {
        let mut r: Vec<UploadRequest> = Vec::new();
        if !self.vbo_vertices.allocated() {
            r.push(UploadRequest { kind: BufferKind::Vertices, byte_len: self.vertices.len() * 4 });
        }
        if let Some(v) = &self.indices {
            if !self.vbo_indices.allocated() {
                r.push(UploadRequest { kind: BufferKind::Indices, byte_len: v.len() * 4 });
            }
        }
        if let Some(v) = &self.normals {
            if !self.vbo_normals.allocated() {
                r.push(UploadRequest { kind: BufferKind::Normals, byte_len: v.len() * 4 });
            }
        }
        if let Some(v) = &self.uv {
            if !self.vbo_uv.allocated() {
                r.push(UploadRequest { kind: BufferKind::Uv, byte_len: v.len() * 4 });
            }
        }
        proof {
            assert(r@ =~= self.spec_upload_requests());
        }
        r
    }

    /// Record one round of buffer allocations.
    ///
    /// Succeeds exactly when every array that still needs a GPU buffer was
    /// handed a usable fresh handle; then each such buffer takes its
    /// handle, every already-allocated buffer keeps its old one, and the
    /// geometry arrays are untouched.  Otherwise the mesh is left exactly
    /// as it was and the round fails as exhausted.
    pub fn upload(&mut self, fresh: &FreshHandles) -> (r: Result<(), RenderError>)
        requires
            old(self).wf(),
        ensures
            final(self).wf(),
            r is Ok <==> old(self).spec_upload_ok(*fresh),
            r is Ok ==> *final(self) == old(self).spec_upload(*fresh),
            r !is Ok ==> *final(self) == *old(self) && r == Err::<(), RenderError>(
                RenderError::ResourceExhausted,
            ),
    {
        if !self.vbo_vertices.allocated() && !usable_handle(&fresh.vertices) {
            return Err(RenderError::ResourceExhausted);
        }
        if self.indices.is_some() && !self.vbo_indices.allocated() && !usable_handle(&fresh.indices) {
            return Err(RenderError::ResourceExhausted);
        }
        if self.normals.is_some() && !self.vbo_normals.allocated() && !usable_handle(&fresh.normals) {
            return Err(RenderError::ResourceExhausted);
        }
        if self.uv.is_some() && !self.vbo_uv.allocated() && !usable_handle(&fresh.uv) {
            return Err(RenderError::ResourceExhausted);
        }
        if !self.vbo_vertices.allocated() {
            self.vbo_vertices = BufferState::Allocated(fresh.vertices.unwrap());
        }
        if self.indices.is_some() && !self.vbo_indices.allocated() {
            self.vbo_indices = BufferState::Allocated(fresh.indices.unwrap());
        }
        if self.normals.is_some() && !self.vbo_normals.allocated() {
            self.vbo_normals = BufferState::Allocated(fresh.normals.unwrap());
        }
        if self.uv.is_some() && !self.vbo_uv.allocated() {
            self.vbo_uv = BufferState::Allocated(fresh.uv.unwrap());
        }
        proof {
            assert(*self =~= old(self).spec_upload(*fresh));
        }
        Ok(())
    }

    /// Ensure the vertex layout object exists and return its handle.
    ///
    /// The object is created at most once: an existing handle is returned
    /// unchanged, otherwise the usable fresh handle is recorded; a missing
    /// or null fresh handle when one is needed fails as exhausted, leaving
    /// the mesh as it was.
    pub fn bind_vao(&mut self, fresh_vao: Option<u32>) -> (r: Result<u32, RenderError>)
        requires
            old(self).wf(),
        ensures
            final(self).wf(),
            r is Ok <==> (old(self).vao is Allocated || spec_usable(fresh_vao)),
            old(self).vao matches BufferState::Allocated(h) ==> *final(self) == *old(self) && r
                == Ok::<u32, RenderError>(h),
            old(self).vao is Unallocated && spec_usable(fresh_vao) ==> *final(self) == (Mesh {
                vao: BufferState::Allocated(fresh_vao->0),
                ..*old(self)
            }) && r == Ok::<u32, RenderError>(fresh_vao->0),
            r !is Ok ==> *final(self) == *old(self) && r == Err::<u32, RenderError>(
                RenderError::ResourceExhausted,
            ),
    {
        if self.vao.allocated() {
            return Ok(self.vao.handle());
        }
        if !usable_handle(&fresh_vao) {
            return Err(RenderError::ResourceExhausted);
        }
        let h = fresh_vao.unwrap();
        self.vao = BufferState::Allocated(h);
        proof {
            assert(*self =~= Mesh { vao: BufferState::Allocated(fresh_vao->0), ..*old(self) });
        }
        Ok(h)
    }

    /// Plan the attribute bindings of an uploaded mesh, creating the vertex
    /// layout object first if it does not exist yet.
    ///
    /// On success the plan binds the vertex buffer (and the index buffer
    /// exactly when the mesh is indexed) to the layout object and enables
    /// slot 0 for positions unconditionally, slot 1 for normals and slot 2
    /// for UVs exactly when those buffers exist, each slot tightly packed
    /// with the caller's component count.
    pub fn enable_attrib(&mut self, fresh_vao: Option<u32>, vcomp: i32, ncomp: i32, uvcomp: i32) -> (r:
        Result<AttribPlan, RenderError>)
        requires
            old(self).wf(),
            old(self).uploaded(),
        ensures
            final(self).wf(),
            r is Ok <==> (old(self).vao is Allocated || spec_usable(fresh_vao)),
            r is Ok ==> final(self).ready() && *final(self) == (Mesh {
                vao: buffer_next_state(old(self).vao, true, fresh_vao),
                ..*old(self)
            }),
            r matches Ok(plan) ==> {
                &&& plan.vao == final(self).vao->0
                &&& plan.vertex_buffer == final(self).vbo_vertices->0
                &&& plan.index_buffer == (match final(self).vbo_indices {
                    BufferState::Allocated(h) => Some(h),
                    BufferState::Unallocated => None::<u32>,
                })
                &&& plan.slots@ == final(self).spec_slots(vcomp, ncomp, uvcomp)
            },
            r !is Ok ==> *final(self) == *old(self) && r == Err::<AttribPlan, RenderError>(
                RenderError::ResourceExhausted,
            ),
    {
        let vao = match self.bind_vao(fresh_vao) {
            Ok(h) => h,
            Err(e) => {
                return Err(e);
            },
        };
        let mut slots: Vec<AttribSlot> = Vec::new();
        let vertex_buffer = self.vbo_vertices.handle();
        slots.push(AttribSlot { index: 0, buffer: vertex_buffer, components: vcomp });
        if self.vbo_normals.allocated() {
            slots.push(AttribSlot { index: 1, buffer: self.vbo_normals.handle(), components: ncomp });
        }
        if self.vbo_uv.allocated() {
            slots.push(AttribSlot { index: 2, buffer: self.vbo_uv.handle(), components: uvcomp });
        }
        let index_buffer = if self.vbo_indices.allocated() {
            Some(self.vbo_indices.handle())
        } else {
            None
        };
        proof {
            assert(slots@ =~= self.spec_slots(vcomp, ncomp, uvcomp));
            assert(*self =~= Mesh { vao: buffer_next_state(old(self).vao, true, fresh_vao), ..*old(self) });
        }
        Ok(AttribPlan { vao, vertex_buffer, index_buffer, slots })
    }

    /// Upload every missing buffer and record the attribute layout, in one
    /// round: the counterpart of allocating, copying and binding a mesh the
    /// first time it is drawn, and a no-op on every later round.
    ///
    /// Succeeds exactly when every object that still needs a handle — the
    /// buffers of [`Mesh::upload`] and the layout object — was handed a
    /// usable one; a failed round leaves the mesh exactly as it was.
    pub fn ready_up(&mut self, fresh: &FreshHandles, vcomp: i32, ncomp: i32, uvcomp: i32) -> (r:
        Result<AttribPlan, RenderError>)
        requires
            old(self).wf(),
        ensures
            final(self).wf(),
            r is Ok <==> (old(self).spec_upload_ok(*fresh) && (old(self).vao is Allocated
                || spec_usable(fresh.vao))),
            r is Ok ==> final(self).ready() && *final(self) == old(self).spec_ready_up(*fresh),
            r matches Ok(plan) ==> {
                &&& plan.vao == final(self).vao->0
                &&& plan.vertex_buffer == final(self).vbo_vertices->0
                &&& plan.index_buffer == (match final(self).vbo_indices {
                    BufferState::Allocated(h) => Some(h),
                    BufferState::Unallocated => None::<u32>,
                })
                &&& plan.slots@ == final(self).spec_slots(vcomp, ncomp, uvcomp)
            },
            r !is Ok ==> *final(self) == *old(self) && r == Err::<AttribPlan, RenderError>(
                RenderError::ResourceExhausted,
            ),
    {
        if !self.vao.allocated() && !usable_handle(&fresh.vao) {
            return Err(RenderError::ResourceExhausted);
        }
        match self.upload(fresh) {
            Ok(()) => {},
            Err(e) => {
                return Err(e);
            },
        }
        let r = self.enable_attrib(fresh.vao, vcomp, ncomp, uvcomp);
        proof {
            assert(*self =~= old(self).spec_ready_up(*fresh));
        }
        r
    }

    /// The draw call this mesh asks for: indexed over the whole index
    /// array when the mesh is indexed, otherwise non-indexed over every
    /// 3-component vertex.
    pub fn draw(&self) -> (d: DrawCall)
        requires
            self.wf(),
            self.ready(),
        ensures
            self.indices matches Some(ind) ==> d == (DrawCall::Elements {
                index_count: ind@.len() as usize,
            }),
            self.indices is None ==> d == (DrawCall::Arrays {
                vertex_count: (self.vertices@.len() / (VERTEX_COMPONENTS as nat)) as usize,
            }),
    {
        match &self.indices {
            Some(ind) => DrawCall::Elements { index_count: ind.len() },
            None => DrawCall::Arrays { vertex_count: self.vertices.len() / VERTEX_COMPONENTS },
        }
    }

    /// The built-in unit cube: 8 corner vertices, 36 indices forming 12
    /// triangles, one flat normal per face, and a UV atlas; nothing
    /// allocated on the GPU yet.
    pub fn cube() -> (m: Mesh)
        ensures
            m.wf(),
            m.vertices@ == spec_cube_vertices() && m.vertices@.len() == 24,
            m.indices matches Some(v) && v@ == spec_cube_indices() && v@.len() == 36 && (forall|i: int|
                0 <= i < v@.len() ==> #[trigger] v@[i] < 8),
            m.normals matches Some(v) && v@ == spec_cube_normals() && v@.len() == 18,
            m.uv matches Some(v) && v@ == spec_cube_uv() && v@.len() == 48,
            m.vbo_vertices is Unallocated,
            m.vbo_indices is Unallocated,
            m.vbo_normals is Unallocated,
            m.vbo_uv is Unallocated,
            m.vao is Unallocated,
    {
        let p: u32 = F32_ONE_BITS;
        let n: u32 = F32_NEG_ONE_BITS;
        let z: u32 = F32_ZERO_BITS;
        let il: u32 = UV_INSET_LO_BITS;
        let ih: u32 = UV_INSET_HI_BITS;
        let tl: u32 = UV_THIRD_LO_BITS;
        let th: u32 = UV_THIRD_HI_BITS;
        let ul: u32 = UV_TWO_THIRDS_LO_BITS;
        let uh: u32 = UV_TWO_THIRDS_HI_BITS;
        let m = Mesh {
            vertices: vec![
                n, n, p, n, p, p, n, n, n, n, p, n, p, n, p, p, p, p, p, n, n, p, p, n,
            ],
            indices: Some(vec![
                1, 2, 0, 3, 6, 2, 7, 4, 6, 5, 0, 4, 6, 0, 2, 3, 5, 7, 1, 3, 2, 3, 7, 6, 7, 5, 4, 5,
                1, 0, 6, 4, 0, 3, 1, 5,
            ]),
            normals: Some(vec![n, z, z, z, z, n, p, z, z, z, z, p, z, n, z, z, p, z]),
            uv: Some(vec![
                il, uh, tl, ih, il, ih, uh, il, ih, tl, uh, tl, tl, ul, il, th, tl, th, ul, ul, th,
                th, ul, th, th, tl, ul, il, ul, tl, il, tl, tl, il, tl, tl, tl, uh, ih, il, il, ul,
                th, ul, th, il, il, il,
            ]),
            vbo_vertices: BufferState::Unallocated,
            vbo_indices: BufferState::Unallocated,
            vbo_normals: BufferState::Unallocated,
            vbo_uv: BufferState::Unallocated,
            vao: BufferState::Unallocated,
        };
        proof {
            assert(m.vertices@ =~= spec_cube_vertices());
            assert(m.indices->0@ =~= spec_cube_indices());
            assert(m.normals->0@ =~= spec_cube_normals());
            assert(m.uv->0@ =~= spec_cube_uv());
        }
        m
    }

    /// The built-in full-screen quad: 4 vertices drawn as two non-indexed
    /// triangles, a unit UV quad, no normals; nothing allocated on the GPU
    /// yet.
    pub fn fs_quad() -> (m: Mesh)
        ensures
            m.wf(),
            m.vertices@ == spec_quad_vertices() && m.vertices@.len() == 12,
            m.indices is None,
            m.normals is None,
            m.uv matches Some(v) && v@ == spec_quad_uv() && v@.len() == 12,
            m.vbo_vertices is Unallocated,
            m.vbo_indices is Unallocated,
            m.vbo_normals is Unallocated,
            m.vbo_uv is Unallocated,
            m.vao is Unallocated,
    {
        let p: u32 = F32_ONE_BITS;
        let n: u32 = F32_NEG_ONE_BITS;
        let z: u32 = F32_ZERO_BITS;
        let m = Mesh {
            vertices: vec![n, p, n, n, p, n, n, p, p, n, p, p],
            uv: Some(vec![z, p, z, z, p, z, z, p, p, z, p, p]),
            normals: None,
            indices: None,
            vbo_vertices: BufferState::Unallocated,
            vbo_indices: BufferState::Unallocated,
            vbo_normals: BufferState::Unallocated,
            vbo_uv: BufferState::Unallocated,
            vao: BufferState::Unallocated,
        };
        proof {
            assert(m.vertices@ =~= spec_quad_vertices());
            assert(m.uv->0@ =~= spec_quad_uv());
        }
        m
    }
}

/// Uploading never reallocates: once a round of uploads has succeeded, any
/// further round succeeds whatever handles it is offered, requests no
/// allocation, and leaves every handle exactly as the first round did.
pub proof fn lemma_upload_idempotent(m: Mesh, first: FreshHandles, second: FreshHandles)
    requires
        m.wf(),
        m.spec_upload_ok(first),
    ensures
        m.spec_upload(first).spec_upload_ok(second),
        m.spec_upload(first).spec_upload(second) == m.spec_upload(first),
        m.spec_upload(first).spec_upload_requests() == Seq::<UploadRequest>::empty(),
{
    let u = m.spec_upload(first);
    assert(u.spec_upload(second) =~= u);
    assert(u.spec_upload_requests() =~= Seq::<UploadRequest>::empty());
}

} // verus!
