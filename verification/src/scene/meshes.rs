use std::sync::Arc;

use vstd::layout::size_of;
use vstd::prelude::*;

use crate::assets::materials::Id as MaterialId;
use crate::render::growth::{grown, resize_for};
use crate::render::mesh::{format_bits, Mesh, VertexFormat};
use crate::render::Color;

verus! {

/// Where an uploaded mesh lives: the byte offset of each of its vertex
/// streams in the shared buffers (0 for a stream it lacks), the byte offset
/// and count of its indices, its material and its vertex format.
#[derive(Clone, Copy, Debug, PartialEq, Eq, PartialOrd, Ord, Structural)]
pub struct MeshIndex {
    pub position_offset: u64,
    pub normal_offset: u64,
    pub tex_coord_offset: u64,
    pub color_offset: u64,
    pub tangent_offset: u64,
    pub index_offset: u64,
    pub index_count: u64,
    pub material_id: MaterialId,
    pub mesh_flags: VertexFormat,
}

/// What to do on the GPU to flush a staging buffer: grow the buffer to
/// `resize_to` bytes where set (copying the `write_offset` bytes already
/// written), then write `data` at byte `write_offset`.
pub struct WritePlan<T> {
    pub write_offset: u64,
    pub data: Vec<T>,
    pub resize_to: Option<u64>,
}

/// A GPU buffer that grows: the number of bytes already written to it, and
/// the values queued to be written after them.
pub struct StagingBuffer<T> {
    written_len: u64,
    unwritten: Vec<T>,
}

/// The bytes `n` values of type `T` take.
pub open spec fn bytes_of<T>(n: nat) -> nat {
    n * size_of::<T>()
}

/// No values take no bytes, and the bytes of two runs of values add up.
pub proof fn lemma_bytes_of<T>(a: nat, b: nat)
    ensures
        bytes_of::<T>(0) == 0,
        bytes_of::<T>(a) + bytes_of::<T>(b) == bytes_of::<T>(a + b),
{
    assert(0 * size_of::<T>() == 0) by (nonlinear_arith);
    assert(a * size_of::<T>() + b * size_of::<T>() == (a + b) * size_of::<T>()) by (nonlinear_arith);
}

/// Whether flushing `buffer` to a GPU buffer of `capacity` bytes keeps
/// every size countable: where the queued bytes do not fit, the grown size
/// must.
pub open spec fn can_flush<T>(buffer: StagingBuffer<T>, capacity: nat) -> bool {
    buffer.queued_bytes() > capacity ==> grown(buffer.queued_bytes()) <= u64::MAX
}

/// Whether `plan` and `after` are what flushing `before` to a GPU buffer of
/// `capacity` bytes gives: the queued values are written after the bytes
/// already written, the buffer grows to half as large again as needed
/// where they do not fit, and afterwards everything counts as written.
pub open spec fn flushes<T>(
    before: StagingBuffer<T>,
    after: StagingBuffer<T>,
    capacity: nat,
    plan: WritePlan<T>,
) -> bool {
    &&& plan.write_offset == before.spec_written_len()
    &&& plan.data@ == before.spec_unwritten()
    &&& plan.resize_to == if before.queued_bytes() > capacity {
        Some(grown(before.queued_bytes()) as u64)
    } else {
        None
    }
    &&& after.spec_written_len() == before.queued_bytes()
    &&& after.spec_unwritten() == Seq::<T>::empty()
}

impl<T> StagingBuffer<T> {
    /// The bytes queued so far, written or not, stay countable.
    #[verifier::type_invariant]
    pub open spec fn bounded(self) -> bool {
        self.queued_bytes() <= u64::MAX
    }

    /// The bytes already written.
    pub closed spec fn spec_written_len(&self) -> nat {
        self.written_len as nat
    }

    /// The values queued and not yet written.
    pub closed spec fn spec_unwritten(&self) -> Seq<T> {
        self.unwritten@
    }

    /// The bytes written and queued.
    pub open spec fn queued_bytes(&self) -> nat {
        self.spec_written_len() + bytes_of::<T>(self.spec_unwritten().len())
    }
}

impl<T: Copy> StagingBuffer<T> {
    /// An empty buffer.
    pub fn new() -> (b: StagingBuffer<T>)
        ensures
            b.spec_written_len() == 0,
            b.spec_unwritten() == Seq::<T>::empty(),
    {
        proof {
            lemma_bytes_of::<T>(0, 0);
        }
        StagingBuffer { written_len: 0, unwritten: Vec::new() }
    }

    /// The size in bytes of the GPU buffer first made for this staging
    /// buffer: room for 4096 values.
    pub fn initial_size() -> (size: u64)
        requires
            bytes_of::<T>(4096) <= u64::MAX,
        ensures
            size == bytes_of::<T>(4096),
    {
        let elem = core::mem::size_of::<T>() as u64;
        assert(elem * 4096 == 4096 * elem) by (nonlinear_arith);
        elem * 4096
    }

    /// The bytes written and queued.
    pub fn queued_len(&self) -> (n: u64)
        ensures
            n == self.queued_bytes(),
    {
        proof {
            use_type_invariant(self);
        }
        let elem = core::mem::size_of::<T>() as u64;
        let count = self.unwritten.len() as u64;
        assert(count * elem == bytes_of::<T>(count as nat)) by (nonlinear_arith)
            requires
                elem == size_of::<T>(),
        ;
        self.written_len + count * elem
    }

    /// Queues `values` after everything queued so far and returns the byte
    /// offset they will be written at.
    pub fn queue_write(&mut self, values: &[T]) -> (offset: u64)
        requires
            old(self).queued_bytes() + bytes_of::<T>(values@.len()) <= u64::MAX,
        ensures
            offset == old(self).queued_bytes(),
            final(self).spec_written_len() == old(self).spec_written_len(),
            final(self).spec_unwritten() == old(self).spec_unwritten() + values@,
            final(self).queued_bytes() == old(self).queued_bytes() + bytes_of::<T>(values@.len()),
    {
        proof {
            use_type_invariant(&*self);
        }
        let elem = core::mem::size_of::<T>() as u64;
        let count = self.unwritten.len() as u64;
        proof {
            assert(count * elem == bytes_of::<T>(count as nat)) by (nonlinear_arith)
                requires
                    elem == size_of::<T>(),
            ;
            lemma_bytes_of::<T>(count as nat, values@.len());
        }
        let offset = self.written_len + count * elem;
        let mut taken = StagingBuffer::new();
        std::mem::swap(&mut taken, self);
        let StagingBuffer { written_len, unwritten } = taken;
        let mut unwritten = unwritten;
        crate::render::mesh::append_copies(&mut unwritten, values);
        *self = StagingBuffer { written_len, unwritten };
        offset
    }

    /// Flushes the queued values to a GPU buffer of `capacity` bytes: the
    /// plan writes them after the bytes already written, growing the buffer
    /// to half as large again as needed where they do not fit. Afterwards
    /// everything queued counts as written.
    pub fn take_unwritten(&mut self, capacity: u64) -> (plan: WritePlan<T>)
        requires
            can_flush(*old(self), capacity as nat),
        ensures
            flushes(*old(self), *final(self), capacity as nat, plan),
    {
        proof {
            use_type_invariant(&*self);
        }
        let elem = core::mem::size_of::<T>() as u64;
        let count = self.unwritten.len() as u64;
        proof {
            assert(count * elem == bytes_of::<T>(count as nat)) by (nonlinear_arith)
                requires
                    elem == size_of::<T>(),
            ;
        }
        let final_size = self.written_len + count * elem;
        let resize_to = resize_for(capacity, final_size);
        let mut taken = StagingBuffer::new();
        std::mem::swap(&mut taken, self);
        let StagingBuffer { written_len, unwritten } = taken;
        proof {
            lemma_bytes_of::<T>(0, 0);
        }
        *self = StagingBuffer { written_len: final_size, unwritten: Vec::new() };
        WritePlan { write_offset: written_len, data: unwritten, resize_to }
    }
}

/// Values queued at the offset `queue_write` returned are written there by
/// the next flush: the plan writes its data from its write offset, and the
/// values start in that data right after the values queued before them, so
/// that they land at byte `offset` of the GPU buffer.
pub proof fn lemma_queued_values_land_at_offset<T>(
    before: StagingBuffer<T>,
    queued: StagingBuffer<T>,
    values: Seq<T>,
    offset: nat,
    flushed: StagingBuffer<T>,
    capacity: nat,
    plan: WritePlan<T>,
)
    requires
        offset == before.queued_bytes(),
        queued.spec_written_len() == before.spec_written_len(),
        queued.spec_unwritten() == before.spec_unwritten() + values,
        flushes(queued, flushed, capacity, plan),
    ensures
        offset == plan.write_offset + bytes_of::<T>(before.spec_unwritten().len()),
        plan.data@.subrange(
            before.spec_unwritten().len() as int,
            (before.spec_unwritten().len() + values.len()) as int,
        ) == values,
        flushed.spec_written_len() == offset + bytes_of::<T>(values.len()),
{
    lemma_bytes_of::<T>(before.spec_unwritten().len(), values.len());
    assert(plan.data@.subrange(
        before.spec_unwritten().len() as int,
        (before.spec_unwritten().len() + values.len()) as int,
    ) =~= values);
}

/// The staging buffers of the vertex streams.
pub struct VertexBuffers {
    pub position: StagingBuffer<glam::Vec3>,
    pub normal: StagingBuffer<glam::Vec3>,
    pub tex_coord: StagingBuffer<glam::Vec2>,
    pub color: StagingBuffer<Color>,
    pub tangent: StagingBuffer<glam::Vec4>,
}

impl VertexBuffers {
    /// Empty vertex streams.
    pub fn new() -> (v: VertexBuffers)
        ensures
            v.position.queued_bytes() == 0,
            v.normal.queued_bytes() == 0,
            v.tex_coord.queued_bytes() == 0,
            v.color.queued_bytes() == 0,
            v.tangent.queued_bytes() == 0,
    {
        VertexBuffers {
            position: StagingBuffer::new(),
            normal: StagingBuffer::new(),
            tex_coord: StagingBuffer::new(),
            color: StagingBuffer::new(),
            tangent: StagingBuffer::new(),
        }
    }
}

/// The plans that flush the vertex streams.
pub struct VertexWritePlans {
    pub position: WritePlan<glam::Vec3>,
    pub normal: WritePlan<glam::Vec3>,
    pub tex_coord: WritePlan<glam::Vec2>,
    pub color: WritePlan<Color>,
    pub tangent: WritePlan<glam::Vec4>,
}

impl VertexWritePlans {
    /// Whether any vertex stream's GPU buffer grows.
    pub open spec fn any_resized(&self) -> bool {
        ||| self.position.resize_to is Some
        ||| self.normal.resize_to is Some
        ||| self.tex_coord.resize_to is Some
        ||| self.color.resize_to is Some
        ||| self.tangent.resize_to is Some
    }
}

impl VertexBuffers {
    /// Whether every stream can be flushed to GPU buffers of the given
    /// capacities (position, normal, texture coordinates, color, tangent).
    pub open spec fn can_flush_all(&self, capacities: [u64; 5]) -> bool {
        &&& can_flush(self.position, capacities[0] as nat)
        &&& can_flush(self.normal, capacities[1] as nat)
        &&& can_flush(self.tex_coord, capacities[2] as nat)
        &&& can_flush(self.color, capacities[3] as nat)
        &&& can_flush(self.tangent, capacities[4] as nat)
    }

    /// Flushes every vertex stream to GPU buffers of the given capacities
    /// (position, normal, texture coordinates, color, tangent) and says
    /// whether any of those buffers grows.
    pub fn write_unwritten(&mut self, capacities: [u64; 5]) -> (r: (VertexWritePlans, bool))
        requires
            old(self).can_flush_all(capacities),
        ensures
            flushes(old(self).position, final(self).position, capacities[0] as nat, r.0.position),
            flushes(old(self).normal, final(self).normal, capacities[1] as nat, r.0.normal),
            flushes(
                old(self).tex_coord,
                final(self).tex_coord,
                capacities[2] as nat,
                r.0.tex_coord,
            ),
            flushes(old(self).color, final(self).color, capacities[3] as nat, r.0.color),
            flushes(old(self).tangent, final(self).tangent, capacities[4] as nat, r.0.tangent),
            r.1 == r.0.any_resized(),
    {
        let position = self.position.take_unwritten(capacities[0]);
        let normal = self.normal.take_unwritten(capacities[1]);
        let tex_coord = self.tex_coord.take_unwritten(capacities[2]);
        let color = self.color.take_unwritten(capacities[3]);
        let tangent = self.tangent.take_unwritten(capacities[4]);
        let mut resized = false;
        resized = resized || position.resize_to.is_some();
        resized = resized || normal.resize_to.is_some();
        resized = resized || tex_coord.resize_to.is_some();
        resized = resized || color.resize_to.is_some();
        resized = resized || tangent.resize_to.is_some();
        (VertexWritePlans { position, normal, tex_coord, color, tangent }, resized)
    }
}

/// The offset at which an optional stream of `n` values lands in a buffer
/// that has `queued` bytes queued: there for a present stream, 0 for an
/// absent one.
pub open spec fn stream_offset(present: bool, queued: nat) -> nat {
    if present {
        queued
    } else {
        0
    }
}

/// A stream of mesh data uploaded into its own shared buffer.
#[derive(Clone, Copy, Debug, PartialEq, Eq, Structural)]
pub enum Stream {
    Position,
    Normal,
    TexCoord,
    Color,
    Tangent,
    Index,
}

/// The bytes `mesh` queues into the buffer of `stream` (none for a stream
/// it lacks).
pub open spec fn stream_bytes(mesh: Mesh, stream: Stream) -> nat {
    match stream {
        Stream::Position => bytes_of::<glam::Vec3>(mesh.parts.positions@.len()),
        Stream::Normal => match mesh.parts.normals {
            Some(n) => bytes_of::<glam::Vec3>(n@.len()),
            None => 0,
        },
        Stream::TexCoord => match mesh.parts.tex_coords {
            Some(t) => bytes_of::<glam::Vec2>(t@.len()),
            None => 0,
        },
        Stream::Color => match mesh.parts.colors {
            Some(c) => bytes_of::<Color>(c@.len()),
            None => 0,
        },
        Stream::Tangent => match mesh.parts.tangents {
            Some(t) => bytes_of::<glam::Vec4>(t@.len()),
            None => 0,
        },
        Stream::Index => bytes_of::<u32>(mesh.indices@.len()),
    }
}

/// The bytes the first `n` of `meshes` queue into the buffer of `stream`.
pub open spec fn prefix_bytes(meshes: Seq<Arc<Mesh>>, n: nat, stream: Stream) -> nat
    decreases n,
{
    if n == 0 {
        0
    } else {
        prefix_bytes(meshes, (n - 1) as nat, stream) + stream_bytes(*meshes[n - 1], stream)
    }
}

/// Queuing more meshes never queues fewer bytes.
pub proof fn lemma_prefix_bytes_monotone(meshes: Seq<Arc<Mesh>>, m: nat, n: nat, stream: Stream)
    requires
        m <= n,
    ensures
        prefix_bytes(meshes, m, stream) <= prefix_bytes(meshes, n, stream),
    decreases n,
{
    if m < n {
        lemma_prefix_bytes_monotone(meshes, m, (n - 1) as nat, stream);
    }
}

/// Meshes uploaded one after another occupy disjoint byte ranges of each
/// buffer: the range of mesh `i` ends no later than that of any later mesh
/// `j` starts.
pub proof fn lemma_uploads_do_not_overlap(meshes: Seq<Arc<Mesh>>, i: nat, j: nat, stream: Stream)
    requires
        i < j,
        j <= meshes.len(),
    ensures
        prefix_bytes(meshes, i, stream) + stream_bytes(*meshes[i as int], stream) <= prefix_bytes(
            meshes,
            j,
            stream,
        ),
{
    lemma_prefix_bytes_monotone(meshes, i + 1, j, stream);
}

/// The shared buffers every mesh is uploaded into: one staging buffer per
/// vertex stream and one for indices.
pub struct Meshes {
    pub vertex_buffers: VertexBuffers,
    pub index_buffer: StagingBuffer<u32>,
}

impl Meshes {
    /// The bytes queued so far in the buffer of `stream`.
    pub open spec fn queued(&self, stream: Stream) -> nat {
        match stream {
            Stream::Position => self.vertex_buffers.position.queued_bytes(),
            Stream::Normal => self.vertex_buffers.normal.queued_bytes(),
            Stream::TexCoord => self.vertex_buffers.tex_coord.queued_bytes(),
            Stream::Color => self.vertex_buffers.color.queued_bytes(),
            Stream::Tangent => self.vertex_buffers.tangent.queued_bytes(),
            Stream::Index => self.index_buffer.queued_bytes(),
        }
    }

    /// Whether the buffer of `stream` has room for `more` bytes.
    pub open spec fn has_room(&self, stream: Stream, more: nat) -> bool {
        self.queued(stream) + more <= u64::MAX
    }

    /// Whether each buffer has room for the streams of `mesh`.
    pub open spec fn has_room_for(&self, mesh: Mesh) -> bool {
        &&& self.has_room(Stream::Position, stream_bytes(mesh, Stream::Position))
        &&& self.has_room(Stream::Normal, stream_bytes(mesh, Stream::Normal))
        &&& self.has_room(Stream::TexCoord, stream_bytes(mesh, Stream::TexCoord))
        &&& self.has_room(Stream::Color, stream_bytes(mesh, Stream::Color))
        &&& self.has_room(Stream::Tangent, stream_bytes(mesh, Stream::Tangent))
        &&& self.has_room(Stream::Index, stream_bytes(mesh, Stream::Index))
    }

    /// Whether `index` is where `mesh` lands when uploaded into buffers
    /// that have `queued(stream)` bytes queued in each stream.
    pub open spec fn lands_at(index: MeshIndex, mesh: Mesh, queued: spec_fn(Stream) -> nat) -> bool {
        &&& index.position_offset == queued(Stream::Position)
        &&& index.index_offset == queued(Stream::Index)
        &&& index.index_count == mesh.indices@.len()
        &&& index.normal_offset == stream_offset(mesh.parts.normals is Some, queued(Stream::Normal))
        &&& index.tex_coord_offset == stream_offset(
            mesh.parts.tex_coords is Some,
            queued(Stream::TexCoord),
        )
        &&& index.color_offset == stream_offset(mesh.parts.colors is Some, queued(Stream::Color))
        &&& index.tangent_offset == stream_offset(
            mesh.parts.tangents is Some,
            queued(Stream::Tangent),
        )
        &&& index.material_id == mesh.material_id
        &&& index.mesh_flags.spec_bits() == format_bits(
            mesh.parts.tex_coords is Some,
            mesh.parts.colors is Some,
            mesh.parts.tangents is Some,
        )
    }

    /// Empty buffers.
    pub fn new() -> (m: Meshes)
        ensures
            m.vertex_buffers.position.queued_bytes() == 0,
            m.vertex_buffers.normal.queued_bytes() == 0,
            m.vertex_buffers.tex_coord.queued_bytes() == 0,
            m.vertex_buffers.color.queued_bytes() == 0,
            m.vertex_buffers.tangent.queued_bytes() == 0,
            m.index_buffer.queued_bytes() == 0,
    {
        Meshes { vertex_buffers: VertexBuffers::new(), index_buffer: StagingBuffer::new() }
    }

    /// Queues every stream of `mesh` and its indices for upload, and
    /// returns where they will live: each present stream at the end of what
    /// its buffer had queued, each absent stream at offset 0.
    pub fn upload_mesh(&mut self, mesh: Arc<Mesh>) -> (index: MeshIndex)
        requires
            old(self).has_room_for(*mesh),
        ensures
            Meshes::lands_at(index, *mesh, |s: Stream| old(self).queued(s)),
            forall|s: Stream| #[trigger] final(self).queued(s) == old(self).queued(s) + stream_bytes(*mesh, s),
            index.position_offset == old(self).vertex_buffers.position.queued_bytes(),
            index.index_offset == old(self).index_buffer.queued_bytes(),
            index.index_count == mesh.indices@.len(),
            index.normal_offset == stream_offset(
                mesh.parts.normals is Some,
                old(self).vertex_buffers.normal.queued_bytes(),
            ),
            index.tex_coord_offset == stream_offset(
                mesh.parts.tex_coords is Some,
                old(self).vertex_buffers.tex_coord.queued_bytes(),
            ),
            index.color_offset == stream_offset(
                mesh.parts.colors is Some,
                old(self).vertex_buffers.color.queued_bytes(),
            ),
            index.tangent_offset == stream_offset(
                mesh.parts.tangents is Some,
                old(self).vertex_buffers.tangent.queued_bytes(),
            ),
            index.material_id == mesh.material_id,
            index.mesh_flags.spec_bits() == format_bits(
                mesh.parts.tex_coords is Some,
                mesh.parts.colors is Some,
                mesh.parts.tangents is Some,
            ),
            final(self).vertex_buffers.position.spec_unwritten() == old(
                self,
            ).vertex_buffers.position.spec_unwritten() + mesh.parts.positions@,
            final(self).index_buffer.spec_unwritten() == old(self).index_buffer.spec_unwritten()
                + mesh.indices@,
            final(self).vertex_buffers.normal.spec_unwritten() == match mesh.parts.normals {
                Some(n) => old(self).vertex_buffers.normal.spec_unwritten() + n@,
                None => old(self).vertex_buffers.normal.spec_unwritten(),
            },
            final(self).vertex_buffers.tex_coord.spec_unwritten() == match mesh.parts.tex_coords {
                Some(t) => old(self).vertex_buffers.tex_coord.spec_unwritten() + t@,
                None => old(self).vertex_buffers.tex_coord.spec_unwritten(),
            },
            final(self).vertex_buffers.color.spec_unwritten() == match mesh.parts.colors {
                Some(c) => old(self).vertex_buffers.color.spec_unwritten() + c@,
                None => old(self).vertex_buffers.color.spec_unwritten(),
            },
            final(self).vertex_buffers.tangent.spec_unwritten() == match mesh.parts.tangents {
                Some(t) => old(self).vertex_buffers.tangent.spec_unwritten() + t@,
                None => old(self).vertex_buffers.tangent.spec_unwritten(),
            },
            final(self).vertex_buffers.position.spec_written_len() == old(
                self,
            ).vertex_buffers.position.spec_written_len(),
            final(self).vertex_buffers.normal.spec_written_len() == old(
                self,
            ).vertex_buffers.normal.spec_written_len(),
            final(self).vertex_buffers.tex_coord.spec_written_len() == old(
                self,
            ).vertex_buffers.tex_coord.spec_written_len(),
            final(self).vertex_buffers.color.spec_written_len() == old(
                self,
            ).vertex_buffers.color.spec_written_len(),
            final(self).vertex_buffers.tangent.spec_written_len() == old(
                self,
            ).vertex_buffers.tangent.spec_written_len(),
            final(self).index_buffer.spec_written_len() == old(
                self,
            ).index_buffer.spec_written_len(),
    {
        let position_offset = self.vertex_buffers.position.queue_write(
            mesh.parts.positions.as_slice(),
        );
        let index_offset = self.index_buffer.queue_write(mesh.indices.as_slice());
        let index_count = mesh.indices.len() as u64;
        let normal_offset = match &mesh.parts.normals {
            Some(n) => self.vertex_buffers.normal.queue_write(n.as_slice()),
            None => 0,
        };
        let tex_coord_offset = match &mesh.parts.tex_coords {
            Some(t) => self.vertex_buffers.tex_coord.queue_write(t.as_slice()),
            None => 0,
        };
        let color_offset = match &mesh.parts.colors {
            Some(c) => self.vertex_buffers.color.queue_write(c.as_slice()),
            None => 0,
        };
        let tangent_offset = match &mesh.parts.tangents {
            Some(t) => self.vertex_buffers.tangent.queue_write(t.as_slice()),
            None => 0,
        };
        proof {
            lemma_bytes_of::<glam::Vec3>(0, 0);
            lemma_bytes_of::<glam::Vec2>(0, 0);
            lemma_bytes_of::<glam::Vec4>(0, 0);
            lemma_bytes_of::<Color>(0, 0);
            assert forall|s: Stream| #[trigger]
                self.queued(s) == old(self).queued(s) + stream_bytes(*mesh, s) by {}
        }
        MeshIndex {
            position_offset,
            normal_offset,
            tex_coord_offset,
            color_offset,
            tangent_offset,
            index_offset,
            index_count,
            material_id: mesh.material_id,
            mesh_flags: mesh.parts.vertex_format(),
        }
    }

    /// Flushes the vertex streams and the indices to GPU buffers of the
    /// given capacities. The vertex bind group must be rebuilt exactly when
    /// a vertex stream's buffer grows.
    pub fn write_unwritten(&mut self, vertex_capacities: [u64; 5], index_capacity: u64) -> (r: (
        VertexWritePlans,
        WritePlan<u32>,
        bool,
    ))
        requires
            old(self).vertex_buffers.can_flush_all(vertex_capacities),
            can_flush(old(self).index_buffer, index_capacity as nat),
        ensures
            flushes(
                old(self).vertex_buffers.position,
                final(self).vertex_buffers.position,
                vertex_capacities[0] as nat,
                r.0.position,
            ),
            flushes(
                old(self).vertex_buffers.normal,
                final(self).vertex_buffers.normal,
                vertex_capacities[1] as nat,
                r.0.normal,
            ),
            flushes(
                old(self).vertex_buffers.tex_coord,
                final(self).vertex_buffers.tex_coord,
                vertex_capacities[2] as nat,
                r.0.tex_coord,
            ),
            flushes(
                old(self).vertex_buffers.color,
                final(self).vertex_buffers.color,
                vertex_capacities[3] as nat,
                r.0.color,
            ),
            flushes(
                old(self).vertex_buffers.tangent,
                final(self).vertex_buffers.tangent,
                vertex_capacities[4] as nat,
                r.0.tangent,
            ),
            flushes(old(self).index_buffer, final(self).index_buffer, index_capacity as nat, r.1),
            r.2 == r.0.any_resized(),
    {
        let (vertices, rebuild) = self.vertex_buffers.write_unwritten(vertex_capacities);
        let indices = self.index_buffer.take_unwritten(index_capacity);
        (vertices, indices, rebuild)
    }

    /// The place of an already uploaded mesh, if it is known. No upload is
    /// ever recorded for lookup, so no mesh is known and every request
    /// uploads afresh.
    pub fn get_mesh_index(&self, mesh: Arc<Mesh>) -> (r: Option<MeshIndex>)
        ensures
            r is None,
    {
        None
    }
}

} // verus!
