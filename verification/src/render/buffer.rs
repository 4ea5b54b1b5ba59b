use vstd::layout::size_of;
use vstd::prelude::*;

use crate::render::growth::{grown, resize_for};
use crate::render::instance::Instance;
use crate::render::vertex::Vertex;
use crate::scene::meshes::{bytes_of, lemma_bytes_of};

verus! {

/// The instances of one frame, queued to be written to the instance
/// buffer in the order they were pushed.
pub struct InstanceWriter {
    instances: Vec<Instance>,
}

impl InstanceWriter {
    /// The instances pushed so far.
    pub closed spec fn pushed(&self) -> Seq<Instance> {
        self.instances@
    }

    /// A writer with nothing pushed.
    pub fn new() -> (w: InstanceWriter)
        ensures
            w.pushed() == Seq::<Instance>::empty(),
    {
        InstanceWriter { instances: Vec::new() }
    }

    /// Queues `instance` and returns its index in the buffer.
    pub fn push(&mut self, instance: Instance) -> (index: u64)
        requires
            old(self).pushed().len() < u64::MAX,
        ensures
            index == old(self).pushed().len(),
            final(self).pushed() == old(self).pushed().push(instance),
    {
        let index = self.instances.len() as u64;
        self.instances.push(instance);
        index
    }

    /// Finishes the frame for an instance buffer of `capacity` bytes: the
    /// instances to write from its start, and the size to grow the buffer
    /// to where they do not fit (half as large again as they need).
    pub fn finish(self, capacity: u64) -> (r: (Vec<Instance>, Option<u64>))
        requires
            bytes_of::<Instance>(self.pushed().len()) <= u64::MAX,
            bytes_of::<Instance>(self.pushed().len()) > capacity ==> grown(
                bytes_of::<Instance>(self.pushed().len()),
            ) <= u64::MAX,
        ensures
            r.0@ == self.pushed(),
            r.1 == if bytes_of::<Instance>(self.pushed().len()) > capacity {
                Some(grown(bytes_of::<Instance>(self.pushed().len())) as u64)
            } else {
                None
            },
    {
        let elem = core::mem::size_of::<Instance>() as u64;
        let count = self.instances.len() as u64;
        assert(count * elem == bytes_of::<Instance>(count as nat)) by (nonlinear_arith)
            requires
                elem == size_of::<Instance>(),
        ;
        let needed = count * elem;
        let resize = resize_for(capacity, needed);
        (self.instances, resize)
    }
}

/// The vertices and indices of one frame's meshes, queued to be written to
/// the vertex and index buffers in the order they were pushed.
pub struct MeshWriter {
    vertices: Vec<Vertex>,
    indices: Vec<u32>,
}

impl MeshWriter {
    /// The vertices pushed so far.
    pub closed spec fn pushed_vertices(&self) -> Seq<Vertex> {
        self.vertices@
    }

    /// The indices pushed so far.
    pub closed spec fn pushed_indices(&self) -> Seq<u32> {
        self.indices@
    }

    /// A writer with nothing pushed.
    pub fn new() -> (w: MeshWriter)
        ensures
            w.pushed_vertices() == Seq::<Vertex>::empty(),
            w.pushed_indices() == Seq::<u32>::empty(),
    {
        MeshWriter { vertices: Vec::new(), indices: Vec::new() }
    }

    /// Queues a mesh's vertices and indices and returns the byte offsets
    /// they will be written at in the vertex and index buffers.
    pub fn push(&mut self, vertices: &[Vertex], indices: &[u32]) -> (offsets: (u64, u64))
        requires
            bytes_of::<Vertex>(old(self).pushed_vertices().len() + vertices@.len()) <= u64::MAX,
            bytes_of::<u32>(old(self).pushed_indices().len() + indices@.len()) <= u64::MAX,
        ensures
            offsets.0 == bytes_of::<Vertex>(old(self).pushed_vertices().len()),
            offsets.1 == bytes_of::<u32>(old(self).pushed_indices().len()),
            final(self).pushed_vertices() == old(self).pushed_vertices() + vertices@,
            final(self).pushed_indices() == old(self).pushed_indices() + indices@,
    {
        let vertex_size = core::mem::size_of::<Vertex>() as u64;
        let index_size = core::mem::size_of::<u32>() as u64;
        let vcount = self.vertices.len() as u64;
        let icount = self.indices.len() as u64;
        proof {
            lemma_bytes_of::<Vertex>(vcount as nat, vertices@.len());
            lemma_bytes_of::<u32>(icount as nat, indices@.len());
            assert(vcount * vertex_size == bytes_of::<Vertex>(vcount as nat)) by (nonlinear_arith)
                requires
                    vertex_size == size_of::<Vertex>(),
            ;
            assert(icount * index_size == bytes_of::<u32>(icount as nat)) by (nonlinear_arith)
                requires
                    index_size == size_of::<u32>(),
            ;
        }
        let offsets = (vcount * vertex_size, icount * index_size);
        crate::render::mesh::append_copies(&mut self.vertices, vertices);
        crate::render::mesh::append_copies(&mut self.indices, indices);
        offsets
    }

    /// Finishes the frame for vertex and index buffers of the given
    /// capacities in bytes: the data to write from their starts, and the
    /// size to grow each buffer to where its data does not fit.
    pub fn finish(self, vertex_capacity: u64, index_capacity: u64) -> (r: (
        Vec<Vertex>,
        Option<u64>,
        Vec<u32>,
        Option<u64>,
    ))
        requires
            bytes_of::<Vertex>(self.pushed_vertices().len()) <= u64::MAX,
            bytes_of::<u32>(self.pushed_indices().len()) <= u64::MAX,
            bytes_of::<Vertex>(self.pushed_vertices().len()) > vertex_capacity ==> grown(
                bytes_of::<Vertex>(self.pushed_vertices().len()),
            ) <= u64::MAX,
            bytes_of::<u32>(self.pushed_indices().len()) > index_capacity ==> grown(
                bytes_of::<u32>(self.pushed_indices().len()),
            ) <= u64::MAX,
        ensures
            r.0@ == self.pushed_vertices(),
            r.2@ == self.pushed_indices(),
            r.1 == if bytes_of::<Vertex>(self.pushed_vertices().len()) > vertex_capacity {
                Some(grown(bytes_of::<Vertex>(self.pushed_vertices().len())) as u64)
            } else {
                None
            },
            r.3 == if bytes_of::<u32>(self.pushed_indices().len()) > index_capacity {
                Some(grown(bytes_of::<u32>(self.pushed_indices().len())) as u64)
            } else {
                None
            },
    {
        let vertex_size = core::mem::size_of::<Vertex>() as u64;
        let index_size = core::mem::size_of::<u32>() as u64;
        let vcount = self.vertices.len() as u64;
        let icount = self.indices.len() as u64;
        proof {
            assert(vcount * vertex_size == bytes_of::<Vertex>(vcount as nat)) by (nonlinear_arith)
                requires
                    vertex_size == size_of::<Vertex>(),
            ;
            assert(icount * index_size == bytes_of::<u32>(icount as nat)) by (nonlinear_arith)
                requires
                    index_size == size_of::<u32>(),
            ;
        }
        let vertex_resize = resize_for(vertex_capacity, vcount * vertex_size);
        let index_resize = resize_for(index_capacity, icount * index_size);
        (self.vertices, vertex_resize, self.indices, index_resize)
    }
}

} // verus!
