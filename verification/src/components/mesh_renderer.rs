use std::sync::Arc;

use vstd::prelude::*;

use crate::assets::asset_map::position_of;
use crate::assets::materials::Materials;
use crate::render::buffer::InstanceWriter;
use crate::render::instance::{instance_of, Instance};
use crate::render::mesh::Mesh;
use crate::scene::meshes::{MeshIndex, Meshes, Stream};

verus! {

/// Draws one mesh at the entity's transform.
#[derive(Debug)]
pub struct MeshRenderer {
    pub mesh_index: MeshIndex,
}

/// A mesh ready to draw: the index of its instance, and the byte offset and
/// count of its indices (each truncated to 32 bits).
#[derive(Clone, Copy, Debug, PartialEq, Eq, Structural)]
pub struct PreparedMesh {
    instance_index: u32,
    index_count: u32,
    index_offset: u32,
}

/// The index range and instance range a draw of `count` indices starting
/// at byte `offset`, for the instance at `instance`, covers.
pub open spec fn draw_span(offset: u32, count: u32, instance: u32) -> (int, int, int, int) {
    ((offset / 4) as int, offset / 4 + count, instance as int, instance + 1)
}

impl PreparedMesh {
    /// The instance index.
    pub closed spec fn spec_instance_index(&self) -> u32 {
        self.instance_index
    }

    /// The number of indices.
    pub closed spec fn spec_index_count(&self) -> u32 {
        self.index_count
    }

    /// The byte offset of the indices.
    pub closed spec fn spec_index_offset(&self) -> u32 {
        self.index_offset
    }

    /// The prepared draw of the given instance and index span.
    pub fn new(instance_index: u32, index_count: u32, index_offset: u32) -> (p: PreparedMesh)
        ensures
            p.spec_instance_index() == instance_index,
            p.spec_index_count() == index_count,
            p.spec_index_offset() == index_offset,
    {
        PreparedMesh { instance_index, index_count, index_offset }
    }

    /// The ranges to draw: the indices (the byte offset turned into a count
    /// of 32-bit indices) and the single instance. Neither range's end may
    /// overflow.
    pub fn draw_ranges(&self) -> (r: (std::ops::Range<u32>, std::ops::Range<u32>))
        requires
            self.spec_index_offset() / 4 + self.spec_index_count() <= u32::MAX,
            self.spec_instance_index() < u32::MAX,
        ensures
            (r.0.start as int, r.0.end as int, r.1.start as int, r.1.end as int) == draw_span(
                self.spec_index_offset(),
                self.spec_index_count(),
                self.spec_instance_index(),
            ),
            4 * r.0.start <= self.spec_index_offset() < 4 * r.0.start + 4,
            r.0.end == r.0.start + self.spec_index_count(),
            r.1.start == self.spec_instance_index(),
            r.1.end == self.spec_instance_index() + 1,
    {
        let index_start = self.index_offset / 4;
        let index_end = index_start + self.index_count;
        let instance_start = self.instance_index;
        let instance_end = self.instance_index + 1;
        (index_start..index_end, instance_start..instance_end)
    }
}

/// A draw covers the indices from the one at byte `offset` on (indices
/// being 4 bytes each): its first index is the one whose bytes hold the
/// offset, so an aligned offset is exactly 4 times the first index; it
/// covers `count` indices, and the one instance `instance`.
pub proof fn lemma_draw_span_covers_the_indices(offset: u32, count: u32, instance: u32)
    ensures
        ({
            let (start, end, first, last) = draw_span(offset, count, instance);
            &&& 4 * start <= offset < 4 * start + 4
            &&& offset % 4 == 0 ==> 4 * start == offset
            &&& end == start + count
            &&& first == instance
            &&& last == instance + 1
        }),
{
    let q = (offset / 4) as int;
    assert(4 * q <= offset < 4 * q + 4) by (nonlinear_arith)
        requires
            q == offset as int / 4,
    ;
}

/// Queues the instance of `instance` for drawing `mesh_index` and returns
/// the prepared draw.
pub fn prepare_instance(
    mesh_index: MeshIndex,
    instance: Instance,
    instances: &mut InstanceWriter,
) -> (p: PreparedMesh)
    requires
        old(instances).pushed().len() < u64::MAX,
    ensures
        final(instances).pushed() == old(instances).pushed().push(instance),
        p.spec_instance_index() == old(instances).pushed().len() as u32,
        p.spec_index_count() == mesh_index.index_count as u32,
        p.spec_index_offset() == mesh_index.index_offset as u32,
{
    let instance_index = instances.push(instance) as u32;
    PreparedMesh {
        instance_index,
        index_count: mesh_index.index_count as u32,
        index_offset: mesh_index.index_offset as u32,
    }
}

impl MeshRenderer {
    /// Uploads `mesh` and renders it.
    pub fn new(meshes: &mut Meshes, mesh: Arc<Mesh>) -> (r: MeshRenderer)
        requires
            old(meshes).has_room_for(*mesh),
        ensures
            Meshes::lands_at(r.mesh_index, *mesh, |s: Stream| old(meshes).queued(s)),
            forall|s: Stream| #[trigger] final(meshes).queued(s) == old(meshes).queued(s)
                + crate::scene::meshes::stream_bytes(*mesh, s),
    {
        let mesh_index = meshes.upload_mesh(mesh);
        MeshRenderer { mesh_index }
    }

    /// Queues the instance drawing the mesh at the transform of slot
    /// `transform_index` with its material, and returns the prepared draw.
    pub fn prepare<M, B>(
        &self,
        transform_index: u32,
        instances: &mut InstanceWriter,
        materials: &Materials<M, B>,
    ) -> (p: PreparedMesh)
        requires
            old(instances).pushed().len() < u64::MAX,
        ensures
            final(instances).pushed().len() == old(instances).pushed().len() + 1,
            final(instances).pushed().drop_last() == old(instances).pushed(),
            instance_of(
                final(instances).pushed().last(),
                self.mesh_index,
                transform_index,
                if materials.has(self.mesh_index.material_id) {
                    (position_of(materials.entries(), self.mesh_index.material_id) + 1) as u32
                } else {
                    0
                },
            ),
            p.spec_instance_index() == old(instances).pushed().len() as u32,
            p.spec_index_count() == self.mesh_index.index_count as u32,
            p.spec_index_offset() == self.mesh_index.index_offset as u32,
    {
        let instance = Instance::from_mesh_transform_indices_with_materials(
            self.mesh_index,
            transform_index,
            materials,
        );
        let p = prepare_instance(self.mesh_index, instance, instances);
        assert(final(instances).pushed().drop_last() =~= old(instances).pushed());
        p
    }
}

/// Queues the instance drawing a light's mesh at the transform of slot
/// `transform_index`, without material, and returns the prepared draw.
pub fn prepare_light_object(
    mesh_index: MeshIndex,
    transform_index: u32,
    instances: &mut InstanceWriter,
) -> (p: PreparedMesh)
    requires
        old(instances).pushed().len() < u64::MAX,
    ensures
        final(instances).pushed().len() == old(instances).pushed().len() + 1,
        final(instances).pushed().drop_last() == old(instances).pushed(),
        instance_of(final(instances).pushed().last(), mesh_index, transform_index, 0),
        p.spec_instance_index() == old(instances).pushed().len() as u32,
        p.spec_index_count() == mesh_index.index_count as u32,
        p.spec_index_offset() == mesh_index.index_offset as u32,
{
    let instance = Instance::from_mesh_transform_indices_without_material(mesh_index, transform_index);
    let p = prepare_instance(mesh_index, instance, instances);
    assert(final(instances).pushed().drop_last() =~= old(instances).pushed());
    p
}

} // verus!
