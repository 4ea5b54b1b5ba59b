use vstd::prelude::*;

use crate::assets::models::Model as AssetModel;
use crate::render::transform::Transform;
use crate::scene::meshes::{prefix_bytes, lemma_prefix_bytes_monotone, MeshIndex, Meshes, Stream};

verus! {

/// An object placed in the scene: where it is, and where each mesh of its
/// model lives in the shared buffers.
pub struct Object {
    pub transform: Transform,
    pub mesh_indices: Vec<MeshIndex>,
}

/// Whether the shared buffers have room for all meshes of `model`.
pub open spec fn has_room_for_model(meshes: Meshes, model: AssetModel) -> bool {
    forall|s: Stream| #[trigger] meshes.has_room(s, prefix_bytes(model.meshes@, model.meshes@.len(), s))
}

impl Object {
    /// Places the meshes of `model` at `transform`, uploading each mesh in
    /// turn: mesh `i` lands after everything queued before it, including
    /// the meshes of the model before it.
    pub fn new(meshes: &mut Meshes, transform: Transform, model: &AssetModel) -> (o: Object)
        requires
            has_room_for_model(*old(meshes), *model),
        ensures
            o.transform == transform,
            o.mesh_indices@.len() == model.meshes@.len(),
            forall|i: int|
                0 <= i < model.meshes@.len() ==> Meshes::lands_at(
                    #[trigger] o.mesh_indices@[i],
                    *model.meshes@[i],
                    |s: Stream| old(meshes).queued(s) + prefix_bytes(model.meshes@, i as nat, s),
                ),
            forall|s: Stream| #[trigger] final(meshes).queued(s) == old(meshes).queued(s)
                + prefix_bytes(model.meshes@, model.meshes@.len(), s),
    {
        let mut mesh_indices: Vec<MeshIndex> = Vec::new();
        let mut i: usize = 0;
        let ghost all = model.meshes@;
        while i < model.meshes.len()
            invariant
                0 <= i <= all.len(),
                all == model.meshes@,
                has_room_for_model(*old(meshes), *model),
                mesh_indices@.len() == i,
                forall|s: Stream| #[trigger] meshes.queued(s) == old(meshes).queued(s)
                    + prefix_bytes(all, i as nat, s),
                forall|j: int|
                    0 <= j < i ==> Meshes::lands_at(
                        #[trigger] mesh_indices@[j],
                        *all[j],
                        |s: Stream| old(meshes).queued(s) + prefix_bytes(all, j as nat, s),
                    ),
            decreases all.len() - i,
        {
            proof {
                assert forall|s: Stream| #[trigger] meshes.has_room(s, crate::scene::meshes::stream_bytes(*all[i as int], s)) by {
                    lemma_prefix_bytes_monotone(all, (i + 1) as nat, all.len(), s);
                    assert(old(meshes).has_room(s, prefix_bytes(all, all.len(), s)));
                }
                assert(meshes.has_room_for(*all[i as int]));
            }
            let index = meshes.upload_mesh(model.meshes[i].clone());
            mesh_indices.push(index);
            proof {
                let q = |s: Stream| old(meshes).queued(s) + prefix_bytes(all, i as nat, s);
                assert forall|s: Stream| #[trigger] meshes.queued(s) == old(meshes).queued(s)
                    + prefix_bytes(all, (i + 1) as nat, s) by {
                }
            }
            i = i + 1;
        }
        Object { transform, mesh_indices }
    }
}

} // verus!
