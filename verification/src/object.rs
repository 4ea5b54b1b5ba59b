//! A single-mesh object with its own texture bindings.

use vstd::prelude::*;

use crate::render::transform::Transform;
use crate::scene::meshes::MeshIndex;

verus! {

/// An object drawn from one uploaded mesh with its own textures (of the
/// GPU binding type `X` the application creates).
pub struct Object<X> {
    pub transform: Transform,
    pub mesh_index: MeshIndex,
    pub textures: X,
}

impl<X> Object<X> {
    /// The object drawing the mesh at `model_index` at `transform` with
    /// `textures`.
    pub fn new(transform: Transform, model_index: MeshIndex, textures: X) -> (o: Object<X>)
        ensures
            o.transform == transform,
            o.mesh_index == model_index,
            o.textures == textures,
    {
        Object { transform, mesh_index: model_index, textures }
    }
}

} // verus!
