use vstd::prelude::*;

use crate::assets::materials::Materials;
use crate::assets::asset_map::{has_key, position_of};
use crate::render::mesh::VertexFormat;
use crate::scene::meshes::MeshIndex;

verus! {

/// What one draw of a mesh hands the GPU: where the mesh's vertex streams
/// start (truncated to 32 bits), its vertex format, and the slots of its
/// transform and material.
#[derive(Clone, Copy, Debug, PartialEq, Eq, PartialOrd, Ord, Structural)]
pub struct Instance {
    pub position_offset: u32,
    pub normal_offset: u32,
    pub tex_coord_offset: u32,
    pub color_offset: u32,
    pub tangent_offset: u32,
    pub mesh_flags: VertexFormat,
    pub transform_index: u32,
    pub material_index: u32,
}

/// Whether `instance` draws `mesh_index` with the given transform and
/// material slots.
pub open spec fn instance_of(
    instance: Instance,
    mesh_index: MeshIndex,
    transform_index: u32,
    material_index: u32,
) -> bool {
    &&& instance.position_offset == mesh_index.position_offset as u32
    &&& instance.normal_offset == mesh_index.normal_offset as u32
    &&& instance.tex_coord_offset == mesh_index.tex_coord_offset as u32
    &&& instance.color_offset == mesh_index.color_offset as u32
    &&& instance.tangent_offset == mesh_index.tangent_offset as u32
    &&& instance.mesh_flags == mesh_index.mesh_flags
    &&& instance.transform_index == transform_index
    &&& instance.material_index == material_index
}

impl Instance {
    /// The instance drawing `mesh_index` with the given transform and the
    /// default material (slot 0).
    pub fn from_mesh_transform_indices_without_material(
        mesh_index: MeshIndex,
        transform_index: u32,
    ) -> (i: Instance)
        ensures
            instance_of(i, mesh_index, transform_index, 0),
    {
        Instance {
            position_offset: mesh_index.position_offset as u32,
            normal_offset: mesh_index.normal_offset as u32,
            tex_coord_offset: mesh_index.tex_coord_offset as u32,
            color_offset: mesh_index.color_offset as u32,
            tangent_offset: mesh_index.tangent_offset as u32,
            mesh_flags: mesh_index.mesh_flags,
            transform_index,
            material_index: 0,
        }
    }

    /// The instance drawing `mesh_index` with the given transform and the
    /// mesh's material: its slot in the materials' bind group (truncated to
    /// 32 bits), or the default slot 0 where the material is not loaded.
    pub fn from_mesh_transform_indices_with_materials<M, B>(
        mesh_index: MeshIndex,
        transform_index: u32,
        materials: &Materials<M, B>,
    ) -> (i: Instance)
        ensures
            instance_of(
                i,
                mesh_index,
                transform_index,
                if materials.has(mesh_index.material_id) {
                    (position_of(materials.entries(), mesh_index.material_id) + 1) as u32
                } else {
                    0
                },
            ),
    {
        let slot = match materials.id_to_bindgroup_index(mesh_index.material_id) {
            Some(s) => s,
            None => 0,
        };
        Instance {
            position_offset: mesh_index.position_offset as u32,
            normal_offset: mesh_index.normal_offset as u32,
            tex_coord_offset: mesh_index.tex_coord_offset as u32,
            color_offset: mesh_index.color_offset as u32,
            tangent_offset: mesh_index.tangent_offset as u32,
            mesh_flags: mesh_index.mesh_flags,
            transform_index,
            material_index: slot as u32,
        }
    }
}

} // verus!
