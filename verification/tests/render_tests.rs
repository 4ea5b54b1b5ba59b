use wormhole::render::surface::{
    choose_surface_format, material_texture_count, surface_error_action, SurfaceAction,
    SurfaceError, MAX_TEXTURE_COUNT,
};
use wormhole::assets::{MaterialId, Materials, TextureId, Textures};
use wormhole::render::growth::{grown_size, resize_for};
use wormhole::render::material::{
    HAS_BASE_COLOR_TEXTURE, HAS_EMISSIVE_TEXTURE, HAS_METALLIC_ROUGHNESS_TEXTURE,
    HAS_NORMAL_TEXTURE, HAS_OCCLUSION_TEXTURE,
};
use wormhole::render::mesh::{HAS_TEX_COORDS, HAS_VTX_COLOR, HAS_VTX_NORMALS, HAS_VTX_TANGENT};
use wormhole::render::{
    Color, InstanceWriter, MaterialFlags, MaterialTextures, Mesh, MeshInstance, MeshParts,
    MeshWriter, Model, Vertex, VertexFormat,
};
use wormhole::scene::MeshIndex;

fn bare_parts() -> MeshParts {
    MeshParts {
        positions: vec![glam::Vec3::new(1.0, 2.0, 3.0)],
        normals: None,
        tex_coords: None,
        colors: None,
        tangents: None,
    }
}

fn vertex(x: f32) -> Vertex {
    Vertex {
        position: glam::Vec3::new(x, 0.0, 0.0),
        tex_coords: glam::Vec2::ZERO,
        normal: glam::Vec3::Y,
        tangent: glam::Vec3::X,
        bitangent: glam::Vec3::Z,
    }
}

fn mesh_index(material_id: MaterialId) -> MeshIndex {
    MeshIndex {
        position_offset: 12,
        normal_offset: 0,
        tex_coord_offset: 8,
        color_offset: (1u64 << 32) + 5,
        tangent_offset: 16,
        index_offset: 40,
        index_count: 6,
        material_id,
        mesh_flags: VertexFormat::from_bits_retain(HAS_TEX_COORDS),
    }
}

#[test]
fn vertex_format_of_bare_parts_is_empty() {
    assert_eq!(bare_parts().vertex_format().bits(), 0);
}

#[test]
fn vertex_format_flags_present_attributes_but_never_normals() {
    let mut parts = bare_parts();
    parts.normals = Some(vec![glam::Vec3::Y]);
    parts.tex_coords = Some(vec![glam::Vec2::ZERO]);
    let f = parts.vertex_format();
    assert_eq!(f.bits(), HAS_TEX_COORDS);
    assert!(!f.contains(HAS_VTX_NORMALS));
    parts.colors = Some(vec![Color::from_rgba_normalized(glam::Vec4::ONE)]);
    parts.tangents = Some(vec![glam::Vec4::ONE]);
    let f = parts.vertex_format();
    assert_eq!(f.bits(), HAS_TEX_COORDS | HAS_VTX_COLOR | HAS_VTX_TANGENT);
    assert!(f.contains(HAS_VTX_TANGENT | HAS_VTX_COLOR));
}

#[test]
fn vertex_format_set_and_clear() {
    let mut f = VertexFormat::empty();
    f.set(HAS_VTX_NORMALS, true);
    f.set(HAS_VTX_COLOR, true);
    f.set(HAS_VTX_NORMALS, false);
    assert_eq!(f.bits(), HAS_VTX_COLOR);
}

#[test]
fn mesh_new_copies_its_data() {
    let parts = bare_parts();
    let m = Mesh::new(&parts, &[0, 0, 0], MaterialId::Path(3));
    assert_eq!(m.parts.positions, parts.positions);
    assert!(m.parts.normals.is_none());
    assert_eq!(m.indices, vec![0, 0, 0]);
    assert_eq!(m.material_id, MaterialId::Path(3));
}

#[test]
fn mesh_from_gltf_primitive_defaults_to_first_material() {
    let mut parts = bare_parts();
    parts.tangents = Some(vec![glam::Vec4::ONE]);
    let g = wormhole::assets::GltfId(9);
    let m = Mesh::from_gltf_primitive(g, parts.clone(), vec![0, 0, 0], None);
    assert_eq!(m.material_id, MaterialId::Gltf(g, 0));
    let m = Mesh::from_gltf_primitive(g, parts, vec![0, 0, 0], Some(4));
    assert_eq!(m.material_id, MaterialId::Gltf(g, 4));
    assert_eq!(m.indices, vec![0, 0, 0]);
}

#[test]
fn model_new_copies() {
    let m = Model::new("tri", &[vertex(1.0), vertex(2.0)], &[0, 1, 1]);
    assert_eq!(m.name, "tri");
    assert_eq!(m.vertices.len(), 2);
    assert_eq!(m.vertices[1].position, glam::Vec3::new(2.0, 0.0, 0.0));
    assert_eq!(m.indices, vec![0, 1, 1]);
}

#[test]
fn instance_without_material_truncates_offsets() {
    let i = MeshInstance::from_mesh_transform_indices_without_material(
        mesh_index(MaterialId::Path(0)),
        3,
    );
    assert_eq!(i.position_offset, 12);
    assert_eq!(i.tex_coord_offset, 8);
    assert_eq!(i.color_offset, 5);
    assert_eq!(i.tangent_offset, 16);
    assert_eq!(i.transform_index, 3);
    assert_eq!(i.material_index, 0);
    assert_eq!(i.mesh_flags.bits(), HAS_TEX_COORDS);
}

#[test]
fn instance_with_materials_uses_slot_or_default() {
    let mut materials: Materials<u8, ()> = Materials::new();
    materials.insert(MaterialId::Path(1), 0);
    materials.insert(MaterialId::Path(2), 0);
    let i = MeshInstance::from_mesh_transform_indices_with_materials(
        mesh_index(MaterialId::Path(2)),
        1,
        &materials,
    );
    assert_eq!(i.material_index, 2);
    let j = MeshInstance::from_mesh_transform_indices_with_materials(
        mesh_index(MaterialId::Path(7)),
        1,
        &materials,
    );
    assert_eq!(j.material_index, 0);
    assert_eq!(j.transform_index, 1);
}

#[test]
fn material_flags_follow_textures() {
    let mut t = MaterialTextures::none();
    assert_eq!(t.calculate_flags().bits(), 0);
    t.base_color_texture = Some(TextureId::Path(1));
    t.normal_texture = Some(TextureId::Path(2));
    let f = t.calculate_flags();
    assert_eq!(f.bits(), HAS_BASE_COLOR_TEXTURE | HAS_NORMAL_TEXTURE);
    assert!(f.contains(HAS_NORMAL_TEXTURE));
    assert!(!f.contains(HAS_EMISSIVE_TEXTURE));
    t.emissive_texture = Some(TextureId::Path(3));
    t.metallic_roughness_texture = Some(TextureId::Path(3));
    t.occlusion_texture = Some(TextureId::Path(3));
    assert_eq!(t.calculate_flags().bits(), 0b1_1111);
    assert!(t.calculate_flags().contains(HAS_METALLIC_ROUGHNESS_TEXTURE | HAS_OCCLUSION_TEXTURE));
}

#[test]
fn material_flags_set_and_clear() {
    let mut f = MaterialFlags::empty();
    f.set(HAS_OCCLUSION_TEXTURE, true);
    f.set(HAS_BASE_COLOR_TEXTURE, true);
    f.set(HAS_OCCLUSION_TEXTURE, false);
    assert_eq!(f.bits(), HAS_BASE_COLOR_TEXTURE);
}

#[test]
fn material_slots_look_up_textures() {
    let mut textures: Textures<u8> = Textures::new(0);
    textures.insert(TextureId::Path(10), 1);
    textures.insert(TextureId::Path(20), 2);
    let t = MaterialTextures {
        base_color_texture: Some(TextureId::Path(20)),
        emissive_texture: Some(TextureId::Path(99)),
        metallic_roughness_texture: None,
        normal_texture: Some(TextureId::Path(10)),
        occlusion_texture: None,
    };
    let s = t.as_slots(&textures);
    assert_eq!(s.base_color_texture, 2);
    assert_eq!(s.emissive_texture, 0);
    assert_eq!(s.metallic_roughness_texture, 0);
    assert_eq!(s.normal_texture, 1);
    assert_eq!(s.occlusion_texture, 0);
    assert_eq!(s.flags.bits(), HAS_BASE_COLOR_TEXTURE | HAS_EMISSIVE_TEXTURE | HAS_NORMAL_TEXTURE);
}

#[test]
fn growth_is_half_again() {
    assert_eq!(grown_size(100), 150);
    assert_eq!(grown_size(101), 151);
    assert_eq!(grown_size(0), 0);
    assert_eq!(resize_for(100, 100), None);
    assert_eq!(resize_for(100, 101), Some(151));
}

#[test]
fn instance_writer_counts_and_grows() {
    let mut w = InstanceWriter::new();
    let i = MeshInstance::from_mesh_transform_indices_without_material(
        mesh_index(MaterialId::Path(0)),
        0,
    );
    assert_eq!(w.push(i), 0);
    assert_eq!(w.push(i), 1);
    let size = std::mem::size_of::<MeshInstance>() as u64;
    let (data, resize) = w.finish(2 * size);
    assert_eq!(data.len(), 2);
    assert_eq!(resize, None);
    let mut w = InstanceWriter::new();
    w.push(i);
    w.push(i);
    w.push(i);
    let (_, resize) = w.finish(2 * size);
    assert_eq!(resize, Some(3 * size / 2 + 3 * size));
}

#[test]
fn mesh_writer_offsets_are_bytes_so_far() {
    let mut w = MeshWriter::new();
    let v = std::mem::size_of::<Vertex>() as u64;
    assert_eq!(w.push(&[vertex(0.0), vertex(1.0)], &[0, 1, 0]), (0, 0));
    assert_eq!(w.push(&[vertex(2.0)], &[0]), (2 * v, 12));
    let (vertices, vresize, indices, iresize) = w.finish(3 * v, 8);
    assert_eq!(vertices.len(), 3);
    assert_eq!(vresize, None);
    assert_eq!(indices, vec![0, 1, 0, 0]);
    assert_eq!(iresize, Some(16 / 2 + 16));
}

#[test]
fn gltf_material_textures_name_the_document_textures() {
    let doc = wormhole::assets::GltfId(9);
    let t = MaterialTextures::from_gltf(doc, Some(0), None, Some(3), Some(3), None);
    assert_eq!(t.base_color_texture, Some(TextureId::Gltf(doc, 0)));
    assert_eq!(t.emissive_texture, None);
    assert_eq!(t.metallic_roughness_texture, Some(TextureId::Gltf(doc, 3)));
    assert_eq!(t.normal_texture, Some(TextureId::Gltf(doc, 3)));
    assert_eq!(t.occlusion_texture, None);
    assert_eq!(t.calculate_flags().bits(), HAS_BASE_COLOR_TEXTURE | HAS_METALLIC_ROUGHNESS_TEXTURE | HAS_NORMAL_TEXTURE);
}

#[test]
fn material_texture_count_is_a_quarter_of_the_device_limit_capped() {
    assert_eq!(material_texture_count(16), 4);
    assert_eq!(material_texture_count(7), 1);
    assert_eq!(material_texture_count(u32::MAX), MAX_TEXTURE_COUNT);
    assert_eq!(MAX_TEXTURE_COUNT, 1 << 17);
}

#[test]
fn surface_format_prefers_the_first_srgb_one() {
    assert_eq!(choose_surface_format(&[false, true, true]), 1);
    assert_eq!(choose_surface_format(&[false, false]), 0);
    assert_eq!(choose_surface_format(&[true]), 0);
}

#[test]
fn surface_errors_reconfigure_or_skip() {
    assert_eq!(surface_error_action(SurfaceError::Outdated), SurfaceAction::Reconfigure);
    assert_eq!(surface_error_action(SurfaceError::Lost), SurfaceAction::Reconfigure);
    assert_eq!(surface_error_action(SurfaceError::Timeout), SurfaceAction::Skip);
}

#[test]
fn meshes_clone_with_their_data() {
    let parts = MeshParts {
        positions: vec![glam::Vec3::ONE],
        normals: None,
        tex_coords: None,
        colors: None,
        tangents: Some(vec![glam::Vec4::ONE]),
    };
    let mesh = Mesh::new(&parts, &[0, 0, 0], MaterialId::Path(3));
    let copy = mesh.clone();
    assert_eq!(copy.indices, vec![0, 0, 0]);
    assert_eq!(copy.material_id, MaterialId::Path(3));
    assert_eq!(copy.parts.positions, vec![glam::Vec3::ONE]);
}
