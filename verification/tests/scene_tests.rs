use std::sync::Arc;

use wormhole::assets::{MaterialId, Materials, Model as AssetModel};
use wormhole::components::{MeshRenderer, PreparedMesh};
use wormhole::components::mesh_renderer::prepare_light_object;
use wormhole::render::mesh::{HAS_TEX_COORDS, HAS_VTX_TANGENT};
use wormhole::render::{InstanceWriter, Mesh, MeshParts, Object, Transform};
use wormhole::scene::meshes::StagingBuffer;
use wormhole::scene::{FixedMainScheduleOrder, Label, MainScheduleOrder, Meshes};

fn mesh(n: usize, with_tangents: bool, indices: usize) -> Mesh {
    let parts = MeshParts {
        positions: vec![glam::Vec3::ZERO; n],
        normals: None,
        tex_coords: Some(vec![glam::Vec2::ZERO; n]),
        colors: None,
        tangents: if with_tangents { Some(vec![glam::Vec4::ZERO; n]) } else { None },
    };
    Mesh::new(&parts, &vec![0u32; indices], MaterialId::Path(1))
}

fn transform() -> Transform {
    Transform { position: glam::Vec3::ZERO, rotation: glam::Quat::IDENTITY, scale: glam::Vec3::ONE }
}

#[test]
fn staging_buffer_offsets_and_flush() {
    let mut b: StagingBuffer<u32> = StagingBuffer::new();
    assert_eq!(b.queue_write(&[1, 2, 3]), 0);
    assert_eq!(b.queue_write(&[4]), 12);
    let plan = b.take_unwritten(8);
    assert_eq!(plan.write_offset, 0);
    assert_eq!(plan.data, vec![1, 2, 3, 4]);
    assert_eq!(plan.resize_to, Some(16 / 2 + 16));
    assert_eq!(b.queue_write(&[5]), 16);
    let plan = b.take_unwritten(24);
    assert_eq!(plan.write_offset, 16);
    assert_eq!(plan.data, vec![5]);
    assert_eq!(plan.resize_to, None);
    assert_eq!(StagingBuffer::<glam::Vec3>::initial_size(), 12 * 4096);
}

#[test]
fn upload_mesh_places_streams_after_each_other() {
    let mut meshes = Meshes::new();
    let a = meshes.upload_mesh(Arc::new(mesh(3, false, 6)));
    assert_eq!(a.position_offset, 0);
    assert_eq!(a.tex_coord_offset, 0);
    assert_eq!(a.tangent_offset, 0);
    assert_eq!(a.index_offset, 0);
    assert_eq!(a.index_count, 6);
    assert_eq!(a.mesh_flags.bits(), HAS_TEX_COORDS);
    assert_eq!(a.material_id, MaterialId::Path(1));
    let b = meshes.upload_mesh(Arc::new(mesh(2, true, 3)));
    assert_eq!(b.position_offset, 36);
    assert_eq!(b.tex_coord_offset, 24);
    assert_eq!(b.tangent_offset, 0);
    assert_eq!(b.normal_offset, 0);
    assert_eq!(b.index_offset, 24);
    assert_eq!(b.mesh_flags.bits(), HAS_TEX_COORDS | HAS_VTX_TANGENT);
    let c = meshes.upload_mesh(Arc::new(mesh(1, true, 3)));
    assert_eq!(c.tangent_offset, 32);
    assert!(meshes.get_mesh_index(Arc::new(mesh(1, true, 3))).is_none());
}

#[test]
fn object_uploads_every_mesh_of_its_model() {
    let mut meshes = Meshes::new();
    let model = AssetModel::from_gltf(Some("two"), vec![mesh(2, false, 3), mesh(1, false, 6)]);
    let o = Object::new(&mut meshes, transform(), &model);
    assert_eq!(o.mesh_indices.len(), 2);
    assert_eq!(o.mesh_indices[0].position_offset, 0);
    assert_eq!(o.mesh_indices[1].position_offset, 24);
    assert_eq!(o.mesh_indices[1].index_offset, 12);
    assert_eq!(o.transform.scale, glam::Vec3::ONE);
}

#[test]
fn mesh_renderer_prepares_instances_in_order() {
    let mut meshes = Meshes::new();
    let r = MeshRenderer::new(&mut meshes, Arc::new(mesh(1, false, 3)));
    let mut materials: Materials<(), ()> = Materials::new();
    materials.insert(MaterialId::Path(1), ());
    let mut instances = InstanceWriter::new();
    let p0 = r.prepare(4, &mut instances, &materials);
    let p1 = r.prepare(5, &mut instances, &materials);
    assert_eq!(p0, PreparedMesh::new(0, 3, 0));
    assert_eq!(p1, PreparedMesh::new(1, 3, 0));
    let (data, _) = instances.finish(0);
    assert_eq!(data[0].material_index, 1);
    assert_eq!(data[1].transform_index, 5);
}

#[test]
fn light_objects_use_the_default_material() {
    let mut meshes = Meshes::new();
    let r = MeshRenderer::new(&mut meshes, Arc::new(mesh(1, false, 3)));
    let mut instances = InstanceWriter::new();
    let p = prepare_light_object(r.mesh_index, 2, &mut instances);
    assert_eq!(p, PreparedMesh::new(0, 3, 0));
    let (data, _) = instances.finish(1 << 20);
    assert_eq!(data[0].material_index, 0);
    assert_eq!(data[0].transform_index, 2);
}

#[test]
fn draw_ranges_count_indices_not_bytes() {
    let p = PreparedMesh::new(7, 6, 40);
    let (indices, instances) = p.draw_ranges();
    assert_eq!(indices, 10..16);
    assert_eq!(instances, 7..8);
}

#[test]
fn default_schedule_orders() {
    let m = MainScheduleOrder::default();
    assert_eq!(
        m.labels,
        vec![
            Label::First,
            Label::PreUpdate,
            Label::StateTransition,
            Label::RunFixedMainLoop,
            Label::Update,
            Label::SpawnScene,
            Label::PostUpdate,
            Label::Last,
        ]
    );
    let f = FixedMainScheduleOrder::default();
    assert_eq!(
        f.labels,
        vec![
            Label::FixedFirst,
            Label::FixedPreUpdate,
            Label::FixedUpdate,
            Label::FixedPostUpdate,
            Label::FixedLast,
        ]
    );
}

#[test]
fn insert_after_goes_right_behind_first_occurrence() {
    let mut m = MainScheduleOrder::default();
    m.insert_after(Label::Update, Label::FixedMain);
    assert_eq!(m.labels[4], Label::Update);
    assert_eq!(m.labels[5], Label::FixedMain);
    assert_eq!(m.labels.len(), 9);
    m.insert_after(Label::Last, Label::Main);
    assert_eq!(m.labels[9], Label::Main);
    let mut f = FixedMainScheduleOrder::default();
    f.insert_after(Label::FixedFirst, Label::Update);
    f.insert_after(Label::FixedFirst, Label::First);
    assert_eq!(f.labels[1], Label::First);
    assert_eq!(f.labels[2], Label::Update);
}

#[test]
fn meshes_flush_reports_vertex_growth_only() {
    let mut meshes = Meshes::new();
    meshes.upload_mesh(Arc::new(mesh(2, false, 3)));
    // positions take 24 bytes and tex coords 16; indices take 12
    let (vertices, indices, rebuild) = meshes.write_unwritten([24, 0, 16, 0, 0], 4);
    assert_eq!(vertices.position.resize_to, None);
    assert_eq!(vertices.tex_coord.resize_to, None);
    assert_eq!(vertices.tex_coord.data.len(), 2);
    assert_eq!(indices.resize_to, Some(12 / 2 + 12));
    assert_eq!(indices.data, vec![0, 0, 0]);
    assert!(!rebuild);

    meshes.upload_mesh(Arc::new(mesh(1, true, 3)));
    let (vertices, indices, rebuild) = meshes.write_unwritten([36, 0, 24, 0, 8], 24);
    assert_eq!(vertices.position.write_offset, 24);
    assert_eq!(vertices.position.resize_to, None);
    assert_eq!(vertices.tangent.write_offset, 0);
    assert_eq!(vertices.tangent.resize_to, Some(16 / 2 + 16));
    assert_eq!(indices.write_offset, 12);
    assert_eq!(indices.resize_to, None);
    assert!(rebuild);

    let (vertices, _, rebuild) = meshes.write_unwritten([36, 0, 24, 0, 24], 24);
    assert!(vertices.position.data.is_empty());
    assert_eq!(vertices.position.write_offset, 36);
    assert!(!rebuild);
}

#[test]
fn queued_values_are_flushed_at_their_offset() {
    let mut b: StagingBuffer<u32> = StagingBuffer::new();
    b.queue_write(&[9]);
    b.take_unwritten(1 << 10);
    b.queue_write(&[1, 2]);
    let offset = b.queue_write(&[3, 4, 5]);
    assert_eq!(offset, 12);
    let plan = b.take_unwritten(1 << 10);
    assert_eq!(plan.write_offset + 2 * 4, offset);
    assert_eq!(&plan.data[2..5], &[3, 4, 5]);
    assert_eq!(b.queued_len(), offset + 3 * 4);
}

#[test]
fn applications_can_insert_their_own_schedules() {
    let mut m = MainScheduleOrder::default();
    m.insert_after(Label::Update, Label::Custom(1));
    m.insert_after(Label::Custom(1), Label::Custom(2));
    let at = m.labels.iter().position(|l| *l == Label::Update).unwrap();
    assert_eq!(m.labels[at + 1], Label::Custom(1));
    assert_eq!(m.labels[at + 2], Label::Custom(2));
    assert_eq!(m.labels[at + 3], Label::SpawnScene);
}
