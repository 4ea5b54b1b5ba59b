use wormhole::assets::{
    AssetMap, Gltf, GltfId, Loader, MaterialId, Materials, Model, ModelId, Models, TextureId,
    Textures,
};
use wormhole::render::{Mesh, MeshParts};

fn parts() -> MeshParts {
    MeshParts {
        positions: vec![glam::Vec3::ZERO, glam::Vec3::ONE],
        normals: None,
        tex_coords: None,
        colors: None,
        tangents: Some(vec![glam::Vec4::ONE, glam::Vec4::ONE]),
    }
}

#[test]
fn ids_from_paths_are_stable_and_tell_paths_apart() {
    let a = GltfId::from_path("assets/a.gltf");
    assert_eq!(a, GltfId::from_path("assets/a.gltf"));
    assert_ne!(a, GltfId::from_path("assets/b.gltf"));
    assert!(matches!(TextureId::from_path("x.png"), TextureId::Path(_)));
    assert!(matches!(ModelId::from_path("x.obj"), ModelId::Path(_)));
    assert_eq!(MaterialId::from_path("m"), MaterialId::Path(GltfId::from_path("m").0));
}

#[test]
fn ids_from_gltf() {
    let g = GltfId(7);
    assert_eq!(TextureId::from_gltf(g, 3), TextureId::Gltf(g, 3));
    assert_eq!(ModelId::from_gltf(g, 4), ModelId::Gltf(g, 4));
    assert_eq!(MaterialId::from_gltf(g, 5), MaterialId::Gltf(g, 5));
}

#[test]
fn asset_map_reads_back_writes() {
    let mut m: AssetMap<TextureId, u32> = AssetMap::new();
    assert_eq!(m.insert(TextureId::Path(1), 10), None);
    assert_eq!(m.insert(TextureId::Path(2), 20), None);
    assert_eq!(m.insert(TextureId::Path(1), 11), Some(10));
    assert_eq!(m.get(&TextureId::Path(1)), Some(&11));
    assert_eq!(m.get(&TextureId::Path(2)), Some(&20));
    assert_eq!(m.get(&TextureId::Path(3)), None);
    assert_eq!(m.len(), 2);
    assert_eq!(m.index_of(&TextureId::Path(1)), Some(0));
    assert_eq!(m.entry_at(1), (&TextureId::Path(2), &20));
}

#[test]
fn asset_map_retain_keeps_order() {
    let mut m: AssetMap<MaterialId, &str> = AssetMap::new();
    m.insert(MaterialId::Path(1), "a");
    m.insert(MaterialId::Path(2), "b");
    m.insert(MaterialId::Path(3), "c");
    m.retain_keys(&[MaterialId::Path(3), MaterialId::Path(1), MaterialId::Path(9)]);
    assert_eq!(m.len(), 2);
    assert_eq!(m.entry_at(0), (&MaterialId::Path(1), &"a"));
    assert_eq!(m.entry_at(1), (&MaterialId::Path(3), &"c"));
    assert_eq!(m.get(&MaterialId::Path(2)), None);
}

#[test]
fn gltf_registry_loads_once() {
    let mut g: Gltf<String> = Gltf::new();
    let id = GltfId(42);
    assert_eq!(g.get(id), None);
    assert_eq!(g.load(id, "first".to_string()), id);
    assert_eq!(g.load(id, "second".to_string()), id);
    assert_eq!(g.get_expect(id), "first");
    g.keep_ids(&[GltfId(1)]);
    assert_eq!(g.get(id), None);
}

#[test]
fn models_registry() {
    let mut models = Models::new();
    let mesh = Mesh::new(&parts(), &[0, 1, 0], MaterialId::Path(0));
    let model = Model::from_gltf(Some("cube"), vec![mesh]);
    assert_eq!(model.name, "cube");
    assert_eq!(model.meshes.len(), 1);
    let id = ModelId::Path(5);
    assert!(models.insert(id, model).is_none());
    assert_eq!(models.get_expect(id).name, "cube");
    let again = Model::from_gltf(None, vec![]);
    assert_eq!(again.name, "unamed model");
    let old = models.insert(id, again).unwrap();
    assert_eq!(old.name, "cube");
    assert_eq!(models.get(id).unwrap().name, "unamed model");
    assert_eq!(models.load(id, Model::from_gltf(Some("x"), vec![])), id);
    assert_eq!(models.get(id).unwrap().name, "unamed model");
    models.keep_ids(&[]);
    assert!(models.get(id).is_none());
}

#[test]
fn textures_registry_and_slots() {
    let mut t: Textures<&str> = Textures::new("null");
    assert_eq!(*t.null_texture(), "null");
    assert_eq!(t.id_to_bindgroup_index(TextureId::Path(1)), None);
    t.insert(TextureId::Path(1), "one");
    t.insert(TextureId::Path(2), "two");
    assert_eq!(t.id_to_bindgroup_index(TextureId::Path(1)), Some(1));
    assert_eq!(t.id_to_bindgroup_index(TextureId::Path(2)), Some(2));
    assert_eq!(t.load(TextureId::Path(2), "other"), TextureId::Path(2));
    assert_eq!(*t.get_expect(TextureId::Path(2)), "two");
    t.keep_ids(&[TextureId::Path(2)]);
    assert_eq!(t.id_to_bindgroup_index(TextureId::Path(2)), Some(1));
    assert_eq!(t.get(TextureId::Path(1)), None);
}

#[test]
fn materials_slots_and_bind_group_cache() {
    let mut m: Materials<&str, u32> = Materials::new();
    assert_eq!(m.insert(MaterialId::Path(1), "a"), None);
    assert_eq!(m.id_to_bindgroup_index(MaterialId::Path(1)), Some(1));
    assert_eq!(m.id_to_bindgroup_index(MaterialId::Path(2)), None);
    assert_eq!(*m.get_or_update_bind_group(&"none", |_| 7), 7);
    assert_eq!(*m.get_or_update_bind_group(&"none", |_| 8), 7);
    m.insert(MaterialId::Path(2), "b");
    assert_eq!(*m.get_or_update_bind_group(&"none", |_| 9), 9);
    m.keep_ids(&[MaterialId::Path(2)]);
    assert_eq!(*m.get_or_update_bind_group(&"none", |_| 10), 10);
    assert_eq!(m.id_to_bindgroup_index(MaterialId::Path(2)), Some(1));
    assert_eq!(*m.get_expect(MaterialId::Path(2)), "b");
    assert_eq!(m.get(MaterialId::Path(1)), None);
}

#[test]
fn loader_starts_empty() {
    let l: Loader<&str, String, u8, u8> = Loader::new("null");
    assert_eq!(*l.textures.null_texture(), "null");
    assert!(l.models.get(ModelId::Path(0)).is_none());
    assert!(l.materials.get(MaterialId::Path(0)).is_none());
    assert!(l.gltf.get(GltfId(0)).is_none());
}

#[test]
fn loading_a_gltf_document_registers_its_assets_under_their_indices() {
    let mut loader: Loader<&str, (), u32, Vec<u32>> = Loader::new("null");
    let doc = GltfId(7);
    let other = TextureId::Path(1);
    loader.textures.insert(other, "from a file");
    loader.textures.insert(TextureId::Gltf(doc, 1), "stale");
    loader.materials.insert(MaterialId::Path(3), 30);
    loader.materials.get_or_update_bind_group(&0, |_| vec![30]);
    loader.load_gltf(
        doc,
        vec![(0, "zero"), (1, "one")],
        vec![(Some(2), 20), (None, 10)],
        vec![(4, Model::from_gltf(Some("cube"), vec![]))],
    );
    assert_eq!(loader.textures.get(TextureId::Gltf(doc, 0)), Some(&"zero"));
    assert_eq!(loader.textures.get(TextureId::Gltf(doc, 1)), Some(&"one"));
    assert_eq!(loader.textures.get(other), Some(&"from a file"));
    // the texture already under (doc, 1) is replaced in place
    assert_eq!(loader.textures.id_to_bindgroup_index(TextureId::Gltf(doc, 1)), Some(2));
    assert_eq!(loader.textures.id_to_bindgroup_index(TextureId::Gltf(doc, 0)), Some(3));
    assert_eq!(loader.materials.get(MaterialId::Gltf(doc, 2)), Some(&20));
    assert_eq!(loader.materials.get(MaterialId::Gltf(doc, 0)), Some(&10));
    assert_eq!(loader.materials.get(MaterialId::Path(3)), Some(&30));
    assert_eq!(loader.models.get(ModelId::Gltf(doc, 4)).map(|m| m.name.as_str()), Some("cube"));
    assert_eq!(loader.materials.get_or_update_bind_group(&0, |_| vec![1, 2, 3]), &vec![1, 2, 3]);
}

#[test]
fn loading_a_gltf_document_without_materials_keeps_the_bind_group() {
    let mut loader: Loader<&str, (), u32, Vec<u32>> = Loader::new("null");
    loader.materials.get_or_update_bind_group(&0, |_| vec![5]);
    loader.load_gltf(GltfId(1), vec![(0, "t")], vec![], vec![]);
    assert_eq!(loader.materials.get_or_update_bind_group(&0, |_| vec![6]), &vec![5]);
}

#[test]
fn material_slots_put_the_default_first_then_the_materials_in_order() {
    let mut materials: Materials<u32, ()> = Materials::new();
    materials.insert(MaterialId::Path(5), 50);
    materials.insert(MaterialId::Path(6), 60);
    materials.insert(MaterialId::Path(5), 55);
    let default = 0u32;
    let slots = materials.slot_materials(&default);
    assert_eq!(slots, vec![&0, &55, &60]);
    let slot = materials.id_to_bindgroup_index(MaterialId::Path(6)).unwrap();
    assert_eq!(*slots[slot], 60);
}

#[test]
fn reading_back_after_insert_gives_the_new_asset_and_keeps_the_others() {
    let mut textures: Textures<&str> = Textures::new("null");
    textures.insert(TextureId::Path(1), "a");
    textures.insert(TextureId::Path(2), "b");
    assert_eq!(textures.insert(TextureId::Path(1), "c"), Some("a"));
    assert_eq!(textures.get(TextureId::Path(1)), Some(&"c"));
    assert_eq!(textures.id_to_bindgroup_index(TextureId::Path(1)), Some(1));
    assert_eq!(textures.get(TextureId::Path(2)), Some(&"b"));
    assert_eq!(textures.id_to_bindgroup_index(TextureId::Path(2)), Some(2));
    assert_eq!(textures.insert(TextureId::Path(3), "d"), None);
    assert_eq!(textures.id_to_bindgroup_index(TextureId::Path(3)), Some(3));
}

#[test]
fn a_loaded_document_stays_until_an_unlisting_keep() {
    let mut g: Gltf<&str> = Gltf::new();
    let a = GltfId(1);
    let b = GltfId(2);
    assert_eq!(g.load(a, "first"), a);
    g.load(a, "second");
    assert_eq!(g.get(a), Some(&"first"));
    assert!(g.get(b).is_none());
    g.load(b, "b");
    g.keep_ids(&[a]);
    assert_eq!(g.get(a), Some(&"first"));
    assert!(g.get(b).is_none());
    g.keep_ids(&[]);
    assert!(g.get(a).is_none());
}

#[test]
fn a_new_bind_group_is_built_from_the_materials_in_slot_order() {
    let mut m: Materials<&str, Vec<String>> = Materials::new();
    m.insert(MaterialId::Path(4), "four");
    m.insert(MaterialId::Path(2), "two");
    let built = m.get_or_update_bind_group(&"default", |slots| slots.iter().map(|s| s.to_string()).collect());
    assert_eq!(built, &vec!["default".to_string(), "four".to_string(), "two".to_string()]);
    let kept = m.get_or_update_bind_group(&"default", |_| vec![]);
    assert_eq!(kept.len(), 3);
}
