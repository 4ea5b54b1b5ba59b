use vstd::prelude::*;

use crate::assets::asset_map::inserted_all;
use crate::assets::documents::{Gltf, Id as GltfId};
use crate::assets::materials::{Id as MaterialId, Materials};
use crate::assets::models::{Id as ModelId, Model, Models};
use crate::assets::textures::{Id as TextureId, Textures};

verus! {

/// All asset registries: textures (of GPU texture type `T`), models,
/// materials (of type `M`, with a bind group of type `B`) and glTF
/// documents (of type `D`).
pub struct Loader<T, D, M, B> {
    pub textures: Textures<T>,
    pub models: Models,
    pub materials: Materials<M, B>,
    pub gltf: Gltf<D>,
}

impl<T, D, M, B> Loader<T, D, M, B> {
    /// Empty registries, with `null_texture` standing in for missing
    /// textures.
    pub fn new(null_texture: T) -> (l: Loader<T, D, M, B>)
        ensures
            l.textures.entries() == Seq::<(TextureId, T)>::empty(),
            l.textures.spec_null_texture() == null_texture,
            l.models.models@ == Seq::<(ModelId, Model)>::empty(),
            l.materials.entries() == Seq::<(MaterialId, M)>::empty(),
            l.materials.spec_bind_group() is None,
            l.gltf.documents@ == Seq::<(crate::assets::documents::Id, D)>::empty(),
    {
        let textures = Textures::new(null_texture);
        let models = Models::new();
        let materials = Materials::new();
        let gltf = Gltf::new();
        Loader { textures, models, materials, gltf }
    }

    /// Registers the assets of glTF document `gltf_id`, in the order given:
    /// each texture under its index in the document, each material under
    /// its index (0 for a material without one), and the model of each
    /// mesh under the mesh's index. An asset already registered under the
    /// same id is replaced in place. Registering any material drops the
    /// material bind group.
    pub fn load_gltf(
        &mut self,
        gltf_id: GltfId,
        textures: Vec<(usize, T)>,
        materials: Vec<(Option<usize>, M)>,
        models: Vec<(usize, Model)>,
    )
        ensures
            final(self).textures.entries() == inserted_all(
                old(self).textures.entries(),
                textures@.map_values(|e: (usize, T)| (TextureId::Gltf(gltf_id, e.0), e.1)),
            ),
            final(self).materials.entries() == inserted_all(
                old(self).materials.entries(),
                materials@.map_values(
                    |e: (Option<usize>, M)| (MaterialId::Gltf(gltf_id, material_index(e.0)), e.1),
                ),
            ),
            final(self).models.models@ == inserted_all(
                old(self).models.models@,
                models@.map_values(|e: (usize, Model)| (ModelId::Gltf(gltf_id, e.0), e.1)),
            ),
            final(self).textures.spec_null_texture() == old(self).textures.spec_null_texture(),
            materials@.len() > 0 ==> final(self).materials.spec_bind_group() is None,
            materials@.len() == 0 ==> final(self).materials.spec_bind_group() == old(
                self,
            ).materials.spec_bind_group(),
            final(self).gltf.documents@ == old(self).gltf.documents@,
    {
        let ghost all_textures = textures@;
        let ghost texture_key = |e: (usize, T)| (TextureId::Gltf(gltf_id, e.0), e.1);
        for e in it: textures
            invariant
                it.seq() == all_textures,
                texture_key == (|e: (usize, T)| (TextureId::Gltf(gltf_id, e.0), e.1)),
                self.textures.entries() == inserted_all(
                    old(self).textures.entries(),
                    all_textures.take(it.index() as int).map_values(texture_key),
                ),
                self.textures.spec_null_texture() == old(self).textures.spec_null_texture(),
                self.materials == old(self).materials,
                self.models == old(self).models,
                self.gltf == old(self).gltf,
        {
            proof {
                let k = it.index() as int;
                assert(all_textures.take(k + 1).map_values(texture_key).drop_last()
                    =~= all_textures.take(k).map_values(texture_key));
            }
            let (index, texture) = e;
            self.textures.insert(TextureId::Gltf(gltf_id, index), texture);
        }
        proof {
            assert(all_textures.take(all_textures.len() as int) =~= all_textures);
        }
        let ghost all_materials = materials@;
        let ghost material_key = |e: (Option<usize>, M)|
            (MaterialId::Gltf(gltf_id, material_index(e.0)), e.1);
        for e in it: materials
            invariant
                it.seq() == all_materials,
                material_key == (|e: (Option<usize>, M)|
                    (MaterialId::Gltf(gltf_id, material_index(e.0)), e.1)),
                self.materials.entries() == inserted_all(
                    old(self).materials.entries(),
                    all_materials.take(it.index() as int).map_values(material_key),
                ),
                it.index() > 0 ==> self.materials.spec_bind_group() is None,
                it.index() == 0 ==> self.materials == old(self).materials,
                self.models == old(self).models,
                self.gltf == old(self).gltf,
                texture_key == (|e: (usize, T)| (TextureId::Gltf(gltf_id, e.0), e.1)),
                self.textures.entries() == inserted_all(
                    old(self).textures.entries(),
                    all_textures.map_values(texture_key),
                ),
                self.textures.spec_null_texture() == old(self).textures.spec_null_texture(),
        {
            proof {
                let k = it.index() as int;
                assert(all_materials.take(k + 1).map_values(material_key).drop_last()
                    =~= all_materials.take(k).map_values(material_key));
            }
            let (index, material) = e;
            let index = match index {
                Some(i) => i,
                None => 0,
            };
            self.materials.insert(MaterialId::Gltf(gltf_id, index), material);
        }
        proof {
            assert(all_materials.take(all_materials.len() as int) =~= all_materials);
        }
        let ghost all_models = models@;
        let ghost model_key = |e: (usize, Model)| (ModelId::Gltf(gltf_id, e.0), e.1);
        for e in it: models
            invariant
                it.seq() == all_models,
                model_key == (|e: (usize, Model)| (ModelId::Gltf(gltf_id, e.0), e.1)),
                self.models.models@ == inserted_all(
                    old(self).models.models@,
                    all_models.take(it.index() as int).map_values(model_key),
                ),
                self.gltf == old(self).gltf,
                texture_key == (|e: (usize, T)| (TextureId::Gltf(gltf_id, e.0), e.1)),
                self.textures.entries() == inserted_all(
                    old(self).textures.entries(),
                    all_textures.map_values(texture_key),
                ),
                self.textures.spec_null_texture() == old(self).textures.spec_null_texture(),
                material_key == (|e: (Option<usize>, M)|
                    (MaterialId::Gltf(gltf_id, material_index(e.0)), e.1)),
                self.materials.entries() == inserted_all(
                    old(self).materials.entries(),
                    all_materials.map_values(material_key),
                ),
                all_materials.len() > 0 ==> self.materials.spec_bind_group() is None,
                all_materials.len() == 0 ==> self.materials.spec_bind_group() == old(
                    self,
                ).materials.spec_bind_group(),
        {
            proof {
                let k = it.index() as int;
                assert(all_models.take(k + 1).map_values(model_key).drop_last()
                    =~= all_models.take(k).map_values(model_key));
            }
            let (index, model) = e;
            self.models.insert(ModelId::Gltf(gltf_id, index), model);
        }
        proof {
            assert(all_models.take(all_models.len() as int) =~= all_models);
        }
    }
}

/// The index a glTF material is registered under: its index in the
/// document, or 0 for the document's default material, which has none.
pub open spec fn material_index(index: Option<usize>) -> usize {
    match index {
        Some(i) => i,
        None => 0,
    }
}

} // verus!
