use std::sync::Arc;

use vstd::prelude::*;

use crate::assets::asset_map::{
    has_key, inserted, kept_entries, keys_distinct, position_of, read_after_insert, AssetKey,
    AssetMap,
};
use crate::assets::documents::Id as GltfId;
use crate::render::mesh::Mesh;

verus! {

/// The id of a model: a hash of a path, or a mesh of a loaded glTF document
/// by its index there.
#[derive(Debug, Clone, Copy, PartialEq, Eq, PartialOrd, Ord, Hash, Structural)]
pub enum Id {
    Path(u64),
    Gltf(GltfId, usize),
}

impl AssetKey for Id {
    fn same(&self, other: &Self) -> (b: bool) {
        match (self, other) {
            (Id::Path(a), Id::Path(b)) => *a == *b,
            (Id::Gltf(g, i), Id::Gltf(h, j)) => g.0 == h.0 && *i == *j,
            _ => false,
        }
    }
}

impl Id {
    /// The id of the model at `path`: the standard hasher's digest of the
    /// path.
    pub fn from_path(path: &str) -> (id: Id)
        ensures
            id is Path,
    {
        Id::Path(GltfId::from_path(path).0)
    }

    /// The id of the mesh of index `mesh_id` in a glTF document.
    pub fn from_gltf(gltf_id: GltfId, mesh_id: usize) -> (id: Id)
        ensures
            id == Id::Gltf(gltf_id, mesh_id),
    {
        Id::Gltf(gltf_id, mesh_id)
    }
}

/// A named model made of shared meshes.
pub struct Model {
    pub name: String,
    pub meshes: Vec<Arc<Mesh>>,
}

/// The name a model gets where its source names none.
pub const UNNAMED_MODEL: &'static str = "unamed model";

impl Model {
    /// The model of a glTF mesh, from the mesh's name, if any, and the
    /// meshes of its primitives in order.
    pub fn from_gltf(name: Option<&str>, meshes: Vec<Mesh>) -> (m: Model)
        ensures
            m.name@ == match name {
                Some(n) => n@,
                None => UNNAMED_MODEL@,
            },
            m.meshes@.len() == meshes@.len(),
            forall|i: int| 0 <= i < meshes@.len() ==> *m.meshes@[i] == meshes@[i],
    {
        let name = match name {
            Some(n) => n.to_owned(),
            None => UNNAMED_MODEL.to_owned(),
        };
        let mut shared: Vec<Arc<Mesh>> = Vec::new();
        let ghost all = meshes@;
        for mesh in it: meshes
            invariant
                shared@.len() == it.index(),
                it.seq() == all,
                forall|i: int| 0 <= i < shared@.len() ==> *shared@[i] == all[i],
        {
            shared.push(Arc::new(mesh));
        }
        Model { name, meshes: shared }
    }
}

/// The loaded models, by id.
pub struct Models {
    pub models: AssetMap<Id, Model>,
}

impl Models {
    /// Whether a model is loaded under `id`.
    pub open spec fn has(&self, id: Id) -> bool {
        has_key(self.models@, id)
    }

    /// No model loaded.
    pub fn new() -> (m: Models)
        ensures
            m.models@ == Seq::<(Id, Model)>::empty(),
            keys_distinct(m.models@),
    {
        Models { models: AssetMap::new() }
    }

    /// Inserts `model` under `id`, replacing and returning the model
    /// already there.
    pub fn insert(&mut self, id: Id, model: Model) -> (r: Option<Model>)
        ensures
            match r {
                Some(old_value) => {
                    let i = position_of(old(self).models@, id);
                    &&& old(self).has(id)
                    &&& old_value == old(self).models@[i].1
                    &&& final(self).models@ == old(self).models@.update(i, (id, model))
                },
                None => !old(self).has(id) && final(self).models@ == old(self).models@.push(
                    (id, model),
                ),
            },
            final(self).models@ == inserted(old(self).models@, id, model),
            read_after_insert(old(self).models@, final(self).models@, id, model),
    {
        self.models.insert(id, model)
    }

    /// Records `model`, loaded from the file of `id`, unless a model is
    /// already loaded under `id`, which is then kept. Returns `id`.
    pub fn load(&mut self, id: Id, model: Model) -> (r: Id)
        ensures
            r == id,
            old(self).has(id) ==> final(self).models@ == old(self).models@,
            !old(self).has(id) ==> final(self).models@ == old(self).models@.push((id, model)),
            keys_distinct(final(self).models@),
    {
        match self.models.index_of(&id) {
            Some(_) => {},
            None => {
                self.models.insert(id, model);
            },
        }
        id
    }

    /// The model loaded under `id`, which must be loaded.
    pub fn get_expect(&self, id: Id) -> (m: &Model)
        requires
            self.has(id),
        ensures
            *m == self.models@[position_of(self.models@, id)].1,
    {
        self.get(id).unwrap()
    }

    /// The model loaded under `id`, if any.
    pub fn get(&self, id: Id) -> (r: Option<&Model>)
        ensures
            match r {
                Some(m) => self.has(id) && *m == self.models@[position_of(self.models@, id)].1,
                None => !self.has(id),
            },
            keys_distinct(self.models@),
    {
        self.models.get(&id)
    }

    /// Unloads every model whose id is not among `ids`.
    pub fn keep_ids(&mut self, ids: &[Id])
        ensures
            final(self).models@ == kept_entries(old(self).models@, ids@),
            keys_distinct(final(self).models@),
    {
        self.models.retain_keys(ids)
    }
}

} // verus!
