use vstd::prelude::*;

use crate::assets::asset_map::{
    has_key, inserted, kept_entries, keys_distinct, position_of, read_after_insert, AssetKey,
    AssetMap,
};
use crate::assets::documents::Id as GltfId;

verus! {

/// The id of a texture: a hash of a path, or a texture of a loaded glTF
/// document by its index there.
#[derive(Debug, Clone, Copy, PartialEq, Eq, PartialOrd, Ord, Hash, Structural)]
pub enum Id {
    Path(u64),
    Gltf(GltfId, usize),
}

impl AssetKey for Id {
    fn same(&self, other: &Self) -> (b: bool) {
        match (self, other) {
            (Id::Path(a), Id::Path(b)) => *a == *b,
            (Id::Gltf(g, i), Id::Gltf(h, j)) => g.0 == h.0 && *i == *j,
            _ => false,
        }
    }
}

impl Id {
    /// The id of the texture at `path`: the standard hasher's digest of the
    /// path.
    pub fn from_path(path: &str) -> (id: Id)
        ensures
            id is Path,
    {
        Id::Path(GltfId::from_path(path).0)
    }

    /// The id of the texture of index `texture_id` in a glTF document.
    pub fn from_gltf(gltf_id: GltfId, texture_id: usize) -> (id: Id)
        ensures
            id == Id::Gltf(gltf_id, texture_id),
    {
        Id::Gltf(gltf_id, texture_id)
    }
}

/// The loaded textures, by id, in the order they were first inserted, and
/// the texture that stands in where a material names none. The texture
/// type is the GPU texture the application creates.
pub struct Textures<T> {
    pub textures: AssetMap<Id, T>,
    null_texture: T,
}

impl<T> Textures<T> {
    /// The textures, in the order they were first inserted.
    pub closed spec fn entries(&self) -> Seq<(Id, T)> {
        self.textures@
    }

    /// The stand-in texture.
    pub closed spec fn spec_null_texture(&self) -> T {
        self.null_texture
    }

    /// Whether a texture is loaded under `id`.
    pub open spec fn has(&self, id: Id) -> bool {
        has_key(self.entries(), id)
    }

    /// No texture loaded, with the given stand-in texture.
    pub fn new(null_texture: T) -> (t: Textures<T>)
        ensures
            t.entries() == Seq::<(Id, T)>::empty(),
            keys_distinct(t.entries()),
            t.spec_null_texture() == null_texture,
    {
        Textures { textures: AssetMap::new(), null_texture }
    }

    /// Inserts `texture` under `id`, replacing (in place) and returning the
    /// texture already there.
    pub fn insert(&mut self, id: Id, texture: T) -> (r: Option<T>)
        ensures
            final(self).spec_null_texture() == old(self).spec_null_texture(),
            match r {
                Some(old_value) => {
                    let i = position_of(old(self).entries(), id);
                    &&& old(self).has(id)
                    &&& old_value == old(self).entries()[i].1
                    &&& final(self).entries() == old(self).entries().update(i, (id, texture))
                },
                None => !old(self).has(id) && final(self).entries() == old(
                    self,
                ).entries().push((id, texture)),
            },
            final(self).entries() == inserted(old(self).entries(), id, texture),
            read_after_insert(old(self).entries(), final(self).entries(), id, texture),
    {
        self.textures.insert(id, texture)
    }

    /// Records `texture`, loaded from the file of `id`, unless a texture is
    /// already loaded under `id`, which is then kept. Returns `id`.
    pub fn load(&mut self, id: Id, texture: T) -> (r: Id)
        ensures
            r == id,
            final(self).spec_null_texture() == old(self).spec_null_texture(),
            old(self).has(id) ==> final(self).entries() == old(self).entries(),
            !old(self).has(id) ==> final(self).entries() == old(self).entries().push(
                (id, texture),
            ),
            keys_distinct(final(self).entries()),
    {
        match self.textures.index_of(&id) {
            Some(_) => {},
            None => {
                self.textures.insert(id, texture);
            },
        }
        id
    }

    /// The texture loaded under `id`, which must be loaded.
    pub fn get_expect(&self, id: Id) -> (t: &T)
        requires
            self.has(id),
        ensures
            *t == self.entries()[position_of(self.entries(), id)].1,
    {
        self.get(id).unwrap()
    }

    /// The texture loaded under `id`, if any.
    pub fn get(&self, id: Id) -> (r: Option<&T>)
        ensures
            match r {
                Some(t) => self.has(id) && *t == self.entries()[position_of(self.entries(), id)].1,
                None => !self.has(id),
            },
            keys_distinct(self.entries()),
    {
        self.textures.get(&id)
    }

    /// The stand-in texture.
    pub fn null_texture(&self) -> (t: &T)
        ensures
            *t == self.spec_null_texture(),
    {
        &self.null_texture
    }

    /// Unloads every texture whose id is not among `ids`, keeping the
    /// order of the others.
    pub fn keep_ids(&mut self, ids: &[Id])
        ensures
            final(self).entries() == kept_entries(old(self).entries(), ids@),
            keys_distinct(final(self).entries()),
            final(self).spec_null_texture() == old(self).spec_null_texture(),
    {
        self.textures.retain_keys(ids)
    }

    /// The slot of the texture of `id` in the texture bind group: one past
    /// its position, slot 0 being the stand-in texture. `None` where no
    /// texture is loaded under `id`.
    pub fn id_to_bindgroup_index(&self, id: Id) -> (r: Option<usize>)
        ensures
            match r {
                Some(slot) => self.has(id) && slot == position_of(self.entries(), id) + 1,
                None => !self.has(id),
            },
    {
        match self.textures.index_of(&id) {
            Some(i) => Some(i + 1),
            None => None,
        }
    }
}

} // verus!
