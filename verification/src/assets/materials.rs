use vstd::prelude::*;

use crate::assets::asset_map::{
    has_key, inserted, kept_entries, keys_distinct, position_of, read_after_insert, AssetKey,
    AssetMap,
};
use crate::assets::documents::Id as GltfId;

verus! {

/// The id of a material: a hash of a path, or a material of a loaded glTF
/// document by its index there.
#[derive(Debug, Clone, Copy, PartialEq, Eq, PartialOrd, Ord, Hash, Structural)]
pub enum Id {
    Path(u64),
    Gltf(GltfId, usize),
}

impl AssetKey for Id {
    fn same(&self, other: &Self) -> (b: bool) {
        match (self, other) {
            (Id::Path(a), Id::Path(b)) => *a == *b,
            (Id::Gltf(g, i), Id::Gltf(h, j)) => g.0 == h.0 && *i == *j,
            _ => false,
        }
    }
}

impl Id {
    /// The id of the material at `path`: the standard hasher's digest of
    /// the path.
    pub fn from_path(path: &str) -> (id: Id)
        ensures
            id is Path,
    {
        Id::Path(GltfId::from_path(path).0)
    }

    /// The id of the material of index `material_id` in a glTF document.
    pub fn from_gltf(gltf_id: GltfId, material_id: usize) -> (id: Id)
        ensures
            id == Id::Gltf(gltf_id, material_id),
    {
        Id::Gltf(gltf_id, material_id)
    }
}

/// The loaded materials, by id, in the order they were first inserted, with
/// the GPU bind group built from them while none has changed since.
pub struct Materials<M, B> {
    pub materials: AssetMap<Id, M>,
    bind_group: Option<B>,
}

impl<M, B> Materials<M, B> {
    /// The materials, in the order they were first inserted.
    pub closed spec fn entries(&self) -> Seq<(Id, M)> {
        self.materials@
    }

    /// Whether a material is loaded under `id`.
    pub open spec fn has(&self, id: Id) -> bool {
        has_key(self.entries(), id)
    }

    /// The bind group built for the current materials, if any.
    pub closed spec fn spec_bind_group(&self) -> Option<B> {
        self.bind_group
    }

    /// No material loaded and no bind group built.
    pub fn new() -> (m: Materials<M, B>)
        ensures
            m.entries() == Seq::<(Id, M)>::empty(),
            keys_distinct(m.entries()),
            m.spec_bind_group() is None,
    {
        Materials { materials: AssetMap::new(), bind_group: None }
    }

    /// Inserts `material` under `id`, replacing (in place) and returning
    /// the material already there. The bind group is dropped, as it no
    /// longer matches.
    pub fn insert(&mut self, id: Id, material: M) -> (r: Option<M>)
        ensures
            final(self).spec_bind_group() is None,
            match r {
                Some(old_value) => {
                    let i = position_of(old(self).entries(), id);
                    &&& old(self).has(id)
                    &&& old_value == old(self).entries()[i].1
                    &&& final(self).entries() == old(self).entries().update(i, (id, material))
                },
                None => !old(self).has(id) && final(self).entries() == old(self).entries().push((id, material)),
            },
            final(self).entries() == inserted(old(self).entries(), id, material),
            read_after_insert(old(self).entries(), final(self).entries(), id, material),
    {
        self.bind_group = None;
        self.materials.insert(id, material)
    }

    /// The material loaded under `id`, which must be loaded.
    pub fn get_expect(&self, id: Id) -> (m: &M)
        requires
            self.has(id),
        ensures
            *m == self.entries()[position_of(self.entries(), id)].1,
    {
        self.get(id).unwrap()
    }

    /// The material loaded under `id`, if any.
    pub fn get(&self, id: Id) -> (r: Option<&M>)
        ensures
            match r {
                Some(m) => self.has(id) && *m == self.entries()[position_of(self.entries(), id)].1,
                None => !self.has(id),
            },
            keys_distinct(self.entries()),
    {
        self.materials.get(&id)
    }

    /// Unloads every material whose id is not among `ids`, keeping the
    /// order of the others, and drops the bind group.
    pub fn keep_ids(&mut self, ids: &[Id])
        ensures
            final(self).entries() == kept_entries(old(self).entries(), ids@),
            keys_distinct(final(self).entries()),
            final(self).spec_bind_group() is None,
    {
        self.bind_group = None;
        self.materials.retain_keys(ids)
    }

    /// The slot of the material of `id` in the bind group: one past its
    /// position, slot 0 being the default material. `None` where no
    /// material is loaded under `id`.
    pub fn id_to_bindgroup_index(&self, id: Id) -> (r: Option<usize>)
        ensures
            match r {
                Some(slot) => self.has(id) && slot == position_of(self.entries(), id) + 1,
                None => !self.has(id),
            },
    {
        match self.materials.index_of(&id) {
            Some(i) => Some(i + 1),
            None => None,
        }
    }

    /// The materials in the order the bind group holds them: slot 0 is
    /// `default`, the material of ids that name none, and slot `k + 1` the
    /// `k`-th material loaded, so that the slot `id_to_bindgroup_index`
    /// gives an id holds that id's material.
    pub fn slot_materials<'a>(&'a self, default: &'a M) -> (r: Vec<&'a M>)
        ensures
            slot_order(self.entries(), *default, r@),
            r@.len() == self.entries().len() + 1,
            *r@[0] == *default,
            forall|k: int| 0 <= k < self.entries().len() ==> *r@[k + 1] == self.entries()[k].1,
            forall|id: Id|
                #[trigger] self.has(id) ==> *r@[position_of(self.entries(), id) + 1]
                    == self.entries()[position_of(self.entries(), id)].1,
    {
        let mut r: Vec<&'a M> = Vec::new();
        r.push(default);
        let n = self.materials.len();
        let mut i: usize = 0;
        while i < n
            invariant
                n == self.entries().len(),
                i <= n,
                r@.len() == i + 1,
                *r@[0] == *default,
                forall|k: int| 0 <= k < i ==> *r@[k + 1] == self.entries()[k].1,
            decreases n - i,
        {
            let (_, m) = self.materials.entry_at(i);
            r.push(m);
            i = i + 1;
        }
        proof {
            assert forall|id: Id| #[trigger] self.has(id) implies *r@[position_of(
                self.entries(),
                id,
            ) + 1] == self.entries()[position_of(self.entries(), id)].1 by {
                let p = position_of(self.entries(), id);
                assert(crate::assets::asset_map::key_at(self.entries(), id, p));
            }
        }
        r
    }

    /// The bind group of the current materials. Where none is kept, one is
    /// built by `create` from the materials in slot order (`default` in
    /// slot 0, then the materials as `slot_materials` lists them) and kept
    /// until the materials change.
    pub fn get_or_update_bind_group<F: FnOnce(Vec<&M>) -> B>(
        &mut self,
        default: &M,
        create: F,
    ) -> (r: &B)
        requires
            old(self).spec_bind_group() is None ==> forall|slots: Vec<&M>|
                slot_order(old(self).entries(), *default, slots@) ==> #[trigger] create.requires(
                    (slots,),
                ),
        ensures
            final(self).entries() == old(self).entries(),
            final(self).spec_bind_group() == Some(*r),
            old(self).spec_bind_group() matches Some(b) ==> *r == b,
            old(self).spec_bind_group() is None ==> exists|slots: Vec<&M>|
                slot_order(old(self).entries(), *default, slots@) && #[trigger] create.ensures(
                    (slots,),
                    *r,
                ),
    {
        if self.bind_group.is_none() {
            let slots = self.slot_materials(default);
            let ghost given = slots;
            assert(slot_order(self.entries(), *default, given@));
            let built = create(slots);
            assert(create.ensures((given,), built));
            self.bind_group = Some(built);
        }
        self.bind_group.as_ref().unwrap()
    }
}

/// Whether `slots` lists materials in bind group order: `default` in slot
/// 0, then the material of each entry, in the entries' order.
pub open spec fn slot_order<M>(entries: Seq<(Id, M)>, default: M, slots: Seq<&M>) -> bool {
    &&& slots.len() == entries.len() + 1
    &&& *slots[0] == default
    &&& forall|k: int| 0 <= k < entries.len() ==> *slots[k + 1] == entries[k].1
}

} // verus!
