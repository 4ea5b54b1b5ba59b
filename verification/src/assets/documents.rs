use std::collections::hash_map::DefaultHasher;
use std::hash::Hasher;

use vstd::prelude::*;

use crate::assets::asset_map::{
    has_key, kept_entries, keys_distinct, lemma_kept_entries, lemma_position_of, position_of,
    AssetKey, AssetMap,
};

verus! {

/// Feeds `path` into `hasher` as a `camino::Utf8Path` does when it is
/// hashed (component by component, like a standard path). What is fed
/// depends on the machine's word size and byte order, so nothing is stated
/// of the hasher afterwards.
#[verifier::external_body]
fn hash_utf8_path(path: &str, hasher: &mut DefaultHasher) {
    std::hash::Hash::hash(camino::Utf8Path::new(path), hasher)
}

/// The id of a glTF document: the hash of the path it was loaded from.
#[derive(Debug, Clone, Copy, PartialEq, Eq, PartialOrd, Ord, Hash, Structural)]
pub struct Id(pub u64);

impl AssetKey for Id {
    fn same(&self, other: &Self) -> (b: bool) {
        self.0 == other.0
    }
}

impl Id {
    /// The id of the document at `path`: the standard hasher's digest of
    /// the path. The digest depends on the machine's word size and byte
    /// order, so no clause states its value.
    pub fn from_path(path: &str) -> Id {
        let mut hasher = DefaultHasher::new();
        hash_utf8_path(path, &mut hasher);
        Id(hasher.finish())
    }
}

/// The loaded glTF documents, by id. The document type is the parsed form
/// the application loads (a `gltf::Gltf`).
pub struct Gltf<D> {
    pub documents: AssetMap<Id, D>,
}

impl<D> Gltf<D> {
    /// The documents as a map from ids.
    pub open spec fn spec_documents(&self) -> Map<Id, D> {
        self.documents.as_map()
    }

    /// Whether a document is loaded under `id`.
    pub open spec fn has(&self, id: Id) -> bool {
        has_key(self.documents@, id)
    }

    /// No document loaded.
    pub fn new() -> (g: Gltf<D>)
        ensures
            g.documents@ == Seq::<(Id, D)>::empty(),
            keys_distinct(g.documents@),
    {
        Gltf { documents: AssetMap::new() }
    }

    /// Records `document` as loaded under `id` unless a document is already
    /// loaded under it, which is then kept. Returns `id`.
    pub fn load(&mut self, id: Id, document: D) -> (r: Id)
        ensures
            r == id,
            old(self).has(id) ==> final(self).documents@ == old(self).documents@,
            !old(self).has(id) ==> final(self).documents@ == old(self).documents@.push(
                (id, document),
            ),
            final(self).documents@ == loaded(old(self).documents@, id, document),
            keys_distinct(final(self).documents@),
    {
        match self.documents.index_of(&id) {
            Some(_) => {},
            None => {
                self.documents.insert(id, document);
            },
        }
        id
    }

    /// The document loaded under `id`, which must be loaded.
    pub fn get_expect(&self, id: Id) -> (d: &D)
        requires
            self.has(id),
        ensures
            *d == self.documents@[position_of(self.documents@, id)].1,
    {
        self.get(id).unwrap()
    }

    /// The document loaded under `id`, if any.
    pub fn get(&self, id: Id) -> (r: Option<&D>)
        ensures
            match r {
                Some(d) => self.has(id) && *d == self.documents@[position_of(self.documents@, id)].1,
                None => !self.has(id),
            },
            keys_distinct(self.documents@),
    {
        self.documents.get(&id)
    }

    /// Unloads every document whose id is not among `ids`.
    pub fn keep_ids(&mut self, ids: &[Id])
        ensures
            final(self).documents@ == kept_entries(old(self).documents@, ids@),
            keys_distinct(final(self).documents@),
    {
        self.documents.retain_keys(ids)
    }
}

/// The documents after loading `document` under `id`: a document already
/// loaded under `id` is kept, otherwise the new one is appended.
pub open spec fn loaded<D>(entries: Seq<(Id, D)>, id: Id, document: D) -> Seq<(Id, D)> {
    if has_key(entries, id) {
        entries
    } else {
        entries.push((id, document))
    }
}

/// What loading and unloading do to the documents, step by step: a load
/// leaves the id loaded, with the document first loaded under it, and
/// brings no other id in; unloading keeps a loaded id exactly when it is
/// listed, with its document, and brings no id in. So an id is loaded
/// exactly when some load recorded it and no later unloading left it out,
/// and it keeps the document of its first load.
pub proof fn lemma_document_history<D>(
    entries: Seq<(Id, D)>,
    id: Id,
    document: D,
    ids: Seq<Id>,
    other: Id,
)
    requires
        keys_distinct(entries),
    ensures
        has_key(loaded(entries, id, document), id),
        !has_key(entries, id) ==> ({
            let after = loaded(entries, id, document);
            after[position_of(after, id)].1 == document
        }),
        has_key(entries, id) ==> loaded(entries, id, document) == entries,
        has_key(loaded(entries, id, document), other) ==> has_key(entries, other) || other == id,
        has_key(entries, other) && other != id ==> {
            let after = loaded(entries, id, document);
            &&& has_key(after, other)
            &&& after[position_of(after, other)].1 == entries[position_of(entries, other)].1
        },
        has_key(kept_entries(entries, ids), other) <==> has_key(entries, other) && ids.contains(
            other,
        ),
        has_key(entries, other) && ids.contains(other) ==> {
            let kept = kept_entries(entries, ids);
            kept[position_of(kept, other)].1 == entries[position_of(entries, other)].1
        },
{
    lemma_kept_entries(entries, ids, other);
    if !has_key(entries, id) {
        let after = entries.push((id, document));
        let n = entries.len() as int;
        assert(keys_distinct(after)) by {
            assert forall|a: int, b: int| 0 <= a < b < after.len() implies #[trigger] after[a].0
                != #[trigger] after[b].0 by {
                if b == n {
                    assert(!crate::assets::asset_map::key_at(entries, id, a));
                } else {
                    assert(after[a] == entries[a]);
                    assert(after[b] == entries[b]);
                }
            }
        }
        assert(crate::assets::asset_map::key_at(after, id, n));
        lemma_position_of(after, id, n);
        if has_key(after, other) && other != id {
            let q = position_of(after, other);
            assert(crate::assets::asset_map::key_at(after, other, q));
            assert(crate::assets::asset_map::key_at(entries, other, q));
        }
        if has_key(entries, other) && other != id {
            let q = position_of(entries, other);
            assert(crate::assets::asset_map::key_at(entries, other, q));
            assert(crate::assets::asset_map::key_at(after, other, q));
            lemma_position_of(after, other, q);
        }
    }
}

/// A call that changes which documents are loaded: a load of a document
/// under an id, or the unloading of every id not listed.
pub enum DocumentCall<D> {
    Load(Id, D),
    Keep(Vec<Id>),
}

/// The documents after the calls `calls`, in order, starting from
/// `entries`.
pub open spec fn after_calls<D>(entries: Seq<(Id, D)>, calls: Seq<DocumentCall<D>>) -> Seq<(Id, D)>
    decreases calls.len(),
{
    if calls.len() == 0 {
        entries
    } else {
        let before = after_calls(entries, calls.drop_last());
        match calls.last() {
            DocumentCall::Load(id, document) => loaded(before, id, document),
            DocumentCall::Keep(ids) => kept_entries(before, ids@),
        }
    }
}

/// Whether the call at `i` loads a document under `id`.
pub open spec fn loads_at<D>(calls: Seq<DocumentCall<D>>, id: Id, i: int) -> bool {
    &&& 0 <= i < calls.len()
    &&& calls[i] matches DocumentCall::Load(j, _) && j == id
}

/// Whether no call after the one at `i` leaves `id` out of its list.
pub open spec fn kept_after<D>(calls: Seq<DocumentCall<D>>, id: Id, i: int) -> bool {
    forall|k: int|
        0 <= k < calls.len() && i < k ==> (#[trigger] calls[k] matches DocumentCall::Keep(ids)
            ==> ids@.contains(id))
}

/// The last call adds its own condition to what `kept_after` asks of the
/// calls before it.
proof fn lemma_kept_after_step<D>(calls: Seq<DocumentCall<D>>, id: Id, i: int)
    requires
        calls.len() > 0,
        i < calls.len() - 1,
    ensures
        kept_after(calls, id, i) == (kept_after(calls.drop_last(), id, i) && (calls.last() matches DocumentCall::Keep(ids) ==> ids@.contains(id))),
{
    let c = calls.drop_last();
    if kept_after(calls, id, i) {
        assert forall|k: int| 0 <= k < c.len() && i < k implies (#[trigger] c[k] matches DocumentCall::Keep(
            ids,
        ) ==> ids@.contains(id)) by {
            assert(c[k] == calls[k]);
        }
        assert(calls[calls.len() - 1] == calls.last());
    }
    if kept_after(c, id, i) && (calls.last() matches DocumentCall::Keep(ids) ==> ids@.contains(
        id,
    )) {
        assert forall|k: int| 0 <= k < calls.len() && i < k implies (#[trigger] calls[k] matches DocumentCall::Keep(
            ids,
        ) ==> ids@.contains(id)) by {
            if k < c.len() {
                assert(c[k] == calls[k]);
            }
        }
    }
}

/// After any sequence of loads and unloadings, an id is loaded exactly
/// when some call loaded it and no later unloading left it out, or it was
/// loaded at the start and no unloading left it out; and no id occurs
/// twice.
pub proof fn lemma_document_calls<D>(entries: Seq<(Id, D)>, calls: Seq<DocumentCall<D>>, id: Id)
    requires
        keys_distinct(entries),
    ensures
        keys_distinct(after_calls(entries, calls)),
        has_key(after_calls(entries, calls), id) <==> (has_key(entries, id) && kept_after(
            calls,
            id,
            -1,
        )) || exists|i: int| #[trigger] loads_at(calls, id, i) && kept_after(calls, id, i),
    decreases calls.len(),
{
    if calls.len() > 0 {
        let c = calls.drop_last();
        let n = c.len() as int;
        lemma_document_calls(entries, c, id);
        let before = after_calls(entries, c);
        assert(forall|k: int| 0 <= k < n ==> #[trigger] c[k] == calls[k]);
        match calls.last() {
            DocumentCall::Load(j, document) => {
                lemma_document_history(before, j, document, Seq::empty(), id);
                lemma_kept_after_step(calls, id, -1);
                assert forall|i: int| i < n implies kept_after(calls, id, i) == kept_after(
                    c,
                    id,
                    i,
                ) by {
                    lemma_kept_after_step(calls, id, i);
                }
                if id == j {
                    assert(loads_at(calls, id, n));
                    assert(kept_after(calls, id, n));
                } else {
                    if exists|i: int| #[trigger] loads_at(calls, id, i) && kept_after(calls, id, i) {
                        let i = choose|i: int| #[trigger] loads_at(calls, id, i) && kept_after(
                            calls,
                            id,
                            i,
                        );
                        assert(loads_at(c, id, i));
                    }
                    if exists|i: int| #[trigger] loads_at(c, id, i) && kept_after(c, id, i) {
                        let i = choose|i: int| #[trigger] loads_at(c, id, i) && kept_after(c, id, i);
                        assert(loads_at(calls, id, i));
                    }
                }
                if !has_key(before, j) {
                    lemma_document_history(before, j, document, Seq::empty(), j);
                }
                assert(keys_distinct(loaded(before, j, document))) by {
                    if !has_key(before, j) {
                        let after = before.push((j, document));
                        assert forall|a: int, b: int|
                            0 <= a < b < after.len() implies #[trigger] after[a].0
                            != #[trigger] after[b].0 by {
                            if b == before.len() {
                                assert(!crate::assets::asset_map::key_at(before, j, a));
                            } else {
                                assert(after[a] == before[a]);
                                assert(after[b] == before[b]);
                            }
                        }
                    }
                }
            },
            DocumentCall::Keep(ids) => {
                lemma_kept_entries(before, ids@, id);
                crate::assets::asset_map::lemma_filtered_distinct(
                    before,
                    |e: (Id, D)| ids@.contains(e.0),
                );
                lemma_kept_after_step(calls, id, -1);
                assert forall|i: int| i < n implies kept_after(calls, id, i) == (kept_after(
                    c,
                    id,
                    i,
                ) && ids@.contains(id)) by {
                    lemma_kept_after_step(calls, id, i);
                }
                if exists|i: int| #[trigger] loads_at(calls, id, i) && kept_after(calls, id, i) {
                    let i = choose|i: int| #[trigger] loads_at(calls, id, i) && kept_after(
                        calls,
                        id,
                        i,
                    );
                    assert(i < n);
                    assert(loads_at(c, id, i));
                }
                if ids@.contains(id) && exists|i: int|
                    #[trigger] loads_at(c, id, i) && kept_after(c, id, i) {
                    let i = choose|i: int| #[trigger] loads_at(c, id, i) && kept_after(c, id, i);
                    assert(loads_at(calls, id, i));
                }
            },
        }
    }
}

} // verus!
