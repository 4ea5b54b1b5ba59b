use std::collections::HashSet;

use vstd::prelude::*;
use vstd::std_specs::hash::spec_hash_keys_iter;
use vstd::std_specs::iter::IteratorSpec;

use crate::input::events::{ElementState, KeyboardEvent};

verus! {

broadcast use vstd::std_specs::hash::group_hash_axioms;

/// Key code of the W key.
pub const KEY_W: u32 = 87;

/// Key code of the A key.
pub const KEY_A: u32 = 65;

/// Key code of the S key.
pub const KEY_S: u32 = 83;

/// Key code of the D key.
pub const KEY_D: u32 = 68;

/// Copies `source` into `target`, reusing `target`'s storage: afterwards
/// `target` holds exactly the keys of `source`.
fn set_clone_from(target: &mut HashSet<u32>, source: &HashSet<u32>)
    ensures
        final(target)@ == source@,
{
    target.clear();
    let ghost keys = IteratorSpec::remaining(&spec_hash_keys_iter(source)).unref();
    for key in it: source.iter()
        invariant
            it.seq().unref() == keys,
            keys.to_set() == source@,
            target@ == keys.take(it.index() as int).to_set(),
    {
        proof {
            let i = it.index() as int;
            let done = keys.take(i);
            let next = keys.take(i + 1);
            assert(keys[i] == *key);
            assert(next =~= done.push(*key));
            assert(next.to_set() =~= done.to_set().insert(*key)) by {
                assert forall|x: u32|
                    next.to_set().contains(x) <==> done.to_set().insert(*key).contains(x) by {
                    if next.to_set().contains(x) {
                        let j = choose|j: int| 0 <= j < next.len() && next[j] == x;
                        if j < done.len() {
                            assert(done[j] == x);
                        }
                    }
                    if done.to_set().contains(x) {
                        let j = choose|j: int| 0 <= j < done.len() && done[j] == x;
                        assert(next[j] == x);
                    }
                    if x == *key {
                        assert(next[i] == x);
                    }
                }
            }
        }
        target.insert(*key);
    }
    proof {
        assert(keys.take(keys.len() as int) =~= keys);
    }
}

/// The keys held now and the keys held at the end of the last frame.
pub struct Keyboard {
    current: HashSet<u32>,
    previous: HashSet<u32>,
}

/// Whether `key` went down this frame: held now, not held last frame.
pub open spec fn went_down(current: Set<u32>, previous: Set<u32>, key: u32) -> bool {
    current.contains(key) && !previous.contains(key)
}

/// Whether `key` came up this frame: held last frame, not held now.
pub open spec fn came_up(current: Set<u32>, previous: Set<u32>, key: u32) -> bool {
    previous.contains(key) && !current.contains(key)
}

impl Keyboard {
    /// The keys held now.
    pub closed spec fn held_keys(&self) -> Set<u32> {
        self.current@
    }

    /// The keys held at the end of the last frame.
    pub closed spec fn previous_keys(&self) -> Set<u32> {
        self.previous@
    }

    /// A keyboard with no key held.
    pub fn new() -> (k: Keyboard)
        ensures
            k.held_keys() == Set::<u32>::empty(),
            k.previous_keys() == Set::<u32>::empty(),
    {
        let current = HashSet::new();
        let previous = HashSet::new();
        Keyboard { current, previous }
    }

    /// Starts a frame: the keys held now become the keys of the last frame,
    /// and stay held.
    pub fn start_frame(&mut self)
        ensures
            final(self).previous_keys() == old(self).held_keys(),
            final(self).held_keys() == old(self).held_keys(),
    {
        std::mem::swap(&mut self.current, &mut self.previous);
        set_clone_from(&mut self.current, &self.previous);
    }

    /// Applies a key event: a pressed key becomes held, a released key stops
    /// being held.
    pub fn process(&mut self, event: KeyboardEvent)
        ensures
            final(self).previous_keys() == old(self).previous_keys(),
            final(self).held_keys() == match event.state {
                ElementState::Pressed => old(self).held_keys().insert(event.key_code),
                ElementState::Released => old(self).held_keys().remove(event.key_code),
            },
    {
        match event.state {
            ElementState::Pressed => {
                self.current.insert(event.key_code);
            },
            ElementState::Released => {
                self.current.remove(&event.key_code);
            },
        }
    }

    /// Whether `key` went down this frame.
    pub fn pressed(&self, key: u32) -> (b: bool)
        ensures
            b == went_down(self.held_keys(), self.previous_keys(), key),
    {
        self.current.contains(&key) && !self.previous.contains(&key)
    }

    /// Whether `key` came up this frame.
    pub fn released(&self, key: u32) -> (b: bool)
        ensures
            b == came_up(self.held_keys(), self.previous_keys(), key),
    {
        self.previous.contains(&key) && !self.current.contains(&key)
    }

    /// Whether `key` is held.
    pub fn held(&self, key: u32) -> (b: bool)
        ensures
            b == self.held_keys().contains(key),
    {
        self.current.contains(&key)
    }
}

/// Right after a frame starts no key has gone down or come up, whatever
/// happened before.
pub proof fn lemma_fresh_frame_has_no_edges(held: Set<u32>, key: u32)
    ensures
        !went_down(held, held, key),
        !came_up(held, held, key),
{
}

/// A key pressed during a frame in which it was not held before is seen
/// as gone down, and a key released during a frame in which it was held
/// before is seen as come up.
pub proof fn lemma_edges_after_events(current: Set<u32>, previous: Set<u32>, key: u32)
    ensures
        !previous.contains(key) ==> went_down(current.insert(key), previous, key),
        previous.contains(key) ==> came_up(current.remove(key), previous, key),
        !went_down(current.remove(key), previous, key),
        !came_up(current.insert(key), previous, key),
{
}

} // verus!
