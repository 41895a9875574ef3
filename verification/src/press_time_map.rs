//! The frequency table: how often each key has been pressed.

use std::collections::HashMap;
use vstd::multiset::Multiset;
use vstd::prelude::*;
use vstd::set_lib::lemma_set_subset_finite;
use vstd::std_specs::hash::group_hash_axioms;
use crate::canonical::{canonical, canonicalize};
use crate::key::Key;

verus! {

broadcast use group_hash_axioms;

/// Counts key presses, key by key.
///
/// The table stands for the multiset of the keys that were pressed: each
/// press adds one occurrence of the key it is counted under, and a key that
/// was never pressed occurs zero times.
pub struct PressTimesMap {
    /// The count of each key that was pressed, under the key's slot.
    map: HashMap<u64, u32>,
}

/// The key that takes `slot`, where one does.
spec fn key_at(slot: u64) -> Key {
    choose|key: Key| key.spec_slot() == slot
}

impl PressTimesMap {
    /// The count stored for `key`, zero where none is stored.
    closed spec fn stored(self, key: Key) -> nat {
        if self.map@.contains_key(key.spec_slot()) {
            self.map@[key.spec_slot()] as nat
        } else {
            0
        }
    }

    /// The stored counts, by key.
    closed spec fn stored_counts(self) -> Map<Key, nat> {
        Map::new(
            |key: Key| self.map@.contains_key(key.spec_slot()),
            |key: Key| self.map@[key.spec_slot()] as nat,
        )
    }

    /// Only finitely many keys have a stored count.
    proof fn lemma_stored_counts_finite(self)
        ensures
            self.stored_counts().dom().finite(),
    {
        let slots = self.map@.dom();
        let keys = slots.map(|slot: u64| key_at(slot));
        slots.lemma_map_finite(|slot: u64| key_at(slot));
        assert forall|key: Key| self.stored_counts().dom().contains(key) implies keys.contains(
            key,
        ) by {
            Key::lemma_slot_injective(key_at(key.spec_slot()), key);
            assert(slots.contains(key.spec_slot()));
        }
        lemma_set_subset_finite(keys, self.stored_counts().dom());
    }

    /// The multiset holds each key as often as its stored count says.
    proof fn lemma_count_is_stored(self, key: Key)
        ensures
            self@.count(key) == self.stored(key),
    {
        self.lemma_stored_counts_finite();
    }

    /// Creates a table in which no key has been pressed.
    pub fn new() -> (table: Self)
        ensures
            table@ == Multiset::<Key>::empty(),
            forall|key: Key| table@.count(key) == 0,
    {
        let table = PressTimesMap { map: HashMap::new() };
        proof {
            assert forall|key: Key| table@.count(key) == 0 by {
                table.lemma_count_is_stored(key);
            }
            assert(table@ =~= Multiset::<Key>::empty());
        }
        table
    }

    /// Counts one press of `key`, under the key that `key` stands for.
    ///
    /// No other count changes. A count that has reached `u32::MAX` cannot
    /// grow.
    pub fn key_press(&mut self, key: Key)
        requires
            old(self)@.count(canonical(key)) < u32::MAX,
        ensures
            final(self)@ == old(self)@.insert(canonical(key)),
            final(self)@.count(canonical(key)) == old(self)@.count(canonical(key)) + 1,
            forall|other: Key|
                other != canonical(key) ==> final(self)@.count(other) == old(self)@.count(other),
    {
        let key = canonicalize(key);
        let slot = key.slot();
        let times = match self.map.get(&slot) {
            Some(times) => *times,
            None => 0,
        };
        proof {
            self.lemma_count_is_stored(key);
        }
        let ghost before = *self;
        self.map.insert(slot, times + 1);
        proof {
            assert forall|other: Key| self@.count(other) == before@.insert(key).count(other) by {
                self.lemma_count_is_stored(other);
                before.lemma_count_is_stored(other);
                if other.spec_slot() == slot {
                    Key::lemma_slot_injective(other, key);
                }
            }
            assert(self@ =~= before@.insert(key));
        }
    }

    /// Returns how often `key` has been counted: zero for a key that was
    /// never pressed.
    pub fn get_key_times(&self, key: Key) -> (times: u32)
        ensures
            times == self@.count(key),
    {
        proof {
            self.lemma_count_is_stored(key);
        }
        match self.map.get(&key.slot()) {
            Some(times) => *times,
            None => 0,
        }
    }

    /// Forgets every press.
    pub fn clear(&mut self)
        ensures
            final(self)@ == Multiset::<Key>::empty(),
            forall|key: Key| final(self)@.count(key) == 0,
    {
        self.map.clear();
        proof {
            assert forall|key: Key| self@.count(key) == 0 by {
                self.lemma_count_is_stored(key);
            }
            assert(self@ =~= Multiset::<Key>::empty());
        }
    }
}

impl View for PressTimesMap {
    type V = Multiset<Key>;

    /// The keys that were pressed, each as often as it was pressed.
    closed spec fn view(&self) -> Multiset<Key> {
        Multiset::from_map(self.stored_counts())
    }
}

} // verus!
