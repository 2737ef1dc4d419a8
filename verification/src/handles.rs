//! Generational handles and the arena that hands them out.
//!
//! Transients, descriptor sets and pipeline layouts are referred to by opaque
//! handles rather than by reference. A handle is the 64-bit form of a
//! `slotmap` key; the arena keeps the values themselves in insertion order and
//! uses a `slotmap::SlotMap` to allocate keys and to find a key's position.

use slotmap::{DefaultKey, Key, KeyData, SlotMap};
use vstd::prelude::*;

verus! {

/// A `slotmap::SlotMap` from generational keys to positions.
#[verifier::external_body]
pub struct KeyTable {
    slots: SlotMap<DefaultKey, usize>,
}

/// The live entries of a key table: each key, in the 64-bit form that
/// `KeyData::as_ffi` gives it, with the position stored under it.
pub uninterp spec fn key_table_entries(t: KeyTable) -> Map<u64, usize>;

/// Whether a 64-bit value has the shape of a key that is in use: the version,
/// held in the upper half, is odd.
pub open spec fn is_key(raw: u64) -> bool {
    raw & 0x1_0000_0000 != 0
}

/// The number of values an arena accepts. The slot map underneath refuses to
/// grow once its slot index would no longer fit in 32 bits.
pub const ARENA_LIMIT: usize = 0xFFFF_FFF0;

/// `SlotMap::new`: a map without entries.
#[verifier::external_body]
fn key_table_new() -> (r: KeyTable)
    ensures
        key_table_entries(r) =~= Map::empty(),
{
    KeyTable { slots: SlotMap::new() }
}

/// `SlotMap::insert`, with the key it returns taken through `Key::data` and
/// `KeyData::as_ffi`. The key is one that was not live before, its version is
/// odd, and the map gains exactly that entry. The slot map panics when it
/// cannot number another slot, so the number of entries is bounded.
#[verifier::external_body]
fn key_table_insert(t: &mut KeyTable, position: usize) -> (r: u64)
    requires
        key_table_entries(*old(t)).dom().finite(),
        key_table_entries(*old(t)).dom().len() < ARENA_LIMIT,
    ensures
        is_key(r),
        !key_table_entries(*old(t)).contains_key(r),
        key_table_entries(*final(t)) == key_table_entries(*old(t)).insert(r, position),
{
    t.slots.insert(position).data().as_ffi()
}

/// `SlotMap::get` on the key that `KeyData::from_ffi` rebuilds from `raw`. For
/// a value with an odd version the rebuilt key has exactly these 64 bits, so
/// the lookup finds the entry stored under `raw` or nothing.
#[verifier::external_body]
fn key_table_get(t: &KeyTable, raw: u64) -> (r: Option<usize>)
    requires
        is_key(raw),
    ensures
        r == (if key_table_entries(*t).contains_key(raw) {
            Some(key_table_entries(*t)[raw])
        } else {
            None
        }),
{
    t.slots.get(DefaultKey::from(KeyData::from_ffi(raw))).copied()
}

/// Values stored in insertion order, each under a generational key.
pub struct Arena<T> {
    table: KeyTable,
    keys: Vec<u64>,
    items: Vec<T>,
}

impl<T> Arena<T> {
    /// The keys handed out so far, oldest first.
    pub closed spec fn keys(&self) -> Seq<u64> {
        self.keys@
    }

    /// The stored values; `items()[i]` is stored under `keys()[i]`.
    pub closed spec fn items(&self) -> Seq<T> {
        self.items@
    }

    /// The key table agrees with the key list: it maps each key to its
    /// position and holds nothing else.
    pub closed spec fn table_agrees(&self) -> bool {
        let entries = key_table_entries(self.table);
        &&& entries.dom().finite()
        &&& entries.dom().len() == self.keys@.len()
        &&& forall|i: int|
            0 <= i < self.keys@.len() ==> entries.contains_key(#[trigger] self.keys@[i])
                && entries[self.keys@[i]] == i
        &&& forall|k: u64| #[trigger]
            entries.contains_key(k) ==> entries[k] < self.keys@.len() && self.keys@[entries[k] as int]
                == k
    }

    /// Well-formedness: one key per value, no key twice, every key of the
    /// shape the slot map gives to live keys.
    pub open spec fn wf(&self) -> bool {
        &&& self.table_agrees()
        &&& self.keys().len() == self.items().len()
        &&& self.keys().len() <= ARENA_LIMIT
        &&& self.keys().no_duplicates()
        &&& forall|i: int| 0 <= i < self.keys().len() ==> is_key(#[trigger] self.keys()[i])
    }

    /// The arena as a map from key to value.
    pub open spec fn view(&self) -> Map<u64, T> {
        Map::new(
            |k: u64| self.keys().contains(k),
            |k: u64| self.items()[self.keys().index_of(k)],
        )
    }

    /// An arena without values.
    pub fn new() -> (r: Self)
        ensures
            r.wf(),
            r.keys() == Seq::<u64>::empty(),
            r.items() == Seq::<T>::empty(),
    {
        Arena { table: key_table_new(), keys: Vec::new(), items: Vec::new() }
    }

    /// The number of stored values.
    pub fn len(&self) -> (n: usize)
        requires
            self.wf(),
        ensures
            n == self.keys().len(),
            n == self.items().len(),
    {
        self.keys.len()
    }

    /// Stores `item` under a fresh key and returns the key.
    pub fn insert(&mut self, item: T) -> (key: u64)
        requires
            old(self).wf(),
            old(self).keys().len() < ARENA_LIMIT,
        ensures
            final(self).wf(),
            is_key(key),
            !old(self).keys().contains(key),
            final(self).keys() == old(self).keys().push(key),
            final(self).items() == old(self).items().push(item),
            final(self)@ == old(self)@.insert(key, item),
    {
        let position = self.keys.len();
        let key = key_table_insert(&mut self.table, position);
        proof {
            if old(self).keys@.contains(key) {
                let i = old(self).keys@.index_of(key);
                assert(key_table_entries(old(self).table).contains_key(old(self).keys@[i]));
            }
        }
        self.keys.push(key);
        self.items.push(item);
        proof {
            let entries = key_table_entries(self.table);
            let before = key_table_entries(old(self).table);
            assert forall|i: int| 0 <= i < self.keys@.len() implies entries.contains_key(
                #[trigger] self.keys@[i],
            ) && entries[self.keys@[i]] == i by {
                if i < position {
                    assert(self.keys@[i] == old(self).keys@[i]);
                    assert(before.contains_key(old(self).keys@[i]));
                }
            }
            assert forall|k: u64| #[trigger] entries.contains_key(k) implies entries[k]
                < self.keys@.len() && self.keys@[entries[k] as int] == k by {
                if k != key {
                    assert(before.contains_key(k));
                }
            }
            assert(self.keys@.no_duplicates()) by {
                assert forall|i: int, j: int|
                    0 <= i < self.keys@.len() && 0 <= j < self.keys@.len() && i != j implies self.keys@[i]
                    != self.keys@[j] by {
                    if i < position && j < position {
                        assert(old(self).keys@[i] != old(self).keys@[j]);
                    } else if i < position {
                        assert(old(self).keys@.contains(old(self).keys@[i]));
                    } else if j < position {
                        assert(old(self).keys@.contains(old(self).keys@[j]));
                    }
                }
            }
            lemma_arena_view_after_insert(*old(self), *self, key, item);
        }
        key
    }

    /// The position of the value stored under `key`, if there is one.
    pub fn position(&self, key: u64) -> (r: Option<usize>)
        requires
            self.wf(),
        ensures
            match r {
                Some(i) => i < self.keys().len() && self.keys()[i as int] == key,
                None => !self.keys().contains(key),
            },
    {
        if key & 0x1_0000_0000 == 0 {
            proof {
                if self.keys@.contains(key) {
                    let i = self.keys@.index_of(key);
                    assert(is_key(self.keys()[i]));
                }
            }
            return None;
        }
        let found = key_table_get(&self.table, key);
        proof {
            if found is None && self.keys@.contains(key) {
                let i = self.keys@.index_of(key);
                assert(key_table_entries(self.table).contains_key(self.keys@[i]));
            }
        }
        found
    }

    /// Whether a value is stored under `key`.
    pub fn contains(&self, key: u64) -> (r: bool)
        requires
            self.wf(),
        ensures
            r == self.keys().contains(key),
            r == self@.contains_key(key),
    {
        self.position(key).is_some()
    }

    /// The value stored under `key`, if there is one.
    pub fn get(&self, key: u64) -> (r: Option<&T>)
        requires
            self.wf(),
        ensures
            match r {
                Some(item) => self@.contains_key(key) && *item == self@[key],
                None => !self@.contains_key(key),
            },
    {
        match self.position(key) {
            Some(i) => {
                proof {
                    self.lemma_position_unique(i as int);
                }
                Some(&self.items[i])
            },
            None => None,
        }
    }

    /// Puts `item` in the place of the value at position `i`; the value
    /// keeps its key.
    pub fn replace(&mut self, i: usize, item: T)
        requires
            old(self).wf(),
            i < old(self).items().len(),
        ensures
            final(self).wf(),
            final(self).keys() == old(self).keys(),
            final(self).items() == old(self).items().update(i as int, item),
    {
        self.items.set(i, item);
    }

    /// The key at a position.
    pub fn key_at(&self, i: usize) -> (key: u64)
        requires
            self.wf(),
            i < self.keys().len(),
        ensures
            key == self.keys()[i as int],
    {
        self.keys[i]
    }

    /// The value at a position.
    pub fn item_at(&self, i: usize) -> (item: &T)
        requires
            self.wf(),
            i < self.items().len(),
        ensures
            *item == self.items()[i as int],
    {
        &self.items[i]
    }

    /// In a well-formed arena the key at position `i` is found at `i` and
    /// nowhere else, so the map view gives the value stored there.
    pub proof fn lemma_position_unique(&self, i: int)
        requires
            self.wf(),
            0 <= i < self.keys().len(),
        ensures
            self.keys().contains(self.keys()[i]),
            self.keys().index_of(self.keys()[i]) == i,
            self@.contains_key(self.keys()[i]),
            self@[self.keys()[i]] == self.items()[i],
    {
        let k = self.keys()[i];
        assert(self.keys().contains(k));
        let j = self.keys().index_of(k);
        assert(self.keys()[j] == k);
    }
}

/// Pushing a fresh key and a value onto an arena inserts the pair into its
/// map view.
proof fn lemma_arena_view_after_insert<T>(before: Arena<T>, after: Arena<T>, key: u64, item: T)
    requires
        before.wf(),
        after.wf(),
        !before.keys().contains(key),
        after.keys() == before.keys().push(key),
        after.items() == before.items().push(item),
    ensures
        after@ == before@.insert(key, item),
        forall|k: u64| before@.contains_key(k) ==> after@.contains_key(k),
{
    assert forall|k: u64| after.keys().contains(k) <==> (before.keys().contains(k) || k
        == key) by {
        if after.keys().contains(k) {
            let j = after.keys().index_of(k);
            if j < before.keys().len() {
                assert(before.keys()[j] == k);
            }
        }
        if before.keys().contains(k) {
            let j = before.keys().index_of(k);
            assert(after.keys()[j] == k);
        }
        if k == key {
            assert(after.keys()[before.keys().len() as int] == k);
        }
    }
    assert forall|k: u64| after.keys().contains(k) implies #[trigger] after@[k] == before@.insert(
        key,
        item,
    )[k] by {
        let j = after.keys().index_of(k);
        if k != key {
            let i = before.keys().index_of(k);
            assert(after.keys()[i] == k);
            assert(j == i);
        } else {
            assert(after.keys()[before.keys().len() as int] == k);
            assert(j == before.keys().len());
        }
    }
    assert(after@ =~= before@.insert(key, item));
}

} // verus!
