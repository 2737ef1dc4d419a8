//! A small map from names to values that keeps its entries in the order in
//! which the names were first seen.

use vstd::prelude::*;

verus! {

/// Values stored under names; a name occurs at most once.
pub struct NameTable<V> {
    names: Vec<String>,
    values: Vec<V>,
}

impl<V> NameTable<V> {
    /// The names, in the order in which they were first inserted.
    pub closed spec fn names(&self) -> Seq<Seq<char>> {
        Seq::new(self.names@.len(), |i: int| self.names@[i]@)
    }

    /// The values; `values()[i]` is stored under `names()[i]`.
    pub closed spec fn values(&self) -> Seq<V> {
        self.values@
    }

    /// Well-formedness: one value per name and no name twice.
    pub open spec fn wf(&self) -> bool {
        &&& self.names().len() == self.values().len()
        &&& self.names().no_duplicates()
    }

    /// The table as a map from name to value.
    pub open spec fn view(&self) -> Map<Seq<char>, V> {
        Map::new(
            |n: Seq<char>| self.names().contains(n),
            |n: Seq<char>| self.values()[self.names().index_of(n)],
        )
    }

    /// A table without entries.
    pub fn new() -> (r: Self)
        ensures
            r.wf(),
            r.names() == Seq::<Seq<char>>::empty(),
            r.values() == Seq::<V>::empty(),
            r@ == Map::<Seq<char>, V>::empty(),
    {
        let r = NameTable { names: Vec::new(), values: Vec::new() };
        assert(r.names() =~= Seq::<Seq<char>>::empty());
        assert(r@ =~= Map::<Seq<char>, V>::empty());
        r
    }

    /// The number of names.
    pub fn len(&self) -> (n: usize)
        requires
            self.wf(),
        ensures
            n == self.names().len(),
    {
        self.names.len()
    }

    /// The position of `name`, if it is present.
    pub fn position(&self, name: &str) -> (r: Option<usize>)
        requires
            self.wf(),
        ensures
            match r {
                Some(i) => i < self.names().len() && self.names()[i as int] == name@,
                None => !self.names().contains(name@),
            },
    {
        let wanted = name.to_owned();
        let mut i: usize = 0;
        while i < self.names.len()
            invariant
                i <= self.names@.len(),
                wanted@ == name@,
                forall|k: int| 0 <= k < i ==> self.names()[k] != name@,
            decreases self.names@.len() - i,
        {
            if self.names[i] == wanted {
                return Some(i);
            }
            i += 1;
        }
        None
    }

    /// The value stored under `name`, if there is one.
    pub fn get(&self, name: &str) -> (r: Option<&V>)
        requires
            self.wf(),
        ensures
            match r {
                Some(v) => self@.contains_key(name@) && *v == self@[name@],
                None => !self@.contains_key(name@),
            },
    {
        match self.position(name) {
            Some(i) => {
                proof {
                    self.lemma_position_unique(i as int);
                }
                Some(&self.values[i])
            },
            None => None,
        }
    }

    /// Stores `value` under `name`. A name that is already present keeps its
    /// place and gets the new value; the value it had is returned.
    pub fn insert(&mut self, name: &str, value: V) -> (r: Option<V>)
        requires
            old(self).wf(),
        ensures
            final(self).wf(),
            final(self)@ == old(self)@.insert(name@, value),
            match r {
                Some(prior) => old(self)@.contains_key(name@) && prior == old(self)@[name@]
                    && final(self).names() == old(self).names(),
                None => !old(self)@.contains_key(name@) && final(self).names()
                    == old(self).names().push(name@),
            },
    {
        match self.position(name) {
            Some(i) => {
                proof {
                    self.lemma_position_unique(i as int);
                }
                let mut slot = value;
                let place = &mut self.values[i];
                core::mem::swap(place, &mut slot);
                proof {
                    assert(self.names() == old(self).names());
                    assert forall|n: Seq<char>| self.names().contains(n) implies #[trigger] self@[n]
                        == old(self)@.insert(name@, value)[n] by {
                        let j = self.names().index_of(n);
                        if n == name@ {
                            assert(j == i);
                        }
                    }
                    assert(self@ =~= old(self)@.insert(name@, value));
                }
                Some(slot)
            },
            None => {
                self.names.push(name.to_owned());
                self.values.push(value);
                proof {
                    assert(self.names() =~= old(self).names().push(name@));
                    assert forall|n: Seq<char>| #[trigger]
                        self.names().contains(n) <==> (old(self).names().contains(n) || n
                        == name@) by {
                        if self.names().contains(n) {
                            let j = self.names().index_of(n);
                            if j < old(self).names().len() {
                                assert(old(self).names()[j] == n);
                            }
                        }
                        if old(self).names().contains(n) {
                            let j = old(self).names().index_of(n);
                            assert(self.names()[j] == n);
                        }
                        if n == name@ {
                            assert(self.names()[old(self).names().len() as int] == n);
                        }
                    }
                    assert forall|n: Seq<char>| self.names().contains(n) implies #[trigger] self@[n]
                        == old(self)@.insert(name@, value)[n] by {
                        let j = self.names().index_of(n);
                        if n != name@ {
                            let k = old(self).names().index_of(n);
                            assert(self.names()[k] == n);
                            assert(j == k);
                        } else {
                            assert(self.names()[old(self).names().len() as int] == n);
                            assert(j == old(self).names().len());
                        }
                    }
                    assert(self@ =~= old(self)@.insert(name@, value));
                }
                None
            },
        }
    }

    /// The name at position `i` is found there and nowhere else, so the map
    /// view gives the value stored there.
    pub proof fn lemma_position_unique(&self, i: int)
        requires
            self.wf(),
            0 <= i < self.names().len(),
        ensures
            self.names().contains(self.names()[i]),
            self.names().index_of(self.names()[i]) == i,
            self@.contains_key(self.names()[i]),
            self@[self.names()[i]] == self.values()[i],
    {
        let n = self.names()[i];
        assert(self.names().contains(n));
        let j = self.names().index_of(n);
        assert(self.names()[j] == n);
    }
}

} // verus!
