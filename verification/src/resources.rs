//! Long-lived pipeline layouts, found by handle or by name.

use crate::handles::{Arena, ARENA_LIMIT};
use crate::name_table::NameTable;
use crate::types::PipelineLayout;
use vstd::prelude::*;

verus! {

/// Names a pipeline layout held by a `ResourceManager`.
#[derive(Clone, Copy, Debug, PartialEq, Eq, Structural, Hash)]
pub struct LayoutHandle {
    pub key: u64,
}

/// The names under which layouts were cached.
pub struct Cache {
    layout: NameTable<LayoutHandle>,
}

/// Owner of the pipeline layouts that pass builders share.
pub struct ResourceManager {
    layout: Arena<PipelineLayout>,
    cache: Cache,
}

impl ResourceManager {
    /// The layouts held, by the key of their handle.
    pub closed spec fn layouts(&self) -> Map<u64, PipelineLayout> {
        self.layout@
    }

    /// The cached names with the handle each stands for.
    pub closed spec fn cached(&self) -> Map<Seq<char>, LayoutHandle> {
        self.cache.layout@
    }

    /// Well-formedness: every cached name stands for a layout that is held.
    pub closed spec fn wf(&self) -> bool {
        &&& self.layout.wf()
        &&& self.cache.layout.wf()
        &&& forall|n: Seq<char>| #[trigger]
            self.cache.layout@.contains_key(n) ==> self.layout@.contains_key(
                self.cache.layout@[n].key,
            )
    }

    /// Whether another layout can be added.
    pub closed spec fn has_room(&self) -> bool {
        self.layout.keys().len() < ARENA_LIMIT
    }

    /// A manager that holds nothing.
    pub fn new() -> (r: ResourceManager)
        ensures
            r.wf(),
            r.has_room(),
            r.layouts() == Map::<u64, PipelineLayout>::empty(),
            r.cached() == Map::<Seq<char>, LayoutHandle>::empty(),
    {
        let r = ResourceManager {
            layout: Arena::new(),
            cache: Cache { layout: NameTable::new() },
        };
        assert(r.layouts() =~= Map::<u64, PipelineLayout>::empty());
        r
    }

    /// Whether another layout can be added.
    pub fn can_add(&self) -> (r: bool)
        requires
            self.wf(),
        ensures
            r == self.has_room(),
    {
        self.layout.len() < ARENA_LIMIT
    }

    /// Takes ownership of `layout` and returns a fresh handle for it.
    pub fn add_layout(&mut self, layout: PipelineLayout) -> (handle: LayoutHandle)
        requires
            old(self).wf(),
            old(self).has_room(),
        ensures
            final(self).wf(),
            !old(self).layouts().contains_key(handle.key),
            final(self).layouts() == old(self).layouts().insert(handle.key, layout),
            final(self).cached() == old(self).cached(),
    {
        let key = self.layout.insert(layout);
        LayoutHandle { key }
    }

    /// The layout a handle stands for, if this manager holds it.
    pub fn get_layout(&self, layout: LayoutHandle) -> (r: Option<&PipelineLayout>)
        requires
            self.wf(),
        ensures
            match r {
                Some(found) => self.layouts().contains_key(layout.key) && *found
                    == self.layouts()[layout.key],
                None => !self.layouts().contains_key(layout.key),
            },
    {
        self.layout.get(layout.key)
    }

    /// The layout cached under `name`, with its handle.
    pub fn get_layout_from_cache(&self, name: &str) -> (r: Option<(&PipelineLayout, LayoutHandle)>)
        requires
            self.wf(),
        ensures
            match r {
                Some((found, handle)) => self.cached().contains_key(name@) && handle
                    == self.cached()[name@] && self.layouts().contains_key(handle.key) && *found
                    == self.layouts()[handle.key],
                None => !self.cached().contains_key(name@),
            },
    {
        match self.cache.layout.get(name) {
            Some(handle) => {
                match self.layout.get(handle.key) {
                    Some(found) => Some((found, *handle)),
                    None => None,
                }
            },
            None => None,
        }
    }

    /// Takes ownership of `layout` and makes `name` stand for it. A name that
    /// stood for another layout now stands for this one; the other layout
    /// stays held under its handle and is not released, so a name should not
    /// be used again while a graph that draws with the other layout is alive.
    pub fn cache_layout(&mut self, name: &str, layout: PipelineLayout) -> (handle: LayoutHandle)
        requires
            old(self).wf(),
            old(self).has_room(),
        ensures
            final(self).wf(),
            !old(self).layouts().contains_key(handle.key),
            final(self).layouts() == old(self).layouts().insert(handle.key, layout),
            final(self).cached() == old(self).cached().insert(name@, handle),
    {
        let key = self.layout.insert(layout);
        let handle = LayoutHandle { key };
        let _ = self.cache.layout.insert(name, handle);
        handle
    }
}

} // verus!
