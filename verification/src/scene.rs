//! The scene as the graph sees it: for each pass name, what to draw.

use crate::game_object::Renderable;
use crate::name_table::NameTable;
use vstd::prelude::*;

verus! {

/// Renderables keyed by the name of the pass that draws them. The graph
/// reads a scene and never changes it.
pub struct Scene {
    renderables: NameTable<Vec<Renderable>>,
    nothing: Vec<Renderable>,
}

impl Scene {
    /// Well-formedness of the table underneath.
    pub closed spec fn wf(&self) -> bool {
        self.renderables.wf() && self.nothing@.len() == 0
    }

    /// The scene as a map from pass name to the renderables listed for it.
    pub closed spec fn view(&self) -> Map<Seq<char>, Seq<Renderable>> {
        Map::new(
            |n: Seq<char>| self.renderables@.contains_key(n),
            |n: Seq<char>| self.renderables@[n]@,
        )
    }

    /// What a pass called `pass` is given: its list, or nothing where the
    /// scene names no such pass.
    pub open spec fn listed(&self, pass: Seq<char>) -> Seq<Renderable> {
        if self@.contains_key(pass) {
            self@[pass]
        } else {
            Seq::empty()
        }
    }

    /// A scene without renderables.
    pub fn new() -> (r: Scene)
        ensures
            r.wf(),
            r@ == Map::<Seq<char>, Seq<Renderable>>::empty(),
    {
        let r = Scene { renderables: NameTable::new(), nothing: Vec::new() };
        assert(r@ =~= Map::<Seq<char>, Seq<Renderable>>::empty());
        r
    }

    /// Lists `items` for the pass called `pass`, in place of what was listed
    /// for it before.
    pub fn set_renderables(&mut self, pass: &str, items: Vec<Renderable>)
        requires
            old(self).wf(),
        ensures
            final(self).wf(),
            final(self)@ == old(self)@.insert(pass@, items@),
    {
        let _ = self.renderables.insert(pass, items);
        assert(self@ =~= old(self)@.insert(pass@, items@));
    }

    /// The renderables listed for the pass called `pass`.
    pub fn renderables_for(&self, pass: &str) -> (r: &Vec<Renderable>)
        requires
            self.wf(),
        ensures
            r@ == self.listed(pass@),
    {
        match self.renderables.get(pass) {
            Some(items) => items,
            None => &self.nothing,
        }
    }
}

} // verus!
