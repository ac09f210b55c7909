use vstd::prelude::*;
use crate::id_map::IdMap;
use crate::node::NodeId;

verus! {

/// Set of `NodeId`s, abstracted as a `Set<NodeId>`.
pub struct IdSet {
    map: IdMap<()>,
}

impl View for IdSet {
    type V = Set<NodeId>;

    closed spec fn view(&self) -> Set<NodeId> {
        self.map@.dom()
    }
}

impl IdSet {
    pub closed spec fn wf(self) -> bool {
        self.map.wf()
    }

    /// The empty set.
    pub fn new() -> (r: Self)
        ensures
            r.wf(),
            r@ == Set::<NodeId>::empty(),
    {
        let r = IdSet { map: IdMap::new() };
        proof {
            assert(r@ =~= Set::<NodeId>::empty());
        }
        r
    }

    /// Whether `id` is in the set.
    pub fn contains(&self, id: NodeId) -> (r: bool)
        ensures
            r == self@.contains(id),
    {
        self.map.contains(id)
    }

    /// Adds `id` to the set.
    pub fn insert(&mut self, id: NodeId)
        requires
            old(self).wf(),
        ensures
            final(self).wf(),
            final(self)@ == old(self)@.insert(id),
    {
        self.map.insert(id, ());
        proof {
            assert(self@ =~= old(self)@.insert(id));
        }
    }

    /// Removes `id` from the set.
    pub fn remove(&mut self, id: NodeId)
        requires
            old(self).wf(),
        ensures
            final(self).wf(),
            final(self)@ == old(self)@.remove(id),
    {
        let _ = self.map.remove(id);
        proof {
            assert(self@ =~= old(self)@.remove(id));
        }
    }
}

} // verus!
