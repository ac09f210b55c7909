use vstd::prelude::*;
use crate::node::NodeId;

verus! {

/// Association table from `NodeId` to `V`, abstracted as a `Map<NodeId, V>`.
///
/// The entry vector never holds two entries with the same key, so the map
/// view determines the table's observable behaviour completely.
pub struct IdMap<V> {
    entries: Vec<(NodeId, V)>,
}

/// The map denoted by a sequence of key-value pairs; later entries win.
pub open spec fn pairs_to_map<V>(s: Seq<(NodeId, V)>) -> Map<NodeId, V>
    decreases s.len(),
{
    if s.len() == 0 {
        Map::empty()
    } else {
        pairs_to_map(s.drop_last()).insert(s.last().0, s.last().1)
    }
}

/// Whether a sequence of pairs holds some entry for the given key.
pub open spec fn seq_has_key<V>(s: Seq<(NodeId, V)>, n: NodeId) -> bool {
    exists|i: int| 0 <= i < s.len() && (#[trigger] s[i]).0 == n
}

/// Whether no two entries of the sequence share a key.
pub open spec fn unique_keys<V>(s: Seq<(NodeId, V)>) -> bool {
    forall|i: int, j: int| 0 <= i < j < s.len() ==> (#[trigger] s[i]).0 != (#[trigger] s[j]).0
}

proof fn lemma_pairs_to_map_characterized<V>(s: Seq<(NodeId, V)>)
    ensures
        forall|n: NodeId| #[trigger] pairs_to_map(s).contains_key(n) <==> seq_has_key(s, n),
        unique_keys(s) ==> forall|i: int|
            0 <= i < s.len() ==> pairs_to_map(s).contains_key((#[trigger] s[i]).0)
                && pairs_to_map(s)[s[i].0] == s[i].1,
    decreases s.len(),
{
    if s.len() > 0 {
        let t = s.drop_last();
        lemma_pairs_to_map_characterized(t);
        assert(pairs_to_map(s) == pairs_to_map(t).insert(s.last().0, s.last().1));
        assert forall|n: NodeId| #[trigger] pairs_to_map(s).contains_key(n) implies seq_has_key(
            s,
            n,
        ) by {
            if n == s.last().0 {
                assert(s[s.len() - 1].0 == n);
            } else {
                assert(pairs_to_map(t).contains_key(n));
                assert(seq_has_key(t, n));
                let i = choose|i: int| 0 <= i < t.len() && (#[trigger] t[i]).0 == n;
                assert(t[i] == s[i]);
                assert(s[i].0 == n);
            }
        }
        assert forall|n: NodeId| seq_has_key(s, n) implies #[trigger] pairs_to_map(
            s,
        ).contains_key(n) by {
            let i = choose|i: int| 0 <= i < s.len() && (#[trigger] s[i]).0 == n;
            if i < s.len() - 1 {
                assert(t[i].0 == n);
            }
        }
        if unique_keys(s) {
            assert(unique_keys(t));
            assert forall|i: int| 0 <= i < s.len() implies pairs_to_map(s).contains_key(
                (#[trigger] s[i]).0,
            ) && pairs_to_map(s)[s[i].0] == s[i].1 by {
                if i < s.len() - 1 {
                    assert(t[i] == s[i]);
                    assert(s[i].0 != s.last().0);
                }
            }
        }
    }
}

/// Removing index `i` by a swap with the final entry removes exactly the key
/// at `i` from the map view.
proof fn lemma_swap_remove_map<V>(s: Seq<(NodeId, V)>, i: int)
    requires
        unique_keys(s),
        0 <= i < s.len(),
    ensures
        unique_keys(s.update(i, s.last()).drop_last()),
        pairs_to_map(s.update(i, s.last()).drop_last()) == pairs_to_map(s).remove(s[i].0),
{
    let t = s.update(i, s.last()).drop_last();
    lemma_pairs_to_map_characterized(s);
    lemma_pairs_to_map_characterized(t);
    assert forall|j: int, k: int| 0 <= j < k < t.len() implies (#[trigger] t[j]).0 != (
    #[trigger] t[k]).0 by {
        assert(t[j] == if j == i { s.last() } else { s[j] });
        assert(t[k] == if k == i { s.last() } else { s[k] });
    }
    assert forall|n: NodeId| #[trigger] pairs_to_map(t).contains_key(n) implies pairs_to_map(
        s,
    ).remove(s[i].0).contains_key(n) by {
        let j = choose|j: int| 0 <= j < t.len() && (#[trigger] t[j]).0 == n;
        assert(t[j] == if j == i { s.last() } else { s[j] });
        if j == i {
            assert(s[s.len() - 1].0 == n);
            assert(n != s[i].0);
        } else {
            assert(s[j].0 == n);
            assert(n != s[i].0);
        }
    }
    assert forall|n: NodeId| pairs_to_map(s).remove(s[i].0).contains_key(n)
        implies #[trigger] pairs_to_map(t).contains_key(n) by {
        let j = choose|j: int| 0 <= j < s.len() && (#[trigger] s[j]).0 == n;
        if j == s.len() - 1 {
            if i < s.len() - 1 {
                assert(t[i].0 == n);
            }
        } else if j == i {
            assert(false);
        } else {
            assert(t[j].0 == n);
        }
    }
    assert forall|n: NodeId| #[trigger] pairs_to_map(t).contains_key(n) implies pairs_to_map(t)[n]
        == pairs_to_map(s).remove(s[i].0)[n] by {
        let j = choose|j: int| 0 <= j < t.len() && (#[trigger] t[j]).0 == n;
        assert(pairs_to_map(t)[n] == t[j].1);
        assert(t[j] == if j == i { s.last() } else { s[j] });
        if j == i {
            assert(pairs_to_map(s)[n] == s[s.len() - 1].1);
        } else {
            assert(pairs_to_map(s)[n] == s[j].1);
        }
    }
    assert(pairs_to_map(t) =~= pairs_to_map(s).remove(s[i].0));
}

impl<V> View for IdMap<V> {
    type V = Map<NodeId, V>;

    closed spec fn view(&self) -> Map<NodeId, V> {
        pairs_to_map(self.entries@)
    }
}

impl<V> IdMap<V> {
    /// No two entries share a key.
    pub closed spec fn wf(self) -> bool {
        unique_keys(self.entries@)
    }

    /// The empty table.
    pub fn new() -> (r: Self)
        ensures
            r.wf(),
            r@ == Map::<NodeId, V>::empty(),
    {
        IdMap { entries: Vec::new() }
    }

    fn find(&self, id: NodeId) -> (r: Option<usize>)
        ensures
            match r {
                Some(i) => i < self.entries@.len() && self.entries@[i as int].0 == id,
                None => !seq_has_key(self.entries@, id),
            },
    {
        let n = self.entries.len();
        let mut i: usize = 0;
        while i < n
            invariant
                n == self.entries@.len(),
                i <= n,
                forall|j: int| 0 <= j < i ==> (#[trigger] self.entries@[j]).0 != id,
            decreases n - i,
        {
            if self.entries[i].0 == id {
                return Some(i);
            }
            i += 1;
        }
        None
    }

    /// Whether the table holds an entry for `id`.
    pub fn contains(&self, id: NodeId) -> (r: bool)
        ensures
            r == self@.contains_key(id),
    {
        proof {
            lemma_pairs_to_map_characterized(self.entries@);
        }
        self.find(id).is_some()
    }

    /// The value bound to `id`, if any.
    pub fn get(&self, id: NodeId) -> (r: Option<&V>)
        requires
            self.wf(),
        ensures
            match r {
                Some(v) => self@.contains_key(id) && *v == self@[id],
                None => !self@.contains_key(id),
            },
    {
        proof {
            lemma_pairs_to_map_characterized(self.entries@);
        }
        match self.find(id) {
            Some(i) => Some(&self.entries[i].1),
            None => None,
        }
    }

    /// Removes the entry for `id`, handing its value back.
    pub fn remove(&mut self, id: NodeId) -> (r: Option<V>)
        requires
            old(self).wf(),
        ensures
            final(self).wf(),
            final(self)@ == old(self)@.remove(id),
            r == (if old(self)@.contains_key(id) {
                Some(old(self)@[id])
            } else {
                None::<V>
            }),
    {
        proof {
            lemma_pairs_to_map_characterized(self.entries@);
        }
        match self.find(id) {
            Some(i) => {
                proof {
                    lemma_swap_remove_map(self.entries@, i as int);
                }
                let (_, v) = self.entries.swap_remove(i);
                Some(v)
            },
            None => {
                proof {
                    assert(self@ =~= self@.remove(id));
                }
                None
            },
        }
    }

    /// The keys of all entries: each key of the map exactly once.
    pub fn keys(&self) -> (r: Vec<NodeId>)
        requires
            self.wf(),
        ensures
            r@.no_duplicates(),
            forall|i: int| 0 <= i < r@.len() ==> self@.contains_key(#[trigger] r@[i]),
            forall|n: NodeId| self@.contains_key(n) ==> r@.contains(n),
    {
        proof {
            lemma_pairs_to_map_characterized(self.entries@);
        }
        let count = self.entries.len();
        let mut r: Vec<NodeId> = Vec::new();
        let mut i: usize = 0;
        while i < count
            invariant
                count == self.entries@.len(),
                i <= count,
                r@.len() == i,
                forall|j: int| 0 <= j < i ==> (#[trigger] r@[j]) == self.entries@[j].0,
            decreases count - i,
        {
            r.push(self.entries[i].0);
            i += 1;
        }
        proof {
            assert forall|n: NodeId| self@.contains_key(n) implies r@.contains(n) by {
                let j = choose|j: int|
                    0 <= j < self.entries@.len() && (#[trigger] self.entries@[j]).0 == n;
                assert(r@[j] == n);
            }
            assert forall|j: int, k: int| 0 <= j < k < r@.len() implies r@[j] != r@[k] by {
                assert(r@[j] == self.entries@[j].0);
                assert(r@[k] == self.entries@[k].0);
            }
        }
        r
    }

    /// Binds `id` to `value`, replacing any earlier binding.
    pub fn insert(&mut self, id: NodeId, value: V)
        requires
            old(self).wf(),
        ensures
            final(self).wf(),
            final(self)@ == old(self)@.insert(id, value),
    {
        let _ = self.remove(id);
        proof {
            lemma_pairs_to_map_characterized(self.entries@);
        }
        let ghost mid = self.entries@;
        self.entries.push((id, value));
        proof {
            assert(self.entries@.drop_last() =~= mid);
            assert(self@ =~= old(self)@.insert(id, value));
        }
    }
}

} // verus!
