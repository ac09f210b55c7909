use vstd::prelude::*;
use crate::id_map::IdMap;
use crate::node::NodeId;

verus! {

/// A connection as held by the peer table, recording how it was established.
pub enum DirectedConnection<C> {
    /// Established by accepting an inbound connection.
    Incoming(C),
    /// Established by dialing out.
    Outgoing(C),
}

/// The single authoritative table of a supervisor's peers.
///
/// `connected` holds connections that still await their upgrade to a peer
/// session; `peers` holds running peer sessions. A node is in at most one of
/// the two at any time: the key sets stay disjoint through every operation.
pub struct PeerTable<C, P> {
    connected: IdMap<DirectedConnection<C>>,
    peers: IdMap<P>,
}

impl<C, P> PeerTable<C, P> {
    /// Connections awaiting upgrade, by node.
    pub closed spec fn connected_map(&self) -> Map<NodeId, DirectedConnection<C>> {
        self.connected@
    }

    /// Running peers, by node.
    pub closed spec fn peers_map(&self) -> Map<NodeId, P> {
        self.peers@
    }

    pub closed spec fn wf(self) -> bool {
        self.connected.wf() && self.peers.wf() && self.connected@.dom().disjoint(
            self.peers@.dom(),
        )
    }

    /// A well-formed table keeps the key sets of `connected` and `peers`
    /// disjoint.
    pub proof fn lemma_disjoint(self)
        requires
            self.wf(),
        ensures
            self.connected_map().dom().disjoint(self.peers_map().dom()),
    {
    }

    /// The empty table.
    pub fn new() -> (r: Self)
        ensures
            r.wf(),
            r.connected_map() == Map::<NodeId, DirectedConnection<C>>::empty(),
            r.peers_map() == Map::<NodeId, P>::empty(),
    {
        PeerTable { connected: IdMap::new(), peers: IdMap::new() }
    }

    /// Whether `id` is present, in either role.
    pub fn contains(&self, id: NodeId) -> (r: bool)
        ensures
            r == (self.connected_map().contains_key(id) || self.peers_map().contains_key(id)),
    {
        self.connected.contains(id) || self.peers.contains(id)
    }

    /// Records a fresh connection awaiting upgrade. A connection for a node
    /// already present, in either role, is a duplicate: the table is left
    /// unchanged and the connection is handed back for the caller to close.
    pub fn add_connected(&mut self, id: NodeId, conn: DirectedConnection<C>) -> (r: Result<
        (),
        DirectedConnection<C>,
    >)
        requires
            old(self).wf(),
        ensures
            final(self).wf(),
            final(self).peers_map() == old(self).peers_map(),
            if old(self).connected_map().contains_key(id) || old(self).peers_map().contains_key(
                id,
            ) {
                r == Err::<(), DirectedConnection<C>>(conn) && final(self).connected_map() == old(
                    self,
                ).connected_map()
            } else {
                r == Ok::<(), DirectedConnection<C>>(()) && final(self).connected_map() == old(
                    self,
                ).connected_map().insert(id, conn)
            },
    {
        if self.contains(id) {
            Err(conn)
        } else {
            self.connected.insert(id, conn);
            Ok(())
        }
    }

    /// Takes the pending connection for `id` out of the table, if any.
    pub fn take_connected(&mut self, id: NodeId) -> (r: Option<DirectedConnection<C>>)
        requires
            old(self).wf(),
        ensures
            final(self).wf(),
            final(self).peers_map() == old(self).peers_map(),
            final(self).connected_map() == old(self).connected_map().remove(id),
            r == (if old(self).connected_map().contains_key(id) {
                Some(old(self).connected_map()[id])
            } else {
                None::<DirectedConnection<C>>
            }),
    {
        self.connected.remove(id)
    }

    /// Records an upgraded peer session. A session for a node already
    /// present, in either role, is refused and handed back; recording it
    /// would lose track of the older holder of the node's connection.
    pub fn add_peer(&mut self, id: NodeId, peer: P) -> (r: Result<(), P>)
        requires
            old(self).wf(),
        ensures
            final(self).wf(),
            final(self).connected_map() == old(self).connected_map(),
            if old(self).connected_map().contains_key(id) || old(self).peers_map().contains_key(
                id,
            ) {
                r == Err::<(), P>(peer) && final(self).peers_map() == old(self).peers_map()
            } else {
                r == Ok::<(), P>(()) && final(self).peers_map() == old(self).peers_map().insert(
                    id,
                    peer,
                )
            },
    {
        if self.contains(id) {
            Err(peer)
        } else {
            self.peers.insert(id, peer);
            Ok(())
        }
    }

    /// Takes the running peer for `id` out of the table, if any.
    pub fn remove_peer(&mut self, id: NodeId) -> (r: Option<P>)
        requires
            old(self).wf(),
        ensures
            final(self).wf(),
            final(self).connected_map() == old(self).connected_map(),
            final(self).peers_map() == old(self).peers_map().remove(id),
            r == (if old(self).peers_map().contains_key(id) {
                Some(old(self).peers_map()[id])
            } else {
                None::<P>
            }),
    {
        self.peers.remove(id)
    }

    /// The nodes with a running peer, each exactly once, in no promised
    /// order. The coordinator re-enumerates these each iteration, because
    /// the peer map changes.
    pub fn peer_ids(&self) -> (r: Vec<NodeId>)
        requires
            self.wf(),
        ensures
            r@.no_duplicates(),
            forall|i: int| 0 <= i < r@.len() ==> self.peers_map().contains_key(#[trigger] r@[i]),
            forall|n: NodeId| self.peers_map().contains_key(n) ==> r@.contains(n),
    {
        self.peers.keys()
    }

    /// The running peer for `id`, if any.
    pub fn get_peer(&self, id: NodeId) -> (r: Option<&P>)
        requires
            self.wf(),
        ensures
            match r {
                Some(p) => self.peers_map().contains_key(id) && *p == self.peers_map()[id],
                None => !self.peers_map().contains_key(id),
            },
    {
        self.peers.get(id)
    }
}

} // verus!
