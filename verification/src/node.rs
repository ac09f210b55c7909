use vstd::prelude::*;

verus! {

/// Identifier of a node, unique within the peer table.
///
/// A node's identity is derived deterministically from its public key by the
/// transport layer before it reaches this crate; here it is an opaque,
/// fixed-size value.
#[derive(Clone, Copy, PartialEq, Eq, Hash, Debug, Structural)]
pub struct NodeId {
    pub id: u64,
}

/// Identifier of the remote end that furnished a light block, used for blame
/// assignment during fork detection. Peers and nodes share one identifier
/// space.
pub type PeerId = NodeId;

} // verus!
