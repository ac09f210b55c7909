use tendermint_core::node::NodeId;
use tendermint_core::peer_table::{DirectedConnection, PeerTable};

fn node(id: u64) -> NodeId {
    NodeId { id }
}

#[test]
fn fresh_table_is_empty() {
    let table: PeerTable<u32, String> = PeerTable::new();
    assert!(!table.contains(node(1)));
    assert!(table.get_peer(node(1)).is_none());
}

#[test]
fn accepted_connection_is_recorded() {
    let mut table: PeerTable<u32, String> = PeerTable::new();
    let r = table.add_connected(node(1), DirectedConnection::Incoming(7));
    assert!(r.is_ok());
    assert!(table.contains(node(1)));
}

#[test]
fn duplicate_connection_is_handed_back() {
    let mut table: PeerTable<u32, String> = PeerTable::new();
    assert!(table.add_connected(node(1), DirectedConnection::Incoming(7)).is_ok());
    let r = table.add_connected(node(1), DirectedConnection::Incoming(8));
    match r {
        Err(DirectedConnection::Incoming(conn)) => assert_eq!(conn, 8),
        _ => panic!("the duplicate connection must come back for closing"),
    }
}

#[test]
fn upgrade_moves_the_node_between_the_maps() {
    let mut table: PeerTable<u32, String> = PeerTable::new();
    assert!(table.add_connected(node(1), DirectedConnection::Outgoing(7)).is_ok());
    let conn = table.take_connected(node(1));
    match conn {
        Some(DirectedConnection::Outgoing(c)) => assert_eq!(c, 7),
        _ => panic!("the pending connection must be handed out"),
    }
    assert!(table.add_peer(node(1), "running".to_string()).is_ok());
    assert_eq!(table.get_peer(node(1)), Some(&"running".to_string()));
    assert!(table.take_connected(node(1)).is_none());
}

#[test]
fn connection_for_a_running_peer_is_a_duplicate() {
    let mut table: PeerTable<u32, String> = PeerTable::new();
    assert!(table.add_connected(node(1), DirectedConnection::Incoming(7)).is_ok());
    assert!(table.take_connected(node(1)).is_some());
    assert!(table.add_peer(node(1), "running".to_string()).is_ok());
    let r = table.add_connected(node(1), DirectedConnection::Incoming(9));
    assert!(r.is_err());
    assert_eq!(table.get_peer(node(1)), Some(&"running".to_string()));
}

#[test]
fn peer_for_a_pending_connection_is_refused() {
    let mut table: PeerTable<u32, String> = PeerTable::new();
    assert!(table.add_connected(node(1), DirectedConnection::Incoming(7)).is_ok());
    let r = table.add_peer(node(1), "running".to_string());
    assert!(r.is_err());
}

#[test]
fn stop_takes_the_peer_out() {
    let mut table: PeerTable<u32, String> = PeerTable::new();
    assert!(table.add_connected(node(1), DirectedConnection::Incoming(7)).is_ok());
    assert!(table.take_connected(node(1)).is_some());
    assert!(table.add_peer(node(1), "running".to_string()).is_ok());
    let peer = table.remove_peer(node(1));
    assert_eq!(peer, Some("running".to_string()));
    assert!(!table.contains(node(1)));
    assert!(table.remove_peer(node(1)).is_none());
}
