use tendermint_core::node::NodeId;
use tendermint_core::supervisor::{
    Command, ConnectInfo, Direction, Event, Input, Internal, Message, Output, Protocol,
};

fn node(id: u64) -> NodeId {
    NodeId { id }
}

fn ping() -> Message {
    Message { bytes: vec![1, 2, 3] }
}

#[test]
fn accept_upgrade_message_disconnect() {
    let a = node(1);
    let mut protocol = Protocol::new();

    let outputs = protocol.transition(Input::Accepted(a));
    assert_eq!(
        outputs,
        vec![
            Output::Event(Event::Connected(a, Direction::Incoming)),
            Output::Internal(Internal::Upgrade(a)),
        ]
    );

    let outputs = protocol.transition(Input::Upgraded(a));
    assert_eq!(outputs, vec![Output::Event(Event::Upgraded(a))]);

    let outputs = protocol.transition(Input::Receive(a, ping()));
    assert_eq!(outputs, vec![Output::Event(Event::Message(a, ping()))]);

    let outputs = protocol.transition(Input::Command(Command::Disconnect(a)));
    assert_eq!(outputs, vec![Output::Internal(Internal::Stop(a))]);

    let outputs = protocol.transition(Input::Stopped(a, None));
    assert_eq!(
        outputs,
        vec![Output::Event(Event::Disconnected(a, "ok".to_string()))]
    );
}

#[test]
fn connect_is_outgoing() {
    let b = node(2);
    let mut protocol = Protocol::new();
    let outputs = protocol.transition(Input::Connected(b));
    assert_eq!(
        outputs,
        vec![
            Output::Event(Event::Connected(b, Direction::Outgoing)),
            Output::Internal(Internal::Upgrade(b)),
        ]
    );
}

#[test]
fn send_to_unknown_peer_is_dropped() {
    let z = node(99);
    let mut protocol = Protocol::new();
    let outputs = protocol.transition(Input::Command(Command::Msg(z, ping())));
    assert!(outputs.is_empty());
}

#[test]
fn send_to_upgraded_peer_is_dispatched() {
    let a = node(1);
    let mut protocol = Protocol::new();
    protocol.transition(Input::Accepted(a));
    protocol.transition(Input::Upgraded(a));
    let outputs = protocol.transition(Input::Command(Command::Msg(a, ping())));
    assert_eq!(
        outputs,
        vec![Output::Internal(Internal::SendMessage(a, ping()))]
    );
}

#[test]
fn send_to_stopped_peer_is_dropped() {
    let a = node(1);
    let mut protocol = Protocol::new();
    protocol.transition(Input::Accepted(a));
    protocol.transition(Input::Upgraded(a));
    protocol.transition(Input::Stopped(a, None));
    let outputs = protocol.transition(Input::Command(Command::Msg(a, ping())));
    assert!(outputs.is_empty());
}

#[test]
fn command_accept_and_connect_become_work_items() {
    let mut protocol = Protocol::new();
    let outputs = protocol.transition(Input::Command(Command::Accept));
    assert_eq!(outputs, vec![Output::Internal(Internal::Accept)]);

    let info = ConnectInfo { addr: "10.0.0.7:26656".to_string() };
    let outputs = protocol.transition(Input::Command(Command::Connect(info.clone())));
    assert_eq!(outputs, vec![Output::Internal(Internal::Connect(info))]);
}

#[test]
fn duplicate_rejection_is_silent() {
    let b = node(2);
    let mut protocol = Protocol::new();
    protocol.transition(Input::Accepted(b));
    let outputs = protocol.transition(Input::DuplicateConnRejected(b, Some("close failed".to_string())));
    assert!(outputs.is_empty());
}

#[test]
fn upgrade_failure_is_surfaced() {
    let a = node(1);
    let mut protocol = Protocol::new();
    protocol.transition(Input::Accepted(a));
    let outputs = protocol.transition(Input::UpgradeFailed(a, "connection not found".to_string()));
    assert_eq!(
        outputs,
        vec![Output::Event(Event::UpgradeFailed(
            a,
            "connection not found".to_string()
        ))]
    );
}

#[test]
fn reconnection_restarts_the_lifecycle() {
    let a = node(1);
    let mut protocol = Protocol::new();
    protocol.transition(Input::Accepted(a));
    protocol.transition(Input::Upgraded(a));
    protocol.transition(Input::Stopped(a, None));

    // The same node connects again: the full event sequence restarts.
    let outputs = protocol.transition(Input::Accepted(a));
    assert_eq!(
        outputs,
        vec![
            Output::Event(Event::Connected(a, Direction::Incoming)),
            Output::Internal(Internal::Upgrade(a)),
        ]
    );
    let outputs = protocol.transition(Input::Upgraded(a));
    assert_eq!(outputs, vec![Output::Event(Event::Upgraded(a))]);
    let outputs = protocol.transition(Input::Command(Command::Msg(a, ping())));
    assert_eq!(
        outputs,
        vec![Output::Internal(Internal::SendMessage(a, ping()))]
    );
}

#[test]
fn failed_dispatch_is_surfaced() {
    let a = node(1);
    let mut protocol = Protocol::new();
    protocol.transition(Input::Accepted(a));
    protocol.transition(Input::Upgraded(a));
    let outputs = protocol.transition(Input::SendFailed(a, "peer not found".to_string()));
    assert_eq!(
        outputs,
        vec![Output::Event(Event::SendFailed(a, "peer not found".to_string()))]
    );
}

#[test]
fn disconnect_reports_the_stop_error() {
    let a = node(1);
    let mut protocol = Protocol::new();
    protocol.transition(Input::Accepted(a));
    protocol.transition(Input::Upgraded(a));
    let outputs = protocol.transition(Input::Stopped(a, Some("reset by peer".to_string())));
    assert_eq!(
        outputs,
        vec![Output::Event(Event::Disconnected(a, "reset by peer".to_string()))]
    );
}
