use vstd::prelude::*;
use vstd::string::StringExecFns;
use crate::id_map::IdMap;
use crate::id_set::IdSet;
use crate::node::NodeId;

verus! {

/// Indicates how a connection was established.
#[derive(Clone, Copy, PartialEq, Eq, Debug, Structural)]
pub enum Direction {
    /// Established by accepting a new inbound connection.
    Incoming,
    /// Established by dialing out.
    Outgoing,
}

/// Payload of a message exchanged with a peer; opaque bytes to this crate.
#[derive(Clone, PartialEq, Eq, Debug)]
pub struct Message {
    pub bytes: Vec<u8>,
}

impl View for Message {
    type V = Seq<u8>;

    open spec fn view(&self) -> Seq<u8> {
        self.bytes@
    }
}

/// Where to dial for an outgoing connection; transport-specific text.
#[derive(Clone, PartialEq, Eq, Debug)]
pub struct ConnectInfo {
    pub addr: String,
}

impl View for ConnectInfo {
    type V = Seq<char>;

    open spec fn view(&self) -> Seq<char> {
        self.addr@
    }
}

/// Control instructions a caller hands to the supervisor.
#[derive(PartialEq, Eq, Debug)]
pub enum Command {
    /// Accept the next inbound connection.
    Accept,
    /// Establish a new connection to the given remote end.
    Connect(ConnectInfo),
    /// Tear down the peer known by the identifier.
    Disconnect(NodeId),
    /// Dispatch the message to the peer known by the identifier.
    Msg(NodeId, Message),
}

/// Significant events of the p2p subsystem, as observed by the caller.
#[derive(PartialEq, Eq, Debug)]
pub enum Event {
    /// A new connection has been established.
    Connected(NodeId, Direction),
    /// A peer has been disconnected, gracefully when the reason reads "ok".
    Disconnected(NodeId, String),
    /// A message from the peer has arrived.
    Message(NodeId, Message),
    /// A connection was upgraded successfully to a peer session.
    Upgraded(NodeId),
    /// An upgrade failed for the given reason.
    UpgradeFailed(NodeId, String),
    /// A dispatched message found no running peer: the peer table and the
    /// protocol's bookkeeping disagreed, which is surfaced, never ignored.
    SendFailed(NodeId, String),
}

/// Work items the protocol dispatches to the supervisor's workers.
#[derive(PartialEq, Eq, Debug)]
pub enum Internal {
    /// Let the accept worker take one inbound connection.
    Accept,
    /// Let the connect worker dial the given remote end.
    Connect(ConnectInfo),
    /// Let the send worker pass the message to the peer.
    SendMessage(NodeId, Message),
    /// Let the stop worker tear the peer down.
    Stop(NodeId),
    /// Let the upgrade worker promote the pending connection.
    Upgrade(NodeId),
}

/// What a transition produces: an externally observable event, or an
/// internal work item.
#[derive(PartialEq, Eq, Debug)]
pub enum Output {
    Event(Event),
    Internal(Internal),
}

/// Everything the protocol consumes: caller commands, worker completions and
/// per-peer inbound messages.
#[derive(PartialEq, Eq, Debug)]
pub enum Input {
    /// The accept worker registered an inbound connection.
    Accepted(NodeId),
    /// The caller issued a command.
    Command(Command),
    /// The connect worker registered an outgoing connection.
    Connected(NodeId),
    /// A duplicate connection was rejected, with the close error if any.
    DuplicateConnRejected(NodeId, Option<String>),
    /// A message arrived from the peer.
    Receive(NodeId, Message),
    /// The stop worker tore the peer down, with the stop error if any.
    Stopped(NodeId, Option<String>),
    /// The upgrade worker promoted the connection to a running peer.
    Upgraded(NodeId),
    /// The upgrade worker failed to promote the connection.
    UpgradeFailed(NodeId, String),
    /// The send worker found no running peer for a message's recipient.
    SendFailed(NodeId, String),
}

/// Mathematical image of a `Command`.
pub enum CommandModel {
    Accept,
    Connect(Seq<char>),
    Disconnect(NodeId),
    Msg(NodeId, Seq<u8>),
}

/// Mathematical image of an `Event`.
pub enum EventModel {
    Connected(NodeId, Direction),
    Disconnected(NodeId, Seq<char>),
    Message(NodeId, Seq<u8>),
    Upgraded(NodeId),
    UpgradeFailed(NodeId, Seq<char>),
    SendFailed(NodeId, Seq<char>),
}

/// Mathematical image of an `Internal`.
pub enum InternalModel {
    Accept,
    Connect(Seq<char>),
    SendMessage(NodeId, Seq<u8>),
    Stop(NodeId),
    Upgrade(NodeId),
}

/// Mathematical image of an `Output`.
pub enum OutputModel {
    Event(EventModel),
    Internal(InternalModel),
}

/// Mathematical image of an `Input`.
pub enum InputModel {
    Accepted(NodeId),
    Command(CommandModel),
    Connected(NodeId),
    DuplicateConnRejected(NodeId, Option<Seq<char>>),
    Receive(NodeId, Seq<u8>),
    Stopped(NodeId, Option<Seq<char>>),
    Upgraded(NodeId),
    UpgradeFailed(NodeId, Seq<char>),
    SendFailed(NodeId, Seq<char>),
}

pub open spec fn opt_string_view(e: Option<String>) -> Option<Seq<char>> {
    match e {
        Some(s) => Some(s@),
        None => None,
    }
}

impl View for Command {
    type V = CommandModel;

    open spec fn view(&self) -> CommandModel {
        match self {
            Command::Accept => CommandModel::Accept,
            Command::Connect(info) => CommandModel::Connect(info@),
            Command::Disconnect(id) => CommandModel::Disconnect(*id),
            Command::Msg(id, msg) => CommandModel::Msg(*id, msg@),
        }
    }
}

impl View for Event {
    type V = EventModel;

    open spec fn view(&self) -> EventModel {
        match self {
            Event::Connected(id, dir) => EventModel::Connected(*id, *dir),
            Event::Disconnected(id, reason) => EventModel::Disconnected(*id, reason@),
            Event::Message(id, msg) => EventModel::Message(*id, msg@),
            Event::Upgraded(id) => EventModel::Upgraded(*id),
            Event::UpgradeFailed(id, reason) => EventModel::UpgradeFailed(*id, reason@),
            Event::SendFailed(id, reason) => EventModel::SendFailed(*id, reason@),
        }
    }
}

impl View for Internal {
    type V = InternalModel;

    open spec fn view(&self) -> InternalModel {
        match self {
            Internal::Accept => InternalModel::Accept,
            Internal::Connect(info) => InternalModel::Connect(info@),
            Internal::SendMessage(id, msg) => InternalModel::SendMessage(*id, msg@),
            Internal::Stop(id) => InternalModel::Stop(*id),
            Internal::Upgrade(id) => InternalModel::Upgrade(*id),
        }
    }
}

impl View for Output {
    type V = OutputModel;

    open spec fn view(&self) -> OutputModel {
        match self {
            Output::Event(e) => OutputModel::Event(e@),
            Output::Internal(i) => OutputModel::Internal(i@),
        }
    }
}

impl View for Input {
    type V = InputModel;

    open spec fn view(&self) -> InputModel {
        match self {
            Input::Accepted(id) => InputModel::Accepted(*id),
            Input::Command(c) => InputModel::Command(c@),
            Input::Connected(id) => InputModel::Connected(*id),
            Input::DuplicateConnRejected(id, e) => InputModel::DuplicateConnRejected(
                *id,
                opt_string_view(*e),
            ),
            Input::Receive(id, msg) => InputModel::Receive(*id, msg@),
            Input::Stopped(id, e) => InputModel::Stopped(*id, opt_string_view(*e)),
            Input::Upgraded(id) => InputModel::Upgraded(*id),
            Input::UpgradeFailed(id, reason) => InputModel::UpgradeFailed(*id, reason@),
            Input::SendFailed(id, reason) => InputModel::SendFailed(*id, reason@),
        }
    }
}

/// Mathematical state of the protocol's bookkeeping.
pub struct ProtocolModel {
    /// Nodes whose connection awaits its upgrade, by direction.
    pub connected: Map<NodeId, Direction>,
    /// Nodes with a running peer session.
    pub upgraded: Set<NodeId>,
    /// Nodes whose peer session was torn down and that have not reconnected.
    pub stopped: Set<NodeId>,
}

/// The bookkeeping a freshly started supervisor begins with.
pub open spec fn initial_model() -> ProtocolModel {
    ProtocolModel {
        connected: Map::empty(),
        upgraded: Set::empty(),
        stopped: Set::empty(),
    }
}

/// The reason a `Disconnected` event reports: the stop error, or "ok" for a
/// graceful teardown.
pub open spec fn disconnect_reason(e: Option<Seq<char>>) -> Seq<char> {
    match e {
        Some(m) => m,
        None => "ok"@,
    }
}

/// The bookkeeping after consuming one input.
///
/// The books stay pairwise disjoint: a fresh registration clears the
/// node's stopped mark, so that re-connection restarts its lifecycle, and
/// an upgrade consumes the node's pending `connected` entry, which the
/// upgrade worker took out of the peer table at the same moment.
pub open spec fn step_state(m: ProtocolModel, input: InputModel) -> ProtocolModel {
    match input {
        InputModel::Accepted(id) => ProtocolModel {
            connected: m.connected.insert(id, Direction::Incoming),
            upgraded: m.upgraded,
            stopped: m.stopped.remove(id),
        },
        InputModel::Connected(id) => ProtocolModel {
            connected: m.connected.insert(id, Direction::Outgoing),
            upgraded: m.upgraded,
            stopped: m.stopped.remove(id),
        },
        InputModel::Upgraded(id) => ProtocolModel {
            connected: m.connected.remove(id),
            upgraded: m.upgraded.insert(id),
            stopped: m.stopped,
        },
        InputModel::UpgradeFailed(id, _) => ProtocolModel {
            connected: m.connected.remove(id),
            upgraded: m.upgraded,
            stopped: m.stopped,
        },
        InputModel::Stopped(id, _) => ProtocolModel {
            connected: m.connected,
            upgraded: m.upgraded.remove(id),
            stopped: m.stopped.insert(id),
        },
        InputModel::Command(_) => m,
        InputModel::Receive(_, _) => m,
        InputModel::DuplicateConnRejected(_, _) => m,
        InputModel::SendFailed(_, _) => m,
    }
}

/// The outputs emitted while consuming one input.
pub open spec fn step_outputs(m: ProtocolModel, input: InputModel) -> Seq<OutputModel> {
    match input {
        InputModel::Accepted(id) => seq![
            OutputModel::Event(EventModel::Connected(id, Direction::Incoming)),
            OutputModel::Internal(InternalModel::Upgrade(id)),
        ],
        InputModel::Connected(id) => seq![
            OutputModel::Event(EventModel::Connected(id, Direction::Outgoing)),
            OutputModel::Internal(InternalModel::Upgrade(id)),
        ],
        InputModel::Upgraded(id) => seq![OutputModel::Event(EventModel::Upgraded(id))],
        InputModel::UpgradeFailed(id, reason) => seq![
            OutputModel::Event(EventModel::UpgradeFailed(id, reason)),
        ],
        InputModel::Stopped(id, e) => seq![
            OutputModel::Event(EventModel::Disconnected(id, disconnect_reason(e))),
        ],
        InputModel::Receive(id, msg) => seq![OutputModel::Event(EventModel::Message(id, msg))],
        InputModel::SendFailed(id, reason) => seq![
            OutputModel::Event(EventModel::SendFailed(id, reason)),
        ],
        InputModel::DuplicateConnRejected(_, _) => Seq::empty(),
        InputModel::Command(c) => match c {
            CommandModel::Accept => seq![OutputModel::Internal(InternalModel::Accept)],
            CommandModel::Connect(info) => seq![
                OutputModel::Internal(InternalModel::Connect(info)),
            ],
            CommandModel::Disconnect(id) => seq![OutputModel::Internal(InternalModel::Stop(id))],
            CommandModel::Msg(id, msg) => if m.upgraded.contains(id) {
                seq![OutputModel::Internal(InternalModel::SendMessage(id, msg))]
            } else {
                Seq::empty()
            },
        },
    }
}

/// The pure protocol state machine of the supervisor. It performs no
/// blocking work: it translates inputs into events and internal work items
/// while mirroring the peer lifecycle in its bookkeeping.
pub struct Protocol {
    connected: IdMap<Direction>,
    upgraded: IdSet,
    stopped: IdSet,
}

impl Protocol {
    /// The bookkeeping this protocol value denotes.
    pub closed spec fn model(self) -> ProtocolModel {
        ProtocolModel {
            connected: self.connected@,
            upgraded: self.upgraded@,
            stopped: self.stopped@,
        }
    }

    pub closed spec fn wf(self) -> bool {
        self.connected.wf() && self.upgraded.wf() && self.stopped.wf()
    }

    /// A protocol with empty bookkeeping.
    pub fn new() -> (r: Self)
        ensures
            r.wf(),
            r.model() == initial_model(),
    {
        let r = Protocol { connected: IdMap::new(), upgraded: IdSet::new(), stopped: IdSet::new() };
        proof {
            assert(r.model().connected =~= initial_model().connected);
            assert(r.model().upgraded =~= initial_model().upgraded);
            assert(r.model().stopped =~= initial_model().stopped);
        }
        r
    }

    /// Consumes one input and yields the outputs of the corresponding row of
    /// the transition table.
    pub fn transition(&mut self, input: Input) -> (outputs: Vec<Output>)
        requires
            old(self).wf(),
        ensures
            final(self).wf(),
            final(self).model() == step_state(old(self).model(), input@),
            outputs@.map_values(|o: Output| o@) == step_outputs(old(self).model(), input@),
    {
        match input {
            Input::Accepted(id) => self.handle_accepted(id),
            Input::Command(command) => self.handle_command(command),
            Input::Connected(id) => self.handle_connected(id),
            Input::DuplicateConnRejected(_id, _report) => {
                let outputs: Vec<Output> = Vec::new();
                proof {
                    assert(outputs@.map_values(|o: Output| o@) =~= step_outputs(
                        old(self).model(),
                        input@,
                    ));
                }
                outputs
            },
            Input::Receive(id, msg) => self.handle_receive(id, msg),
            Input::Stopped(id, report) => self.handle_stopped(id, report),
            Input::Upgraded(id) => self.handle_upgraded(id),
            Input::UpgradeFailed(id, err) => self.handle_upgrade_failed(id, err),
            Input::SendFailed(id, reason) => self.handle_send_failed(id, reason),
        }
    }

    /// An inbound connection was registered: record it as awaiting upgrade,
    /// surface the connection and ask for the upgrade.
    pub fn handle_accepted(&mut self, id: NodeId) -> (outputs: Vec<Output>)
        requires
            old(self).wf(),
        ensures
            final(self).wf(),
            final(self).model() == step_state(old(self).model(), InputModel::Accepted(id)),
            outputs@.map_values(|o: Output| o@) == step_outputs(
                old(self).model(),
                InputModel::Accepted(id),
            ),
    {
        self.connected.insert(id, Direction::Incoming);
        self.stopped.remove(id);
        let outputs = vec![
            Output::Event(Event::Connected(id, Direction::Incoming)),
            Output::Internal(Internal::Upgrade(id)),
        ];
        proof {
            assert(outputs@.map_values(|o: Output| o@) =~= step_outputs(
                old(self).model(),
                InputModel::Accepted(id),
            ));
        }
        outputs
    }

    /// An outgoing connection was registered: record it as awaiting upgrade,
    /// surface the connection and ask for the upgrade.
    pub fn handle_connected(&mut self, id: NodeId) -> (outputs: Vec<Output>)
        requires
            old(self).wf(),
        ensures
            final(self).wf(),
            final(self).model() == step_state(old(self).model(), InputModel::Connected(id)),
            outputs@.map_values(|o: Output| o@) == step_outputs(
                old(self).model(),
                InputModel::Connected(id),
            ),
    {
        self.connected.insert(id, Direction::Outgoing);
        self.stopped.remove(id);
        let outputs = vec![
            Output::Event(Event::Connected(id, Direction::Outgoing)),
            Output::Internal(Internal::Upgrade(id)),
        ];
        proof {
            assert(outputs@.map_values(|o: Output| o@) =~= step_outputs(
                old(self).model(),
                InputModel::Connected(id),
            ));
        }
        outputs
    }

    /// A caller command: accepts, dials and disconnects turn into work
    /// items; a message to a peer that is not upgraded is dropped.
    pub fn handle_command(&mut self, command: Command) -> (outputs: Vec<Output>)
        requires
            old(self).wf(),
        ensures
            final(self).wf(),
            final(self).model() == step_state(
                old(self).model(),
                InputModel::Command(command@),
            ),
            outputs@.map_values(|o: Output| o@) == step_outputs(
                old(self).model(),
                InputModel::Command(command@),
            ),
    {
        let ghost c = command@;
        let outputs: Vec<Output> = match command {
            Command::Accept => vec![Output::Internal(Internal::Accept)],
            Command::Connect(info) => vec![Output::Internal(Internal::Connect(info))],
            Command::Disconnect(id) => vec![Output::Internal(Internal::Stop(id))],
            Command::Msg(peer_id, msg) => {
                if self.upgraded.contains(peer_id) {
                    vec![Output::Internal(Internal::SendMessage(peer_id, msg))]
                } else {
                    Vec::new()
                }
            },
        };
        proof {
            assert(outputs@.map_values(|o: Output| o@) =~= step_outputs(
                old(self).model(),
                InputModel::Command(c),
            ));
        }
        outputs
    }

    /// A message arrived: surface it unchanged.
    pub fn handle_receive(&self, id: NodeId, msg: Message) -> (outputs: Vec<Output>)
        ensures
            outputs@.map_values(|o: Output| o@) == step_outputs(
                self.model(),
                InputModel::Receive(id, msg@),
            ),
    {
        let ghost v = msg@;
        let outputs = vec![Output::Event(Event::Message(id, msg))];
        proof {
            assert(outputs@.map_values(|o: Output| o@) =~= step_outputs(
                self.model(),
                InputModel::Receive(id, v),
            ));
        }
        outputs
    }

    /// A dispatched message found no running peer: the inconsistency
    /// between the protocol's bookkeeping and the peer table is surfaced
    /// to the caller, never silently ignored.
    pub fn handle_send_failed(&self, id: NodeId, reason: String) -> (outputs: Vec<Output>)
        ensures
            outputs@.map_values(|o: Output| o@) == step_outputs(
                self.model(),
                InputModel::SendFailed(id, reason@),
            ),
    {
        let ghost v = reason@;
        let outputs = vec![Output::Event(Event::SendFailed(id, reason))];
        proof {
            assert(outputs@.map_values(|o: Output| o@) =~= step_outputs(
                self.model(),
                InputModel::SendFailed(id, v),
            ));
        }
        outputs
    }

    /// A peer was torn down: it leaves the upgraded set for the stopped set,
    /// and the caller learns why, "ok" standing for a graceful teardown.
    pub fn handle_stopped(&mut self, id: NodeId, report: Option<String>) -> (outputs: Vec<Output>)
        requires
            old(self).wf(),
        ensures
            final(self).wf(),
            final(self).model() == step_state(
                old(self).model(),
                InputModel::Stopped(id, opt_string_view(report)),
            ),
            outputs@.map_values(|o: Output| o@) == step_outputs(
                old(self).model(),
                InputModel::Stopped(id, opt_string_view(report)),
            ),
    {
        let ghost e = opt_string_view(report);
        self.upgraded.remove(id);
        self.stopped.insert(id);
        let reason: String = match report {
            Some(m) => m,
            None => String::from_str("ok"),
        };
        let outputs = vec![Output::Event(Event::Disconnected(id, reason))];
        proof {
            assert(outputs@.map_values(|o: Output| o@) =~= step_outputs(
                old(self).model(),
                InputModel::Stopped(id, e),
            ));
        }
        outputs
    }

    /// A connection was promoted: its pending entry is consumed and the node
    /// joins the upgraded set.
    pub fn handle_upgraded(&mut self, id: NodeId) -> (outputs: Vec<Output>)
        requires
            old(self).wf(),
        ensures
            final(self).wf(),
            final(self).model() == step_state(old(self).model(), InputModel::Upgraded(id)),
            outputs@.map_values(|o: Output| o@) == step_outputs(
                old(self).model(),
                InputModel::Upgraded(id),
            ),
    {
        self.connected.remove(id);
        self.upgraded.insert(id);
        let outputs = vec![Output::Event(Event::Upgraded(id))];
        proof {
            assert(outputs@.map_values(|o: Output| o@) =~= step_outputs(
                old(self).model(),
                InputModel::Upgraded(id),
            ));
        }
        outputs
    }

    /// An upgrade failed: the pending entry is dropped and the caller learns
    /// why.
    pub fn handle_upgrade_failed(&mut self, id: NodeId, err: String) -> (outputs: Vec<Output>)
        requires
            old(self).wf(),
        ensures
            final(self).wf(),
            final(self).model() == step_state(
                old(self).model(),
                InputModel::UpgradeFailed(id, err@),
            ),
            outputs@.map_values(|o: Output| o@) == step_outputs(
                old(self).model(),
                InputModel::UpgradeFailed(id, err@),
            ),
    {
        let ghost e = err@;
        self.connected.remove(id);
        let outputs = vec![Output::Event(Event::UpgradeFailed(id, err))];
        proof {
            assert(outputs@.map_values(|o: Output| o@) =~= step_outputs(
                old(self).model(),
                InputModel::UpgradeFailed(id, e),
            ));
        }
        outputs
    }
}

} // verus!
