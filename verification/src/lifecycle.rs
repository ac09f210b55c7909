use vstd::prelude::*;
use crate::node::NodeId;
use crate::supervisor::{
    step_outputs, step_state, initial_model, disconnect_reason, CommandModel, Direction,
    EventModel, InputModel, InternalModel, OutputModel, ProtocolModel,
};

verus! {

/// The protocol bookkeeping invariant: a node is in at most one of the
/// three books at any time.
pub open spec fn protocol_inv(m: ProtocolModel) -> bool {
    &&& m.connected.dom().disjoint(m.upgraded)
    &&& m.connected.dom().disjoint(m.stopped)
    &&& m.upgraded.disjoint(m.stopped)
}

/// Whether an input can genuinely arrive at the given bookkeeping: workers
/// only report about connections and peers they were handed, so completions
/// refer to nodes in the matching book, and registrations are deduplicated
/// against the peer table before they reach the protocol.
pub open spec fn input_enabled(m: ProtocolModel, input: InputModel) -> bool {
    match input {
        InputModel::Accepted(id) => !m.connected.contains_key(id) && !m.upgraded.contains(id),
        InputModel::Connected(id) => !m.connected.contains_key(id) && !m.upgraded.contains(id),
        InputModel::Upgraded(id) => m.connected.contains_key(id),
        InputModel::UpgradeFailed(id, _) => m.connected.contains_key(id),
        InputModel::Stopped(id, _) => m.upgraded.contains(id),
        InputModel::Receive(id, _) => m.connected.contains_key(id) || m.upgraded.contains(id),
        InputModel::Command(_) => true,
        InputModel::DuplicateConnRejected(_, _) => true,
        InputModel::SendFailed(_, _) => true,
    }
}

/// The initial bookkeeping satisfies the invariant.
pub proof fn lemma_initial_inv()
    ensures
        protocol_inv(initial_model()),
{
}

/// Every enabled transition preserves the bookkeeping invariant.
pub proof fn lemma_step_preserves_inv(m: ProtocolModel, input: InputModel)
    requires
        protocol_inv(m),
        input_enabled(m, input),
    ensures
        protocol_inv(step_state(m, input)),
{
}

/// The node an event speaks about.
pub open spec fn event_node(e: EventModel) -> NodeId {
    match e {
        EventModel::Connected(n, _) => n,
        EventModel::Disconnected(n, _) => n,
        EventModel::Message(n, _) => n,
        EventModel::Upgraded(n) => n,
        EventModel::UpgradeFailed(n, _) => n,
        EventModel::SendFailed(n, _) => n,
    }
}

/// Whether the event belongs to a peer's lifecycle. Error-surface events,
/// which report a bookkeeping inconsistency, stand outside the lifecycle:
/// they can interleave with it at any point.
pub open spec fn lifecycle_event(e: EventModel) -> bool {
    !(e is SendFailed)
}

/// The lifecycle events among a transition's outputs that speak about
/// node `n`, in emission order.
pub open spec fn node_events(outs: Seq<OutputModel>, n: NodeId) -> Seq<EventModel>
    decreases outs.len(),
{
    if outs.len() == 0 {
        Seq::empty()
    } else {
        let rest = node_events(outs.drop_first(), n);
        match outs.first() {
            OutputModel::Event(e) => if lifecycle_event(e) && event_node(e) == n {
                seq![e] + rest
            } else {
                rest
            },
            OutputModel::Internal(_) => rest,
        }
    }
}

/// Phase of one node's observable lifecycle.
pub enum ObsPhase {
    /// Nothing is pending: before any connection, or after a
    /// `Disconnected` or `UpgradeFailed` event.
    Idle,
    /// After a `Connected` event, awaiting the upgrade's outcome.
    Connected,
    /// After an `Upgraded` event, until the peer disconnects.
    Upgraded,
}

/// Which events the lifecycle automaton admits in each phase. Its runs from
/// `Idle` are exactly the prefixes of the words of
/// `(Connected (Message* Upgraded Message* Disconnected) | Connected UpgradeFailed)*`.
pub open spec fn obs_allows(p: ObsPhase, e: EventModel) -> bool {
    match p {
        ObsPhase::Idle => e is Connected,
        ObsPhase::Connected => e is Message || e is Upgraded || e is UpgradeFailed,
        ObsPhase::Upgraded => e is Message || e is Disconnected,
    }
}

/// The phase after observing an admitted event.
pub open spec fn obs_next(p: ObsPhase, e: EventModel) -> ObsPhase {
    match e {
        EventModel::Connected(_, _) => ObsPhase::Connected,
        EventModel::Message(_, _) => p,
        EventModel::Upgraded(_) => ObsPhase::Upgraded,
        EventModel::UpgradeFailed(_, _) => ObsPhase::Idle,
        EventModel::Disconnected(_, _) => ObsPhase::Idle,
        EventModel::SendFailed(_, _) => p,
    }
}

/// Whether the automaton, started in phase `p`, admits the whole event
/// sequence `t`.
pub open spec fn obs_accepts(p: ObsPhase, t: Seq<EventModel>) -> bool
    decreases t.len(),
{
    t.len() == 0 || (obs_allows(p, t.first()) && obs_accepts(obs_next(p, t.first()), t.drop_first()))
}

/// The lifecycle phase of node `n` that the bookkeeping denotes.
pub open spec fn obs_phase(m: ProtocolModel, n: NodeId) -> ObsPhase {
    if m.upgraded.contains(n) {
        ObsPhase::Upgraded
    } else if m.connected.contains_key(n) {
        ObsPhase::Connected
    } else {
        ObsPhase::Idle
    }
}

/// One enabled transition emits, for each node, at most one event; that
/// event is admitted by the node's current phase and moves it to the
/// node's next phase. A transition that emits no event for the node leaves
/// its phase unchanged.
pub proof fn lemma_step_obs(m: ProtocolModel, input: InputModel, n: NodeId)
    requires
        protocol_inv(m),
        input_enabled(m, input),
    ensures
        ({
            let evs = node_events(step_outputs(m, input), n);
            let p = obs_phase(m, n);
            let p2 = obs_phase(step_state(m, input), n);
            if evs.len() == 0 {
                p2 == p
            } else {
                evs.len() == 1 && obs_allows(p, evs[0]) && obs_next(p, evs[0]) == p2
            }
        }),
{
    let outs = step_outputs(m, input);
    match input {
        InputModel::Accepted(id) => {
            lemma_node_events_event_internal(
                EventModel::Connected(id, Direction::Incoming),
                InternalModel::Upgrade(id),
                n,
            );
        },
        InputModel::Connected(id) => {
            lemma_node_events_event_internal(
                EventModel::Connected(id, Direction::Outgoing),
                InternalModel::Upgrade(id),
                n,
            );
        },
        InputModel::Upgraded(id) => {
            lemma_node_events_single_event(EventModel::Upgraded(id), n);
        },
        InputModel::UpgradeFailed(id, reason) => {
            lemma_node_events_single_event(EventModel::UpgradeFailed(id, reason), n);
        },
        InputModel::Stopped(id, e) => {
            lemma_node_events_single_event(
                EventModel::Disconnected(id, disconnect_reason(e)),
                n,
            );
        },
        InputModel::Receive(id, msg) => {
            lemma_node_events_single_event(EventModel::Message(id, msg), n);
        },
        InputModel::SendFailed(id, reason) => {
            lemma_node_events_single_event(EventModel::SendFailed(id, reason), n);
        },
        InputModel::DuplicateConnRejected(_, _) => {
            assert(node_events(outs, n) =~= Seq::<EventModel>::empty());
        },
        InputModel::Command(c) => {
            match c {
                CommandModel::Accept => {
                    lemma_node_events_single_internal(InternalModel::Accept, n);
                },
                CommandModel::Connect(info) => {
                    lemma_node_events_single_internal(InternalModel::Connect(info), n);
                },
                CommandModel::Disconnect(id) => {
                    lemma_node_events_single_internal(InternalModel::Stop(id), n);
                },
                CommandModel::Msg(id, msg) => {
                    if m.upgraded.contains(id) {
                        lemma_node_events_single_internal(InternalModel::SendMessage(id, msg), n);
                    } else {
                        assert(node_events(outs, n) =~= Seq::<EventModel>::empty());
                    }
                },
            }
        },
    }
}

proof fn lemma_node_events_single_event(e: EventModel, n: NodeId)
    ensures
        node_events(seq![OutputModel::Event(e)], n) == if lifecycle_event(e) && event_node(e)
            == n {
            seq![e]
        } else {
            Seq::<EventModel>::empty()
        },
{
    let s = seq![OutputModel::Event(e)];
    assert(s.drop_first() =~= Seq::<OutputModel>::empty());
    assert(node_events(Seq::<OutputModel>::empty(), n) =~= Seq::<EventModel>::empty());
    if lifecycle_event(e) && event_node(e) == n {
        assert(node_events(s, n) =~= seq![e]);
    } else {
        assert(node_events(s, n) =~= Seq::<EventModel>::empty());
    }
}

proof fn lemma_node_events_single_internal(x: InternalModel, n: NodeId)
    ensures
        node_events(seq![OutputModel::Internal(x)], n) == Seq::<EventModel>::empty(),
{
    let s = seq![OutputModel::Internal(x)];
    assert(s.drop_first() =~= Seq::<OutputModel>::empty());
    assert(node_events(Seq::<OutputModel>::empty(), n) =~= Seq::<EventModel>::empty());
    assert(node_events(s, n) =~= Seq::<EventModel>::empty());
}

proof fn lemma_node_events_event_internal(
    e: EventModel,
    x: InternalModel,
    n: NodeId,
)
    ensures
        node_events(seq![OutputModel::Event(e), OutputModel::Internal(x)], n) == if lifecycle_event(
            e,
        ) && event_node(e) == n {
            seq![e]
        } else {
            Seq::<EventModel>::empty()
        },
{
    let s = seq![OutputModel::Event(e), OutputModel::Internal(x)];
    assert(s.drop_first() =~= seq![OutputModel::Internal(x)]);
    lemma_node_events_single_internal(x, n);
    if lifecycle_event(e) && event_node(e) == n {
        assert(node_events(s, n) =~= seq![e]);
    } else {
        assert(node_events(s, n) =~= Seq::<EventModel>::empty());
    }
}

/// The bookkeeping after consuming a whole input sequence.
pub open spec fn run_state(m: ProtocolModel, inputs: Seq<InputModel>) -> ProtocolModel
    decreases inputs.len(),
{
    if inputs.len() == 0 {
        m
    } else {
        run_state(step_state(m, inputs.first()), inputs.drop_first())
    }
}

/// Whether each input of the sequence is enabled at the bookkeeping it
/// meets.
pub open spec fn run_enabled(m: ProtocolModel, inputs: Seq<InputModel>) -> bool
    decreases inputs.len(),
{
    inputs.len() == 0 || (input_enabled(m, inputs.first()) && run_enabled(
        step_state(m, inputs.first()),
        inputs.drop_first(),
    ))
}

/// The events for node `n` emitted while consuming a whole input sequence,
/// in emission order.
pub open spec fn run_trace(m: ProtocolModel, inputs: Seq<InputModel>, n: NodeId) -> Seq<
    EventModel,
>
    decreases inputs.len(),
{
    if inputs.len() == 0 {
        Seq::empty()
    } else {
        node_events(step_outputs(m, inputs.first()), n) + run_trace(
            step_state(m, inputs.first()),
            inputs.drop_first(),
            n,
        )
    }
}

/// An enabled run preserves the invariant.
pub proof fn lemma_run_preserves_inv(m: ProtocolModel, inputs: Seq<InputModel>)
    requires
        protocol_inv(m),
        run_enabled(m, inputs),
    ensures
        protocol_inv(run_state(m, inputs)),
    decreases inputs.len(),
{
    if inputs.len() > 0 {
        lemma_step_preserves_inv(m, inputs.first());
        lemma_run_preserves_inv(step_state(m, inputs.first()), inputs.drop_first());
    }
}

/// From any invariant-respecting bookkeeping, the event subsequence that an
/// enabled run emits for one node is a run of the lifecycle automaton
/// started in that node's current phase.
pub proof fn lemma_trace_accepted(m: ProtocolModel, inputs: Seq<InputModel>, n: NodeId)
    requires
        protocol_inv(m),
        run_enabled(m, inputs),
    ensures
        obs_accepts(obs_phase(m, n), run_trace(m, inputs, n)),
    decreases inputs.len(),
{
    if inputs.len() > 0 {
        let i0 = inputs.first();
        let m2 = step_state(m, i0);
        let evs = node_events(step_outputs(m, i0), n);
        let rest = run_trace(m2, inputs.drop_first(), n);
        lemma_step_preserves_inv(m, i0);
        lemma_step_obs(m, i0, n);
        lemma_trace_accepted(m2, inputs.drop_first(), n);
        if evs.len() == 0 {
            assert(evs + rest =~= rest);
        } else {
            assert((evs + rest).first() == evs[0]);
            assert((evs + rest).drop_first() =~= rest);
        }
    }
}

/// Whether the input registers a fresh connection for node `n`.
pub open spec fn reconnects(input: InputModel, n: NodeId) -> bool {
    match input {
        InputModel::Accepted(id) => id == n,
        InputModel::Connected(id) => id == n,
        _ => false,
    }
}

proof fn lemma_run_state_append(m: ProtocolModel, a: Seq<InputModel>, b: Seq<InputModel>)
    ensures
        run_state(m, a + b) == run_state(run_state(m, a), b),
    decreases a.len(),
{
    if a.len() == 0 {
        assert(a + b =~= b);
    } else {
        assert((a + b).first() == a.first());
        assert((a + b).drop_first() =~= a.drop_first() + b);
        lemma_run_state_append(step_state(m, a.first()), a.drop_first(), b);
    }
}

proof fn lemma_run_enabled_prefix(m: ProtocolModel, inputs: Seq<InputModel>, k: int)
    requires
        run_enabled(m, inputs),
        0 <= k <= inputs.len(),
    ensures
        run_enabled(m, inputs.take(k)),
    decreases k,
{
    if k == 0 {
        assert(inputs.take(0) =~= Seq::<InputModel>::empty());
    } else {
        lemma_run_enabled_prefix(step_state(m, inputs.first()), inputs.drop_first(), k - 1);
        assert(inputs.take(k).first() == inputs.first());
        assert(inputs.take(k).drop_first() =~= inputs.drop_first().take(k - 1));
    }
}

proof fn lemma_run_enabled_at(m: ProtocolModel, inputs: Seq<InputModel>, k: int)
    requires
        run_enabled(m, inputs),
        0 <= k < inputs.len(),
    ensures
        input_enabled(run_state(m, inputs.take(k)), inputs[k]),
    decreases k,
{
    if k == 0 {
        assert(inputs.take(0) =~= Seq::<InputModel>::empty());
    } else {
        lemma_run_enabled_at(step_state(m, inputs.first()), inputs.drop_first(), k - 1);
        assert(inputs.drop_first()[k - 1] == inputs[k]);
        assert(inputs.drop_first().take(k - 1) =~= inputs.take(k).drop_first());
        assert(inputs.take(k).first() == inputs.first());
    }
}

proof fn lemma_stays_disconnected(m: ProtocolModel, inputs: Seq<InputModel>, n: NodeId)
    requires
        !m.connected.contains_key(n),
        forall|k: int| 0 <= k < inputs.len() ==> !reconnects(#[trigger] inputs[k], n),
    ensures
        !run_state(m, inputs).connected.contains_key(n),
    decreases inputs.len(),
{
    if inputs.len() > 0 {
        assert(!reconnects(inputs[0], n));
        let m2 = step_state(m, inputs.first());
        assert(!m2.connected.contains_key(n));
        assert forall|k: int| 0 <= k < inputs.drop_first().len() implies !reconnects(
            #[trigger] inputs.drop_first()[k],
            n,
        ) by {
            assert(inputs.drop_first()[k] == inputs[k + 1]);
        }
        lemma_stays_disconnected(m2, inputs.drop_first(), n);
    }
}

/// Once a node's peer is stopped, it is never upgraded again without first
/// re-transiting the connected book: between a `Stopped` input and a later
/// `Upgraded` input for the same node, every enabled run holds a fresh
/// `Accepted` or `Connected` registration for it.
pub proof fn lemma_no_reupgrade_without_reconnect(
    inputs: Seq<InputModel>,
    n: NodeId,
    i: int,
    j: int,
)
    requires
        run_enabled(initial_model(), inputs),
        0 <= i < j < inputs.len(),
        inputs[i] matches InputModel::Stopped(stopped_id, _) && stopped_id == n,
        inputs[j] == InputModel::Upgraded(n),
    ensures
        exists|k: int| i < k < j && reconnects(#[trigger] inputs[k], n),
{
    if !(exists|k: int| i < k < j && reconnects(#[trigger] inputs[k], n)) {
        let m0 = initial_model();
        lemma_initial_inv();
        lemma_run_enabled_prefix(m0, inputs, i);
        lemma_run_preserves_inv(m0, inputs.take(i));
        lemma_run_enabled_at(m0, inputs, i);
        let mi = run_state(m0, inputs.take(i));
        // The stop is enabled, so the node is upgraded there; by the
        // invariant it is not in the connected book, and the stop itself
        // leaves that book unchanged.
        assert(mi.upgraded.contains(n));
        assert(!mi.connected.contains_key(n));
        let mi1 = step_state(mi, inputs[i]);
        assert(!mi1.connected.contains_key(n));
        assert(run_state(m0, inputs.take(i + 1)) == mi1) by {
            assert(inputs.take(i + 1) =~= inputs.take(i) + seq![inputs[i]]);
            lemma_run_state_append(m0, inputs.take(i), seq![inputs[i]]);
            assert(seq![inputs[i]].drop_first() =~= Seq::<InputModel>::empty());
            assert(run_state(mi1, Seq::<InputModel>::empty()) == mi1);
            assert(run_state(mi, seq![inputs[i]]) == run_state(
                step_state(mi, inputs[i]),
                seq![inputs[i]].drop_first(),
            ));
        }
        // Without a fresh registration, no later step can put the node
        // back into the connected book.
        let seg = inputs.subrange(i + 1, j);
        assert forall|k: int| 0 <= k < seg.len() implies !reconnects(#[trigger] seg[k], n) by {
            assert(seg[k] == inputs[i + 1 + k]);
        }
        lemma_stays_disconnected(mi1, seg, n);
        assert(run_state(m0, inputs.take(j)) == run_state(mi1, seg)) by {
            assert(inputs.take(j) =~= inputs.take(i + 1) + seg);
            lemma_run_state_append(m0, inputs.take(i + 1), seg);
        }
        // Yet the later upgrade is enabled, which needs the node in the
        // connected book: the run cannot lack the registration.
        lemma_run_enabled_at(m0, inputs, j);
        assert(false);
    }
}

/// The observable event subsequence for each node, over any run of the
/// protocol from its initial bookkeeping whose inputs are enabled, matches
/// the per-peer lifecycle
/// `(Connected (Message* Upgraded Message* Disconnected) | Connected UpgradeFailed)*`,
/// possibly cut off mid-lifecycle.
pub proof fn lemma_node_lifecycle(inputs: Seq<InputModel>, n: NodeId)
    requires
        run_enabled(initial_model(), inputs),
    ensures
        obs_accepts(ObsPhase::Idle, run_trace(initial_model(), inputs, n)),
{
    lemma_initial_inv();
    lemma_trace_accepted(initial_model(), inputs, n);
    assert(obs_phase(initial_model(), n) is Idle);
}

} // verus!
