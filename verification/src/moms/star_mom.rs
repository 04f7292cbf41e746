//! Middleware for a star-shaped cluster: one main aggregator in the middle,
//! trainers around it.
//!
//! A trainer registers with its first bootstrap peer and waits for the
//! confirmation. The main aggregator collects registration requests until its
//! timeout fires, then confirms them all at once. From then on both route
//! packets between the network and their role, until a `Kill` passes through.

use super::{event_if_target, MOMBase, MOMEvent, MOMEventView, MOM};
use crate::motherboard::{
    MotherboardEvent, MotherboardEventView, MotherboardTask, MotherboardTaskView,
    MotherbroadOrRoleEvent, MotherbroadOrRoleEventView,
};
use crate::protocol::filters::NodeFilter;
use crate::protocol::operations::{Operation, OperationView};
use crate::protocol::packet::{Packet, PacketView};
use crate::protocol::{NodeInfo, NodeInfoView, RoleEnum};
use crate::roles::{RoleEvent, RoleEventView};
use vstd::prelude::*;

verus! {

/// Seconds that the main aggregator waits for registration requests.
pub const REGISTRATION_TIMEOUT: u64 = 20;

/// Protocol state of the middleware.
#[derive(Clone, Copy, Debug, PartialEq, Eq, Structural)]
pub enum State {
    Initializing,
    WaitingRegistrationRequests,
    WaitingRegistrationConfirmation,
    Running,
    /// Terminal: every event is ignored and nothing more is queued.
    Killing,
}

/// Mathematical value of a [`StarMom`].
pub struct StarMomView {
    pub node: NodeInfoView,
    pub bootstrap_nodes: Seq<NodeInfoView>,
    pub state: State,
    pub connected_nodes: Seq<NodeInfoView>,
    /// Nodes that asked to register, in the order of arrival.
    pub registration_requests: Seq<NodeInfoView>,
    /// Queued tasks, oldest first. The last one is popped first.
    pub tasks: Seq<MotherboardTaskView>,
}

/// The task by which the aggregator `me` confirms the registration of
/// `requester`: the confirmation lists the aggregator alone.
pub open spec fn confirmation_for(me: NodeInfoView, requester: NodeInfoView) -> MotherboardTaskView {
    MotherboardTaskView::Send(
        PacketView::unicast(
            requester.name,
            requester.name,
            OperationView::RegistrationConfirmation { node_list: seq![me] },
        ),
    )
}

/// One confirmation for each pending request, in the order of arrival.
pub open spec fn confirmations(me: NodeInfoView, requests: Seq<NodeInfoView>) -> Seq<
    MotherboardTaskView,
> {
    requests.map_values(|n: NodeInfoView| confirmation_for(me, n))
}

/// One delivery of a broadcast: the broadcast packet on the hop from `me` to
/// `peer`.
pub open spec fn delivery(me: Seq<char>, peer: NodeInfoView, filter: NodeFilter, op: OperationView) -> MotherboardTaskView {
    MotherboardTaskView::Send(PacketView::broadcast_of(filter, op).on_hop(me, peer.name))
}

/// The deliveries into which a broadcast resolves: one transmission from
/// `me` to each of `peers` that passes the filter, in the order of the list.
pub open spec fn broadcast_tasks(
    me: Seq<char>,
    peers: Seq<NodeInfoView>,
    filter: NodeFilter,
    op: OperationView,
) -> Seq<MotherboardTaskView> {
    peers.filter(|n: NodeInfoView| filter.accepts(n)).map_values(
        |n: NodeInfoView| delivery(me, n, filter, op),
    )
}

impl StarMomView {
    /// A star cluster has no secondary aggregator, and a trainer needs a peer
    /// to register with.
    pub open spec fn valid_config(node: NodeInfoView, bootstrap_nodes: Seq<NodeInfoView>) -> bool {
        &&& node.role != RoleEnum::Aggregator
        &&& node.role == RoleEnum::Trainer ==> bootstrap_nodes.len() > 0
    }

    /// The middleware of a node that has just been created.
    pub open spec fn init(node: NodeInfoView, bootstrap_nodes: Seq<NodeInfoView>) -> StarMomView {
        StarMomView {
            node,
            bootstrap_nodes,
            state: State::Initializing,
            connected_nodes: Seq::empty(),
            registration_requests: Seq::empty(),
            tasks: Seq::empty(),
        }
    }

    /// What holds of every middleware: its configuration is valid, and it
    /// knows no peer before it runs.
    pub open spec fn inv(self) -> bool {
        &&& Self::valid_config(self.node, self.bootstrap_nodes)
        &&& (self.state == State::Initializing || self.state == State::WaitingRegistrationRequests
            || self.state == State::WaitingRegistrationConfirmation)
            ==> self.connected_nodes.len() == 0
    }

    /// The task by which a trainer asks its first bootstrap peer to register
    /// it.
    pub open spec fn registration_request(self) -> MotherboardTaskView {
        let peer = self.bootstrap_nodes[0].name;
        MotherboardTaskView::Send(
            PacketView::unicast(
                peer,
                peer,
                OperationView::RegistrationRequest { node_to_register: self.node },
            ),
        )
    }

    /// Transition out of `Initializing`.
    pub open spec fn on_initializing(self, event: MotherbroadOrRoleEventView) -> (
        StarMomView,
        Option<MOMEventView>,
    ) {
        match event {
            MotherbroadOrRoleEventView::Motherboard(
                MotherboardEventView::MotherboardInitialized,
            ) => match self.node.role {
                RoleEnum::Trainer => (
                    StarMomView {
                        state: State::WaitingRegistrationConfirmation,
                        tasks: self.tasks.push(self.registration_request()),
                        ..self
                    },
                    None,
                ),
                RoleEnum::MainAggregator => (
                    StarMomView {
                        state: State::WaitingRegistrationRequests,
                        tasks: self.tasks.push(MotherboardTaskView::Timeout(REGISTRATION_TIMEOUT)),
                        ..self
                    },
                    None,
                ),
                RoleEnum::Aggregator => (self, None),
            },
            _ => (self, None),
        }
    }

    /// Transition of a trainer that waits for its confirmation.
    pub open spec fn on_waiting_registration_confirmation(
        self,
        event: MotherbroadOrRoleEventView,
    ) -> (StarMomView, Option<MOMEventView>) {
        match event {
            MotherbroadOrRoleEventView::Motherboard(
                MotherboardEventView::PacketReceived(packet),
            ) => match packet.op {
                OperationView::RegistrationConfirmation { node_list } => (
                    StarMomView {
                        state: State::Running,
                        connected_nodes: self.connected_nodes + node_list,
                        ..self
                    },
                    Some(MOMEventView::NodeConnected),
                ),
                _ => (self, None),
            },
            _ => (self, None),
        }
    }

    /// Transition of the aggregator that collects registration requests.
    pub open spec fn on_waiting_registration_requests(
        self,
        event: MotherbroadOrRoleEventView,
    ) -> (StarMomView, Option<MOMEventView>) {
        match event {
            MotherbroadOrRoleEventView::Motherboard(
                MotherboardEventView::PacketReceived(packet),
            ) => match packet.op {
                OperationView::RegistrationRequest { node_to_register } => (
                    StarMomView {
                        registration_requests: self.registration_requests.push(node_to_register),
                        ..self
                    },
                    None,
                ),
                _ => (self, None),
            },
            MotherbroadOrRoleEventView::Motherboard(MotherboardEventView::TaskTimeoutDone) => (
                StarMomView {
                    state: State::Running,
                    connected_nodes: self.registration_requests,
                    tasks: self.tasks + confirmations(self.node, self.registration_requests),
                    ..self
                },
                Some(MOMEventView::ClusterConnected(self.registration_requests.len() as u64)),
            ),
            _ => (self, None),
        }
    }

    /// Transition of a connected node.
    pub open spec fn on_running(self, event: MotherbroadOrRoleEventView) -> (
        StarMomView,
        Option<MOMEventView>,
    ) {
        match event {
            MotherbroadOrRoleEventView::Motherboard(
                MotherboardEventView::PacketReceived(packet),
            ) => {
                if packet.op == OperationView::Kill {
                    (StarMomView { state: State::Killing, ..self }, None)
                } else {
                    (self, event_if_target(self.node, packet))
                }
            },
            MotherbroadOrRoleEventView::Role(RoleEventView::ToBeSentPacket { filter, op }) => (
                StarMomView {
                    state: if op == OperationView::Kill {
                        State::Killing
                    } else {
                        State::Running
                    },
                    tasks: self.tasks + broadcast_tasks(
                        self.node.name,
                        self.connected_nodes,
                        filter,
                        op,
                    ),
                    ..self
                },
                None,
            ),
            _ => (self, None),
        }
    }

    /// The middleware after one event, and the event it hands to the role.
    /// Whatever no rule mentions is ignored: no transition, no task, no
    /// event. In `Killing` that is everything.
    pub open spec fn step(self, event: MotherbroadOrRoleEventView) -> (
        StarMomView,
        Option<MOMEventView>,
    ) {
        match self.state {
            State::Initializing => self.on_initializing(event),
            State::WaitingRegistrationConfirmation => self.on_waiting_registration_confirmation(
                event,
            ),
            State::WaitingRegistrationRequests => self.on_waiting_registration_requests(event),
            State::Running => self.on_running(event),
            State::Killing => (self, None),
        }
    }

    /// The middleware after a sequence of events, fed in order.
    pub open spec fn run(self, events: Seq<MotherbroadOrRoleEventView>) -> StarMomView
        decreases events.len(),
    {
        if events.len() == 0 {
            self
        } else {
            self.run(events.drop_last()).step(events.last()).0
        }
    }

    /// The events handed to the role over a sequence of events, one entry per
    /// input event.
    pub open spec fn emitted(self, events: Seq<MotherbroadOrRoleEventView>) -> Seq<
        Option<MOMEventView>,
    >
        decreases events.len(),
    {
        if events.len() == 0 {
            Seq::empty()
        } else {
            self.emitted(events.drop_last()).push(
                self.run(events.drop_last()).step(events.last()).1,
            )
        }
    }
}

/// The invariant holds at creation.
pub proof fn lemma_init_inv(node: NodeInfoView, bootstrap_nodes: Seq<NodeInfoView>)
    requires
        StarMomView::valid_config(node, bootstrap_nodes),
    ensures
        StarMomView::init(node, bootstrap_nodes).inv(),
{
}

/// The invariant survives every event. In particular the list of connected
/// nodes is empty when the aggregator replaces it by the pending requests.
pub proof fn lemma_step_preserves_inv(s: StarMomView, event: MotherbroadOrRoleEventView)
    requires
        s.inv(),
    ensures
        s.step(event).0.inv(),
{
}

/// The arrival of each packet, as events of the simulator, in order.
pub open spec fn arrivals(packets: Seq<PacketView>) -> Seq<MotherbroadOrRoleEventView> {
    packets.map_values(
        |p: PacketView|
            MotherbroadOrRoleEventView::Motherboard(MotherboardEventView::PacketReceived(p)),
    )
}

/// While the aggregator waits, each registration request that arrives is
/// noted, in the order of arrival, and nothing else changes.
pub proof fn lemma_requests_collected(
    s: StarMomView,
    nodes: Seq<NodeInfoView>,
    packets: Seq<PacketView>,
)
    requires
        s.state == State::WaitingRegistrationRequests,
        packets.len() == nodes.len(),
        forall|i: int|
            0 <= i < packets.len() ==> (#[trigger] packets[i]).op
                == (OperationView::RegistrationRequest { node_to_register: nodes[i] }),
    ensures
        s.run(arrivals(packets)) == (StarMomView {
            registration_requests: s.registration_requests + nodes,
            ..s
        }),
    decreases packets.len(),
{
    if packets.len() == 0 {
        assert(s.registration_requests + nodes =~= s.registration_requests);
    } else {
        lemma_requests_collected(s, nodes.drop_last(), packets.drop_last());
        assert(arrivals(packets).drop_last() =~= arrivals(packets.drop_last()));
        assert(arrivals(packets).last() == MotherbroadOrRoleEventView::Motherboard(
            MotherboardEventView::PacketReceived(packets.last()),
        ));
        assert((s.registration_requests + nodes.drop_last()).push(nodes.last())
            =~= s.registration_requests + nodes);
    }
}

/// Registration round of the aggregator. An aggregator that has just begun
/// to wait receives the requests of some nodes, then its timeout fires.
/// Thereafter it runs, it is connected to exactly these nodes, in the order
/// of arrival, it has queued one confirmation for each, and it reports a
/// cluster connected with their number.
pub proof fn lemma_registration_round(
    s: StarMomView,
    nodes: Seq<NodeInfoView>,
    packets: Seq<PacketView>,
)
    requires
        s.state == State::WaitingRegistrationRequests,
        s.registration_requests.len() == 0,
        packets.len() == nodes.len(),
        nodes.len() <= u64::MAX,
        forall|i: int|
            0 <= i < packets.len() ==> (#[trigger] packets[i]).op
                == (OperationView::RegistrationRequest { node_to_register: nodes[i] }),
    ensures
        ({
            let waiting = s.run(arrivals(packets));
            let fired = waiting.step(
                MotherbroadOrRoleEventView::Motherboard(MotherboardEventView::TaskTimeoutDone),
            );
            &&& waiting.state == State::WaitingRegistrationRequests
            &&& fired.0.state == State::Running
            &&& fired.0.connected_nodes == nodes
            &&& fired.0.connected_nodes.len() == nodes.len()
            &&& fired.0.tasks == s.tasks + confirmations(s.node, nodes)
            &&& fired.1 == Some(MOMEventView::ClusterConnected(nodes.len() as u64))
        }),
{
    lemma_requests_collected(s, nodes, packets);
    assert(s.registration_requests + nodes =~= nodes);
}

/// Termination. A `Kill` that arrives at a running node moves the
/// middleware to `Killing`, queues nothing and hands nothing to the role.
pub proof fn lemma_kill_received(s: StarMomView, packet: PacketView)
    requires
        s.state == State::Running,
        packet.op == OperationView::Kill,
    ensures
        s.step(
            MotherbroadOrRoleEventView::Motherboard(MotherboardEventView::PacketReceived(packet)),
        ) == (StarMomView { state: State::Killing, ..s }, None::<MOMEventView>),
{
}

/// `Killing` is terminal: whatever events follow, the middleware stays as
/// it is, so that no task is queued any more, and hands nothing to the role.
pub proof fn lemma_killing_is_terminal(s: StarMomView, events: Seq<MotherbroadOrRoleEventView>)
    requires
        s.state == State::Killing,
    ensures
        s.run(events) == s,
        s.emitted(events) == Seq::new(events.len(), |i: int| None::<MOMEventView>),
    decreases events.len(),
{
    if events.len() > 0 {
        lemma_killing_is_terminal(s, events.drop_last());
    }
    assert(s.emitted(events) =~= Seq::new(events.len(), |i: int| None::<MOMEventView>));
}

/// Tasks are only ever added at the end of the queue, and every task that a
/// node adds after it has left `Initializing` is a transmission: the
/// registration timeout is armed once, on the way out of `Initializing`,
/// and never again.
pub proof fn lemma_timeout_armed_once(s: StarMomView, event: MotherbroadOrRoleEventView)
    ensures
        s.tasks.is_prefix_of(s.step(event).0.tasks),
        s.state != State::Initializing ==> forall|i: int|
            s.tasks.len() <= i < s.step(event).0.tasks.len() ==> (#[trigger] s.step(
                event,
            ).0.tasks[i]).is_send(),
        s.state == State::Initializing && s.step(event).0.tasks != s.tasks ==> s.step(
            event,
        ).0.state != State::Initializing && s.step(event).0.tasks.len() == s.tasks.len() + 1,
{
    assert(s.tasks.is_prefix_of(s.step(event).0.tasks));
}

/// Determinism. Two middleware instances with the same value that are fed
/// the same events go through the same values and hand out the same events;
/// the tasks they queue are part of their value.
pub proof fn lemma_mom_deterministic(
    a: StarMomView,
    b: StarMomView,
    events: Seq<MotherbroadOrRoleEventView>,
    upto: int,
)
    requires
        a == b,
        0 <= upto <= events.len(),
    ensures
        a.run(events.take(upto)) == b.run(events.take(upto)),
        a.emitted(events.take(upto)) == b.emitted(events.take(upto)),
{
}

/// Middleware instance of one node in a star cluster.
pub struct StarMom {
    base: MOMBase,
    state: State,
    connected_nodes: Vec<NodeInfo>,
    registration_requests: Vec<NodeInfo>,
    tasks: Vec<MotherboardTask>,
}

impl View for StarMom {
    type V = StarMomView;

    closed spec fn view(&self) -> StarMomView {
        StarMomView {
            node: self.base.my_node_info@,
            bootstrap_nodes: self.base.bootstrap_nodes.deep_view(),
            state: self.state,
            connected_nodes: self.connected_nodes.deep_view(),
            registration_requests: self.registration_requests.deep_view(),
            tasks: self.tasks.deep_view(),
        }
    }
}

/// Queues one confirmation for each requester.
fn push_confirmations(tasks: &mut Vec<MotherboardTask>, requests: &Vec<NodeInfo>, me: &NodeInfo)
    ensures
        final(tasks).deep_view() == old(tasks).deep_view() + confirmations(
            me@,
            requests.deep_view(),
        ),
{
    let ghost before = tasks.deep_view();
    let ghost all = confirmations(me@, requests.deep_view());
    let mut i: usize = 0;
    while i < requests.len()
        invariant
            i <= requests.len(),
            all == confirmations(me@, requests.deep_view()),
            tasks.deep_view() == before + all.take(i as int),
        decreases requests.len() - i,
    {
        let requester = &requests[i];
        let mut node_list: Vec<NodeInfo> = Vec::new();
        node_list.push(me.clone());
        assert(node_list.deep_view() =~= seq![me@]);
        let packet = Packet::new(
            requester.name.clone(),
            requester.name.clone(),
            Operation::RegistrationConfirmation { node_list },
        );
        let ghost prev = tasks.deep_view();
        tasks.push(MotherboardTask::Send(packet));
        proof {
            assert(requests.deep_view()[i as int] == requester@);
            assert(tasks.deep_view() =~= prev.push(confirmation_for(me@, requester@)));
            assert(all.take(i + 1) =~= all.take(i as int).push(confirmation_for(me@, requester@)));
        }
        i += 1;
    }
    assert(all.take(i as int) =~= all);
}

/// Peers that pass the filter are kept in order when one more peer is
/// considered.
proof fn lemma_broadcast_tasks_step(
    me: Seq<char>,
    peers: Seq<NodeInfoView>,
    filter: NodeFilter,
    op: OperationView,
    i: int,
)
    requires
        0 <= i < peers.len(),
    ensures
        broadcast_tasks(me, peers.take(i + 1), filter, op) == if filter.accepts(peers[i]) {
            broadcast_tasks(me, peers.take(i), filter, op).push(delivery(me, peers[i], filter, op))
        } else {
            broadcast_tasks(me, peers.take(i), filter, op)
        },
{
    let pred = |n: NodeInfoView| filter.accepts(n);
    let f = |n: NodeInfoView| delivery(me, n, filter, op);
    let longer = peers.take(i + 1);
    let shorter = peers.take(i);
    assert(longer.drop_last() =~= shorter);
    assert(longer.last() == peers[i]);
    reveal_with_fuel(Seq::filter, 2);
    if filter.accepts(peers[i]) {
        assert(longer.filter(pred) == shorter.filter(pred).push(peers[i]));
        assert(longer.filter(pred).map_values(f) =~= shorter.filter(pred).map_values(f).push(
            f(peers[i]),
        ));
    } else {
        assert(longer.filter(pred) == shorter.filter(pred));
    }
}

/// Queues one transmission of the broadcast for each peer that passes the
/// filter.
fn push_broadcast(
    tasks: &mut Vec<MotherboardTask>,
    peers: &Vec<NodeInfo>,
    me: &NodeInfo,
    filter: NodeFilter,
    packet: &Packet,
)
    requires
        packet@ == PacketView::broadcast_of(filter, packet@.op),
    ensures
        final(tasks).deep_view() == old(tasks).deep_view() + broadcast_tasks(
            me@.name,
            peers.deep_view(),
            filter,
            packet@.op,
        ),
{
    let ghost before = tasks.deep_view();
    let ghost op = packet@.op;
    let ghost all = peers.deep_view();
    let mut i: usize = 0;
    proof {
        reveal_with_fuel(Seq::filter, 1);
        assert(all.take(0) =~= Seq::empty());
        assert(broadcast_tasks(me@.name, all.take(0), filter, op) =~= Seq::empty());
    }
    while i < peers.len()
        invariant
            i <= peers.len(),
            all == peers.deep_view(),
            op == packet@.op,
            packet@ == PacketView::broadcast_of(filter, op),
            tasks.deep_view() == before + broadcast_tasks(me@.name, all.take(i as int), filter, op),
        decreases peers.len() - i,
    {
        let peer = &peers[i];
        proof {
            assert(all[i as int] == peer@);
            lemma_broadcast_tasks_step(me@.name, all, filter, op, i as int);
        }
        if filter.filter(peer) {
            let hop = packet.for_hop(me.name.clone(), peer.name.clone());
            let ghost prev = tasks.deep_view();
            tasks.push(MotherboardTask::Send(hop));
            assert(tasks.deep_view() =~= prev.push(MotherboardTaskView::Send(hop@)));
        }
        i += 1;
    }
    assert(all.take(i as int) =~= all);
}

impl StarMom {
    /// Makes the middleware of a node. A configuration that the star topology
    /// forbids is a fatal error of the deployment and must not get here.
    pub fn new(my_node_info: NodeInfo, bootstrap_nodes: Vec<NodeInfo>) -> (res: Self)
        requires
            StarMomView::valid_config(my_node_info@, bootstrap_nodes.deep_view()),
        ensures
            res@ == StarMomView::init(my_node_info@, bootstrap_nodes.deep_view()),
            res@.inv(),
    {
        let res = Self {
            base: MOMBase::new(my_node_info, bootstrap_nodes),
            state: State::Initializing,
            connected_nodes: Vec::new(),
            registration_requests: Vec::new(),
            tasks: Vec::new(),
        };
        assert(res.connected_nodes.deep_view() =~= Seq::empty());
        assert(res.registration_requests.deep_view() =~= Seq::empty());
        assert(res.tasks.deep_view() =~= Seq::empty());
        res
    }

    /// Tells whether a node with this identity and these bootstrap peers may
    /// take part in a star cluster.
    pub fn is_valid_config(my_node_info: &NodeInfo, bootstrap_nodes: &Vec<NodeInfo>) -> (res: bool)
        ensures
            res == StarMomView::valid_config(my_node_info@, bootstrap_nodes.deep_view()),
    {
        match my_node_info.role {
            RoleEnum::Aggregator => false,
            RoleEnum::Trainer => bootstrap_nodes.len() > 0,
            RoleEnum::MainAggregator => true,
        }
    }

    /// The current protocol state.
    pub fn state(&self) -> (res: State)
        ensures
            res == self@.state,
    {
        self.state
    }

    /// The peers this node is connected to.
    pub fn connected_nodes(&self) -> (res: &Vec<NodeInfo>)
        ensures
            res.deep_view() == self@.connected_nodes,
    {
        &self.connected_nodes
    }

    /// Cancels what is queued: the tasks are taken out, oldest first, and
    /// handed to the caller. The middleware never does this by itself; it is
    /// for a runtime that revokes the pending transmissions of a node that
    /// is being killed.
    pub fn cancel_pending_tasks(&mut self) -> (res: Vec<MotherboardTask>)
        ensures
            res.deep_view() == old(self)@.tasks,
            final(self)@ == (StarMomView { tasks: Seq::empty(), ..old(self)@ }),
    {
        let mut taken: Vec<MotherboardTask> = Vec::new();
        let ghost before = self.tasks.deep_view();
        taken.append(&mut self.tasks);
        proof {
            assert(taken.deep_view() =~= before);
            assert(self.tasks.deep_view() =~= Seq::empty());
        }
        taken
    }

    /// Number of tasks that wait to be popped.
    pub fn number_of_tasks(&self) -> (res: usize)
        ensures
            res == self@.tasks.len(),
    {
        self.tasks.len()
    }

    fn handle_registration_requests(&mut self) -> (res: MOMEvent)
        requires
            old(self).state == State::Running,
        ensures
            final(self)@ == (StarMomView {
                connected_nodes: old(self)@.registration_requests,
                tasks: old(self)@.tasks + confirmations(
                    old(self)@.node,
                    old(self)@.registration_requests,
                ),
                ..old(self)@
            }),
            res@ == MOMEventView::ClusterConnected(old(self)@.registration_requests.len() as u64),
    {
        push_confirmations(&mut self.tasks, &self.registration_requests, &self.base.my_node_info);
        self.connected_nodes = crate::protocol::clone_node_list(&self.registration_requests);
        MOMEvent::ClusterConnected(self.connected_nodes.len() as u64)
    }

    fn send_registration_request(&mut self)
        requires
            old(self)@.bootstrap_nodes.len() > 0,
        ensures
            final(self)@ == (StarMomView {
                tasks: old(self)@.tasks.push(old(self)@.registration_request()),
                ..old(self)@
            }),
    {
        let bootstrap_node = &self.base.bootstrap_nodes[0];
        assert(self.base.bootstrap_nodes.deep_view()[0] == bootstrap_node@);
        let packet = Packet::new(
            bootstrap_node.name.clone(),
            bootstrap_node.name.clone(),
            Operation::RegistrationRequest { node_to_register: self.base.my_node_info.clone() },
        );
        let ghost prev = self.tasks.deep_view();
        self.tasks.push(MotherboardTask::Send(packet));
        assert(self.tasks.deep_view() =~= prev.push(MotherboardTaskView::Send(packet@)));
    }

    /// Resolves a broadcast into one transmission per matching peer.
    fn broadcast(&mut self, filter: NodeFilter, packet: &Packet)
        requires
            old(self).state == State::Running || old(self).state == State::Killing,
            packet@ == PacketView::broadcast_of(filter, packet@.op),
        ensures
            final(self)@ == (StarMomView {
                tasks: old(self)@.tasks + broadcast_tasks(
                    old(self)@.node.name,
                    old(self)@.connected_nodes,
                    filter,
                    packet@.op,
                ),
                ..old(self)@
            }),
    {
        push_broadcast(
            &mut self.tasks,
            &self.connected_nodes,
            &self.base.my_node_info,
            filter,
            packet,
        );
    }

    fn handle_received_packet(&mut self, packet: Packet) -> (res: Option<MOMEvent>)
        requires
            old(self).state == State::Running,
        ensures
            final(self)@ == old(self)@.on_running(
                MotherbroadOrRoleEventView::Motherboard(
                    MotherboardEventView::PacketReceived(packet@),
                ),
            ).0,
            res.deep_view() == old(self)@.on_running(
                MotherbroadOrRoleEventView::Motherboard(
                    MotherboardEventView::PacketReceived(packet@),
                ),
            ).1,
    {
        if packet.op.is_kill() {
            self.state = State::Killing;
            None
        } else {
            self.base.if_target_get_event(packet)
        }
    }

    fn handle_to_be_sent_packet(&mut self, filter: NodeFilter, op: Operation) -> (res: Option<
        MOMEvent,
    >)
        requires
            old(self).state == State::Running,
        ensures
            final(self)@ == old(self)@.on_running(
                MotherbroadOrRoleEventView::Role(
                    RoleEventView::ToBeSentPacket { filter, op: op@ },
                ),
            ).0,
            res is None,
    {
        let packet = Packet::new_broadcast(filter, op);
        if packet.op.is_kill() {
            self.state = State::Killing;
        }
        self.broadcast(filter, &packet);
        None
    }

    fn initializing(&mut self, event: MotherbroadOrRoleEvent) -> (res: Option<MOMEvent>)
        requires
            old(self).state == State::Initializing,
            old(self)@.inv(),
        ensures
            final(self)@ == old(self)@.on_initializing(event@).0,
            res.deep_view() == old(self)@.on_initializing(event@).1,
    {
        match event {
            MotherbroadOrRoleEvent::Motherboard(MotherboardEvent::MotherboardInitialized) => {
                match self.base.my_node_info.role {
                    RoleEnum::Trainer => {
                        self.send_registration_request();
                        self.state = State::WaitingRegistrationConfirmation;
                    },
                    RoleEnum::MainAggregator => {
                        let ghost prev = self.tasks.deep_view();
                        self.tasks.push(MotherboardTask::Timeout(REGISTRATION_TIMEOUT));
                        assert(self.tasks.deep_view() =~= prev.push(
                            MotherboardTaskView::Timeout(REGISTRATION_TIMEOUT),
                        ));
                        self.state = State::WaitingRegistrationRequests;
                    },
                    RoleEnum::Aggregator => {},
                }
            },
            _ => {},
        }
        None
    }

    fn waiting_registration_confirmation(&mut self, event: MotherbroadOrRoleEvent) -> (res: Option<
        MOMEvent,
    >)
        requires
            old(self).state == State::WaitingRegistrationConfirmation,
        ensures
            final(self)@ == old(self)@.on_waiting_registration_confirmation(event@).0,
            res.deep_view() == old(self)@.on_waiting_registration_confirmation(event@).1,
    {
        match event {
            MotherbroadOrRoleEvent::Motherboard(MotherboardEvent::PacketReceived(packet)) => {
                match packet.op {
                    Operation::RegistrationConfirmation { node_list } => {
                        let mut node_list = node_list;
                        let ghost prev = self.connected_nodes.deep_view();
                        let ghost added = node_list.deep_view();
                        self.state = State::Running;
                        self.connected_nodes.append(&mut node_list);
                        assert(self.connected_nodes.deep_view() =~= prev + added);
                        Some(MOMEvent::NodeConnected)
                    },
                    _ => None,
                }
            },
            _ => None,
        }
    }

    fn waiting_registration_requests(&mut self, event: MotherbroadOrRoleEvent) -> (res: Option<
        MOMEvent,
    >)
        requires
            old(self).state == State::WaitingRegistrationRequests,
        ensures
            final(self)@ == old(self)@.on_waiting_registration_requests(event@).0,
            res.deep_view() == old(self)@.on_waiting_registration_requests(event@).1,
    {
        match event {
            MotherbroadOrRoleEvent::Motherboard(MotherboardEvent::PacketReceived(packet)) => {
                match packet.op {
                    Operation::RegistrationRequest { node_to_register } => {
                        let ghost prev = self.registration_requests.deep_view();
                        self.registration_requests.push(node_to_register);
                        assert(self.registration_requests.deep_view() =~= prev.push(
                            node_to_register@,
                        ));
                    },
                    _ => {},
                }
                None
            },
            MotherbroadOrRoleEvent::Motherboard(MotherboardEvent::TaskTimeoutDone) => {
                self.state = State::Running;
                Some(self.handle_registration_requests())
            },
            _ => None,
        }
    }

    fn running(&mut self, event: MotherbroadOrRoleEvent) -> (res: Option<MOMEvent>)
        requires
            old(self).state == State::Running,
        ensures
            final(self)@ == old(self)@.on_running(event@).0,
            res.deep_view() == old(self)@.on_running(event@).1,
    {
        match event {
            MotherbroadOrRoleEvent::Motherboard(MotherboardEvent::PacketReceived(packet)) => {
                self.handle_received_packet(packet)
            },
            MotherbroadOrRoleEvent::Role(RoleEvent::ToBeSentPacket { filter, op }) => {
                self.handle_to_be_sent_packet(filter, op)
            },
            _ => None,
        }
    }

    /// A node that is being killed ignores every event.
    fn killing(&mut self, event: MotherbroadOrRoleEvent) -> (res: Option<MOMEvent>)
        ensures
            final(self)@ == old(self)@,
            res is None,
    {
        None
    }

    /// Processes one event: the middleware moves as `StarMomView::step` says
    /// and returns the event that `step` hands to the role.
    pub fn run_one_step(&mut self, event: MotherbroadOrRoleEvent) -> (res: Option<MOMEvent>)
        requires
            old(self)@.inv(),
        ensures
            final(self)@ == old(self)@.step(event@).0,
            res.deep_view() == old(self)@.step(event@).1,
            final(self)@.inv(),
    {
        proof {
            lemma_step_preserves_inv(self@, event@);
        }
        match self.state {
            State::Initializing => self.initializing(event),
            State::WaitingRegistrationConfirmation => self.waiting_registration_confirmation(
                event,
            ),
            State::WaitingRegistrationRequests => self.waiting_registration_requests(event),
            State::Running => self.running(event),
            State::Killing => self.killing(event),
        }
    }
}

impl MOM for StarMom {
    open spec fn wf(&self) -> bool {
        self@.inv()
    }

    fn put_event(&mut self, event: MotherbroadOrRoleEvent) -> (res: Option<MOMEvent>)
        ensures
            final(self)@ == old(self)@.step(event@).0,
            res.deep_view() == old(self)@.step(event@).1,
    {
        self.run_one_step(event)
    }

    /// Takes the most recently queued task.
    fn pop_task(&mut self) -> (res: Option<MotherboardTask>)
        ensures
            old(self)@.tasks.len() == 0 ==> res is None && final(self)@ == old(self)@,
            old(self)@.tasks.len() > 0 ==> res.deep_view() == Some(old(self)@.tasks.last())
                && final(self)@ == (StarMomView {
                tasks: old(self)@.tasks.drop_last(),
                ..old(self)@
            }),
    {
        let ghost prev = self.tasks.deep_view();
        let res = self.tasks.pop();
        assert(self.tasks.deep_view() =~= if prev.len() > 0 {
            prev.drop_last()
        } else {
            prev
        });
        res
    }
}

} // verus!
