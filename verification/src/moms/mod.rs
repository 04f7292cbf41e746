//! Message-oriented middleware: the sublayer that connects a node to its
//! cluster and routes packets between the network and the role.

use crate::motherboard::{MotherboardTask, MotherbroadOrRoleEvent};
use crate::protocol::operations::{Operation, OperationView};
use crate::protocol::packet::{Packet, PacketView};
use crate::protocol::{NodeInfo, NodeInfoView};
use vstd::prelude::*;

pub mod star_mom;

verus! {

/// What the middleware reports to the role.
#[derive(Debug)]
pub enum MOMEvent {
    /// An operation addressed to this node's role has arrived.
    OperationReceived(Operation),
    /// This node has been accepted into the cluster.
    NodeConnected,
    /// The cluster is complete, with this number of connected clients.
    ClusterConnected(u64),
}

/// Mathematical value of a [`MOMEvent`].
pub enum MOMEventView {
    OperationReceived(OperationView),
    NodeConnected,
    ClusterConnected(u64),
}

impl View for MOMEvent {
    type V = MOMEventView;

    open spec fn view(&self) -> MOMEventView {
        match self {
            MOMEvent::OperationReceived(op) => MOMEventView::OperationReceived(op@),
            MOMEvent::NodeConnected => MOMEventView::NodeConnected,
            MOMEvent::ClusterConnected(n) => MOMEventView::ClusterConnected(*n),
        }
    }
}

impl DeepView for MOMEvent {
    type V = MOMEventView;

    open spec fn deep_view(&self) -> MOMEventView {
        self@
    }
}

/// The interface of a middleware towards the node runtime.
pub trait MOM {
    /// The invariant of the implementation, which constructors establish.
    spec fn wf(&self) -> bool;

    /// Feeds one event to the middleware, which may answer with an event for
    /// the role.
    fn put_event(&mut self, mb_event: MotherbroadOrRoleEvent) -> (res: Option<MOMEvent>)
        requires
            old(self).wf(),
        ensures
            final(self).wf(),
    ;

    /// Takes the most recently queued task, if there is one.
    fn pop_task(&mut self) -> (res: Option<MotherboardTask>)
        requires
            old(self).wf(),
        ensures
            final(self).wf(),
    ;
}

/// What every middleware knows: its own identity and the peers it may
/// bootstrap from.
#[derive(Debug)]
pub struct MOMBase {
    pub my_node_info: NodeInfo,
    pub bootstrap_nodes: Vec<NodeInfo>,
}

/// The event that a received packet gives rise to at a node: the packet's
/// operation if the node's role layer is a target of the packet, none
/// otherwise.
pub open spec fn event_if_target(node: NodeInfoView, packet: PacketView) -> Option<MOMEventView> {
    if packet.targets(node) {
        Some(MOMEventView::OperationReceived(packet.op))
    } else {
        None
    }
}

impl MOMBase {
    pub fn new(my_node_info: NodeInfo, bootstrap_nodes: Vec<NodeInfo>) -> (res: MOMBase)
        ensures
            res.my_node_info@ == my_node_info@,
            res.bootstrap_nodes.deep_view() == bootstrap_nodes.deep_view(),
    {
        MOMBase { my_node_info, bootstrap_nodes }
    }

    /// Checks whether the packet targets this node's role and, if so, hands
    /// out its operation as an `OperationReceived` event.
    pub fn if_target_get_event(&self, packet: Packet) -> (res: Option<MOMEvent>)
        ensures
            res.deep_view() == event_if_target(self.my_node_info@, packet@),
    {
        let is_target = match &packet.target_filter {
            Some(filter) => filter.filter(&self.my_node_info),
            None => packet.final_dst == self.my_node_info.name,
        };
        if is_target {
            Some(MOMEvent::OperationReceived(packet.op))
        } else {
            None
        }
    }
}

} // verus!
