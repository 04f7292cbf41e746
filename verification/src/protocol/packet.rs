//! The addressed envelope that carries one operation across the network.

use super::filters::NodeFilter;
use super::operations::{Operation, OperationView};
use super::NodeInfoView;
use uuid::Uuid;
use vstd::prelude::*;

verus! {

/// `uuid::Uuid`, the identifier of a packet. Nothing inside it is looked at:
/// it is carried along and copied.
#[verifier::external_type_specification]
#[verifier::external_body]
pub struct ExUuid(Uuid);

/// `uuid::Uuid::new_v4` draws a random identifier. Nothing is claimed of the
/// value it returns.
pub assume_specification[ Uuid::new_v4 ]() -> (id: Uuid)
;

/// An envelope with its addresses and one operation.
///
/// `original_src` and `final_dst` are the endpoints; `src` and `dst` are
/// rewritten at each hop. The identifier is drawn at random when the packet is
/// made and is no part of the packet's mathematical value.
#[derive(Debug)]
pub struct Packet {
    pub op: Operation,
    pub original_src: String,
    pub final_dst: String,
    pub src: String,
    pub dst: String,
    /// Whether the packet is meant for every node that passes `target_filter`.
    pub broadcast: bool,
    /// Tells a receiving node whether its role layer is a target.
    pub target_filter: Option<NodeFilter>,
    pub id: Uuid,
    /// Number of redirections so far.
    pub nb_hops: u32,
}

/// Mathematical value of a [`Packet`]: every field but the random identifier.
pub struct PacketView {
    pub op: OperationView,
    pub original_src: Seq<char>,
    pub final_dst: Seq<char>,
    pub src: Seq<char>,
    pub dst: Seq<char>,
    pub broadcast: bool,
    pub target_filter: Option<NodeFilter>,
    pub nb_hops: u32,
}

impl PacketView {
    /// A packet is a broadcast exactly when it carries a filter.
    pub open spec fn wf(self) -> bool {
        self.broadcast == self.target_filter.is_some()
    }

    /// The point-to-point packet that `Packet::new` builds.
    pub open spec fn unicast(dst: Seq<char>, final_dst: Seq<char>, op: OperationView) -> PacketView {
        PacketView {
            op,
            original_src: Seq::empty(),
            final_dst,
            src: dst,
            dst,
            broadcast: false,
            target_filter: None,
            nb_hops: 0,
        }
    }

    /// The broadcast packet that `Packet::new_broadcast` builds.
    pub open spec fn broadcast_of(filter: NodeFilter, op: OperationView) -> PacketView {
        PacketView {
            op,
            original_src: Seq::empty(),
            final_dst: Seq::empty(),
            src: Seq::empty(),
            dst: Seq::empty(),
            broadcast: true,
            target_filter: Some(filter),
            nb_hops: 0,
        }
    }

    /// The same packet on the hop from `src` to `dst`.
    pub open spec fn on_hop(self, src: Seq<char>, dst: Seq<char>) -> PacketView {
        PacketView { src, dst, ..self }
    }

    /// Whether the role layer of `node` is a target of this packet: a packet
    /// with a filter targets the nodes that pass it, a packet without one
    /// targets the node it names as its final destination.
    pub open spec fn targets(self, node: NodeInfoView) -> bool {
        match self.target_filter {
            Some(f) => f.accepts(node),
            None => self.final_dst == node.name,
        }
    }
}

impl View for Packet {
    type V = PacketView;

    open spec fn view(&self) -> PacketView {
        PacketView {
            op: self.op@,
            original_src: self.original_src@,
            final_dst: self.final_dst@,
            src: self.src@,
            dst: self.dst@,
            broadcast: self.broadcast,
            target_filter: self.target_filter,
            nb_hops: self.nb_hops,
        }
    }
}

impl DeepView for Packet {
    type V = PacketView;

    open spec fn deep_view(&self) -> PacketView {
        self@
    }
}

impl Packet {
    /// Makes a point-to-point packet with its next hop and its final
    /// destination. The hop source starts out equal to `dst` and the original
    /// source empty, until a sender fills them in.
    pub fn new(dst: String, final_dst: String, op: Operation) -> (res: Packet)
        ensures
            res@ == PacketView::unicast(dst@, final_dst@, op@),
            res@.wf(),
    {
        Packet {
            op,
            original_src: String::new(),
            final_dst,
            src: dst.clone(),
            dst,
            broadcast: false,
            target_filter: None,
            id: Uuid::new_v4(),
            nb_hops: 0,
        }
    }

    /// Makes a broadcast packet, which carries a filter in place of concrete
    /// destinations.
    pub fn new_broadcast(filter: NodeFilter, op: Operation) -> (res: Packet)
        ensures
            res@ == PacketView::broadcast_of(filter, op@),
            res@.wf(),
    {
        Packet {
            op,
            original_src: String::new(),
            final_dst: String::new(),
            src: String::new(),
            dst: String::new(),
            broadcast: true,
            target_filter: Some(filter),
            id: Uuid::new_v4(),
            nb_hops: 0,
        }
    }

    /// A copy of this packet for the hop from `src` to `dst`. The copy keeps
    /// the identifier, so that the receivers can tell it is the same message.
    pub fn for_hop(&self, src: String, dst: String) -> (res: Packet)
        ensures
            res@ == self@.on_hop(src@, dst@),
            res.id == self.id,
    {
        Packet {
            op: self.op.clone(),
            original_src: self.original_src.clone(),
            final_dst: self.final_dst.clone(),
            src,
            dst,
            broadcast: self.broadcast,
            target_filter: self.target_filter,
            id: self.id,
            nb_hops: self.nb_hops,
        }
    }
}

impl Clone for Packet {
    fn clone(&self) -> (res: Self)
        ensures
            res@ == self@,
            res.id == self.id,
    {
        self.for_hop(self.src.clone(), self.dst.clone())
    }
}

} // verus!
