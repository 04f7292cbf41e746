//! Protocol data model: node identities, operations, filters and packets.

use vstd::prelude::*;

pub mod filters;
pub mod operations;
pub mod packet;

verus! {

/// The part a node plays in the training round.
#[derive(Clone, Copy, Debug, PartialEq, Eq, Structural)]
pub enum RoleEnum {
    MainAggregator,
    Aggregator,
    Trainer,
}

/// Identity of one simulated node.
#[derive(Debug)]
pub struct NodeInfo {
    pub name: String,
    pub role: RoleEnum,
}

/// Mathematical value of a [`NodeInfo`].
pub struct NodeInfoView {
    pub name: Seq<char>,
    pub role: RoleEnum,
}

impl View for NodeInfo {
    type V = NodeInfoView;

    open spec fn view(&self) -> NodeInfoView {
        NodeInfoView { name: self.name@, role: self.role }
    }
}

impl DeepView for NodeInfo {
    type V = NodeInfoView;

    open spec fn deep_view(&self) -> NodeInfoView {
        self@
    }
}

impl Clone for NodeInfo {
    fn clone(&self) -> (res: Self)
        ensures
            res@ == self@,
    {
        NodeInfo { name: self.name.clone(), role: self.role }
    }
}

/// Copies a list of nodes, element by element.
pub fn clone_node_list(nodes: &Vec<NodeInfo>) -> (res: Vec<NodeInfo>)
    ensures
        res.deep_view() == nodes.deep_view(),
{
    let mut res: Vec<NodeInfo> = Vec::new();
    let mut i: usize = 0;
    while i < nodes.len()
        invariant
            i <= nodes.len(),
            res.len() == i,
            forall|k: int| 0 <= k < i ==> res[k]@ == nodes[k]@,
        decreases nodes.len() - i,
    {
        res.push(nodes[i].clone());
        i += 1;
    }
    assert(res.deep_view() =~= nodes.deep_view());
    res
}

} // verus!
