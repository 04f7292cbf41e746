//! Role-based predicates that resolve a broadcast into concrete recipients.

use super::{NodeInfo, NodeInfoView, RoleEnum};
use vstd::prelude::*;

verus! {

/// A predicate over a node's role. It selects the recipients of a broadcast
/// and is never used for point-to-point addressing.
#[derive(Clone, Copy, Debug, PartialEq, Eq, Structural)]
pub enum NodeFilter {
    Trainers,
    Aggregators,
    TrainersAndAggregators,
    Everyone,
}

impl NodeFilter {
    /// Whether a node of the given role passes this filter.
    pub open spec fn accepts_role(self, role: RoleEnum) -> bool {
        match self {
            NodeFilter::Trainers => role == RoleEnum::Trainer,
            NodeFilter::Aggregators => role == RoleEnum::Aggregator || role
                == RoleEnum::MainAggregator,
            NodeFilter::TrainersAndAggregators => role == RoleEnum::Trainer || role
                == RoleEnum::Aggregator,
            NodeFilter::Everyone => true,
        }
    }

    /// Whether the node passes this filter. Only the node's role counts.
    pub open spec fn accepts(self, node: NodeInfoView) -> bool {
        self.accepts_role(node.role)
    }

    /// Tells whether `node_info` is among the nodes this filter selects.
    pub fn filter(&self, node_info: &NodeInfo) -> (res: bool)
        ensures
            res == self.accepts(node_info@),
    {
        match self {
            NodeFilter::Trainers => node_info.role == RoleEnum::Trainer,
            NodeFilter::Aggregators => {
                node_info.role == RoleEnum::Aggregator || node_info.role
                    == RoleEnum::MainAggregator
            },
            NodeFilter::TrainersAndAggregators => {
                node_info.role == RoleEnum::Trainer || node_info.role == RoleEnum::Aggregator
            },
            NodeFilter::Everyone => true,
        }
    }
}

/// Every node passes `Everyone`, whatever its role.
pub proof fn lemma_everyone_accepts_all(node: NodeInfoView)
    ensures
        NodeFilter::Everyone.accepts(node),
{
}

/// A filter's verdict depends on the role alone: two nodes with the same role
/// get the same answer, whatever their names.
pub proof fn lemma_filter_ignores_name(f: NodeFilter, a: NodeInfoView, b: NodeInfoView)
    requires
        a.role == b.role,
    ensures
        f.accepts(a) == f.accepts(b),
{
}

} // verus!
