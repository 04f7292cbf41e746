//! The clusters of a raw description, kept apart from the rest so that a
//! study can vary them.

use crate::copies::clone_vec;
use crate::fryer::structures::raw::{Cluster, ClusterView};
use vstd::prelude::*;

verus! {

/// The clusters alone.
#[derive(Debug)]
pub struct Clusters {
    pub list: Vec<Cluster>,
}

/// Mathematical value of a [`Clusters`].
pub struct ClustersView {
    pub list: Seq<ClusterView>,
}

impl View for Clusters {
    type V = ClustersView;

    open spec fn view(&self) -> ClustersView {
        ClustersView { list: self.list.deep_view() }
    }
}

impl DeepView for Clusters {
    type V = ClustersView;

    open spec fn deep_view(&self) -> ClustersView {
        self@
    }
}

impl Clone for Clusters {
    fn clone(&self) -> (res: Self)
        ensures
            res@ == self@,
    {
        Clusters { list: clone_vec(&self.list) }
    }
}

} // verus!
