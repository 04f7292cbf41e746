//! What the raw description and the deployment have in common.

use crate::copies::{clone_opt_vec, clone_vec};
use vstd::prelude::*;

verus! {

/// One named constant of the simulation.
#[derive(Debug)]
pub struct Constant {
    pub name: String,
    pub value: String,
}

/// Mathematical value of a [`Constant`].
pub struct ConstantView {
    pub name: Seq<char>,
    pub value: Seq<char>,
}

impl View for Constant {
    type V = ConstantView;

    open spec fn view(&self) -> ConstantView {
        ConstantView {
            name: self.name@,
            value: self.value@,
        }
    }
}

impl DeepView for Constant {
    type V = ConstantView;

    open spec fn deep_view(&self) -> ConstantView {
        self@
    }
}

impl Clone for Constant {
    fn clone(&self) -> (res: Self)
        ensures
            res@ == self@,
    {
        Constant {
            name: self.name.clone(),
            value: self.value.clone(),
        }
    }
}
/// The constants of the simulation, which pass through unchanged.
#[derive(Debug)]
pub struct Constants {
    pub list: Vec<Constant>,
}

/// Mathematical value of a [`Constants`].
pub struct ConstantsView {
    pub list: Seq<ConstantView>,
}

impl View for Constants {
    type V = ConstantsView;

    open spec fn view(&self) -> ConstantsView {
        ConstantsView {
            list: self.list.deep_view(),
        }
    }
}

impl DeepView for Constants {
    type V = ConstantsView;

    open spec fn deep_view(&self) -> ConstantsView {
        self@
    }
}

impl Clone for Constants {
    fn clone(&self) -> (res: Self)
        ensures
            res@ == self@,
    {
        Constants {
            list: clone_vec(&self.list),
        }
    }
}
/// A named value handed to a node or to its network manager.
#[derive(Debug)]
pub struct Arg {
    pub name: String,
    pub value: String,
}

/// Mathematical value of an [`Arg`].
pub struct ArgView {
    pub name: Seq<char>,
    pub value: Seq<char>,
}

impl View for Arg {
    type V = ArgView;

    open spec fn view(&self) -> ArgView {
        ArgView {
            name: self.name@,
            value: self.value@,
        }
    }
}

impl DeepView for Arg {
    type V = ArgView;

    open spec fn deep_view(&self) -> ArgView {
        self@
    }
}

impl Clone for Arg {
    fn clone(&self) -> (res: Self)
        ensures
            res@ == self@,
    {
        Arg {
            name: self.name.clone(),
            value: self.value.clone(),
        }
    }
}
/// The network manager of a node, with its arguments.
#[derive(Debug)]
pub struct NetworkManager {
    pub args: Option<Vec<Arg>>,
}

/// Mathematical value of a [`NetworkManager`].
pub struct NetworkManagerView {
    pub args: Option<Seq<ArgView>>,
}

impl View for NetworkManager {
    type V = NetworkManagerView;

    open spec fn view(&self) -> NetworkManagerView {
        NetworkManagerView {
            args: self.args.deep_view(),
        }
    }
}

impl DeepView for NetworkManager {
    type V = NetworkManagerView;

    open spec fn deep_view(&self) -> NetworkManagerView {
        self@
    }
}

impl Clone for NetworkManager {
    fn clone(&self) -> (res: Self)
        ensures
            res@ == self@,
    {
        NetworkManager {
            args: clone_opt_vec(&self.args),
        }
    }
}
/// How an aggregator decides that a round is complete.
#[derive(Clone, Copy, Debug, PartialEq, Eq, Structural)]
pub enum AggregatorType {
    Simple,
    Asynchronous,
    Hierarchical,
}
/// The kind of a trainer. `NoTrainer` stands for a cluster without trainers.
#[derive(Clone, Copy, Debug, PartialEq, Eq, Structural)]
pub enum TrainerType {
    Simple,
    NoTrainer,
}
/// A property of a host or of a link.
#[derive(Debug)]
pub struct Prop {
    pub id: String,
    pub value: String,
}

/// Mathematical value of a [`Prop`].
pub struct PropView {
    pub id: Seq<char>,
    pub value: Seq<char>,
}

impl View for Prop {
    type V = PropView;

    open spec fn view(&self) -> PropView {
        PropView {
            id: self.id@,
            value: self.value@,
        }
    }
}

impl DeepView for Prop {
    type V = PropView;

    open spec fn deep_view(&self) -> PropView {
        self@
    }
}

impl Clone for Prop {
    fn clone(&self) -> (res: Self)
        ensures
            res@ == self@,
    {
        Prop {
            id: self.id.clone(),
            value: self.value.clone(),
        }
    }
}
/// The shape of a cluster.
#[derive(Clone, Copy, Debug, PartialEq, Eq, Structural)]
pub enum ClusterTopology {
    Star,
    RingBi,
    RingUni,
    Hierarchical,
    FullyConnected,
}
} // verus!
