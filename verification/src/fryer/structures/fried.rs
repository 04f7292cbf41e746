//! The deployment: every node by name, with its role and its arguments.

use super::common::{
    AggregatorType, Arg, ArgView, ClusterTopology, Constants, ConstantsView, NetworkManager,
    NetworkManagerView, TrainerType,
};
use crate::copies::{clone_opt_vec, clone_vec};
use crate::random::{draw_below, draw_between, draw_between_i32, shuffle_texts};
use crate::text::{i64_to_string, parse_i64, parsed_i64, signed_decimal};
use crate::search::{
    first_where, last_where, lemma_first_where_absent, lemma_first_where_found,
    lemma_last_where_absent, lemma_last_where_found,
};
use rand::rngs::StdRng;
use vstd::prelude::*;

verus! {

/// An aggregator with its arguments.
#[derive(Debug)]
pub struct Aggregator {
    pub aggregator_type: AggregatorType,
    pub args: Option<Vec<Arg>>,
}

/// Mathematical value of an [`Aggregator`].
pub struct AggregatorView {
    pub aggregator_type: AggregatorType,
    pub args: Option<Seq<ArgView>>,
}

impl View for Aggregator {
    type V = AggregatorView;

    open spec fn view(&self) -> AggregatorView {
        AggregatorView {
            aggregator_type: self.aggregator_type,
            args: self.args.deep_view(),
        }
    }
}

impl DeepView for Aggregator {
    type V = AggregatorView;

    open spec fn deep_view(&self) -> AggregatorView {
        self@
    }
}

impl Clone for Aggregator {
    fn clone(&self) -> (res: Self)
        ensures
            res@ == self@,
    {
        Aggregator {
            aggregator_type: self.aggregator_type,
            args: clone_opt_vec(&self.args),
        }
    }
}
/// A trainer with its arguments.
#[derive(Debug)]
pub struct Trainer {
    pub trainer_type: TrainerType,
    pub args: Option<Vec<Arg>>,
}

/// Mathematical value of a [`Trainer`].
pub struct TrainerView {
    pub trainer_type: TrainerType,
    pub args: Option<Seq<ArgView>>,
}

impl View for Trainer {
    type V = TrainerView;

    open spec fn view(&self) -> TrainerView {
        TrainerView {
            trainer_type: self.trainer_type,
            args: self.args.deep_view(),
        }
    }
}

impl DeepView for Trainer {
    type V = TrainerView;

    open spec fn deep_view(&self) -> TrainerView {
        self@
    }
}

impl Clone for Trainer {
    fn clone(&self) -> (res: Self)
        ensures
            res@ == self@,
    {
        Trainer {
            trainer_type: self.trainer_type,
            args: clone_opt_vec(&self.args),
        }
    }
}
/// The role of a deployed node.
#[derive(Debug)]
pub enum NodeRole {
    Aggregator(Aggregator),
    Trainer(Trainer),
}

/// Mathematical value of a [`NodeRole`].
pub enum NodeRoleView {
    Aggregator(AggregatorView),
    Trainer(TrainerView),
}

impl View for NodeRole {
    type V = NodeRoleView;

    open spec fn view(&self) -> NodeRoleView {
        match self {
            NodeRole::Aggregator(a) => NodeRoleView::Aggregator(a@),
            NodeRole::Trainer(t) => NodeRoleView::Trainer(t@),
        }
    }
}

impl DeepView for NodeRole {
    type V = NodeRoleView;

    open spec fn deep_view(&self) -> NodeRoleView {
        self@
    }
}

impl Clone for NodeRole {
    fn clone(&self) -> (res: Self)
        ensures
            res@ == self@,
    {
        match self {
            NodeRole::Aggregator(a) => NodeRole::Aggregator(a.clone()),
            NodeRole::Trainer(t) => NodeRole::Trainer(t.clone()),
        }
    }
}

/// One deployed node.
#[derive(Debug)]
pub struct Node {
    pub name: String,
    pub role: NodeRole,
    pub network_manager: NetworkManager,
}

/// Mathematical value of a [`Node`].
pub struct NodeView {
    pub name: Seq<char>,
    pub role: NodeRoleView,
    pub network_manager: NetworkManagerView,
}

impl View for Node {
    type V = NodeView;

    open spec fn view(&self) -> NodeView {
        NodeView {
            name: self.name@,
            role: self.role@,
            network_manager: self.network_manager@,
        }
    }
}

impl DeepView for Node {
    type V = NodeView;

    open spec fn deep_view(&self) -> NodeView {
        self@
    }
}

impl Clone for Node {
    fn clone(&self) -> (res: Self)
        ensures
            res@ == self@,
    {
        Node {
            name: self.name.clone(),
            role: self.role.clone(),
            network_manager: self.network_manager.clone(),
        }
    }
}
/// The nodes of one cluster.
#[derive(Debug)]
pub struct Cluster {
    pub topology: ClusterTopology,
    pub nodes: Vec<Node>,
}

/// Mathematical value of a [`Cluster`].
pub struct ClusterView {
    pub topology: ClusterTopology,
    pub nodes: Seq<NodeView>,
}

impl View for Cluster {
    type V = ClusterView;

    open spec fn view(&self) -> ClusterView {
        ClusterView {
            topology: self.topology,
            nodes: self.nodes.deep_view(),
        }
    }
}

impl DeepView for Cluster {
    type V = ClusterView;

    open spec fn deep_view(&self) -> ClusterView {
        self@
    }
}

impl Clone for Cluster {
    fn clone(&self) -> (res: Self)
        ensures
            res@ == self@,
    {
        Cluster {
            topology: self.topology,
            nodes: clone_vec(&self.nodes),
        }
    }
}
/// The whole deployment.
#[derive(Debug)]
pub struct FriedFalafels {
    pub version: String,
    pub constants: Constants,
    pub clusters: Vec<Cluster>,
}

/// Mathematical value of a [`FriedFalafels`].
pub struct FriedFalafelsView {
    pub version: Seq<char>,
    pub constants: ConstantsView,
    pub clusters: Seq<ClusterView>,
}

impl View for FriedFalafels {
    type V = FriedFalafelsView;

    open spec fn view(&self) -> FriedFalafelsView {
        FriedFalafelsView {
            version: self.version@,
            constants: self.constants@,
            clusters: self.clusters.deep_view(),
        }
    }
}

impl DeepView for FriedFalafels {
    type V = FriedFalafelsView;

    open spec fn deep_view(&self) -> FriedFalafelsView {
        self@
    }
}

impl Clone for FriedFalafels {
    fn clone(&self) -> (res: Self)
        ensures
            res@ == self@,
    {
        FriedFalafels {
            version: self.version.clone(),
            constants: self.constants.clone(),
            clusters: clone_vec(&self.clusters),
        }
    }
}
/// The condition "is called `name`" on arguments.
pub open spec fn named(name: Seq<char>) -> spec_fn(ArgView) -> bool {
    |a: ArgView| a.name == name
}

/// The first argument called `name`, if the list exists and holds one.
pub open spec fn find_arg(args: Option<Seq<ArgView>>, name: Seq<char>) -> Option<ArgView> {
    match args {
        Some(list) => match first_where(list, named(name)) {
            Some(i) => Some(list[i]),
            None => None,
        },
        None => None,
    }
}

/// The list, or the empty list where there is none.
pub open spec fn args_or_empty(args: Option<Seq<ArgView>>) -> Seq<ArgView> {
    match args {
        Some(list) => list,
        None => Seq::empty(),
    }
}

/// The arguments after `name` has been set to `value`: the first argument
/// called `name` gets the value, or, where there is none, a new argument is
/// added at the end.
pub open spec fn with_arg(args: Option<Seq<ArgView>>, name: Seq<char>, value: Seq<char>) -> Seq<
    ArgView,
> {
    let list = args_or_empty(args);
    match first_where(list, named(name)) {
        Some(i) => list.update(i, ArgView { name: list[i].name, value }),
        None => list.push(ArgView { name, value }),
    }
}

/// The condition "is an aggregator" on nodes.
pub open spec fn is_aggregator_node() -> spec_fn(NodeView) -> bool {
    |n: NodeView| n.role is Aggregator
}

/// The condition "is hierarchical" on clusters.
pub open spec fn is_hierarchical_cluster() -> spec_fn(ClusterView) -> bool {
    |c: ClusterView| c.topology == ClusterTopology::Hierarchical
}

/// The node after it has been told to bootstrap from `main`. The node called
/// `main` itself stays as it is.
pub open spec fn bootstrapped_node(node: NodeView, main: Seq<char>) -> NodeView {
    if node.name != main {
        NodeView {
            network_manager: NetworkManagerView {
                args: Some(with_arg(node.network_manager.args, "bootstrap-node"@, main)),
            },
            ..node
        }
    } else {
        node
    }
}

/// The cluster after each node has been told to bootstrap from the first
/// aggregator of the cluster. A cluster without aggregator stays as it is.
pub open spec fn bootstrapped_cluster(c: ClusterView) -> ClusterView {
    match first_where(c.nodes, is_aggregator_node()) {
        Some(i) => ClusterView {
            nodes: c.nodes.map_values(|n: NodeView| bootstrapped_node(n, c.nodes[i].name)),
            ..c
        },
        None => c,
    }
}

/// The name of the central aggregator: the first node of the last
/// hierarchical cluster, if there is such a cluster.
pub open spec fn central_aggregator(clusters: Seq<ClusterView>) -> Option<Seq<char>> {
    match last_where(clusters, is_hierarchical_cluster()) {
        Some(i) => Some(clusters[i].nodes[0].name),
        None => None,
    }
}

/// The node after a hierarchical aggregator has been told the name of the
/// central aggregator. Any other node stays as it is.
pub open spec fn linked_node(node: NodeView, central: Seq<char>) -> NodeView {
    match node.role {
        NodeRoleView::Aggregator(a) => if a.aggregator_type == AggregatorType::Hierarchical {
            NodeView {
                role: NodeRoleView::Aggregator(
                    AggregatorView {
                        args: Some(with_arg(a.args, "central_aggregator_name"@, central)),
                        ..a
                    },
                ),
                ..node
            }
        } else {
            node
        },
        _ => node,
    }
}

/// The cluster after its hierarchical aggregators have been linked to
/// `central`.
pub open spec fn linked_cluster(c: ClusterView, central: Seq<char>) -> ClusterView {
    ClusterView { nodes: c.nodes.map_values(|n: NodeView| linked_node(n, central)), ..c }
}

/// The names of the nodes of one cluster, in order.
pub open spec fn cluster_node_names(c: ClusterView) -> Seq<Seq<char>> {
    c.nodes.map_values(|n: NodeView| n.name)
}

impl FriedFalafelsView {
    /// The names of all nodes, cluster after cluster.
    pub open spec fn node_names(self) -> Seq<Seq<char>> {
        self.clusters.map_values(|c: ClusterView| cluster_node_names(c)).flatten()
    }

    /// The number of nodes over all clusters.
    pub open spec fn number_nodes(self) -> nat {
        self.node_names().len()
    }

    /// The deployment with the node names replaced by `names`, cluster after
    /// cluster.
    pub open spec fn with_node_names(self, names: Seq<Seq<char>>) -> FriedFalafelsView {
        FriedFalafelsView { clusters: renamed_clusters(self.clusters, names), ..self }
    }

    /// The deployment after every node has been told to bootstrap from the
    /// first aggregator of its cluster.
    pub open spec fn with_bootstrap_nodes(self) -> FriedFalafelsView {
        FriedFalafelsView {
            clusters: self.clusters.map_values(|c: ClusterView| bootstrapped_cluster(c)),
            ..self
        }
    }

    /// Whether every hierarchical cluster has a node.
    pub open spec fn hierarchical_clusters_have_nodes(self) -> bool {
        forall|i: int|
            0 <= i < self.clusters.len() && (#[trigger] self.clusters[i]).topology
                == ClusterTopology::Hierarchical ==> self.clusters[i].nodes.len() > 0
    }

    /// The deployment after every hierarchical aggregator has been told the
    /// name of the central aggregator. Without a hierarchical cluster the
    /// deployment stays as it is.
    pub open spec fn with_hierarchical_links(self) -> FriedFalafelsView {
        match central_aggregator(self.clusters) {
            Some(central) => FriedFalafelsView {
                clusters: self.clusters.map_values(|c: ClusterView| linked_cluster(c, central)),
                ..self
            },
            None => self,
        }
    }
}

/// The nodes with the names replaced, in order, by `names`.
pub open spec fn renamed_nodes(nodes: Seq<NodeView>, names: Seq<Seq<char>>) -> Seq<NodeView> {
    Seq::new(nodes.len(), |k: int| NodeView { name: names[k], ..nodes[k] })
}

/// The clusters with the node names replaced by `names`, cluster after
/// cluster.
pub open spec fn renamed_clusters(clusters: Seq<ClusterView>, names: Seq<Seq<char>>) -> Seq<
    ClusterView,
>
    decreases clusters.len(),
{
    if clusters.len() == 0 {
        clusters
    } else {
        let last = clusters.last();
        let before = names.len() - last.nodes.len();
        renamed_clusters(clusters.drop_last(), names.take(before)).push(
            ClusterView { nodes: renamed_nodes(last.nodes, names.skip(before)), ..last },
        )
    }
}

/// The list with the texts at two positions exchanged.
pub open spec fn swapped(names: Seq<Seq<char>>, a: int, b: int) -> Seq<Seq<char>> {
    names.update(a, names[b]).update(b, names[a])
}

/// The names after the exchanges have been made one after the other.
pub open spec fn after_swaps(names: Seq<Seq<char>>, swaps: Seq<(usize, usize)>) -> Seq<Seq<char>>
    decreases swaps.len(),
{
    if swaps.len() == 0 {
        names
    } else {
        let (a, b) = swaps.last();
        swapped(after_swaps(names, swaps.drop_last()), a as int, b as int)
    }
}

/// Total number of nodes in the clusters.
pub open spec fn count_nodes(clusters: Seq<ClusterView>) -> nat
    decreases clusters.len(),
{
    if clusters.len() == 0 {
        0
    } else {
        count_nodes(clusters.drop_last()) + clusters.last().nodes.len()
    }
}

/// The number of names is the number of nodes.
pub proof fn lemma_node_names_len(clusters: Seq<ClusterView>)
    ensures
        clusters.map_values(|c: ClusterView| cluster_node_names(c)).flatten().len() == count_nodes(
            clusters,
        ),
    decreases clusters.len(),
{
    let f = |c: ClusterView| cluster_node_names(c);
    if clusters.len() == 0 {
        assert(clusters.map_values(f) =~= Seq::empty());
    } else {
        lemma_node_names_len(clusters.drop_last());
        assert(clusters.map_values(f) =~= clusters.drop_last().map_values(f).push(
            f(clusters.last()),
        ));
        clusters.drop_last().map_values(f).lemma_flatten_push(f(clusters.last()));
    }
}

/// Renaming the nodes and reading the names back gives the names that were
/// put in, and changes nothing else: a second renaming with the former names
/// restores the deployment.
pub proof fn lemma_renamed_node_names(clusters: Seq<ClusterView>, names: Seq<Seq<char>>)
    requires
        names.len() == count_nodes(clusters),
    ensures
        renamed_clusters(clusters, names).map_values(
            |c: ClusterView| cluster_node_names(c),
        ).flatten() == names,
        renamed_clusters(clusters, names).len() == clusters.len(),
        count_nodes(renamed_clusters(clusters, names)) == count_nodes(clusters),
    decreases clusters.len(),
{
    let f = |c: ClusterView| cluster_node_names(c);
    if clusters.len() == 0 {
        assert(clusters.map_values(f) =~= Seq::empty());
        assert(names =~= Seq::empty());
    } else {
        let last = clusters.last();
        let before = names.len() - last.nodes.len();
        lemma_renamed_node_names(clusters.drop_last(), names.take(before));
        let front = renamed_clusters(clusters.drop_last(), names.take(before));
        let back = ClusterView { nodes: renamed_nodes(last.nodes, names.skip(before)), ..last };
        assert(front.push(back).map_values(f) =~= front.map_values(f).push(f(back)));
        front.map_values(f).lemma_flatten_push(f(back));
        assert(f(back) =~= names.skip(before));
        assert(names.take(before) + names.skip(before) =~= names);
        assert(front.push(back).drop_last() =~= front);
    }
}

/// Exchanging two texts of a list keeps what the list holds.
pub proof fn lemma_swapped_keeps_texts(names: Seq<Seq<char>>, a: int, b: int)
    requires
        0 <= a < names.len(),
        0 <= b < names.len(),
    ensures
        swapped(names, a, b).to_multiset() == names.to_multiset(),
        swapped(names, a, b).len() == names.len(),
{
    let first = names.update(a, names[b]);
    vstd::seq_lib::to_multiset_update(names, a, names[b]);
    vstd::seq_lib::to_multiset_update(first, b, names[a]);
    names.to_multiset_ensures();
    assert(swapped(names, a, b).to_multiset() =~= names.to_multiset());
}

/// Position of the first argument called `name`.
fn position_of_arg(args: &Vec<Arg>, name: &String) -> (res: Option<usize>)
    ensures
        match res {
            Some(i) => first_where(args.deep_view(), named(name@)) == Some(i as int),
            None => first_where(args.deep_view(), named(name@)) is None,
        },
{
    let mut i: usize = 0;
    while i < args.len()
        invariant
            i <= args.len(),
            forall|k: int| 0 <= k < i ==> !named(name@)(#[trigger] args.deep_view()[k]),
        decreases args.len() - i,
    {
        if args[i].name == *name {
            proof {
                assert(args.deep_view()[i as int] == args[i as int]@);
                lemma_first_where_found(args.deep_view(), named(name@), i as int);
            }
            return Some(i);
        }
        assert(args.deep_view()[i as int] == args[i as int]@);
        i += 1;
    }
    proof {
        lemma_first_where_absent(args.deep_view(), named(name@));
    }
    None
}

impl FriedFalafels {
    /// Gets the name of every node, cluster after cluster.
    pub fn get_node_names(&self) -> (res: Vec<String>)
        ensures
            res.deep_view() == self@.node_names(),
    {
        let mut res: Vec<String> = Vec::new();
        let ghost per_cluster = self@.clusters.map_values(|c: ClusterView| cluster_node_names(c));
        let mut i: usize = 0;
        assert(per_cluster.take(0) =~= Seq::empty());
        assert(res.deep_view() =~= per_cluster.take(0).flatten());
        while i < self.clusters.len()
            invariant
                i <= self.clusters.len(),
                per_cluster == self@.clusters.map_values(|c: ClusterView| cluster_node_names(c)),
                res.deep_view() == per_cluster.take(i as int).flatten(),
            decreases self.clusters.len() - i,
        {
            let cluster = &self.clusters[i];
            let ghost names = cluster_node_names(cluster@);
            let ghost before = res.deep_view();
            let mut j: usize = 0;
            while j < cluster.nodes.len()
                invariant
                    j <= cluster.nodes.len(),
                    names == cluster_node_names(cluster@),
                    res.deep_view() == before + names.take(j as int),
                decreases cluster.nodes.len() - j,
            {
                let ghost prev = res.deep_view();
                res.push(cluster.nodes[j].name.clone());
                proof {
                    assert(cluster.nodes.deep_view()[j as int] == cluster.nodes[j as int]@);
                    assert(res.deep_view() =~= prev.push(names[j as int]));
                    assert(names.take(j + 1) =~= names.take(j as int).push(names[j as int]));
                }
                j += 1;
            }
            proof {
                assert(names.take(j as int) =~= names);
                assert(self.clusters.deep_view()[i as int] == cluster@);
                assert(per_cluster.take(i + 1) =~= per_cluster.take(i as int).push(names));
                per_cluster.take(i as int).lemma_flatten_push(names);
            }
            i += 1;
        }
        assert(per_cluster.take(i as int) =~= per_cluster);
        res
    }

    /// Counts the nodes over all clusters.
    pub fn get_number_nodes(&self) -> (res: usize)
        requires
            self@.number_nodes() <= usize::MAX,
        ensures
            res == self@.number_nodes(),
    {
        let ghost per_cluster = self@.clusters.map_values(|c: ClusterView| cluster_node_names(c));
        let mut res: usize = 0;
        let mut i: usize = 0;
        assert(per_cluster.take(0) =~= Seq::empty());
        while i < self.clusters.len()
            invariant
                i <= self.clusters.len(),
                per_cluster == self@.clusters.map_values(|c: ClusterView| cluster_node_names(c)),
                per_cluster.flatten().len() <= usize::MAX,
                res == per_cluster.take(i as int).flatten().len(),
            decreases self.clusters.len() - i,
        {
            let cluster = &self.clusters[i];
            proof {
                let names = cluster_node_names(cluster@);
                assert(self.clusters.deep_view()[i as int] == cluster@);
                assert(per_cluster.take(i + 1) =~= per_cluster.take(i as int).push(names));
                per_cluster.take(i as int).lemma_flatten_push(names);
                assert(per_cluster =~= per_cluster.take(i + 1) + per_cluster.skip(i + 1));
                vstd::seq_lib::lemma_flatten_concat(
                    per_cluster.take(i + 1),
                    per_cluster.skip(i + 1),
                );
            }
            res = res + cluster.nodes.len();
            i += 1;
        }
        assert(per_cluster.take(i as int) =~= per_cluster);
        res
    }

    /// Counts the nodes over all clusters, if their number can be held.
    pub fn checked_number_nodes(&self) -> (res: Option<usize>)
        ensures
            match res {
                Some(n) => n == self@.number_nodes(),
                None => self@.number_nodes() > usize::MAX,
            },
    {
        let ghost all = self@.clusters;
        let mut res: usize = 0;
        let mut i: usize = 0;
        proof {
            lemma_node_names_len(all);
            assert(all.take(0) =~= Seq::empty());
        }
        while i < self.clusters.len()
            invariant
                i <= self.clusters.len(),
                all == self@.clusters,
                self@.number_nodes() == count_nodes(all),
                res == count_nodes(all.take(i as int)),
            decreases self.clusters.len() - i,
        {
            let size = self.clusters[i].nodes.len();
            proof {
                assert(all[i as int] == self.clusters[i as int]@);
                lemma_count_nodes_take(all, i as int);
            }
            if size > usize::MAX - res {
                return None;
            }
            res = res + size;
            i += 1;
        }
        assert(all.take(i as int) =~= all);
        Some(res)
    }

    /// Tells whether every hierarchical cluster has a node.
    pub fn has_hierarchical_nodes(&self) -> (res: bool)
        ensures
            res == self@.hierarchical_clusters_have_nodes(),
    {
        let mut i: usize = 0;
        while i < self.clusters.len()
            invariant
                i <= self.clusters.len(),
                forall|k: int|
                    0 <= k < i && (#[trigger] self@.clusters[k]).topology
                        == ClusterTopology::Hierarchical ==> self@.clusters[k].nodes.len() > 0,
            decreases self.clusters.len() - i,
        {
            let cluster = &self.clusters[i];
            assert(self@.clusters[i as int] == cluster@);
            let hierarchical = match cluster.topology {
                ClusterTopology::Hierarchical => true,
                _ => false,
            };
            if hierarchical && cluster.nodes.len() == 0 {
                return false;
            }
            i += 1;
        }
        true
    }

    /// Sets an argument: an argument of that name gets the value, otherwise
    /// the argument is created, and with it the list if there was none.
    pub fn set_arg_value(args_opt: &mut Option<Vec<Arg>>, arg_name: &str, new_value: String)
        ensures
            final(args_opt).deep_view() == Some(
                with_arg(old(args_opt).deep_view(), arg_name@, new_value@),
            ),
    {
        let name = arg_name.to_string();
        if args_opt.is_none() {
            *args_opt = Some(Vec::new());
        }
        let ghost list = args_or_empty(old(args_opt).deep_view());
        match args_opt {
            Some(args) => {
                assert(args.deep_view() =~= list);
                match position_of_arg(args, &name) {
                    Some(i) => {
                        args[i].value = new_value;
                        assert(args.deep_view() =~= list.update(
                            i as int,
                            ArgView { name: list[i as int].name, value: new_value@ },
                        ));
                    },
                    None => {
                        args.push(Arg { name, value: new_value });
                        assert(args.deep_view() =~= list.push(
                            ArgView { name: arg_name@, value: new_value@ },
                        ));
                    },
                }
            },
            None => {},
        }
    }

    /// Gets the first argument of that name.
    pub fn get_arg<'a>(args_opt: &'a Option<Vec<Arg>>, arg_name: &str) -> (res: Option<&'a Arg>)
        ensures
            res.deep_view() == find_arg(args_opt.deep_view(), arg_name@),
    {
        let name = arg_name.to_string();
        match args_opt {
            Some(args) => match position_of_arg(args, &name) {
                Some(i) => {
                    assert(args.deep_view()[i as int] == args[i as int]@);
                    Some(&args[i])
                },
                None => None,
            },
            None => None,
        }
    }

    /// Sets an argument by a function of its former value: an argument of
    /// that name gets what `f` makes of its value; otherwise the argument is
    /// created, and with it the list if there was none, with what `f` makes
    /// of no value.
    pub fn set_arg_value_with<F>(args_opt: &mut Option<Vec<Arg>>, arg_name: &str, f: F) where
        F: Fn(Option<&String>) -> String,

        requires
            forall|value: Option<&String>| call_requires(f, (value,)),
        ensures
            final(args_opt).is_some(),
            match first_where(args_or_empty(old(args_opt).deep_view()), named(arg_name@)) {
                Some(i) => {
                    &&& call_ensures(
                        f,
                        (Some(&old(args_opt).unwrap()[i].value),),
                        final(args_opt).unwrap()[i].value,
                    )
                    &&& final(args_opt).deep_view() == Some(
                        with_arg(
                            old(args_opt).deep_view(),
                            arg_name@,
                            final(args_opt).unwrap()[i].value@,
                        ),
                    )
                },
                None => {
                    &&& final(args_opt).unwrap().len() > 0
                    &&& call_ensures(f, (None,), final(args_opt).unwrap()@.last().value)
                    &&& final(args_opt).deep_view() == Some(
                        with_arg(
                            old(args_opt).deep_view(),
                            arg_name@,
                            final(args_opt).unwrap()@.last().value@,
                        ),
                    )
                },
            },
    {
        let name = arg_name.to_string();
        if args_opt.is_none() {
            *args_opt = Some(Vec::new());
        }
        let ghost list = args_or_empty(old(args_opt).deep_view());
        match args_opt {
            Some(args) => {
                assert(args.deep_view() =~= list);
                match position_of_arg(args, &name) {
                    Some(i) => {
                        let value = f(Some(&args[i].value));
                        args[i].value = value;
                        assert(args.deep_view() =~= list.update(
                            i as int,
                            ArgView { name: list[i as int].name, value: value@ },
                        ));
                    },
                    None => {
                        let value = f(None);
                        args.push(Arg { name, value });
                        assert(args.deep_view() =~= list.push(
                            ArgView { name: arg_name@, value: value@ },
                        ));
                    },
                }
            },
            None => {},
        }
    }

    /// Gives the nodes the names of the list, cluster after cluster. The list
    /// holds as many names as there are nodes.
    pub fn set_node_names(&mut self, names: &Vec<String>)
        requires
            names.len() == old(self)@.number_nodes(),
        ensures
            final(self)@ == old(self)@.with_node_names(names.deep_view()),
            final(self)@.node_names() == names.deep_view(),
    {
        let ghost before = self@.clusters;
        let ghost all = names.deep_view();
        proof {
            lemma_node_names_len(before);
            lemma_renamed_node_names(before, all);
            assert(before.take(0) =~= Seq::empty());
        }
        let mut count: usize = 0;
        let mut i: usize = 0;
        while i < self.clusters.len()
            invariant
                i <= self.clusters.len(),
                before == old(self)@.clusters,
                all == names.deep_view(),
                all.len() == count_nodes(before),
                all.len() == names.len(),
                self.version@ == old(self).version@,
                self.constants@ == old(self).constants@,
                self.clusters.len() == before.len(),
                count == count_nodes(before.take(i as int)),
                count <= all.len(),
                forall|k: int|
                    0 <= k < i ==> (#[trigger] self.clusters[k])@ == renamed_clusters(
                        before.take(i as int),
                        all.take(count as int),
                    )[k],
                renamed_clusters(before.take(i as int), all.take(count as int)).len() == i,
                forall|k: int| i <= k < before.len() ==> (#[trigger] self.clusters[k])@ == before[k],
            decreases self.clusters.len() - i,
        {
            let ghost cluster_before = before[i as int];
            let ghost size = cluster_before.nodes.len();
            proof {
                lemma_count_nodes_take(before, i as int);
                assert(before.take(i + 1).drop_last() =~= before.take(i as int));
                assert(all.take(count + size).take(count as int) =~= all.take(count as int));
                assert(renamed_clusters(before.take(i + 1), all.take(count + size))
                    == renamed_clusters(before.take(i as int), all.take(count as int)).push(
                    ClusterView {
                        nodes: renamed_nodes(
                            cluster_before.nodes,
                            all.take(count + size).skip(count as int),
                        ),
                        ..cluster_before
                    },
                ));
            }
            let ghost target = renamed_nodes(
                cluster_before.nodes,
                all.take(count + size).skip(count as int),
            );
            let mut j: usize = 0;
            while j < self.clusters[i].nodes.len()
                invariant
                    i < self.clusters.len(),
                    j <= size,
                    size == self.clusters[i as int].nodes.len(),
                    size == cluster_before.nodes.len(),
                    cluster_before == before[i as int],
                    all == names.deep_view(),
                    count + size <= all.len(),
                    self.version@ == old(self).version@,
                    self.constants@ == old(self).constants@,
                    self.clusters.len() == before.len(),
                    self.clusters[i as int].topology == cluster_before.topology,
                    target == renamed_nodes(
                        cluster_before.nodes,
                        all.take(count + size).skip(count as int),
                    ),
                    forall|k: int|
                        0 <= k < j ==> (#[trigger] self.clusters[i as int].nodes[k])@ == target[k],
                    forall|k: int|
                        j <= k < size ==> (#[trigger] self.clusters[i as int].nodes[k])@
                            == cluster_before.nodes[k],
                    all.len() == names.len(),
                    renamed_clusters(before.take(i as int), all.take(count as int)).len() == i,
                    forall|k: int|
                        0 <= k < i ==> (#[trigger] self.clusters[k])@ == renamed_clusters(
                            before.take(i as int),
                            all.take(count as int),
                        )[k],
                    forall|k: int|
                        i < k < before.len() ==> (#[trigger] self.clusters[k])@ == before[k],
                decreases size - j,
            {
                assert(all[count + j] == names[count + j]@);
                self.clusters[i].nodes[j].name = names[count + j].clone();
                j += 1;
            }
            proof {
                assert(self.clusters[i as int].nodes.deep_view() =~= target);
            }
            count = count + size_of(&self.clusters[i]);
            i += 1;
        }
        proof {
            assert(before.take(i as int) =~= before);
            assert(all.take(count as int) =~= all);
            assert(self.clusters.deep_view() =~= renamed_clusters(before, all));
        }
    }

    /// Shuffles the names of the nodes: afterwards the nodes carry the same
    /// names as before, in an order drawn at random, and nothing else has
    /// changed.
    pub fn shuffle_node_names(&mut self, rng: &mut StdRng)
        ensures
            final(self)@.node_names().to_multiset() == old(self)@.node_names().to_multiset(),
            final(self)@ == old(self)@.with_node_names(final(self)@.node_names()),
    {
        let mut names = self.get_node_names();
        shuffle_texts(&mut names, rng);
        proof {
            old(self)@.node_names().to_multiset_ensures();
            names.deep_view().to_multiset_ensures();
        }
        self.set_node_names(&names);
    }

    /// Exchanges the names of the nodes at the given pairs of positions, one
    /// pair after the other. Positions count the nodes cluster after cluster.
    pub fn swap_node_names(&mut self, swaps: &Vec<(usize, usize)>)
        requires
            forall|k: int|
                0 <= k < swaps.len() ==> (#[trigger] swaps[k]).0 < old(self)@.number_nodes()
                    && swaps[k].1 < old(self)@.number_nodes(),
        ensures
            final(self)@ == old(self)@.with_node_names(
                after_swaps(old(self)@.node_names(), swaps@),
            ),
            final(self)@.node_names() == after_swaps(old(self)@.node_names(), swaps@),
            final(self)@.node_names().to_multiset() == old(self)@.node_names().to_multiset(),
    {
        let mut names = self.get_node_names();
        let ghost start = names.deep_view();
        let mut k: usize = 0;
        assert(swaps@.take(0) =~= Seq::empty());
        while k < swaps.len()
            invariant
                k <= swaps.len(),
                start == old(self)@.node_names(),
                names.len() == start.len(),
                forall|k: int|
                    0 <= k < swaps.len() ==> (#[trigger] swaps[k]).0 < start.len() && swaps[k].1
                        < start.len(),
                names.deep_view() == after_swaps(start, swaps@.take(k as int)),
                names.deep_view().to_multiset() == start.to_multiset(),
            decreases swaps.len() - k,
        {
            let (a, b) = swaps[k];
            let ghost prev = names.deep_view();
            let first = names[a].clone();
            let second = names[b].clone();
            names[a] = second;
            names[b] = first;
            proof {
                assert(names.deep_view() =~= swapped(prev, a as int, b as int));
                lemma_swapped_keeps_texts(prev, a as int, b as int);
                assert(swaps@.take(k + 1).drop_last() =~= swaps@.take(k as int));
                assert(swaps@.take(k + 1).last() == swaps@[k as int]);
            }
            k += 1;
        }
        assert(swaps@.take(k as int) =~= swaps@);
        self.set_node_names(&names);
    }

    /// Exchanges the names of `nb_permutations` pairs of nodes drawn at
    /// random: afterwards the nodes carry the same names as before, and
    /// nothing else has changed.
    pub fn permute_node_names(&mut self, rng: &mut StdRng, nb_permutations: u32)
        requires
            nb_permutations > 0 ==> old(self)@.number_nodes() > 0,
        ensures
            final(self)@.node_names().to_multiset() == old(self)@.node_names().to_multiset(),
            final(self)@ == old(self)@.with_node_names(final(self)@.node_names()),
    {
        let names = self.get_node_names();
        let mut permuts: Vec<(usize, usize)> = Vec::new();
        let mut k: u32 = 0;
        while k < nb_permutations
            invariant
                k <= nb_permutations,
                names.len() == old(self)@.number_nodes(),
                nb_permutations > 0 ==> names.len() > 0,
                forall|p: int|
                    0 <= p < permuts.len() ==> (#[trigger] permuts[p]).0 < names.len()
                        && permuts[p].1 < names.len(),
            decreases nb_permutations - k,
        {
            let a = draw_below(rng, names.len());
            let b = draw_below(rng, names.len());
            permuts.push((a, b));
            k += 1;
        }
        self.swap_node_names(&permuts);
    }

    /// Tells every node to bootstrap from the first aggregator of its
    /// cluster, which is taken to be the main one. A value given before is
    /// overwritten.
    pub fn add_booststrap_nodes(&mut self)
        ensures
            final(self)@ == old(self)@.with_bootstrap_nodes(),
    {
        let ghost before = self@.clusters;
        let ghost target = before.map_values(|c: ClusterView| bootstrapped_cluster(c));
        let mut i: usize = 0;
        while i < self.clusters.len()
            invariant
                i <= self.clusters.len(),
                before == old(self)@.clusters,
                target == before.map_values(|c: ClusterView| bootstrapped_cluster(c)),
                self.version@ == old(self).version@,
                self.constants@ == old(self).constants@,
                self.clusters.len() == before.len(),
                forall|k: int| 0 <= k < i ==> (#[trigger] self.clusters[k])@ == target[k],
                forall|k: int| i <= k < before.len() ==> (#[trigger] self.clusters[k])@ == before[k],
            decreases self.clusters.len() - i,
        {
            bootstrap_cluster(&mut self.clusters[i]);
            i += 1;
        }
        assert(self.clusters.deep_view() =~= target);
    }

    /// Tells every hierarchical aggregator the name of the central
    /// aggregator, which is the first node of the hierarchical cluster (of
    /// the last one, should there be several).
    pub fn link_hierarchical_aggregators(&mut self)
        requires
            old(self)@.hierarchical_clusters_have_nodes(),
        ensures
            final(self)@ == old(self)@.with_hierarchical_links(),
    {
        let ghost before = self@.clusters;
        let mut central: Option<String> = None;
        let ghost mut found: Option<int> = None;
        let mut i: usize = 0;
        while i < self.clusters.len()
            invariant
                i <= self.clusters.len(),
                before == self@.clusters,
                *self == *old(self),
                self@.hierarchical_clusters_have_nodes(),
                match found {
                    Some(p) => 0 <= p < i && is_hierarchical_cluster()(before[p])
                        && central.deep_view() == Some(before[p].nodes[0].name)
                        && forall|k: int| p < k < i ==> !is_hierarchical_cluster()(#[trigger] before[k]),
                    None => central is None && forall|k: int|
                        0 <= k < i ==> !is_hierarchical_cluster()(#[trigger] before[k]),
                },
            decreases self.clusters.len() - i,
        {
            let cluster = &self.clusters[i];
            assert(before[i as int] == cluster@);
            match cluster.topology {
                ClusterTopology::Hierarchical => {
                    assert(cluster.nodes.deep_view()[0] == cluster.nodes[0]@);
                    central = Some(cluster.nodes[0].name.clone());
                    proof {
                        found = Some(i as int);
                    }
                },
                _ => {},
            }
            i += 1;
        }
        proof {
            match found {
                Some(p) => {
                    lemma_last_where_found(before, is_hierarchical_cluster(), p);
                },
                None => {
                    lemma_last_where_absent(before, is_hierarchical_cluster());
                },
            }
        }
        match central {
            Some(name) => {
                let ghost target = before.map_values(|c: ClusterView| linked_cluster(c, name@));
                let mut i: usize = 0;
                while i < self.clusters.len()
                    invariant
                        i <= self.clusters.len(),
                        before == old(self)@.clusters,
                        target == before.map_values(|c: ClusterView| linked_cluster(c, name@)),
                        self.version@ == old(self).version@,
                        self.constants@ == old(self).constants@,
                        self.clusters.len() == before.len(),
                        forall|k: int| 0 <= k < i ==> (#[trigger] self.clusters[k])@ == target[k],
                        forall|k: int|
                            i <= k < before.len() ==> (#[trigger] self.clusters[k])@ == before[k],
                    decreases self.clusters.len() - i,
                {
                    link_cluster(&mut self.clusters[i], &name);
                    i += 1;
                }
                assert(self.clusters.deep_view() =~= target);
            },
            None => {},
        }
    }
}

/// Number of nodes of a cluster.
fn size_of(c: &Cluster) -> (res: usize)
    ensures
        res == c.nodes.len(),
{
    c.nodes.len()
}

/// The nodes of the first clusters and those of the next one make up the
/// nodes of one cluster more, and never exceed the whole.
proof fn lemma_count_nodes_take(clusters: Seq<ClusterView>, i: int)
    requires
        0 <= i < clusters.len(),
    ensures
        count_nodes(clusters.take(i + 1)) == count_nodes(clusters.take(i)) + clusters[i].nodes.len(),
        count_nodes(clusters.take(i + 1)) <= count_nodes(clusters),
    decreases clusters.len() - i,
{
    assert(clusters.take(i + 1).drop_last() =~= clusters.take(i));
    if i + 1 < clusters.len() {
        lemma_count_nodes_take(clusters, i + 1);
        assert(count_nodes(clusters.take(i + 2)) >= count_nodes(clusters.take(i + 1)));
    } else {
        assert(clusters.take(i + 1) =~= clusters);
    }
}

/// Position of the first aggregator among the nodes.
fn position_of_aggregator(nodes: &Vec<Node>) -> (res: Option<usize>)
    ensures
        match res {
            Some(i) => first_where(nodes.deep_view(), is_aggregator_node()) == Some(i as int),
            None => first_where(nodes.deep_view(), is_aggregator_node()) is None,
        },
{
    let mut i: usize = 0;
    while i < nodes.len()
        invariant
            i <= nodes.len(),
            forall|k: int| 0 <= k < i ==> !is_aggregator_node()(#[trigger] nodes.deep_view()[k]),
        decreases nodes.len() - i,
    {
        assert(nodes.deep_view()[i as int] == nodes[i as int]@);
        match &nodes[i].role {
            NodeRole::Aggregator(_) => {
                proof {
                    lemma_first_where_found(nodes.deep_view(), is_aggregator_node(), i as int);
                }
                return Some(i);
            },
            NodeRole::Trainer(_) => {},
        }
        i += 1;
    }
    proof {
        lemma_first_where_absent(nodes.deep_view(), is_aggregator_node());
    }
    None
}

/// Tells the nodes of one cluster to bootstrap from its first aggregator.
fn bootstrap_cluster(c: &mut Cluster)
    ensures
        final(c)@ == bootstrapped_cluster(old(c)@),
{
    let ghost before = c@.nodes;
    match position_of_aggregator(&c.nodes) {
        Some(i) => {
            assert(c.nodes.deep_view()[i as int] == c.nodes[i as int]@);
            let main = c.nodes[i].name.clone();
            let ghost target = before.map_values(|n: NodeView| bootstrapped_node(n, main@));
            let mut j: usize = 0;
            while j < c.nodes.len()
                invariant
                    j <= c.nodes.len(),
                    c.topology == old(c).topology,
                    before == old(c)@.nodes,
                    target == before.map_values(|n: NodeView| bootstrapped_node(n, main@)),
                    c.nodes.len() == before.len(),
                    forall|k: int| 0 <= k < j ==> (#[trigger] c.nodes[k])@ == target[k],
                    forall|k: int| j <= k < before.len() ==> (#[trigger] c.nodes[k])@ == before[k],
                decreases c.nodes.len() - j,
            {
                if !(c.nodes[j].name == main) {
                    FriedFalafels::set_arg_value(
                        &mut c.nodes[j].network_manager.args,
                        "bootstrap-node",
                        main.clone(),
                    );
                }
                j += 1;
            }
            assert(c.nodes.deep_view() =~= target);
        },
        None => {},
    }
}

/// Tells the hierarchical aggregators of one cluster the name of the central
/// aggregator.
fn link_cluster(c: &mut Cluster, central: &String)
    ensures
        final(c)@ == linked_cluster(old(c)@, central@),
{
    let ghost before = c@.nodes;
    let ghost target = before.map_values(|n: NodeView| linked_node(n, central@));
    let mut j: usize = 0;
    while j < c.nodes.len()
        invariant
            j <= c.nodes.len(),
            c.topology == old(c).topology,
            before == old(c)@.nodes,
            target == before.map_values(|n: NodeView| linked_node(n, central@)),
            c.nodes.len() == before.len(),
            forall|k: int| 0 <= k < j ==> (#[trigger] c.nodes[k])@ == target[k],
            forall|k: int| j <= k < before.len() ==> (#[trigger] c.nodes[k])@ == before[k],
        decreases c.nodes.len() - j,
    {
        match &mut c.nodes[j].role {
            NodeRole::Aggregator(a) => {
                match a.aggregator_type {
                    AggregatorType::Hierarchical => {
                        FriedFalafels::set_arg_value(
                            &mut a.args,
                            "central_aggregator_name",
                            central.clone(),
                        );
                    },
                    _ => {},
                }
            },
            NodeRole::Trainer(_) => {},
        }
        j += 1;
    }
    assert(c.nodes.deep_view() =~= target);
}

/// The value of the first argument called `name`, if there is one.
pub open spec fn arg_value(args: Option<Seq<ArgView>>, name: Seq<char>) -> Option<Seq<char>> {
    match find_arg(args, name) {
        Some(a) => Some(a.value),
        None => None,
    }
}

/// Whether the number of local epochs, if it is given, is a number that can
/// be varied.
pub open spec fn local_epochs_valid(args: Option<Seq<ArgView>>) -> bool {
    match arg_value(args, "number_local_epochs"@) {
        Some(value) => parsed_i64(value) is Some && parsed_i64(value).unwrap() > i64::MIN,
        None => true,
    }
}

/// The number of local epochs after a variation by `incr`: a number of one
/// is never lowered, and a number that was not given becomes three.
pub open spec fn next_local_epochs(value: Option<Seq<char>>, incr: i64) -> Seq<char> {
    match value {
        Some(text) => {
            let parsed = parsed_i64(text).unwrap();
            if parsed == 1 {
                signed_decimal(
                    parsed + if incr < 0 {
                        -incr
                    } else {
                        incr as int
                    },
                )
            } else {
                signed_decimal(parsed + incr)
            }
        },
        None => "3"@,
    }
}

/// The aggregator after its number of local epochs has been varied by
/// `incr`.
pub open spec fn mutated_aggregator(a: AggregatorView, incr: i64) -> AggregatorView {
    AggregatorView {
        args: Some(
            with_arg(
                a.args,
                "number_local_epochs"@,
                next_local_epochs(arg_value(a.args, "number_local_epochs"@), incr),
            ),
        ),
        ..a
    }
}

/// Whether `after` is `before` with the number of local epochs of an
/// aggregator varied by minus one or by zero. A trainer stays as it is.
pub open spec fn node_mutated(before: NodeView, after: NodeView) -> bool {
    match before.role {
        NodeRoleView::Aggregator(a) => exists|incr: i64|
            -1 <= incr < 1 && after == (NodeView {
                role: NodeRoleView::Aggregator(#[trigger] mutated_aggregator(a, incr)),
                ..before
            }),
        NodeRoleView::Trainer(_) => after == before,
    }
}

/// Whether the node is an aggregator whose number of local epochs cannot be
/// varied.
pub open spec fn node_mutable(node: NodeView) -> bool {
    match node.role {
        NodeRoleView::Aggregator(a) => local_epochs_valid(a.args),
        NodeRoleView::Trainer(_) => true,
    }
}

/// Whether the node is an asynchronous aggregator.
pub open spec fn is_asynchronous(node: NodeView) -> bool {
    match node.role {
        NodeRoleView::Aggregator(a) => a.aggregator_type == AggregatorType::Asynchronous,
        NodeRoleView::Trainer(_) => false,
    }
}

/// A variation of the proportion threshold of an asynchronous aggregator,
/// in tenths, drawn for the node at the given position. The threshold is a
/// decimal fraction, which whoever holds the deployment applies.
#[derive(Clone, Copy, Debug, PartialEq, Eq, Structural)]
pub struct ThresholdVariation {
    pub cluster: usize,
    pub node: usize,
    pub tenths: i32,
}

/// Why a deployment cannot be mutated.
#[derive(Clone, Copy, Debug, PartialEq, Eq, Structural)]
pub enum MutationError {
    /// The number of local epochs of an aggregator is no number that can be
    /// varied.
    InvalidLocalEpochs,
}

impl FriedFalafelsView {
    /// Whether the number of local epochs of every aggregator can be varied.
    pub open spec fn mutable(self) -> bool {
        forall|i: int, j: int|
            0 <= i < self.clusters.len() && 0 <= j < self.clusters[i].nodes.len() ==> node_mutable(
                #[trigger] self.clusters[i].nodes[j],
            )
    }

    /// Whether `after` is this deployment with every aggregator mutated.
    pub open spec fn mutated_to(self, after: FriedFalafelsView) -> bool {
        &&& after.version == self.version
        &&& after.constants == self.constants
        &&& after.clusters.len() == self.clusters.len()
        &&& forall|i: int|
            0 <= i < self.clusters.len() ==> (#[trigger] after.clusters[i]).topology
                == self.clusters[i].topology && after.clusters[i].nodes.len()
                == self.clusters[i].nodes.len()
        &&& forall|i: int, j: int|
            0 <= i < self.clusters.len() && 0 <= j < self.clusters[i].nodes.len() ==> node_mutated(
                self.clusters[i].nodes[j],
                #[trigger] after.clusters[i].nodes[j],
            )
    }

    /// Whether the variations are those of the asynchronous aggregators: one
    /// for each, in the order of the deployment, each of minus one, zero or
    /// one tenth.
    pub open spec fn variations_cover(self, variations: Seq<ThresholdVariation>) -> bool {
        &&& forall|k: int|
            0 <= k < variations.len() ==> {
                let v = #[trigger] variations[k];
                &&& v.cluster < self.clusters.len()
                &&& v.node < self.clusters[v.cluster as int].nodes.len()
                &&& is_asynchronous(self.clusters[v.cluster as int].nodes[v.node as int])
                &&& -1 <= v.tenths < 2
            }
        &&& forall|k: int, l: int|
            0 <= k < l < variations.len() ==> variations[k].cluster < variations[l].cluster || (
            variations[k].cluster == variations[l].cluster && variations[k].node
                < variations[l].node)
        &&& forall|i: int, j: int|
            0 <= i < self.clusters.len() && 0 <= j < self.clusters[i].nodes.len()
                && is_asynchronous(#[trigger] self.clusters[i].nodes[j]) ==> exists|k: int|
                0 <= k < variations.len() && (#[trigger] variations[k]).cluster == i
                    && variations[k].node == j
    }
}

/// Tells whether the number of local epochs, if it is given, can be varied.
pub fn local_epochs_are_valid(args_opt: &Option<Vec<Arg>>) -> (res: bool)
    ensures
        res == local_epochs_valid(args_opt.deep_view()),
{
    match FriedFalafels::get_arg(args_opt, "number_local_epochs") {
        Some(arg) => match parse_i64(arg.value.as_str()) {
            Some(parsed) => parsed > i64::MIN,
            None => false,
        },
        None => true,
    }
}

/// The text of the number of local epochs after a variation by `incr`.
pub fn vary_local_epochs(value: Option<&String>, incr: i64) -> (res: String)
    requires
        -1 <= incr < 1,
        match value {
            Some(text) => parsed_i64(text@) is Some && parsed_i64(text@).unwrap() > i64::MIN,
            None => true,
        },
    ensures
        res@ == next_local_epochs(value.deep_view(), incr),
{
    match value {
        Some(text) => match parse_i64(text.as_str()) {
            Some(parsed_value) => {
                if parsed_value == 1 {
                    let up = if incr < 0 {
                        -incr
                    } else {
                        incr
                    };
                    i64_to_string(parsed_value + up)
                } else {
                    i64_to_string(parsed_value + incr)
                }
            },
            None => {
                assert(false);
                "3".to_string()
            },
        },
        None => "3".to_string(),
    }
}

impl FriedFalafels {
    /// Varies the number of local epochs of the aggregator by `incr`, which
    /// is minus one or zero.
    pub fn mutate_aggregator_by(aggregator: &mut Aggregator, incr: i64)
        requires
            -1 <= incr < 1,
            local_epochs_valid(old(aggregator)@.args),
        ensures
            final(aggregator)@ == mutated_aggregator(old(aggregator)@, incr),
    {
        let new_value = match Self::get_arg(&aggregator.args, "number_local_epochs") {
            Some(arg) => vary_local_epochs(Some(&arg.value), incr),
            None => vary_local_epochs(None, incr),
        };
        Self::set_arg_value(&mut aggregator.args, "number_local_epochs", new_value);
    }

    /// Mutates an aggregator: its number of local epochs goes down by one or
    /// stays, as drawn at random, but never under one. For an asynchronous
    /// aggregator a variation of the proportion threshold is drawn as well
    /// and returned.
    pub fn mutate_aggregator(aggregator: &mut Aggregator, rng: &mut StdRng) -> (res: Option<i32>)
        requires
            local_epochs_valid(old(aggregator)@.args),
        ensures
            exists|incr: i64|
                -1 <= incr < 1 && final(aggregator)@ == #[trigger] mutated_aggregator(
                    old(aggregator)@,
                    incr,
                ),
            match res {
                Some(tenths) => old(aggregator)@.aggregator_type == AggregatorType::Asynchronous
                    && -1 <= tenths < 2,
                None => old(aggregator)@.aggregator_type != AggregatorType::Asynchronous,
            },
    {
        let incr = draw_between(rng, -1, 1);
        Self::mutate_aggregator_by(aggregator, incr);
        assert(aggregator@ == mutated_aggregator(old(aggregator)@, incr));
        match aggregator.aggregator_type {
            AggregatorType::Asynchronous => Some(draw_between_i32(rng, -1, 2)),
            _ => None,
        }
    }

    /// Mutates an aggregator if its number of local epochs can be varied;
    /// otherwise the aggregator stays as it is and nothing is drawn.
    pub fn try_mutate_aggregator(aggregator: &mut Aggregator, rng: &mut StdRng) -> (res: Result<
        Option<i32>,
        MutationError,
    >)
        ensures
            res is Ok <==> local_epochs_valid(old(aggregator)@.args),
            res is Err ==> final(aggregator)@ == old(aggregator)@,
            res is Ok ==> exists|incr: i64|
                -1 <= incr < 1 && final(aggregator)@ == #[trigger] mutated_aggregator(
                    old(aggregator)@,
                    incr,
                ),
            match res {
                Ok(Some(tenths)) => old(aggregator)@.aggregator_type
                    == AggregatorType::Asynchronous && -1 <= tenths < 2,
                Ok(None) => old(aggregator)@.aggregator_type != AggregatorType::Asynchronous,
                Err(e) => e == MutationError::InvalidLocalEpochs,
            },
    {
        if local_epochs_are_valid(&aggregator.args) {
            Ok(Self::mutate_aggregator(aggregator, rng))
        } else {
            Err(MutationError::InvalidLocalEpochs)
        }
    }

    /// Tells whether the number of local epochs of every aggregator can be
    /// varied.
    pub fn is_mutable(&self) -> (res: bool)
        ensures
            res == self@.mutable(),
    {
        let mut i: usize = 0;
        while i < self.clusters.len()
            invariant
                i <= self.clusters.len(),
                forall|a: int, b: int|
                    0 <= a < i && 0 <= b < self@.clusters[a].nodes.len() ==> node_mutable(
                        #[trigger] self@.clusters[a].nodes[b],
                    ),
            decreases self.clusters.len() - i,
        {
            let cluster = &self.clusters[i];
            assert(self@.clusters[i as int] == cluster@);
            let mut j: usize = 0;
            while j < cluster.nodes.len()
                invariant
                    j <= cluster.nodes.len(),
                    i < self.clusters.len(),
                    self@.clusters[i as int] == cluster@,
                    forall|b: int| 0 <= b < j ==> node_mutable(#[trigger] cluster@.nodes[b]),
                decreases cluster.nodes.len() - j,
            {
                assert(cluster@.nodes[j as int] == cluster.nodes[j as int]@);
                match &cluster.nodes[j].role {
                    NodeRole::Aggregator(a) => {
                        if !local_epochs_are_valid(&a.args) {
                            assert(!node_mutable(self@.clusters[i as int].nodes[j as int]));
                            return false;
                        }
                    },
                    NodeRole::Trainer(_) => {},
                }
                j += 1;
            }
            i += 1;
        }
        true
    }

    /// Mutates every aggregator, and returns the variations drawn for the
    /// proportion thresholds of the asynchronous ones.
    pub fn mutate_nodes(&mut self, rng: &mut StdRng) -> (res: Vec<ThresholdVariation>)
        requires
            old(self)@.mutable(),
        ensures
            old(self)@.mutated_to(final(self)@),
            old(self)@.variations_cover(res@),
    {
        let ghost before = self@;
        let mut res: Vec<ThresholdVariation> = Vec::new();
        let mut i: usize = 0;
        while i < self.clusters.len()
            invariant
                i <= self.clusters.len(),
                before == old(self)@,
                before.mutable(),
                self.version@ == before.version,
                self.constants@ == before.constants,
                self.clusters.len() == before.clusters.len(),
                forall|a: int|
                    0 <= a < i ==> cluster_mutated(
                        before.clusters[a],
                        (#[trigger] self.clusters[a])@,
                    ),
                forall|a: int|
                    i <= a < before.clusters.len() ==> (#[trigger] self.clusters[a])@
                        == before.clusters[a],
                forall|k: int|
                    0 <= k < res.len() ==> {
                        let v = #[trigger] res[k];
                        &&& v.cluster < i
                        &&& v.node < before.clusters[v.cluster as int].nodes.len()
                        &&& is_asynchronous(before.clusters[v.cluster as int].nodes[v.node as int])
                        &&& -1 <= v.tenths < 2
                    },
                forall|k: int, l: int|
                    0 <= k < l < res.len() ==> res[k].cluster < res[l].cluster || (res[k].cluster
                        == res[l].cluster && res[k].node < res[l].node),
                forall|a: int, b: int|
                    0 <= a < i && 0 <= b < before.clusters[a].nodes.len() && is_asynchronous(
                        #[trigger] before.clusters[a].nodes[b],
                    ) ==> exists|k: int|
                        0 <= k < res.len() && (#[trigger] res[k]).cluster == a && res[k].node == b,
            decreases self.clusters.len() - i,
        {
            let ghost res_before = res@;
            proof {
                assert(self.clusters[i as int]@ == before.clusters[i as int]);
                assert forall|b: int|
                    0 <= b < before.clusters[i as int].nodes.len() implies node_mutable(
                    #[trigger] before.clusters[i as int].nodes[b],
                ) by {}
            }
            mutate_cluster(&mut self.clusters[i], i, rng, &mut res);
            proof {
                assert forall|a: int, b: int|
                    0 <= a < i + 1 && 0 <= b < before.clusters[a].nodes.len() && is_asynchronous(
                        #[trigger] before.clusters[a].nodes[b],
                    ) implies exists|k: int|
                    0 <= k < res.len() && (#[trigger] res[k]).cluster == a && res[k].node == b by {
                    if a < i {
                        let k = choose|k: int|
                            0 <= k < res_before.len() && (#[trigger] res_before[k]).cluster == a
                                && res_before[k].node == b;
                        assert(res@.take(res_before.len() as int)[k] == res[k]);
                    }
                }
                assert forall|k: int, l: int| 0 <= k < l < res.len() implies res[k].cluster
                    < res[l].cluster || (res[k].cluster == res[l].cluster && res[k].node
                    < res[l].node) by {
                    if k < res_before.len() {
                        assert(res@.take(res_before.len() as int)[k] == res[k]);
                    }
                    if l < res_before.len() {
                        assert(res@.take(res_before.len() as int)[l] == res[l]);
                    }
                }
                assert forall|k: int| 0 <= k < res.len() implies {
                    let v = #[trigger] res[k];
                    &&& v.cluster < i + 1
                    &&& v.node < before.clusters[v.cluster as int].nodes.len()
                    &&& is_asynchronous(before.clusters[v.cluster as int].nodes[v.node as int])
                    &&& -1 <= v.tenths < 2
                } by {
                    if k < res_before.len() {
                        assert(res@.take(res_before.len() as int)[k] == res[k]);
                    }
                }
            }
            i += 1;
        }
        proof {
            assert forall|a: int, b: int|
                0 <= a < before.clusters.len() && 0 <= b < before.clusters[a].nodes.len()
                    implies node_mutated(
                before.clusters[a].nodes[b],
                #[trigger] self@.clusters[a].nodes[b],
            ) by {
                assert(cluster_mutated(before.clusters[a], self.clusters[a]@));
            }
            assert forall|a: int| 0 <= a < before.clusters.len() implies (
            #[trigger] self@.clusters[a]).topology == before.clusters[a].topology
                && self@.clusters[a].nodes.len() == before.clusters[a].nodes.len() by {
                assert(cluster_mutated(before.clusters[a], self.clusters[a]@));
            }
        }
        res
    }

    /// Mutates every aggregator if the number of local epochs of each of
    /// them can be varied; otherwise the deployment stays as it is and
    /// nothing is drawn.
    pub fn try_mutate_nodes(&mut self, rng: &mut StdRng) -> (res: Result<
        Vec<ThresholdVariation>,
        MutationError,
    >)
        ensures
            res is Ok <==> old(self)@.mutable(),
            match res {
                Ok(variations) => old(self)@.mutated_to(final(self)@) && old(self)@.variations_cover(variations@),
                Err(e) => e == MutationError::InvalidLocalEpochs && final(self)@ == old(self)@,
            },
    {
        if self.is_mutable() {
            Ok(self.mutate_nodes(rng))
        } else {
            Err(MutationError::InvalidLocalEpochs)
        }
    }
}

/// Whether `after` is the cluster `before` with every aggregator mutated.
pub open spec fn cluster_mutated(before: ClusterView, after: ClusterView) -> bool {
    &&& after.topology == before.topology
    &&& after.nodes.len() == before.nodes.len()
    &&& forall|b: int|
        0 <= b < before.nodes.len() ==> node_mutated(before.nodes[b], #[trigger] after.nodes[b])
}

/// Mutates the aggregators of one cluster, and adds to `variations` what was
/// drawn for the asynchronous ones.
fn mutate_cluster(
    c: &mut Cluster,
    cluster_index: usize,
    rng: &mut StdRng,
    variations: &mut Vec<ThresholdVariation>,
)
    requires
        forall|b: int| 0 <= b < old(c)@.nodes.len() ==> node_mutable(#[trigger] old(c)@.nodes[b]),
    ensures
        cluster_mutated(old(c)@, final(c)@),
        final(variations)@.len() >= old(variations)@.len(),
        final(variations)@.take(old(variations)@.len() as int) == old(variations)@,
        forall|k: int|
            old(variations)@.len() <= k < final(variations)@.len() ==> {
                let v = #[trigger] final(variations)@[k];
                &&& v.cluster == cluster_index
                &&& v.node < old(c)@.nodes.len()
                &&& is_asynchronous(old(c)@.nodes[v.node as int])
                &&& -1 <= v.tenths < 2
            },
        forall|k: int, l: int|
            old(variations)@.len() <= k < l < final(variations)@.len() ==> final(variations)@[k].node < final(variations)@[l].node,
        forall|b: int|
            0 <= b < old(c)@.nodes.len() && is_asynchronous(#[trigger] old(c)@.nodes[b])
                ==> exists|k: int|
                old(variations)@.len() <= k < final(variations)@.len() && (#[trigger] final(variations)@[k]).node == b,
{
    let ghost before = c@.nodes;
    let ghost given = variations@;
    let mut j: usize = 0;
    while j < c.nodes.len()
        invariant
            j <= c.nodes.len(),
            before == old(c)@.nodes,
            given == old(variations)@,
            c.topology == old(c).topology,
            c.nodes.len() == before.len(),
            forall|b: int| 0 <= b < before.len() ==> node_mutable(#[trigger] before[b]),
            forall|b: int| 0 <= b < j ==> node_mutated(before[b], (#[trigger] c.nodes[b])@),
            forall|b: int| j <= b < before.len() ==> (#[trigger] c.nodes[b])@ == before[b],
            variations@.len() >= given.len(),
            variations@.take(given.len() as int) == given,
            forall|k: int|
                given.len() <= k < variations@.len() ==> {
                    let v = #[trigger] variations@[k];
                    &&& v.cluster == cluster_index
                    &&& v.node < j
                    &&& is_asynchronous(before[v.node as int])
                    &&& -1 <= v.tenths < 2
                },
            forall|k: int, l: int|
                given.len() <= k < l < variations@.len() ==> variations@[k].node
                    < variations@[l].node,
            forall|b: int|
                0 <= b < j && is_asynchronous(#[trigger] before[b]) ==> exists|k: int|
                    given.len() <= k < variations@.len() && (#[trigger] variations@[k]).node == b,
        decreases c.nodes.len() - j,
    {
        let ghost node_before = before[j as int];
        let ghost so_far = variations@;
        proof {
            assert(c.nodes[j as int]@ == node_before);
            assert(node_mutable(before[j as int]));
        }
        let drawn = match &mut c.nodes[j].role {
            NodeRole::Aggregator(a) => FriedFalafels::mutate_aggregator(a, rng),
            NodeRole::Trainer(_) => None,
        };
        proof {
            assert(node_mutated(node_before, c.nodes[j as int]@));
        }
        match drawn {
            Some(tenths) => {
                variations.push(ThresholdVariation { cluster: cluster_index, node: j, tenths });
                proof {
                    assert(variations@.take(given.len() as int) =~= given);
                    assert forall|b: int|
                        0 <= b < j + 1 && is_asynchronous(#[trigger] before[b]) implies exists|
                        k: int,
                    |
                        given.len() <= k < variations@.len() && (#[trigger] variations@[k]).node
                            == b by {
                        if b < j {
                            let k = choose|k: int|
                                given.len() <= k < so_far.len() && (#[trigger] so_far[k]).node == b;
                            assert(variations@[k] == so_far[k]);
                        } else {
                            assert(variations@[variations@.len() - 1].node == j);
                        }
                    }
                }
            },
            None => {},
        }
        j += 1;
    }
    proof {
        assert forall|b: int| 0 <= b < before.len() implies node_mutated(
            before[b],
            #[trigger] c@.nodes[b],
        ) by {
            assert(c@.nodes[b] == c.nodes[b]@);
        }
    }
}

/// Whether two lists of clusters have the same shape: as many clusters, of
/// the same shapes and sizes.
pub open spec fn same_shape(a: Seq<ClusterView>, b: Seq<ClusterView>) -> bool {
    &&& a.len() == b.len()
    &&& forall|i: int|
        0 <= i < a.len() ==> (#[trigger] a[i]).topology == b[i].topology && a[i].nodes.len()
            == b[i].nodes.len()
}

/// Renaming the nodes keeps the shape of the clusters.
pub proof fn lemma_renamed_keeps_shape(clusters: Seq<ClusterView>, names: Seq<Seq<char>>)
    ensures
        same_shape(renamed_clusters(clusters, names), clusters),
    decreases clusters.len(),
{
    if clusters.len() > 0 {
        let last = clusters.last();
        let before = names.len() - last.nodes.len();
        lemma_renamed_keeps_shape(clusters.drop_last(), names.take(before));
    }
}

/// Linking the hierarchical aggregators and telling the nodes where to
/// bootstrap from keep the shape of the clusters.
pub proof fn lemma_links_keep_shape(ff: FriedFalafelsView)
    ensures
        same_shape(ff.with_hierarchical_links().clusters, ff.clusters),
        same_shape(ff.with_bootstrap_nodes().clusters, ff.clusters),
        same_shape(ff.with_hierarchical_links().with_bootstrap_nodes().clusters, ff.clusters),
{
    let linked = ff.with_hierarchical_links();
    assert(same_shape(linked.clusters, ff.clusters));
    assert(same_shape(ff.with_bootstrap_nodes().clusters, ff.clusters)) by {
        assert forall|i: int| 0 <= i < ff.clusters.len() implies (
        #[trigger] ff.with_bootstrap_nodes().clusters[i]).topology == ff.clusters[i].topology
            && ff.with_bootstrap_nodes().clusters[i].nodes.len() == ff.clusters[i].nodes.len() by {
            assert(ff.with_bootstrap_nodes().clusters[i] == bootstrapped_cluster(ff.clusters[i]));
        }
    }
    assert forall|i: int| 0 <= i < ff.clusters.len() implies (
    #[trigger] linked.with_bootstrap_nodes().clusters[i]).topology == ff.clusters[i].topology
        && linked.with_bootstrap_nodes().clusters[i].nodes.len() == ff.clusters[i].nodes.len() by {
        assert(linked.with_bootstrap_nodes().clusters[i] == bootstrapped_cluster(
            linked.clusters[i],
        ));
        assert(linked.clusters[i].topology == ff.clusters[i].topology);
    }
}

/// Clusters of the same shape have their hierarchical clusters empty or not
/// alike.
pub proof fn lemma_same_shape_nodes(a: FriedFalafelsView, b: FriedFalafelsView)
    requires
        same_shape(a.clusters, b.clusters),
        b.hierarchical_clusters_have_nodes(),
    ensures
        a.hierarchical_clusters_have_nodes(),
{
    assert forall|i: int|
        0 <= i < a.clusters.len() && (#[trigger] a.clusters[i]).topology
            == ClusterTopology::Hierarchical implies a.clusters[i].nodes.len() > 0 by {
        assert(b.clusters[i].topology == ClusterTopology::Hierarchical);
    }
}

} // verus!
