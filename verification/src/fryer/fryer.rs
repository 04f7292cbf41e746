//! Turning a raw description into a deployment.

use crate::copies::clone_opt_vec;
use crate::fryer::structures::common::{
    AggregatorType, Arg, ArgView, ClusterTopology, NetworkManager, NetworkManagerView,
};
use crate::fryer::structures::fried::{
    args_or_empty, AggregatorView, FriedFalafelsView, NodeRoleView, NodeView, TrainerView,
};
use crate::fryer::structures::{fried, raw};
use crate::random::{first_draw, first_draw_from_seed};
use crate::text::{numbered, numbered_name};
use vstd::prelude::*;

verus! {

/// Seed of the generator that picks names from a list.
pub const NAMES_SEED: u64 = 42;

/// The position at which a name is picked from a list of `len` names.
pub open spec fn pick_position(len: nat) -> int {
    (first_draw(NAMES_SEED) as int) % (len as int)
}

/// A list of names to give to the nodes.
#[derive(Debug)]
pub struct NamesList {
    pub list_of_names: Vec<String>,
}

impl NamesList {
    /// Makes a list of the given names.
    pub fn new(list_of_names: Vec<String>) -> (res: NamesList)
        ensures
            res.list_of_names.deep_view() == list_of_names.deep_view(),
    {
        NamesList { list_of_names }
    }

    /// Tells whether the list holds enough names for `total_nb` picks.
    pub fn is_list_big_enough(&self, total_nb: u16) -> (res: bool)
        ensures
            res == (self.list_of_names.len() >= total_nb),
    {
        self.list_of_names.len() >= total_nb as usize
    }

    /// Picks a name and removes it from the list, so that it is not picked
    /// again. The list must hold a name.
    pub fn pick_name(&mut self) -> (res: String)
        requires
            old(self).list_of_names.len() > 0,
        ensures
            res@ == old(self).list_of_names.deep_view()[pick_position(
                old(self).list_of_names.len() as nat,
            )],
            final(self).list_of_names.deep_view() == old(self).list_of_names.deep_view().remove(
                pick_position(old(self).list_of_names.len() as nat),
            ),
    {
        let len = self.list_of_names.len();
        let remove_index = first_draw_from_seed(NAMES_SEED) % (len as u64);
        let ghost before = self.list_of_names.deep_view();
        let res = self.list_of_names.remove(remove_index as usize);
        assert(self.list_of_names.deep_view() =~= before.remove(remove_index as int));
        res
    }
}

/// Mathematical value of a [`Fryer`].
pub struct FryerView {
    /// The names that are left to pick from, if a list was given.
    pub names: Option<Seq<Seq<char>>>,
    /// Number of nodes that were named by their number.
    pub count_node: u32,
}

impl FryerView {
    /// Whether `n` more nodes can be named.
    pub open spec fn can_pick(self, n: nat) -> bool {
        match self.names {
            Some(list) => list.len() >= n,
            None => self.count_node + n <= u32::MAX,
        }
    }

    /// The name that the next node gets: one picked from the list, or, where
    /// there is no list, "Node" and the node's number.
    pub open spec fn picked_name(self) -> Seq<char> {
        match self.names {
            Some(list) => list[pick_position(list.len())],
            None => numbered("Node "@, (self.count_node + 1) as nat),
        }
    }

    /// The fryer after it has named one node.
    pub open spec fn after_pick(self) -> FryerView {
        match self.names {
            Some(list) => FryerView { names: Some(list.remove(pick_position(list.len()))), ..self },
            None => FryerView { count_node: (self.count_node + 1) as u32, ..self },
        }
    }

    /// The fryer after it has named `n` nodes.
    pub open spec fn after_picks(self, n: nat) -> FryerView
        decreases n,
    {
        if n == 0 {
            self
        } else {
            self.after_picks((n - 1) as nat).after_pick()
        }
    }
}

/// The network manager as given, or one without arguments.
pub open spec fn network_manager_or_default(nm: Option<NetworkManagerView>) -> NetworkManagerView {
    match nm {
        Some(given) => given,
        None => NetworkManagerView { args: None },
    }
}

/// The trainer nodes of a cluster, named in turn.
pub open spec fn trainer_nodes(f: FryerView, c: raw::ClusterView) -> Seq<NodeView> {
    Seq::new(
        c.trainers.number as nat,
        |k: int|
            NodeView {
                name: f.after_picks(k as nat).picked_name(),
                role: NodeRoleView::Trainer(
                    TrainerView { trainer_type: c.trainers.trainer_type, args: c.trainers.args },
                ),
                network_manager: network_manager_or_default(c.trainers.network_manager),
            },
    )
}

/// The arguments of an aggregator: those of the cluster, then the mark of
/// the main aggregator for the first aggregator of the cluster, then the
/// default number of local epochs, then, for an asynchronous aggregator, the
/// default proportion threshold.
pub open spec fn aggregator_args(a: raw::AggregatorsView, first: bool) -> Seq<ArgView> {
    let given = args_or_empty(a.args);
    let marked = if first {
        given.push(ArgView { name: "is_main_aggregator"@, value: "1"@ })
    } else {
        given
    };
    let with_epochs = marked.push(ArgView { name: "number_local_epochs"@, value: "3"@ });
    if a.aggregator_type == AggregatorType::Asynchronous {
        with_epochs.push(ArgView { name: "proportion_threshold"@, value: "0.5"@ })
    } else {
        with_epochs
    }
}

/// The aggregator nodes of a cluster, named in turn.
pub open spec fn aggregator_nodes(f: FryerView, c: raw::ClusterView) -> Seq<NodeView> {
    Seq::new(
        c.aggregators.number as nat,
        |k: int|
            NodeView {
                name: f.after_picks(k as nat).picked_name(),
                role: NodeRoleView::Aggregator(
                    AggregatorView {
                        aggregator_type: c.aggregators.aggregator_type,
                        args: Some(aggregator_args(c.aggregators, k == 0)),
                    },
                ),
                network_manager: network_manager_or_default(c.aggregators.network_manager),
            },
    )
}

/// Only a one-way ring can have several aggregators.
pub open spec fn aggregators_allowed(c: raw::ClusterView) -> bool {
    c.topology == ClusterTopology::RingUni || c.aggregators.number <= 1
}

/// Number of nodes of a raw cluster.
pub open spec fn cluster_size(c: raw::ClusterView) -> nat {
    (c.trainers.number + c.aggregators.number) as nat
}

/// The deployed cluster: its trainers, then its aggregators.
pub open spec fn fried_cluster(f: FryerView, c: raw::ClusterView) -> fried::ClusterView {
    fried::ClusterView {
        topology: c.topology,
        nodes: trainer_nodes(f, c) + aggregator_nodes(f.after_picks(c.trainers.number as nat), c),
    }
}

/// Number of nodes of the raw clusters.
pub open spec fn total_size(clusters: Seq<raw::ClusterView>) -> nat
    decreases clusters.len(),
{
    if clusters.len() == 0 {
        0
    } else {
        total_size(clusters.drop_last()) + cluster_size(clusters.last())
    }
}

/// The deployed clusters, cluster after cluster.
pub open spec fn fried_clusters(f: FryerView, clusters: Seq<raw::ClusterView>) -> Seq<
    fried::ClusterView,
>
    decreases clusters.len(),
{
    if clusters.len() == 0 {
        Seq::empty()
    } else {
        fried_clusters(f, clusters.drop_last()).push(
            fried_cluster(f.after_picks(total_size(clusters.drop_last())), clusters.last()),
        )
    }
}

/// Whether the raw description can be deployed: there are names enough, no
/// cluster has more aggregators than its shape allows, and a hierarchical
/// cluster is not empty.
pub open spec fn can_fry(f: FryerView, rf: raw::RawFalafelsView) -> bool {
    &&& f.can_pick(total_size(rf.clusters))
    &&& f.names is Some ==> total_size(rf.clusters) <= u16::MAX
    &&& forall|i: int|
        0 <= i < rf.clusters.len() ==> aggregators_allowed(#[trigger] rf.clusters[i])
    &&& forall|i: int|
        0 <= i < rf.clusters.len() && (#[trigger] rf.clusters[i]).topology
            == ClusterTopology::Hierarchical ==> cluster_size(rf.clusters[i]) > 0
}

/// The deployment of a raw description: the clusters with their nodes, the
/// hierarchical aggregators linked to the central one, and every node told
/// where to bootstrap from.
pub open spec fn fried_falafels(f: FryerView, rf: raw::RawFalafelsView) -> FriedFalafelsView {
    (FriedFalafelsView {
        version: "0.1"@,
        constants: rf.constants,
        clusters: fried_clusters(f, rf.clusters),
    }).with_hierarchical_links().with_bootstrap_nodes()
}

/// Naming some nodes and then some more is naming them all.
pub proof fn lemma_after_picks_add(f: FryerView, a: nat, b: nat)
    ensures
        f.after_picks(a).after_picks(b) == f.after_picks(a + b),
    decreases b,
{
    if b > 0 {
        lemma_after_picks_add(f, a, (b - 1) as nat);
    }
}

/// A fryer that can name some nodes can name fewer, and after it has named a
/// part of them it can name the rest.
pub proof fn lemma_can_pick_after(f: FryerView, done: nat, n: nat)
    requires
        f.can_pick(n),
        done <= n,
    ensures
        f.after_picks(done).can_pick((n - done) as nat),
        f.after_picks(done).names is Some == f.names is Some,
        f.names is None ==> f.after_picks(done).count_node == f.count_node + done,
        f.names is Some ==> f.after_picks(done).names.unwrap().len() == f.names.unwrap().len()
            - done,
    decreases done,
{
    if done > 0 {
        lemma_can_pick_after(f, (done - 1) as nat, n);
        let g = f.after_picks((done - 1) as nat);
        match g.names {
            Some(list) => {
                vstd::arithmetic::div_mod::lemma_mod_pos_bound(
                    first_draw(NAMES_SEED) as int,
                    list.len() as int,
                );
            },
            None => {},
        }
    }
}

/// The nodes of the first clusters and those of the next one make up the
/// nodes of one cluster more, and never exceed the whole.
pub proof fn lemma_total_size_take(clusters: Seq<raw::ClusterView>, i: int)
    requires
        0 <= i < clusters.len(),
    ensures
        total_size(clusters.take(i + 1)) == total_size(clusters.take(i)) + cluster_size(
            clusters[i],
        ),
        total_size(clusters.take(i + 1)) <= total_size(clusters),
    decreases clusters.len() - i,
{
    assert(clusters.take(i + 1).drop_last() =~= clusters.take(i));
    if i + 1 < clusters.len() {
        lemma_total_size_take(clusters, i + 1);
    } else {
        assert(clusters.take(i + 1) =~= clusters);
    }
}

/// Tool to fry falafels: it makes the deployment out of the raw description.
#[derive(Debug)]
pub struct Fryer {
    names_list: Option<NamesList>,
    count_node: u32,
}

impl View for Fryer {
    type V = FryerView;

    closed spec fn view(&self) -> FryerView {
        FryerView {
            names: match self.names_list {
                Some(list) => Some(list.list_of_names.deep_view()),
                None => None,
            },
            count_node: self.count_node,
        }
    }
}

impl Fryer {
    /// Creates a fryer. With a list of names the nodes are named from the
    /// list; without one they are numbered.
    pub fn new(optional_names: Option<Vec<String>>) -> (res: Fryer)
        ensures
            res@ == (FryerView { names: optional_names.deep_view(), count_node: 0 }),
    {
        match optional_names {
            Some(names) => Fryer { names_list: Some(NamesList::new(names)), count_node: 0 },
            None => Fryer { names_list: None, count_node: 0 },
        }
    }

    /// Tells whether the raw description can be deployed by this fryer.
    pub fn can_fry(&self, rf: &raw::RawFalafels) -> (res: bool)
        ensures
            res == can_fry(self@, rf@),
    {
        let ghost clusters = rf@.clusters;
        let mut total: u64 = 0;
        let mut i: usize = 0;
        assert(clusters.take(0) =~= Seq::empty());
        while i < rf.clusters.len()
            invariant
                i <= rf.clusters.len(),
                clusters == rf@.clusters,
                total == total_size(clusters.take(i as int)) || (total == u64::MAX && total_size(
                    clusters.take(i as int),
                ) > u64::MAX),
                forall|k: int| 0 <= k < i ==> aggregators_allowed(#[trigger] clusters[k]),
                forall|k: int|
                    0 <= k < i && (#[trigger] clusters[k]).topology == ClusterTopology::Hierarchical
                        ==> cluster_size(clusters[k]) > 0,
            decreases rf.clusters.len() - i,
        {
            let c = &rf.clusters[i];
            proof {
                assert(clusters[i as int] == c@);
                lemma_total_size_take(clusters, i as int);
            }
            let size: u64 = c.trainers.number as u64 + c.aggregators.number as u64;
            let one_way = match c.topology {
                ClusterTopology::RingUni => true,
                _ => false,
            };
            let hierarchical = match c.topology {
                ClusterTopology::Hierarchical => true,
                _ => false,
            };
            if (!one_way && c.aggregators.number > 1) || (hierarchical && size == 0) {
                return false;
            }
            total = total.saturating_add(size);
            i += 1;
        }
        proof {
            assert(clusters.take(i as int) =~= clusters);
        }
        match &self.names_list {
            Some(list) => total <= 65535 && list.list_of_names.len() as u64 >= total,
            None => total <= (u32::MAX - self.count_node) as u64,
        }
    }

    /// Generates the deployment of a raw description. Afterwards the fryer
    /// numbers nodes from one again.
    pub fn fry(&mut self, rf: &raw::RawFalafels) -> (res: fried::FriedFalafels)
        requires
            can_fry(old(self)@, rf@),
        ensures
            res@ == fried_falafels(old(self)@, rf@),
            final(self)@ == (FryerView {
                count_node: 0,
                ..old(self)@.after_picks(total_size(rf@.clusters))
            }),
    {
        let ghost start = self@;
        let ghost clusters = rf@.clusters;
        let ghost total = total_size(clusters);
        let mut fried_clusters_list: Vec<fried::Cluster> = Vec::new();
        let mut i: usize = 0;
        proof {
            assert(clusters.take(0) =~= Seq::empty());
        }
        while i < rf.clusters.len()
            invariant
                i <= rf.clusters.len(),
                clusters == rf@.clusters,
                start == old(self)@,
                total == total_size(clusters),
                can_fry(start, rf@),
                self@ == start.after_picks(total_size(clusters.take(i as int))),
                total_size(clusters.take(i as int)) <= total,
                fried_clusters_list.deep_view() == fried_clusters(start, clusters.take(i as int)),
            decreases rf.clusters.len() - i,
        {
            let raw_cluster = &rf.clusters[i];
            let ghost done = total_size(clusters.take(i as int));
            proof {
                assert(clusters[i as int] == raw_cluster@);
                lemma_total_size_take(clusters, i as int);
                lemma_can_pick_after(start, done, total);
                lemma_after_picks_add(start, done, cluster_size(raw_cluster@));
                assert(clusters.take(i + 1).drop_last() =~= clusters.take(i as int));
                lemma_can_pick_fewer(start.after_picks(done), cluster_size(raw_cluster@), (total - done) as nat);
            }
            let ghost prev = fried_clusters_list.deep_view();
            let cluster = self.create_cluster(raw_cluster);
            fried_clusters_list.push(cluster);
            proof {
                assert(fried_clusters_list.deep_view() =~= prev.push(cluster@));
            }
            i += 1;
        }
        proof {
            assert(clusters.take(i as int) =~= clusters);
        }
        let mut ff = fried::FriedFalafels {
            version: "0.1".to_string(),
            constants: rf.constants.clone(),
            clusters: fried_clusters_list,
        };
        proof {
            lemma_hierarchical_not_empty(start, clusters);
        }
        ff.link_hierarchical_aggregators();
        ff.add_booststrap_nodes();
        self.count_node = 0;
        ff
    }

    /// Counts the nodes of all clusters.
    pub fn count_total_number_nodes(clusters: &Vec<raw::Cluster>) -> (res: u16)
        requires
            total_size(clusters.deep_view()) <= u16::MAX,
        ensures
            res == total_size(clusters.deep_view()),
    {
        let ghost all = clusters.deep_view();
        let mut res: u16 = 0;
        let mut i: usize = 0;
        assert(all.take(0) =~= Seq::empty());
        while i < clusters.len()
            invariant
                i <= clusters.len(),
                all == clusters.deep_view(),
                total_size(all) <= u16::MAX,
                res == total_size(all.take(i as int)),
            decreases clusters.len() - i,
        {
            proof {
                lemma_total_size_take(all, i as int);
                assert(all[i as int] == clusters[i as int]@);
            }
            res = res + (clusters[i].trainers.number + clusters[i].aggregators.number);
            i += 1;
        }
        assert(all.take(i as int) =~= all);
        res
    }

    /// Creates the nodes of one cluster: the trainers, then the aggregators.
    pub fn create_cluster(&mut self, cluster: &raw::Cluster) -> (res: fried::Cluster)
        requires
            old(self)@.can_pick(cluster_size(cluster@)),
            aggregators_allowed(cluster@),
        ensures
            res@ == fried_cluster(old(self)@, cluster@),
            final(self)@ == old(self)@.after_picks(cluster_size(cluster@)),
    {
        proof {
            lemma_can_pick_after(self@, cluster@.trainers.number as nat, cluster_size(cluster@));
            lemma_can_pick_fewer(
                self@,
                cluster@.trainers.number as nat,
                cluster_size(cluster@),
            );
            lemma_after_picks_add(
                self@,
                cluster@.trainers.number as nat,
                cluster@.aggregators.number as nat,
            );
        }
        let mut fried_cluster = fried::Cluster { nodes: Vec::new(), topology: cluster.topology };
        let mut trainer_nodes = self.create_trainer_nodes(cluster);
        let mut aggregator_nodes = self.create_aggregator_nodes(cluster);
        let ghost first = trainer_nodes.deep_view();
        let ghost second = aggregator_nodes.deep_view();
        fried_cluster.nodes.append(&mut trainer_nodes);
        fried_cluster.nodes.append(&mut aggregator_nodes);
        assert(fried_cluster.nodes.deep_view() =~= first + second);
        fried_cluster
    }

    /// Creates the trainer nodes of a cluster.
    pub fn create_trainer_nodes(&mut self, cluster_param: &raw::Cluster) -> (res: Vec<fried::Node>)
        requires
            old(self)@.can_pick(cluster_param@.trainers.number as nat),
        ensures
            res.deep_view() == trainer_nodes(old(self)@, cluster_param@),
            final(self)@ == old(self)@.after_picks(cluster_param@.trainers.number as nat),
    {
        let ghost start = self@;
        let ghost target = trainer_nodes(start, cluster_param@);
        let mut res: Vec<fried::Node> = Vec::new();
        let mut made: u16 = 0;
        while made < cluster_param.trainers.number
            invariant
                made <= cluster_param.trainers.number,
                start == old(self)@,
                start.can_pick(cluster_param@.trainers.number as nat),
                target == trainer_nodes(start, cluster_param@),
                self@ == start.after_picks(made as nat),
                res.deep_view() == target.take(made as int),
            decreases cluster_param.trainers.number - made,
        {
            proof {
                lemma_can_pick_after(start, made as nat, cluster_param@.trainers.number as nat);
            }
            let role = fried::NodeRole::Trainer(
                fried::Trainer {
                    trainer_type: cluster_param.trainers.trainer_type,
                    args: clone_opt_vec(&cluster_param.trainers.args),
                },
            );
            let nm = match &cluster_param.trainers.network_manager {
                Some(nm) => nm.clone(),
                None => NetworkManager { args: None },
            };
            let node = fried::Node { name: self.pick_node_name(), role, network_manager: nm };
            let ghost prev = res.deep_view();
            res.push(node);
            proof {
                assert(res.deep_view() =~= prev.push(node@));
                assert(target.take(made + 1) =~= target.take(made as int).push(target[made as int]));
            }
            made += 1;
        }
        assert(target.take(made as int) =~= target);
        res
    }

    /// Creates the aggregator nodes of a cluster. The first one is marked as
    /// the main aggregator.
    pub fn create_aggregator_nodes(&mut self, cluster_param: &raw::Cluster) -> (res: Vec<
        fried::Node,
    >)
        requires
            old(self)@.can_pick(cluster_param@.aggregators.number as nat),
            aggregators_allowed(cluster_param@),
        ensures
            res.deep_view() == aggregator_nodes(old(self)@, cluster_param@),
            final(self)@ == old(self)@.after_picks(cluster_param@.aggregators.number as nat),
    {
        let ghost start = self@;
        let ghost target = aggregator_nodes(start, cluster_param@);
        let mut res: Vec<fried::Node> = Vec::new();
        let mut main_aggregator = false;
        let mut made: u16 = 0;
        while made < cluster_param.aggregators.number
            invariant
                made <= cluster_param.aggregators.number,
                start == old(self)@,
                start.can_pick(cluster_param@.aggregators.number as nat),
                target == aggregator_nodes(start, cluster_param@),
                main_aggregator == (made > 0),
                self@ == start.after_picks(made as nat),
                res.deep_view() == target.take(made as int),
            decreases cluster_param.aggregators.number - made,
        {
            proof {
                lemma_can_pick_after(start, made as nat, cluster_param@.aggregators.number as nat);
            }
            let mut args: Vec<Arg> = match clone_opt_vec(&cluster_param.aggregators.args) {
                Some(given) => given,
                None => Vec::new(),
            };
            let ghost given = args.deep_view();
            assert(given =~= args_or_empty(cluster_param@.aggregators.args));
            if !main_aggregator {
                args.push(Arg { name: "is_main_aggregator".to_string(), value: "1".to_string() });
                main_aggregator = true;
            }
            args.push(Arg { name: "number_local_epochs".to_string(), value: "3".to_string() });
            match cluster_param.aggregators.aggregator_type {
                AggregatorType::Asynchronous => {
                    args.push(
                        Arg { name: "proportion_threshold".to_string(), value: "0.5".to_string() },
                    );
                },
                _ => {},
            }
            assert(args.deep_view() =~= aggregator_args(cluster_param@.aggregators, made == 0));
            let aggregator = fried::Aggregator {
                aggregator_type: cluster_param.aggregators.aggregator_type,
                args: Some(args),
            };
            let role = fried::NodeRole::Aggregator(aggregator);
            let nm = match &cluster_param.aggregators.network_manager {
                Some(nm) => nm.clone(),
                None => NetworkManager { args: None },
            };
            let aggregator_node = fried::Node {
                name: self.pick_node_name(),
                role,
                network_manager: nm,
            };
            let ghost prev = res.deep_view();
            res.push(aggregator_node);
            proof {
                assert(res.deep_view() =~= prev.push(aggregator_node@));
                assert(target.take(made + 1) =~= target.take(made as int).push(target[made as int]));
            }
            made += 1;
        }
        assert(target.take(made as int) =~= target);
        res
    }

    /// Names the next node: with a name picked from the list if there is
    /// one, else with the node's number.
    pub fn pick_node_name(&mut self) -> (res: String)
        requires
            old(self)@.can_pick(1),
        ensures
            res@ == old(self)@.picked_name(),
            final(self)@ == old(self)@.after_pick(),
    {
        match &mut self.names_list {
            Some(l) => l.pick_name(),
            None => {
                self.count_node += 1;
                numbered_name("Node ", self.count_node)
            },
        }
    }
}

/// A fryer that can name some nodes can name fewer.
pub proof fn lemma_can_pick_fewer(f: FryerView, fewer: nat, n: nat)
    requires
        f.can_pick(n),
        fewer <= n,
    ensures
        f.can_pick(fewer),
{
}

/// A deployed cluster has the shape and the size of the raw cluster, so the
/// hierarchical clusters of a deployable description are not empty.
pub proof fn lemma_hierarchical_not_empty(f: FryerView, clusters: Seq<raw::ClusterView>)
    requires
        forall|i: int|
            0 <= i < clusters.len() && (#[trigger] clusters[i]).topology
                == ClusterTopology::Hierarchical ==> cluster_size(clusters[i]) > 0,
    ensures
        fried_clusters(f, clusters).len() == clusters.len(),
        forall|i: int|
            0 <= i < clusters.len() ==> (#[trigger] fried_clusters(f, clusters)[i]).topology
                == clusters[i].topology && fried_clusters(f, clusters)[i].nodes.len()
                == cluster_size(clusters[i]),
    decreases clusters.len(),
{
    if clusters.len() > 0 {
        lemma_hierarchical_not_empty(f, clusters.drop_last());
    }
}

/// The node after one more peer to bootstrap from has been added to the
/// arguments of its network manager.
pub open spec fn with_bootstrap_pushed(node: NodeView, peer: Seq<char>) -> NodeView {
    NodeView {
        network_manager: NetworkManagerView {
            args: Some(
                args_or_empty(node.network_manager.args).push(
                    ArgView { name: "bootstrap-node"@, value: peer },
                ),
            ),
        },
        ..node
    }
}

/// The node after the first `upto` of the peers have been added, in order,
/// as peers to bootstrap from. A peer that bears the name of the node is
/// left out.
pub open spec fn with_peers_pushed(node: NodeView, peers: Seq<Seq<char>>, upto: int) -> NodeView
    decreases upto,
{
    if upto <= 0 {
        node
    } else {
        let before = with_peers_pushed(node, peers, upto - 1);
        if peers[upto - 1] != node.name {
            with_bootstrap_pushed(before, peers[upto - 1])
        } else {
            before
        }
    }
}

/// The node after the first `upto` of the peers have been added, in order,
/// as peers to bootstrap from, whatever their names.
pub open spec fn with_all_pushed(node: NodeView, peers: Seq<Seq<char>>, upto: int) -> NodeView
    decreases upto,
{
    if upto <= 0 {
        node
    } else {
        with_bootstrap_pushed(with_all_pushed(node, peers, upto - 1), peers[upto - 1])
    }
}

/// The names of the nodes, in order.
pub open spec fn names_of(nodes: Seq<NodeView>) -> Seq<Seq<char>> {
    nodes.map_values(|n: NodeView| n.name)
}

/// A star cluster wired at once: every trainer bootstraps from the one
/// aggregator, which comes last and bootstraps from every trainer.
pub open spec fn star_cluster(f: FryerView, c: raw::ClusterView) -> fried::ClusterView {
    let trainers = trainer_nodes(f, c);
    let aggregator = aggregator_nodes(f.after_picks(c.trainers.number as nat), c)[0];
    fried::ClusterView {
        topology: c.topology,
        nodes: trainers.map_values(|n: NodeView| with_bootstrap_pushed(n, aggregator.name)).push(
            with_all_pushed(aggregator, names_of(trainers), trainers.len() as int),
        ),
    }
}

/// A fully connected cluster wired at once: every node bootstraps from
/// every node of another name.
pub open spec fn fully_connected_cluster(f: FryerView, c: raw::ClusterView) -> fried::ClusterView {
    let nodes = fried_cluster(f, c).nodes;
    fried::ClusterView {
        topology: c.topology,
        nodes: nodes.map_values(
            |n: NodeView| with_peers_pushed(n, names_of(nodes), nodes.len() as int),
        ),
    }
}

impl Fryer {
    /// Adds a peer to bootstrap from to the arguments of the node's network
    /// manager. What was there stays.
    pub fn set_bootstrap_node(node: &mut fried::Node, bootstrap_node_name: &String)
        ensures
            final(node)@ == with_bootstrap_pushed(old(node)@, bootstrap_node_name@),
    {
        if node.network_manager.args.is_none() {
            node.network_manager.args = Some(Vec::new());
        }
        let ghost list = args_or_empty(old(node)@.network_manager.args);
        match &mut node.network_manager.args {
            Some(args) => {
                assert(args.deep_view() =~= list);
                args.push(
                    Arg { name: "bootstrap-node".to_string(), value: bootstrap_node_name.clone() },
                );
                assert(args.deep_view() =~= list.push(
                    ArgView { name: "bootstrap-node"@, value: bootstrap_node_name@ },
                ));
            },
            None => {},
        }
    }

    /// Creates a star cluster and wires it at once. The cluster has exactly
    /// one aggregator.
    pub fn create_star_cluster(&mut self, raw_cluster: &raw::Cluster) -> (res: fried::Cluster)
        requires
            raw_cluster@.aggregators.number == 1,
            old(self)@.can_pick(cluster_size(raw_cluster@)),
        ensures
            res@ == star_cluster(old(self)@, raw_cluster@),
            final(self)@ == old(self)@.after_picks(cluster_size(raw_cluster@)),
    {
        let ghost start = self@;
        proof {
            lemma_can_pick_after(
                self@,
                raw_cluster@.trainers.number as nat,
                cluster_size(raw_cluster@),
            );
            lemma_can_pick_fewer(
                self@,
                raw_cluster@.trainers.number as nat,
                cluster_size(raw_cluster@),
            );
            lemma_after_picks_add(self@, raw_cluster@.trainers.number as nat, 1);
        }
        let mut trainer_nodes_list = self.create_trainer_nodes(raw_cluster);
        let mut aggregators = self.create_aggregator_nodes(raw_cluster);
        let ghost made = aggregators.deep_view();
        proof {
            assert(made.len() == 1);
            assert(aggregators.len() == 1);
            assert(made[0] == aggregators[0]@);
        }
        let mut aggregator_node = match aggregators.pop() {
            Some(node) => node,
            None => {
                assert(false);
                return fried::Cluster { topology: raw_cluster.topology, nodes: aggregators };
            },
        };
        let ghost trainers = trainer_nodes(start, raw_cluster@);
        let ghost aggregator = aggregator_node@;
        proof {
            assert(aggregator == made[0]);
        }
        let mut i: usize = 0;
        while i < trainer_nodes_list.len()
            invariant
                i <= trainer_nodes_list.len(),
                trainers == trainer_nodes(start, raw_cluster@),
                trainer_nodes_list.len() == trainers.len(),
                aggregator_node@ == with_all_pushed(aggregator, names_of(trainers), i as int),
                aggregator_node@.name == aggregator.name,
                forall|k: int|
                    0 <= k < i ==> (#[trigger] trainer_nodes_list[k])@ == with_bootstrap_pushed(
                        trainers[k],
                        aggregator.name,
                    ),
                forall|k: int|
                    i <= k < trainers.len() ==> (#[trigger] trainer_nodes_list[k])@ == trainers[k],
            decreases trainer_nodes_list.len() - i,
        {
            proof {
                assert(trainer_nodes_list[i as int]@ == trainers[i as int]);
                assert(names_of(trainers)[i as int] == trainers[i as int].name);
            }
            Self::set_bootstrap_node(&mut aggregator_node, &trainer_nodes_list[i].name);
            Self::set_bootstrap_node(&mut trainer_nodes_list[i], &aggregator_node.name);
            i += 1;
        }
        let mut fried_cluster = fried::Cluster { nodes: Vec::new(), topology: raw_cluster.topology };
        let ghost wired = trainer_nodes_list.deep_view();
        fried_cluster.nodes.append(&mut trainer_nodes_list);
        fried_cluster.nodes.push(aggregator_node);
        proof {
            assert(fried_cluster.nodes.deep_view() =~= star_cluster(start, raw_cluster@).nodes);
        }
        fried_cluster
    }

    /// Creates a fully connected cluster and wires it at once.
    pub fn create_fully_connected_cluster(&mut self, raw_cluster: &raw::Cluster) -> (res:
        fried::Cluster)
        requires
            old(self)@.can_pick(cluster_size(raw_cluster@)),
            aggregators_allowed(raw_cluster@),
        ensures
            res@ == fully_connected_cluster(old(self)@, raw_cluster@),
            final(self)@ == old(self)@.after_picks(cluster_size(raw_cluster@)),
    {
        let ghost start = self@;
        let mut wired = self.create_cluster(raw_cluster);
        let ghost nodes = wired@.nodes;
        let mut node_names: Vec<String> = Vec::new();
        let mut k: usize = 0;
        while k < wired.nodes.len()
            invariant
                k <= wired.nodes.len(),
                nodes == wired@.nodes,
                node_names.deep_view() == names_of(nodes).take(k as int),
            decreases wired.nodes.len() - k,
        {
            let ghost prev = node_names.deep_view();
            node_names.push(wired.nodes[k].name.clone());
            proof {
                assert(nodes[k as int] == wired.nodes[k as int]@);
                assert(node_names.deep_view() =~= prev.push(names_of(nodes)[k as int]));
                assert(names_of(nodes).take(k + 1) =~= names_of(nodes).take(k as int).push(
                    names_of(nodes)[k as int],
                ));
            }
            k += 1;
        }
        proof {
            assert(names_of(nodes).take(k as int) =~= names_of(nodes));
            assert(node_names.deep_view().len() == nodes.len());
            assert(node_names.len() == nodes.len());
        }
        let mut i: usize = 0;
        while i < wired.nodes.len()
            invariant
                i <= wired.nodes.len(),
                wired.topology == raw_cluster.topology,
                nodes == fried_cluster(start, raw_cluster@).nodes,
                wired.nodes.len() == nodes.len(),
                node_names.deep_view() == names_of(nodes),
                node_names.len() == nodes.len(),
                forall|k: int|
                    0 <= k < i ==> (#[trigger] wired.nodes[k])@ == with_peers_pushed(
                        nodes[k],
                        names_of(nodes),
                        nodes.len() as int,
                    ),
                forall|k: int| i <= k < nodes.len() ==> (#[trigger] wired.nodes[k])@
                    == nodes[k],
            decreases wired.nodes.len() - i,
        {
            let mut j: usize = 0;
            while j < node_names.len()
                invariant
                    j <= node_names.len(),
                    i < wired.nodes.len(),
                    wired.topology == raw_cluster.topology,
                    wired.nodes.len() == nodes.len(),
                    node_names.deep_view() == names_of(nodes),
                    node_names.len() == nodes.len(),
                    wired.nodes[i as int]@ == with_peers_pushed(
                        nodes[i as int],
                        names_of(nodes),
                        j as int,
                    ),
                    wired.nodes[i as int]@.name == nodes[i as int].name,
                    forall|k: int|
                        0 <= k < i ==> (#[trigger] wired.nodes[k])@ == with_peers_pushed(
                            nodes[k],
                            names_of(nodes),
                            nodes.len() as int,
                        ),
                    forall|k: int| i < k < nodes.len() ==> (#[trigger] wired.nodes[k])@
                        == nodes[k],
                decreases node_names.len() - j,
            {
                assert(node_names.deep_view()[j as int] == node_names[j as int]@);
                if !(wired.nodes[i].name == node_names[j]) {
                    Self::set_bootstrap_node(&mut wired.nodes[i], &node_names[j]);
                }
                j += 1;
            }
            i += 1;
        }
        proof {
            assert(wired.nodes.deep_view() =~= fully_connected_cluster(
                start,
                raw_cluster@,
            ).nodes);
        }
        wired
    }
}

} // verus!
