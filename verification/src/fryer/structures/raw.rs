//! The declarative description of the clusters, as the deployment compiler
//! reads it.

use super::common::{
    AggregatorType, Arg, ArgView, ClusterTopology, Constants, ConstantsView, NetworkManager,
    NetworkManagerView, Prop, PropView, TrainerType,
};
use crate::copies::{clone_opt, clone_opt_string, clone_opt_vec, clone_vec};
use crate::random::{choose_position, draw_within};
use rand::rngs::StdRng;
use vstd::prelude::*;

verus! {

/// What a kind of machine can do.
#[derive(Debug)]
pub struct HostProfile {
    pub name: String,
    pub speed: String,
    pub core: Option<String>,
    pub pstate: Option<String>,
    pub props: Vec<Prop>,
}

/// Mathematical value of a [`HostProfile`].
pub struct HostProfileView {
    pub name: Seq<char>,
    pub speed: Seq<char>,
    pub core: Option<Seq<char>>,
    pub pstate: Option<Seq<char>>,
    pub props: Seq<PropView>,
}

impl View for HostProfile {
    type V = HostProfileView;

    open spec fn view(&self) -> HostProfileView {
        HostProfileView {
            name: self.name@,
            speed: self.speed@,
            core: self.core.deep_view(),
            pstate: self.pstate.deep_view(),
            props: self.props.deep_view(),
        }
    }
}

impl DeepView for HostProfile {
    type V = HostProfileView;

    open spec fn deep_view(&self) -> HostProfileView {
        self@
    }
}

impl Clone for HostProfile {
    fn clone(&self) -> (res: Self)
        ensures
            res@ == self@,
    {
        HostProfile {
            name: self.name.clone(),
            speed: self.speed.clone(),
            core: clone_opt_string(&self.core),
            pstate: clone_opt_string(&self.pstate),
            props: clone_vec(&self.props),
        }
    }
}
/// Names a host profile.
#[derive(Debug)]
pub struct HostProfileRef {
    pub name: String,
}

/// Mathematical value of a [`HostProfileRef`].
pub struct HostProfileRefView {
    pub name: Seq<char>,
}

impl View for HostProfileRef {
    type V = HostProfileRefView;

    open spec fn view(&self) -> HostProfileRefView {
        HostProfileRefView {
            name: self.name@,
        }
    }
}

impl DeepView for HostProfileRef {
    type V = HostProfileRefView;

    open spec fn deep_view(&self) -> HostProfileRefView {
        self@
    }
}

impl Clone for HostProfileRef {
    fn clone(&self) -> (res: Self)
        ensures
            res@ == self@,
    {
        HostProfileRef {
            name: self.name.clone(),
        }
    }
}
/// What a kind of link can do.
#[derive(Debug)]
pub struct LinkProfile {
    pub name: String,
    pub bandwidth: String,
    pub latency: String,
    pub sharing_policy: Option<String>,
    pub props: Vec<Prop>,
}

/// Mathematical value of a [`LinkProfile`].
pub struct LinkProfileView {
    pub name: Seq<char>,
    pub bandwidth: Seq<char>,
    pub latency: Seq<char>,
    pub sharing_policy: Option<Seq<char>>,
    pub props: Seq<PropView>,
}

impl View for LinkProfile {
    type V = LinkProfileView;

    open spec fn view(&self) -> LinkProfileView {
        LinkProfileView {
            name: self.name@,
            bandwidth: self.bandwidth@,
            latency: self.latency@,
            sharing_policy: self.sharing_policy.deep_view(),
            props: self.props.deep_view(),
        }
    }
}

impl DeepView for LinkProfile {
    type V = LinkProfileView;

    open spec fn deep_view(&self) -> LinkProfileView {
        self@
    }
}

impl Clone for LinkProfile {
    fn clone(&self) -> (res: Self)
        ensures
            res@ == self@,
    {
        LinkProfile {
            name: self.name.clone(),
            bandwidth: self.bandwidth.clone(),
            latency: self.latency.clone(),
            sharing_policy: clone_opt_string(&self.sharing_policy),
            props: clone_vec(&self.props),
        }
    }
}
/// Names a link profile.
#[derive(Debug)]
pub struct LinkProfileRef {
    pub name: String,
}

/// Mathematical value of a [`LinkProfileRef`].
pub struct LinkProfileRefView {
    pub name: Seq<char>,
}

impl View for LinkProfileRef {
    type V = LinkProfileRefView;

    open spec fn view(&self) -> LinkProfileRefView {
        LinkProfileRefView {
            name: self.name@,
        }
    }
}

impl DeepView for LinkProfileRef {
    type V = LinkProfileRefView;

    open spec fn deep_view(&self) -> LinkProfileRefView {
        self@
    }
}

impl Clone for LinkProfileRef {
    fn clone(&self) -> (res: Self)
        ensures
            res@ == self@,
    {
        LinkProfileRef {
            name: self.name.clone(),
        }
    }
}
/// The host and link profiles that the clusters may refer to.
#[derive(Debug)]
pub struct Profiles {
    pub host_profiles: Vec<HostProfile>,
    pub link_profiles: Vec<LinkProfile>,
}

/// Mathematical value of a [`Profiles`].
pub struct ProfilesView {
    pub host_profiles: Seq<HostProfileView>,
    pub link_profiles: Seq<LinkProfileView>,
}

impl View for Profiles {
    type V = ProfilesView;

    open spec fn view(&self) -> ProfilesView {
        ProfilesView {
            host_profiles: self.host_profiles.deep_view(),
            link_profiles: self.link_profiles.deep_view(),
        }
    }
}

impl DeepView for Profiles {
    type V = ProfilesView;

    open spec fn deep_view(&self) -> ProfilesView {
        self@
    }
}

impl Clone for Profiles {
    fn clone(&self) -> (res: Self)
        ensures
            res@ == self@,
    {
        Profiles {
            host_profiles: clone_vec(&self.host_profiles),
            link_profiles: clone_vec(&self.link_profiles),
        }
    }
}
/// The trainers of a cluster.
#[derive(Debug)]
pub struct Trainers {
    pub number: u16,
    pub trainer_type: TrainerType,
    pub host_profiles: Option<Vec<HostProfileRef>>,
    pub link_profiles: Option<Vec<LinkProfileRef>>,
    pub network_manager: Option<NetworkManager>,
    pub args: Option<Vec<Arg>>,
}

/// Mathematical value of a [`Trainers`].
pub struct TrainersView {
    pub number: u16,
    pub trainer_type: TrainerType,
    pub host_profiles: Option<Seq<HostProfileRefView>>,
    pub link_profiles: Option<Seq<LinkProfileRefView>>,
    pub network_manager: Option<NetworkManagerView>,
    pub args: Option<Seq<ArgView>>,
}

impl View for Trainers {
    type V = TrainersView;

    open spec fn view(&self) -> TrainersView {
        TrainersView {
            number: self.number,
            trainer_type: self.trainer_type,
            host_profiles: self.host_profiles.deep_view(),
            link_profiles: self.link_profiles.deep_view(),
            network_manager: self.network_manager.deep_view(),
            args: self.args.deep_view(),
        }
    }
}

impl DeepView for Trainers {
    type V = TrainersView;

    open spec fn deep_view(&self) -> TrainersView {
        self@
    }
}

impl Clone for Trainers {
    fn clone(&self) -> (res: Self)
        ensures
            res@ == self@,
    {
        Trainers {
            number: self.number,
            trainer_type: self.trainer_type,
            host_profiles: clone_opt_vec(&self.host_profiles),
            link_profiles: clone_opt_vec(&self.link_profiles),
            network_manager: clone_opt(&self.network_manager),
            args: clone_opt_vec(&self.args),
        }
    }
}
/// The aggregators of a cluster.
#[derive(Debug)]
pub struct Aggregators {
    pub number: u16,
    pub aggregator_type: AggregatorType,
    pub host_profiles: Option<Vec<HostProfileRef>>,
    pub link_profiles: Option<Vec<LinkProfileRef>>,
    pub network_manager: Option<NetworkManager>,
    pub args: Option<Vec<Arg>>,
}

/// Mathematical value of an [`Aggregators`].
pub struct AggregatorsView {
    pub number: u16,
    pub aggregator_type: AggregatorType,
    pub host_profiles: Option<Seq<HostProfileRefView>>,
    pub link_profiles: Option<Seq<LinkProfileRefView>>,
    pub network_manager: Option<NetworkManagerView>,
    pub args: Option<Seq<ArgView>>,
}

impl View for Aggregators {
    type V = AggregatorsView;

    open spec fn view(&self) -> AggregatorsView {
        AggregatorsView {
            number: self.number,
            aggregator_type: self.aggregator_type,
            host_profiles: self.host_profiles.deep_view(),
            link_profiles: self.link_profiles.deep_view(),
            network_manager: self.network_manager.deep_view(),
            args: self.args.deep_view(),
        }
    }
}

impl DeepView for Aggregators {
    type V = AggregatorsView;

    open spec fn deep_view(&self) -> AggregatorsView {
        self@
    }
}

impl Clone for Aggregators {
    fn clone(&self) -> (res: Self)
        ensures
            res@ == self@,
    {
        Aggregators {
            number: self.number,
            aggregator_type: self.aggregator_type,
            host_profiles: clone_opt_vec(&self.host_profiles),
            link_profiles: clone_opt_vec(&self.link_profiles),
            network_manager: clone_opt(&self.network_manager),
            args: clone_opt_vec(&self.args),
        }
    }
}
/// One cluster: its shape and who is in it.
#[derive(Debug)]
pub struct Cluster {
    pub topology: ClusterTopology,
    pub trainers: Trainers,
    pub aggregators: Aggregators,
}

/// Mathematical value of a [`Cluster`].
pub struct ClusterView {
    pub topology: ClusterTopology,
    pub trainers: TrainersView,
    pub aggregators: AggregatorsView,
}

impl View for Cluster {
    type V = ClusterView;

    open spec fn view(&self) -> ClusterView {
        ClusterView {
            topology: self.topology,
            trainers: self.trainers@,
            aggregators: self.aggregators@,
        }
    }
}

impl DeepView for Cluster {
    type V = ClusterView;

    open spec fn deep_view(&self) -> ClusterView {
        self@
    }
}

impl Clone for Cluster {
    fn clone(&self) -> (res: Self)
        ensures
            res@ == self@,
    {
        Cluster {
            topology: self.topology,
            trainers: self.trainers.clone(),
            aggregators: self.aggregators.clone(),
        }
    }
}
/// A number of machines that share a host profile and a link profile.
#[derive(Debug)]
pub struct NodeProfile {
    pub number: u16,
    pub host_profile: HostProfileRef,
    pub link_profile: LinkProfileRef,
}

/// Mathematical value of a [`NodeProfile`].
pub struct NodeProfileView {
    pub number: u16,
    pub host_profile: HostProfileRefView,
    pub link_profile: LinkProfileRefView,
}

impl View for NodeProfile {
    type V = NodeProfileView;

    open spec fn view(&self) -> NodeProfileView {
        NodeProfileView {
            number: self.number,
            host_profile: self.host_profile@,
            link_profile: self.link_profile@,
        }
    }
}

impl DeepView for NodeProfile {
    type V = NodeProfileView;

    open spec fn deep_view(&self) -> NodeProfileView {
        self@
    }
}

impl Clone for NodeProfile {
    fn clone(&self) -> (res: Self)
        ensures
            res@ == self@,
    {
        NodeProfile {
            number: self.number,
            host_profile: self.host_profile.clone(),
            link_profile: self.link_profile.clone(),
        }
    }
}
/// The machines of the platform, given apart from the clusters.
#[derive(Debug)]
pub struct PlatformSpecs {
    pub node_profiles: Vec<NodeProfile>,
}

/// Mathematical value of a [`PlatformSpecs`].
pub struct PlatformSpecsView {
    pub node_profiles: Seq<NodeProfileView>,
}

impl View for PlatformSpecs {
    type V = PlatformSpecsView;

    open spec fn view(&self) -> PlatformSpecsView {
        PlatformSpecsView {
            node_profiles: self.node_profiles.deep_view(),
        }
    }
}

impl DeepView for PlatformSpecs {
    type V = PlatformSpecsView;

    open spec fn deep_view(&self) -> PlatformSpecsView {
        self@
    }
}

impl Clone for PlatformSpecs {
    fn clone(&self) -> (res: Self)
        ensures
            res@ == self@,
    {
        PlatformSpecs {
            node_profiles: clone_vec(&self.node_profiles),
        }
    }
}
/// The whole raw description.
#[derive(Debug)]
pub struct RawFalafels {
    pub constants: Constants,
    pub profiles: Profiles,
    pub clusters: Vec<Cluster>,
    pub platform_specs: Option<PlatformSpecs>,
}

/// Mathematical value of a [`RawFalafels`].
pub struct RawFalafelsView {
    pub constants: ConstantsView,
    pub profiles: ProfilesView,
    pub clusters: Seq<ClusterView>,
    pub platform_specs: Option<PlatformSpecsView>,
}

impl View for RawFalafels {
    type V = RawFalafelsView;

    open spec fn view(&self) -> RawFalafelsView {
        RawFalafelsView {
            constants: self.constants@,
            profiles: self.profiles@,
            clusters: self.clusters.deep_view(),
            platform_specs: self.platform_specs.deep_view(),
        }
    }
}

impl DeepView for RawFalafels {
    type V = RawFalafelsView;

    open spec fn deep_view(&self) -> RawFalafelsView {
        self@
    }
}

impl Clone for RawFalafels {
    fn clone(&self) -> (res: Self)
        ensures
            res@ == self@,
    {
        RawFalafels {
            constants: self.constants.clone(),
            profiles: self.profiles.clone(),
            clusters: clone_vec(&self.clusters),
            platform_specs: clone_opt(&self.platform_specs),
        }
    }
}
/// What all profiles have in common: a name by which they are referred to.
pub trait ProfileTrait: Clone {
    /// The name of the profile.
    spec fn pname(&self) -> Seq<char>;

    fn get_pname(&self) -> (res: &String)
        ensures
            res@ == self.pname(),
    ;
}

impl ProfileTrait for HostProfile {
    open spec fn pname(&self) -> Seq<char> {
        self.name@
    }

    fn get_pname(&self) -> (res: &String) {
        &self.name
    }
}

impl ProfileTrait for LinkProfile {
    open spec fn pname(&self) -> Seq<char> {
        self.name@
    }

    fn get_pname(&self) -> (res: &String) {
        &self.name
    }
}

/// What all references to profiles have in common: the name of the profile
/// they refer to.
pub trait ProfileRefTrait {
    /// The name of the profile referred to.
    spec fn rname(&self) -> Seq<char>;

    fn get_rname(&self) -> (res: &String)
        ensures
            res@ == self.rname(),
    ;
}

impl ProfileRefTrait for HostProfileRef {
    open spec fn rname(&self) -> Seq<char> {
        self.name@
    }

    fn get_rname(&self) -> (res: &String) {
        &self.name
    }
}

impl ProfileRefTrait for LinkProfileRef {
    open spec fn rname(&self) -> Seq<char> {
        self.name@
    }

    fn get_rname(&self) -> (res: &String) {
        &self.name
    }
}

/// Smallest number of machines that a platform is varied down to.
pub const MIN_TOTAL_NUMBER_NODES: i16 = 5;

/// Largest total for which a variation can be computed in 16 bits.
pub const MAX_VARIED_TOTAL: u16 = 32765;

/// Total number of machines of the node profiles.
pub open spec fn total_number(node_profiles: Seq<NodeProfileView>) -> nat
    decreases node_profiles.len(),
{
    if node_profiles.len() == 0 {
        0
    } else {
        total_number(node_profiles.drop_last()) + node_profiles.last().number as nat
    }
}

/// The machines of the first profiles and those of the next one make up the
/// machines of one profile more, and never exceed the whole.
pub proof fn lemma_total_number_take(node_profiles: Seq<NodeProfileView>, i: int)
    requires
        0 <= i < node_profiles.len(),
    ensures
        total_number(node_profiles.take(i + 1)) == total_number(node_profiles.take(i))
            + node_profiles[i].number,
        total_number(node_profiles.take(i + 1)) <= total_number(node_profiles),
    decreases node_profiles.len() - i,
{
    assert(node_profiles.take(i + 1).drop_last() =~= node_profiles.take(i));
    if i + 1 < node_profiles.len() {
        lemma_total_number_take(node_profiles, i + 1);
    } else {
        assert(node_profiles.take(i + 1) =~= node_profiles);
    }
}

/// The variation that is applied when `drawn` was drawn: a variation that
/// would bring the total under the minimum, or the profile under zero, is
/// applied upwards instead.
pub open spec fn settled_variation(total: nat, number: u16, drawn: i16) -> i16 {
    if total + drawn < MIN_TOTAL_NUMBER_NODES || number + drawn < 0 {
        if drawn < 0 {
            (-drawn) as i16
        } else {
            drawn
        }
    } else {
        drawn
    }
}

impl PlatformSpecsView {
    /// The specs after the profile at `index` has been varied, when `drawn`
    /// was drawn.
    pub open spec fn varied(self, index: int, drawn: i16) -> PlatformSpecsView {
        let profile = self.node_profiles[index];
        let applied = settled_variation(total_number(self.node_profiles), profile.number, drawn);
        PlatformSpecsView {
            node_profiles: self.node_profiles.update(
                index,
                NodeProfileView { number: (profile.number + applied) as u16, ..profile },
            ),
        }
    }
}

impl PlatformSpecs {
    /// Counts the machines over all node profiles.
    pub fn get_total_number_nodes(&self) -> (res: u16)
        requires
            total_number(self@.node_profiles) <= u16::MAX,
        ensures
            res == total_number(self@.node_profiles),
    {
        let ghost all = self@.node_profiles;
        let mut res: u16 = 0;
        let mut i: usize = 0;
        assert(all.take(0) =~= Seq::empty());
        while i < self.node_profiles.len()
            invariant
                i <= self.node_profiles.len(),
                all == self@.node_profiles,
                total_number(all) <= u16::MAX,
                res == total_number(all.take(i as int)),
            decreases self.node_profiles.len() - i,
        {
            proof {
                lemma_total_number_take(all, i as int);
                assert(all[i as int] == self.node_profiles[i as int]@);
            }
            res = res + self.node_profiles[i].number;
            i += 1;
        }
        assert(all.take(i as int) =~= all);
        res
    }

    /// Varies the number of machines of the profile at `index` by the drawn
    /// variation, and returns the variation that was applied.
    pub fn vary_profile(&mut self, index: usize, drawn: i16) -> (res: i16)
        requires
            index < old(self)@.node_profiles.len(),
            -2 <= drawn <= 2,
            total_number(old(self)@.node_profiles) <= MAX_VARIED_TOTAL,
        ensures
            final(self)@ == old(self)@.varied(index as int, drawn),
            res == settled_variation(
                total_number(old(self)@.node_profiles),
                old(self)@.node_profiles[index as int].number,
                drawn,
            ),
    {
        let ghost all = self@.node_profiles;
        let total_number = self.get_total_number_nodes();
        proof {
            lemma_number_below_total(all, index as int);
            assert(all[index as int] == self.node_profiles[index as int]@);
        }
        let number = self.node_profiles[index].number;
        let mut rand_nb = drawn;
        if total_number as i16 + rand_nb < MIN_TOTAL_NUMBER_NODES || number as i16 + rand_nb < 0 {
            if rand_nb < 0 {
                rand_nb = -rand_nb;
            }
        }
        if rand_nb < 0 {
            self.node_profiles[index].number = number - ((-rand_nb) as u16);
        } else {
            self.node_profiles[index].number = number + rand_nb as u16;
        }
        assert(self.node_profiles.deep_view() =~= old(self)@.varied(
            index as int,
            drawn,
        ).node_profiles);
        rand_nb
    }

    /// Varies the number of machines of a profile drawn at random, by a
    /// variation drawn between -2 and 2, and returns how many machines have
    /// been added or removed.
    pub fn vary_random_profiles(&mut self, rng: &mut StdRng) -> (res: i16)
        requires
            old(self)@.node_profiles.len() > 0,
            total_number(old(self)@.node_profiles) <= MAX_VARIED_TOTAL,
        ensures
            exists|index: int, drawn: i16|
                {
                    &&& 0 <= index < old(self)@.node_profiles.len()
                    &&& -2 <= drawn <= 2
                    &&& final(self)@ == #[trigger] old(self)@.varied(index, drawn)
                    &&& res == settled_variation(
                        total_number(old(self)@.node_profiles),
                        old(self)@.node_profiles[index].number,
                        drawn,
                    )
                },
    {
        let drawn = draw_within(rng, -2, 2);
        match choose_position(rng, self.node_profiles.len()) {
            Some(index) => {
                let res = self.vary_profile(index, drawn);
                assert(self@ == old(self)@.varied(index as int, drawn));
                res
            },
            None => {
                assert(false);
                drawn
            },
        }
    }
}

/// No profile has more machines than all profiles together.
proof fn lemma_number_below_total(node_profiles: Seq<NodeProfileView>, i: int)
    requires
        0 <= i < node_profiles.len(),
    ensures
        node_profiles[i].number <= total_number(node_profiles),
{
    lemma_total_number_take(node_profiles, i);
}

} // verus!
