//! Building the network platform: one star-shaped zone in which every node
//! has a host of its own and a link of its own to the router.
//!
//! However many clusters there are and whatever their shape, the physical
//! network is this single star; the shape of the clusters is a matter of the
//! protocol that runs on top of it.

use crate::fryer::profiles_handler::{next_in_cycle, profile_named, ProfileList, ProfilesCycler};
use crate::fryer::structures::common::{Prop, PropView};
use crate::fryer::structures::fried;
use crate::fryer::structures::fried::{NodeRoleView, NodeView};
use crate::fryer::structures::platform::{
    Host, HostView, Link, LinkContainer, LinkContainerView, LinkView, Platform, PlatformView,
    Route, RouteView, Router, RouterView, Zone, ZoneView,
};
use crate::fryer::structures::raw;
use crate::fryer::structures::raw::{
    total_number, HostProfile, HostProfileView, LinkProfile, LinkProfileView, NodeProfileView,
    ProfilesView,
};
use crate::copies::{clone_opt_string, clone_vec};
use crate::search::{first_where, lemma_first_where_found, lemma_first_where_sound};
use crate::text::{decimal, numbered, numbered_name, u32_to_string};
use vstd::prelude::*;

verus! {

/// A raw description together with the deployment that was made of it.
pub struct RawAndFried<'a> {
    pub rf: &'a raw::RawFalafels,
    pub ff: &'a fried::FriedFalafels,
}

/// The machines of a platform together with the profiles they refer to.
pub struct SpecsAndProfiles<'a> {
    pub specs: &'a raw::PlatformSpecs,
    pub profiles: &'a raw::Profiles,
}

impl<'a> RawAndFried<'a> {
    pub fn get_rf(&self) -> (res: &'a raw::RawFalafels)
        ensures
            res == self.rf,
    {
        self.rf
    }

    pub fn get_ff(&self) -> (res: &'a fried::FriedFalafels)
        ensures
            res == self.ff,
    {
        self.ff
    }
}

/// One machine of the platform: the name of the node it runs and the names
/// of its host profile and of the profile of its link.
pub struct Machine {
    pub name: Seq<char>,
    pub host_profile: Seq<char>,
    pub link_profile: Seq<char>,
}

/// The condition "is called `name`" on host profiles.
pub open spec fn host_called(name: Seq<char>) -> spec_fn(HostProfileView) -> bool {
    |p: HostProfileView| p.name == name
}

/// The condition "is called `name`" on link profiles.
pub open spec fn link_called(name: Seq<char>) -> spec_fn(LinkProfileView) -> bool {
    |p: LinkProfileView| p.name == name
}

/// Whether both profiles of the machine exist.
pub open spec fn machine_known(m: Machine, profiles: ProfilesView) -> bool {
    &&& first_where(profiles.host_profiles, host_called(m.host_profile)) is Some
    &&& first_where(profiles.link_profiles, link_called(m.link_profile)) is Some
}

/// The first host profile called `name`.
pub open spec fn host_profile_called(profiles: ProfilesView, name: Seq<char>) -> HostProfileView {
    profiles.host_profiles[first_where(profiles.host_profiles, host_called(name)).unwrap()]
}

/// The first link profile called `name`.
pub open spec fn link_profile_called(profiles: ProfilesView, name: Seq<char>) -> LinkProfileView {
    profiles.link_profiles[first_where(profiles.link_profiles, link_called(name)).unwrap()]
}

/// The name of the only zone.
pub open spec fn zone_name() -> Seq<char> {
    "zone1"@
}

/// The name of the only router.
pub open spec fn router_name() -> Seq<char> {
    "zone1-router"@
}

/// A router without coordinates.
pub open spec fn router_view(name: Seq<char>) -> RouterView {
    RouterView { id: name, coordinates: None }
}

/// A host of the given profile.
pub open spec fn host_view(name: Seq<char>, profile: HostProfileView) -> HostView {
    HostView {
        id: name,
        speed: profile.speed,
        core: profile.core,
        pstate: profile.pstate,
        props: profile.props,
    }
}

/// The link that a host uses to reach itself.
pub open spec fn loopback_link_view() -> LinkView {
    LinkView {
        id: "loopback"@,
        bandwidth: "498MBps"@,
        latency: "15us"@,
        sharing_policy: Some("FATPIPE"@),
        props: seq![
            PropView { id: "wattage_range"@, value: "100.0:200.0"@ },
            PropView { id: "wattage_off"@, value: "10"@ },
        ],
    }
}

/// A link of the given profile, identified by its number.
pub open spec fn link_view(number: nat, profile: LinkProfileView) -> LinkView {
    LinkView {
        id: decimal(number),
        bandwidth: profile.bandwidth,
        latency: profile.latency,
        sharing_policy: profile.sharing_policy,
        props: profile.props,
    }
}

/// A route over one link.
pub open spec fn route_view(src: Seq<char>, dst: Seq<char>, link_id: Seq<char>) -> RouteView {
    RouteView { src, dst, link_ctn: LinkContainerView { id: link_id } }
}

/// The hosts of the machines, in order.
pub open spec fn hosts_of(machines: Seq<Machine>, profiles: ProfilesView) -> Seq<HostView> {
    Seq::new(
        machines.len(),
        |k: int| host_view(machines[k].name, host_profile_called(profiles, machines[k].host_profile)),
    )
}

/// The links of the machines, in order. They are numbered on from `made`,
/// the number of links made before.
pub open spec fn links_of(machines: Seq<Machine>, profiles: ProfilesView, made: nat) -> Seq<
    LinkView,
> {
    Seq::new(
        machines.len(),
        |k: int|
            link_view((made + k + 1) as nat, link_profile_called(profiles, machines[k].link_profile)),
    )
}

/// The routes of the machines, in order: from each node to the router, over
/// the node's own link.
pub open spec fn routes_of(machines: Seq<Machine>, router: Seq<char>, made: nat) -> Seq<
    RouteView,
> {
    Seq::new(
        machines.len(),
        |k: int| route_view(machines[k].name, router, decimal((made + k + 1) as nat)),
    )
}

/// The star platform of the machines.
pub open spec fn star_platform(machines: Seq<Machine>, profiles: ProfilesView, made: nat) -> PlatformView {
    PlatformView {
        version: "4.1"@,
        zone: ZoneView {
            id: zone_name(),
            routing: "Floyd"@,
            routers: seq![router_view(router_name())],
            hosts: hosts_of(machines, profiles),
            links: links_of(machines, profiles, made),
            routes: routes_of(machines, router_name(), made),
        },
    }
}

/// The machines that the node profiles describe: as many as each profile
/// says, profile after profile, called "Node 1", "Node 2" and so on.
pub open spec fn specs_machines(node_profiles: Seq<NodeProfileView>) -> Seq<Machine>
    decreases node_profiles.len(),
{
    if node_profiles.len() == 0 {
        Seq::empty()
    } else {
        let last = node_profiles.last();
        let before = specs_machines(node_profiles.drop_last());
        before + Seq::new(
            last.number as nat,
            |k: int|
                Machine {
                    name: numbered("Node "@, (before.len() + k + 1) as nat),
                    host_profile: last.host_profile.name,
                    link_profile: last.link_profile.name,
                },
        )
    }
}

/// Whether the profiles that the node profiles refer to exist.
pub open spec fn specs_known(node_profiles: Seq<NodeProfileView>, profiles: ProfilesView) -> bool {
    forall|i: int|
        0 <= i < node_profiles.len() ==> machine_known(
            Machine {
                name: Seq::empty(),
                host_profile: (#[trigger] node_profiles[i]).host_profile.name,
                link_profile: node_profiles[i].link_profile.name,
            },
            profiles,
        )
}

/// Number of nodes before position `upto` that are trainers, or that are
/// aggregators, as `trainer` says.
pub open spec fn count_kind(nodes: Seq<NodeView>, upto: int, trainer: bool) -> nat
    decreases upto,
{
    if upto <= 0 {
        0
    } else {
        count_kind(nodes, upto - 1, trainer) + if (nodes[upto - 1].role is Trainer) == trainer {
            1nat
        } else {
            0nat
        }
    }
}

/// Number of nodes before position `k` that play the same kind of role as
/// the node at `k`.
pub open spec fn rank(nodes: Seq<NodeView>, k: int) -> nat {
    count_kind(nodes, k, nodes[k].role is Trainer)
}

/// The name that a cycle of references hands out at its `turn`-th turn.
pub open spec fn cycled(refs: Seq<Seq<char>>, turn: nat) -> Seq<char> {
    refs[(turn as int) % (refs.len() as int)]
}

/// The names of the host profile references.
pub open spec fn host_ref_names(refs: Option<Seq<raw::HostProfileRefView>>) -> Seq<Seq<char>> {
    match refs {
        Some(list) => list.map_values(|r: raw::HostProfileRefView| r.name),
        None => Seq::empty(),
    }
}

/// The names of the link profile references.
pub open spec fn link_ref_names(refs: Option<Seq<raw::LinkProfileRefView>>) -> Seq<Seq<char>> {
    match refs {
        Some(list) => list.map_values(|r: raw::LinkProfileRefView| r.name),
        None => Seq::empty(),
    }
}

/// The machine of the node at position `k` of a deployed cluster: trainers
/// take the profiles that the raw cluster gives to trainers, in turn, and
/// aggregators those that it gives to aggregators.
pub open spec fn deployed_machine(raw: raw::ClusterView, nodes: Seq<NodeView>, k: int) -> Machine {
    let turn = rank(nodes, k);
    match nodes[k].role {
        NodeRoleView::Trainer(_) => Machine {
            name: nodes[k].name,
            host_profile: cycled(host_ref_names(raw.trainers.host_profiles), turn),
            link_profile: cycled(link_ref_names(raw.trainers.link_profiles), turn),
        },
        NodeRoleView::Aggregator(_) => Machine {
            name: nodes[k].name,
            host_profile: cycled(host_ref_names(raw.aggregators.host_profiles), turn),
            link_profile: cycled(link_ref_names(raw.aggregators.link_profiles), turn),
        },
    }
}

/// The machines of one deployed cluster, node after node.
pub open spec fn cluster_machines(raw: raw::ClusterView, fried: fried::ClusterView) -> Seq<Machine> {
    Seq::new(fried.nodes.len(), |k: int| deployed_machine(raw, fried.nodes, k))
}

/// Whether a deployed cluster can be given machines: the raw cluster names
/// profiles for trainers and for aggregators, every node finds a reference
/// for its role, and the profiles referred to exist.
pub open spec fn cluster_servable(
    raw: raw::ClusterView,
    fried: fried::ClusterView,
    profiles: ProfilesView,
) -> bool {
    &&& raw.trainers.host_profiles is Some
    &&& raw.trainers.link_profiles is Some
    &&& raw.aggregators.host_profiles is Some
    &&& raw.aggregators.link_profiles is Some
    &&& forall|k: int|
        0 <= k < fried.nodes.len() ==> match (#[trigger] fried.nodes[k]).role {
            NodeRoleView::Trainer(_) => raw.trainers.host_profiles.unwrap().len() > 0
                && raw.trainers.link_profiles.unwrap().len() > 0,
            NodeRoleView::Aggregator(_) => raw.aggregators.host_profiles.unwrap().len() > 0
                && raw.aggregators.link_profiles.unwrap().len() > 0,
        }
    &&& forall|k: int|
        0 <= k < fried.nodes.len() ==> machine_known(
            #[trigger] deployed_machine(raw, fried.nodes, k),
            profiles,
        )
}

/// The machines of the deployed clusters, cluster after cluster. A raw
/// cluster and a deployed cluster belong together when they stand at the
/// same position; what has no counterpart is left out.
pub open spec fn deployed_machines(
    raw_clusters: Seq<raw::ClusterView>,
    fried_clusters: Seq<fried::ClusterView>,
    upto: int,
) -> Seq<Machine>
    decreases upto,
{
    if upto <= 0 {
        Seq::empty()
    } else {
        deployed_machines(raw_clusters, fried_clusters, upto - 1) + cluster_machines(
            raw_clusters[upto - 1],
            fried_clusters[upto - 1],
        )
    }
}

/// Number of clusters that have a counterpart.
pub open spec fn paired(raw_clusters: Seq<raw::ClusterView>, fried_clusters: Seq<fried::ClusterView>) -> int {
    if raw_clusters.len() <= fried_clusters.len() {
        raw_clusters.len() as int
    } else {
        fried_clusters.len() as int
    }
}

/// Builds platforms, and numbers the links it makes.
pub struct Platformer<T> {
    /// What the platform is built from.
    pub base: T,
    /// Number of links made so far.
    pub link_count: u32,
}

impl<T> Platformer<T> {
    /// Number of links made so far.
    pub open spec fn links_made(&self) -> nat {
        self.link_count as nat
    }

    pub fn new(input: T) -> (res: Platformer<T>)
        ensures
            res.base == input,
            res.links_made() == 0,
    {
        Platformer::<T> { base: input, link_count: 0 }
    }

    pub fn create_router(name: String) -> (res: Router)
        ensures
            res@ == router_view(name@),
    {
        Router { id: name, coordinates: None }
    }

    pub fn create_host(name: String, profile: &raw::HostProfile) -> (res: Host)
        ensures
            res@ == host_view(name@, profile@),
    {
        Host {
            id: name,
            speed: profile.speed.clone(),
            core: clone_opt_string(&profile.core),
            pstate: clone_opt_string(&profile.pstate),
            props: clone_vec(&profile.props),
        }
    }

    /// The loopback link. It has a name of its own and does not count among
    /// the numbered links: one such link serves every host.
    pub fn create_loopback_link() -> (res: Link)
        ensures
            res@ == loopback_link_view(),
    {
        let prop_watt_range = Prop {
            id: "wattage_range".to_string(),
            value: "100.0:200.0".to_string(),
        };
        let prop_watt_off = Prop { id: "wattage_off".to_string(), value: "10".to_string() };
        let mut props: Vec<Prop> = Vec::new();
        props.push(prop_watt_range);
        props.push(prop_watt_off);
        let res = Link {
            id: "loopback".to_string(),
            bandwidth: "498MBps".to_string(),
            latency: "15us".to_string(),
            sharing_policy: Some("FATPIPE".to_string()),
            props,
        };
        assert(res@.props =~= loopback_link_view().props);
        res
    }

    /// Makes the next numbered link.
    pub fn create_link(&mut self, profile: &raw::LinkProfile) -> (res: Link)
        requires
            old(self).links_made() < u32::MAX,
        ensures
            final(self).links_made() == old(self).links_made() + 1,
            final(self).base == old(self).base,
            res@ == link_view(final(self).links_made(), profile@),
    {
        self.link_count += 1;
        let link_id = self.link_count;
        Link {
            id: u32_to_string(link_id),
            bandwidth: profile.bandwidth.clone(),
            latency: profile.latency.clone(),
            sharing_policy: clone_opt_string(&profile.sharing_policy),
            props: clone_vec(&profile.props),
        }
    }

    pub fn create_route(src: String, dst: String, link_id: String) -> (res: Route)
        ensures
            res@ == route_view(src@, dst@, link_id@),
    {
        Route { src, dst, link_ctn: LinkContainer { id: link_id } }
    }

    /// Puts hosts, links and routes into the star-shaped zone.
    fn assemble(hosts: Vec<Host>, links: Vec<Link>, routes: Vec<Route>) -> (res: Platform)
        ensures
            res@ == (PlatformView {
                version: "4.1"@,
                zone: ZoneView {
                    id: zone_name(),
                    routing: "Floyd"@,
                    routers: seq![router_view(router_name())],
                    hosts: hosts.deep_view(),
                    links: links.deep_view(),
                    routes: routes.deep_view(),
                },
            }),
    {
        let mut routers: Vec<Router> = Vec::new();
        routers.push(Self::create_router("zone1-router".to_string()));
        assert(routers.deep_view() =~= seq![router_view(router_name())]);
        let zone = Zone {
            id: "zone1".to_string(),
            routing: "Floyd".to_string(),
            routers,
            hosts,
            links,
            routes,
        };
        Platform { version: "4.1".to_string(), zone }
    }
}

/// Looking a host profile up by name finds in the list what it finds among
/// the values of the list.
pub proof fn lemma_host_lookup(list: Seq<HostProfile>, views: Seq<HostProfileView>, name: Seq<char>)
    requires
        views.len() == list.len(),
        forall|i: int| 0 <= i < list.len() ==> views[i] == (#[trigger] list[i])@,
    ensures
        first_where(views, host_called(name)) == first_where(
            list,
            profile_named::<HostProfile>(name),
        ),
{
    lemma_first_where_sound(list, profile_named::<HostProfile>(name));
    match first_where(list, profile_named::<HostProfile>(name)) {
        Some(i) => {
            assert forall|k: int| 0 <= k < i implies !host_called(name)(#[trigger] views[k]) by {
                assert(!profile_named::<HostProfile>(name)(list[k]));
            }
            lemma_first_where_found(views, host_called(name), i);
        },
        None => {
            assert forall|k: int| 0 <= k < views.len() implies !host_called(name)(
                #[trigger] views[k],
            ) by {
                assert(!profile_named::<HostProfile>(name)(list[k]));
            }
            crate::search::lemma_first_where_absent(views, host_called(name));
        },
    }
}

/// Looking a link profile up by name finds in the list what it finds among
/// the values of the list.
pub proof fn lemma_link_lookup(list: Seq<LinkProfile>, views: Seq<LinkProfileView>, name: Seq<char>)
    requires
        views.len() == list.len(),
        forall|i: int| 0 <= i < list.len() ==> views[i] == (#[trigger] list[i])@,
    ensures
        first_where(views, link_called(name)) == first_where(
            list,
            profile_named::<LinkProfile>(name),
        ),
{
    lemma_first_where_sound(list, profile_named::<LinkProfile>(name));
    match first_where(list, profile_named::<LinkProfile>(name)) {
        Some(i) => {
            assert forall|k: int| 0 <= k < i implies !link_called(name)(#[trigger] views[k]) by {
                assert(!profile_named::<LinkProfile>(name)(list[k]));
            }
            lemma_first_where_found(views, link_called(name), i);
        },
        None => {
            assert forall|k: int| 0 <= k < views.len() implies !link_called(name)(
                #[trigger] views[k],
            ) by {
                assert(!profile_named::<LinkProfile>(name)(list[k]));
            }
            crate::search::lemma_first_where_absent(views, link_called(name));
        },
    }
}

/// The machines of the first node profiles and those of the next one make up
/// the machines of one profile more; there are as many as the profiles say.
pub proof fn lemma_specs_machines_take(node_profiles: Seq<NodeProfileView>, i: int)
    requires
        0 <= i <= node_profiles.len(),
    ensures
        specs_machines(node_profiles.take(i)).len() == total_number(node_profiles.take(i)),
        i < node_profiles.len() ==> specs_machines(node_profiles.take(i + 1)) == specs_machines(
            node_profiles.take(i),
        ) + Seq::new(
            node_profiles[i].number as nat,
            |k: int|
                Machine {
                    name: numbered(
                        "Node "@,
                        (specs_machines(node_profiles.take(i)).len() + k + 1) as nat,
                    ),
                    host_profile: node_profiles[i].host_profile.name,
                    link_profile: node_profiles[i].link_profile.name,
                },
        ),
    decreases i,
{
    if i > 0 {
        lemma_specs_machines_take(node_profiles, i - 1);
        assert(node_profiles.take(i).drop_last() =~= node_profiles.take(i - 1));
    }
    if i < node_profiles.len() {
        assert(node_profiles.take(i + 1).drop_last() =~= node_profiles.take(i));
    }
}

impl<'a> Platformer<SpecsAndProfiles<'a>> {
    /// Creates the star platform of the machines that the node profiles
    /// describe. The links are numbered on from those made before.
    pub fn create_star_topology(&mut self) -> (res: Platform)
        requires
            specs_known(old(self).base.specs@.node_profiles, old(self).base.profiles@),
            old(self).links_made() + total_number(old(self).base.specs@.node_profiles)
                <= u32::MAX,
        ensures
            res@ == star_platform(
                specs_machines(old(self).base.specs@.node_profiles),
                old(self).base.profiles@,
                old(self).links_made(),
            ),
            final(self).links_made() == old(self).links_made() + total_number(
                old(self).base.specs@.node_profiles,
            ),
            final(self).base == old(self).base,
    {
        let specs: &'a raw::PlatformSpecs = self.base.specs;
        let all_profiles: &'a raw::Profiles = self.base.profiles;
        let ghost node_profiles = specs@.node_profiles;
        let ghost profiles = all_profiles@;
        let ghost made = self.links_made();
        let ghost machines = specs_machines(node_profiles);
        let mut hosts: Vec<Host> = Vec::new();
        let mut links: Vec<Link> = Vec::new();
        let mut routes: Vec<Route> = Vec::new();
        let host_profiles_list = ProfileList { list: &all_profiles.host_profiles };
        let link_profiles_list = ProfileList { list: &all_profiles.link_profiles };
        let mut node_index: u32 = 0;
        let mut i: usize = 0;
        proof {
            assert(node_profiles.take(0) =~= Seq::empty());
            lemma_specs_machines_take(node_profiles, 0);
        }
        while i < specs.node_profiles.len()
            invariant
                i <= specs.node_profiles.len(),
                node_profiles == specs@.node_profiles,
                profiles == all_profiles@,
                made == old(self).links_made(),
                self.base == old(self).base,
                host_profiles_list.list == &all_profiles.host_profiles,
                link_profiles_list.list == &all_profiles.link_profiles,
                specs_known(node_profiles, profiles),
                made + total_number(node_profiles) <= u32::MAX,
                machines == specs_machines(node_profiles),
                node_index == specs_machines(node_profiles.take(i as int)).len(),
                self.links_made() == made + specs_machines(node_profiles.take(i as int)).len(),
                specs_machines(node_profiles.take(i as int)).len() == total_number(
                    node_profiles.take(i as int),
                ),
                hosts.deep_view() == hosts_of(specs_machines(node_profiles.take(i as int)), profiles),
                links.deep_view() == links_of(
                    specs_machines(node_profiles.take(i as int)),
                    profiles,
                    made,
                ),
                routes.deep_view() == routes_of(
                    specs_machines(node_profiles.take(i as int)),
                    router_name(),
                    made,
                ),
            decreases specs.node_profiles.len() - i,
        {
            let node = &specs.node_profiles[i];
            let ghost done = specs_machines(node_profiles.take(i as int));
            let ghost next = specs_machines(node_profiles.take(i + 1));
            proof {
                assert(node_profiles[i as int] == node@);
                lemma_specs_machines_take(node_profiles, i as int);
                lemma_specs_machines_take(node_profiles, i + 1);
                crate::fryer::structures::raw::lemma_total_number_take(node_profiles, i as int);
                lemma_host_lookup(
                    all_profiles.host_profiles@,
                    profiles.host_profiles,
                    node@.host_profile.name,
                );
                lemma_link_lookup(
                    all_profiles.link_profiles@,
                    profiles.link_profiles,
                    node@.link_profile.name,
                );
            }
            let current_host_profile = host_profiles_list.get_profile(
                node.host_profile.name.as_str(),
            );
            let current_link_profile = link_profiles_list.get_profile(
                node.link_profile.name.as_str(),
            );
            let mut made_here: u16 = 0;
            while made_here < node.number
                invariant
                    made_here <= node.number,
                    i < specs.node_profiles.len(),
                    node_profiles == specs@.node_profiles,
                    node_profiles[i as int] == node@,
                    profiles == all_profiles@,
                    self.base == old(self).base,
                    made + total_number(node_profiles) <= u32::MAX,
                    done == specs_machines(node_profiles.take(i as int)),
                    next == specs_machines(node_profiles.take(i + 1)),
                    next.len() == done.len() + node.number,
                    next.len() <= total_number(node_profiles),
                    forall|k: int| 0 <= k < done.len() ==> next[k] == done[k],
                    forall|k: int|
                        done.len() <= k < next.len() ==> #[trigger] next[k] == (Machine {
                            name: numbered("Node "@, (k + 1) as nat),
                            host_profile: node@.host_profile.name,
                            link_profile: node@.link_profile.name,
                        }),
                    current_host_profile@ == host_profile_called(profiles, node@.host_profile.name),
                    current_link_profile@ == link_profile_called(profiles, node@.link_profile.name),
                    node_index == done.len() + made_here,
                    self.links_made() == made + done.len() + made_here,
                    hosts.deep_view() == hosts_of(next.take(done.len() + made_here), profiles),
                    links.deep_view() == links_of(next.take(done.len() + made_here), profiles, made),
                    routes.deep_view() == routes_of(
                        next.take(done.len() + made_here),
                        router_name(),
                        made,
                    ),
                decreases node.number - made_here,
            {
                let ghost before = next.take(done.len() + made_here);
                let ghost after = next.take(done.len() + made_here + 1);
                let ghost prev_hosts = hosts.deep_view();
                let ghost prev_links = links.deep_view();
                let ghost prev_routes = routes.deep_view();
                node_index += 1;
                let current_node_name = numbered_name("Node ", node_index);
                let host = Self::create_host(current_node_name.clone(), current_host_profile);
                hosts.push(host);
                let link = self.create_link(current_link_profile);
                let route = Self::create_route(
                    current_node_name,
                    "zone1-router".to_string(),
                    link.id.clone(),
                );
                routes.push(route);
                links.push(link);
                proof {
                    assert(hosts.deep_view() =~= prev_hosts.push(host@));
                    assert(links.deep_view() =~= prev_links.push(link@));
                    assert(routes.deep_view() =~= prev_routes.push(route@));
                    assert(hosts.deep_view() =~= hosts_of(after, profiles));
                    assert(links.deep_view() =~= links_of(after, profiles, made));
                    assert(routes.deep_view() =~= routes_of(after, router_name(), made));
                }
                made_here += 1;
            }
            proof {
                assert(next.take(done.len() + made_here) =~= next);
            }
            i += 1;
        }
        proof {
            assert(node_profiles.take(i as int) =~= node_profiles);
        }
        Self::assemble(hosts, links, routes)
    }
}

/// A cycle that stands at the position of its `turn`-th turn stands, one
/// step on, at the position of the turn after.
pub proof fn lemma_next_in_cycle(turn: nat, len: int)
    requires
        len > 0,
    ensures
        next_in_cycle((turn as int) % len, len) == ((turn + 1) as int) % len,
        0 <= (turn as int) % len < len,
{
    vstd::arithmetic::div_mod::lemma_mod_pos_bound(turn as int, len);
    vstd::arithmetic::div_mod::lemma_mod_add_multiples_vanish(turn as int, len);
    if (turn as int) % len + 1 >= len {
        vstd::arithmetic::div_mod::lemma_fundamental_div_mod(turn as int, len);
        let q = (turn as int) / len;
        assert(turn + 1 == len * (q + 1)) by (nonlinear_arith)
            requires
                turn == len * q + (len - 1),
        ;
        vstd::arithmetic::div_mod::lemma_mod_multiples_basic(q + 1, len);
        assert(((turn + 1) as int) % len == 0) by (nonlinear_arith)
            requires
                turn + 1 == len * (q + 1),
                ((q + 1) * len) % len == 0,
        ;
    } else {
        vstd::arithmetic::div_mod::lemma_fundamental_div_mod(turn as int, len);
        let q = (turn as int) / len;
        let r = (turn as int) % len;
        vstd::arithmetic::div_mod::lemma_fundamental_div_mod_converse(
            (turn + 1) as int,
            len,
            q,
            r + 1,
        );
    }
}

/// The hosts, links and routes of two runs of machines, one after the other,
/// are those of the first run followed by those of the second, whose links
/// are numbered on.
pub proof fn lemma_components_concat(
    a: Seq<Machine>,
    b: Seq<Machine>,
    profiles: ProfilesView,
    router: Seq<char>,
    made: nat,
)
    ensures
        hosts_of(a + b, profiles) == hosts_of(a, profiles) + hosts_of(b, profiles),
        links_of(a + b, profiles, made) == links_of(a, profiles, made) + links_of(
            b,
            profiles,
            made + a.len(),
        ),
        routes_of(a + b, router, made) == routes_of(a, router, made) + routes_of(
            b,
            router,
            made + a.len(),
        ),
{
    assert(hosts_of(a + b, profiles) =~= hosts_of(a, profiles) + hosts_of(b, profiles));
    assert(links_of(a + b, profiles, made) =~= links_of(a, profiles, made) + links_of(
        b,
        profiles,
        made + a.len(),
    ));
    assert(routes_of(a + b, router, made) =~= routes_of(a, router, made) + routes_of(
        b,
        router,
        made + a.len(),
    ));
}

impl<'b> Platformer<RawAndFried<'b>> {
    /// Creates the star platform of a deployment: one host, one link and one
    /// route for each node of each cluster, with the profiles that the raw
    /// cluster at the same position gives to the nodes of that role. The
    /// links are numbered on from those made before.
    pub fn create_star_topology(&mut self) -> (res: Platform)
        requires
            forall|i: int|
                0 <= i < paired(old(self).base.rf@.clusters, old(self).base.ff@.clusters)
                    ==> cluster_servable(
                    #[trigger] old(self).base.rf@.clusters[i],
                    old(self).base.ff@.clusters[i],
                    old(self).base.rf@.profiles,
                ),
            old(self).links_made() + deployed_machines(
                old(self).base.rf@.clusters,
                old(self).base.ff@.clusters,
                paired(old(self).base.rf@.clusters, old(self).base.ff@.clusters),
            ).len() <= u32::MAX,
        ensures
            res@ == star_platform(
                deployed_machines(
                    old(self).base.rf@.clusters,
                    old(self).base.ff@.clusters,
                    paired(old(self).base.rf@.clusters, old(self).base.ff@.clusters),
                ),
                old(self).base.rf@.profiles,
                old(self).links_made(),
            ),
            final(self).base == old(self).base,
    {
        let rf: &'b raw::RawFalafels = self.base.rf;
        let ff: &'b fried::FriedFalafels = self.base.ff;
        let ghost raws = rf@.clusters;
        let ghost frieds = ff@.clusters;
        let ghost profiles = rf@.profiles;
        let ghost made = self.links_made();
        let ghost pairs = paired(raws, frieds);
        let router = "zone1-router".to_string();
        let mut hosts: Vec<Host> = Vec::new();
        let mut links: Vec<Link> = Vec::new();
        let mut routes: Vec<Route> = Vec::new();
        let mut i: usize = 0;
        while i < rf.clusters.len() && i < ff.clusters.len()
            invariant
                i <= rf.clusters.len(),
                i <= ff.clusters.len(),
                raws == rf@.clusters,
                frieds == ff@.clusters,
                profiles == rf@.profiles,
                pairs == paired(raws, frieds),
                made == old(self).links_made(),
                self.base == old(self).base,
                self.base.rf == rf,
                router@ == router_name(),
                forall|k: int|
                    0 <= k < pairs ==> cluster_servable(#[trigger] raws[k], frieds[k], profiles),
                made + deployed_machines(raws, frieds, pairs).len() <= u32::MAX,
                self.links_made() == made + deployed_machines(raws, frieds, i as int).len(),
                hosts.deep_view() == hosts_of(deployed_machines(raws, frieds, i as int), profiles),
                links.deep_view() == links_of(
                    deployed_machines(raws, frieds, i as int),
                    profiles,
                    made,
                ),
                routes.deep_view() == routes_of(
                    deployed_machines(raws, frieds, i as int),
                    router_name(),
                    made,
                ),
            decreases rf.clusters.len() - i,
        {
            let raw_cluster = &rf.clusters[i];
            let fried_cluster = &ff.clusters[i];
            let ghost done = deployed_machines(raws, frieds, i as int);
            let ghost here = cluster_machines(raw_cluster@, fried_cluster@);
            proof {
                assert(raws[i as int] == raw_cluster@);
                assert(frieds[i as int] == fried_cluster@);
                lemma_deployed_machines_grow(raws, frieds, i as int + 1, pairs);
                lemma_components_concat(done, here, profiles, router_name(), made);
            }
            let ghost prev_hosts = hosts.deep_view();
            let ghost prev_links = links.deep_view();
            let ghost prev_routes = routes.deep_view();
            let (mut h, mut l, mut r) = self.create_cluster_components(
                raw_cluster,
                fried_cluster,
                &router,
            );
            let ghost new_hosts = h.deep_view();
            let ghost new_links = l.deep_view();
            let ghost new_routes = r.deep_view();
            hosts.append(&mut h);
            links.append(&mut l);
            routes.append(&mut r);
            proof {
                assert(hosts.deep_view() =~= prev_hosts + new_hosts);
                assert(links.deep_view() =~= prev_links + new_links);
                assert(routes.deep_view() =~= prev_routes + new_routes);
            }
            i += 1;
        }
        assert(i == pairs);
        Self::assemble(hosts, links, routes)
    }

    /// Creates the hosts, links and routes of one cluster, node after node.
    pub fn create_cluster_components(
        &mut self,
        raw_cluster: &raw::Cluster,
        fried_cluster: &fried::Cluster,
        router_name: &String,
    ) -> (res: (Vec<Host>, Vec<Link>, Vec<Route>))
        requires
            cluster_servable(raw_cluster@, fried_cluster@, old(self).base.rf@.profiles),
            old(self).links_made() + fried_cluster@.nodes.len() <= u32::MAX,
        ensures
            res.0.deep_view() == hosts_of(
                cluster_machines(raw_cluster@, fried_cluster@),
                old(self).base.rf@.profiles,
            ),
            res.1.deep_view() == links_of(
                cluster_machines(raw_cluster@, fried_cluster@),
                old(self).base.rf@.profiles,
                old(self).links_made(),
            ),
            res.2.deep_view() == routes_of(
                cluster_machines(raw_cluster@, fried_cluster@),
                router_name@,
                old(self).links_made(),
            ),
            final(self).links_made() == old(self).links_made() + fried_cluster@.nodes.len(),
            final(self).base == old(self).base,
    {
        let rf: &'b raw::RawFalafels = self.base.rf;
        let ghost profiles = rf@.profiles;
        let ghost made = self.links_made();
        let ghost nodes = fried_cluster@.nodes;
        let ghost machines = cluster_machines(raw_cluster@, fried_cluster@);
        let mut hosts: Vec<Host> = Vec::new();
        let mut links: Vec<Link> = Vec::new();
        let mut routes: Vec<Route> = Vec::new();
        let (trainer_hosts, aggregator_hosts, trainer_links, aggregator_links) = match (
            &raw_cluster.trainers.host_profiles,
            &raw_cluster.aggregators.host_profiles,
            &raw_cluster.trainers.link_profiles,
            &raw_cluster.aggregators.link_profiles,
        ) {
            (Some(th), Some(ah), Some(tl), Some(al)) => (th, ah, tl, al),
            _ => {
                assert(false);
                return (hosts, links, routes);
            },
        };
        let mut profile_handler_host = ProfilesCycler::new(
            trainer_hosts,
            aggregator_hosts,
            ProfileList { list: &rf.profiles.host_profiles },
        );
        let mut profile_handler_link = ProfilesCycler::new(
            trainer_links,
            aggregator_links,
            ProfileList { list: &rf.profiles.link_profiles },
        );
        let ghost th_names = host_ref_names(raw_cluster@.trainers.host_profiles);
        let ghost ah_names = host_ref_names(raw_cluster@.aggregators.host_profiles);
        let ghost tl_names = link_ref_names(raw_cluster@.trainers.link_profiles);
        let ghost al_names = link_ref_names(raw_cluster@.aggregators.link_profiles);
        proof {
            assert(th_names.len() == trainer_hosts.len());
            assert(forall|k: int| 0 <= k < trainer_hosts.len() ==> th_names[k] == trainer_hosts[k].name@);
            assert(forall|k: int| 0 <= k < aggregator_hosts.len() ==> ah_names[k] == aggregator_hosts[k].name@);
            assert(forall|k: int| 0 <= k < trainer_links.len() ==> tl_names[k] == trainer_links[k].name@);
            assert(forall|k: int| 0 <= k < aggregator_links.len() ==> al_names[k] == aggregator_links[k].name@);
            if trainer_hosts.len() > 0 {
                vstd::arithmetic::div_mod::lemma_small_mod(0, trainer_hosts.len() as nat);
            }
            if aggregator_hosts.len() > 0 {
                vstd::arithmetic::div_mod::lemma_small_mod(0, aggregator_hosts.len() as nat);
            }
            if trainer_links.len() > 0 {
                vstd::arithmetic::div_mod::lemma_small_mod(0, trainer_links.len() as nat);
            }
            if aggregator_links.len() > 0 {
                vstd::arithmetic::div_mod::lemma_small_mod(0, aggregator_links.len() as nat);
            }
        }
        let mut j: usize = 0;
        while j < fried_cluster.nodes.len()
            invariant
                j <= fried_cluster.nodes.len(),
                nodes == fried_cluster@.nodes,
                machines == cluster_machines(raw_cluster@, fried_cluster@),
                profiles == rf@.profiles,
                made == old(self).links_made(),
                made + nodes.len() <= u32::MAX,
                self.base == old(self).base,
                self.base.rf == rf,
                self.links_made() == made + j,
                cluster_servable(raw_cluster@, fried_cluster@, profiles),
                th_names == host_ref_names(raw_cluster@.trainers.host_profiles),
                ah_names == host_ref_names(raw_cluster@.aggregators.host_profiles),
                tl_names == link_ref_names(raw_cluster@.trainers.link_profiles),
                al_names == link_ref_names(raw_cluster@.aggregators.link_profiles),
                th_names.len() == trainer_hosts.len(),
                ah_names.len() == aggregator_hosts.len(),
                tl_names.len() == trainer_links.len(),
                al_names.len() == aggregator_links.len(),
                forall|k: int| 0 <= k < trainer_hosts.len() ==> th_names[k] == trainer_hosts[k].name@,
                forall|k: int|
                    0 <= k < aggregator_hosts.len() ==> ah_names[k] == aggregator_hosts[k].name@,
                forall|k: int| 0 <= k < trainer_links.len() ==> tl_names[k] == trainer_links[k].name@,
                forall|k: int|
                    0 <= k < aggregator_links.len() ==> al_names[k] == aggregator_links[k].name@,
                profile_handler_host.wf(),
                profile_handler_link.wf(),
                profile_handler_host.profiles_trainers == trainer_hosts,
                profile_handler_host.profiles_aggregators == aggregator_hosts,
                profile_handler_host.profiles_list.list == &rf.profiles.host_profiles,
                profile_handler_link.profiles_trainers == trainer_links,
                profile_handler_link.profiles_aggregators == aggregator_links,
                profile_handler_link.profiles_list.list == &rf.profiles.link_profiles,
                trainer_hosts.len() > 0 ==> profile_handler_host.next_trainer == (count_kind(
                    nodes,
                    j as int,
                    true,
                ) as int) % (trainer_hosts.len() as int),
                aggregator_hosts.len() > 0 ==> profile_handler_host.next_aggregator == (count_kind(
                    nodes,
                    j as int,
                    false,
                ) as int) % (aggregator_hosts.len() as int),
                trainer_links.len() > 0 ==> profile_handler_link.next_trainer == (count_kind(
                    nodes,
                    j as int,
                    true,
                ) as int) % (trainer_links.len() as int),
                aggregator_links.len() > 0 ==> profile_handler_link.next_aggregator == (count_kind(
                    nodes,
                    j as int,
                    false,
                ) as int) % (aggregator_links.len() as int),
                hosts.deep_view() == hosts_of(machines.take(j as int), profiles),
                links.deep_view() == links_of(machines.take(j as int), profiles, made),
                routes.deep_view() == routes_of(machines.take(j as int), router_name@, made),
            decreases fried_cluster.nodes.len() - j,
        {
            let node = &fried_cluster.nodes[j];
            let ghost machine = deployed_machine(raw_cluster@, nodes, j as int);
            proof {
                assert(nodes[j as int] == node@);
                assert(machines[j as int] == machine);
                assert(machine_known(machine, profiles));
                lemma_host_lookup(
                    rf.profiles.host_profiles@,
                    profiles.host_profiles,
                    machine.host_profile,
                );
                lemma_link_lookup(
                    rf.profiles.link_profiles@,
                    profiles.link_profiles,
                    machine.link_profile,
                );
                let trainers_before = count_kind(nodes, j as int, true);
                let aggregators_before = count_kind(nodes, j as int, false);
                if trainer_hosts.len() > 0 {
                    lemma_next_in_cycle(trainers_before, trainer_hosts.len() as int);
                }
                if trainer_links.len() > 0 {
                    lemma_next_in_cycle(trainers_before, trainer_links.len() as int);
                }
                if aggregator_hosts.len() > 0 {
                    lemma_next_in_cycle(aggregators_before, aggregator_hosts.len() as int);
                }
                if aggregator_links.len() > 0 {
                    lemma_next_in_cycle(aggregators_before, aggregator_links.len() as int);
                }
            }
            let host_profile = profile_handler_host.pick_profile(&node.role);
            let link_profile = profile_handler_link.pick_profile(&node.role);
            let ghost prev_hosts = hosts.deep_view();
            let ghost prev_links = links.deep_view();
            let ghost prev_routes = routes.deep_view();
            let host = Self::create_host(node.name.clone(), host_profile);
            hosts.push(host);
            let link = self.create_link(link_profile);
            links.push(link);
            let link_id = self.link_count;
            let route = Self::create_route(
                node.name.clone(),
                router_name.clone(),
                u32_to_string(link_id),
            );
            routes.push(route);
            proof {
                assert(hosts.deep_view() =~= prev_hosts.push(host@));
                assert(links.deep_view() =~= prev_links.push(link@));
                assert(routes.deep_view() =~= prev_routes.push(route@));
                assert(hosts.deep_view() =~= hosts_of(machines.take(j + 1), profiles));
                assert(links.deep_view() =~= links_of(machines.take(j + 1), profiles, made));
                assert(routes.deep_view() =~= routes_of(machines.take(j + 1), router_name@, made));
            }
            j += 1;
        }
        proof {
            assert(machines.take(j as int) =~= machines);
        }
        (hosts, links, routes)
    }
}

/// The machines of the first clusters are among those of more clusters.
pub proof fn lemma_deployed_machines_grow(
    raws: Seq<raw::ClusterView>,
    frieds: Seq<fried::ClusterView>,
    i: int,
    upto: int,
)
    requires
        0 <= i <= upto,
    ensures
        deployed_machines(raws, frieds, i).len() <= deployed_machines(raws, frieds, upto).len(),
    decreases upto - i,
{
    if i < upto {
        lemma_deployed_machines_grow(raws, frieds, i, upto - 1);
    }
}

impl<'a> Platformer<SpecsAndProfiles<'a>> {
    /// Tells whether the star platform can be created: the profiles that the
    /// node profiles refer to exist, and the links can still be numbered.
    pub fn can_create_star_topology(&self) -> (res: bool)
        ensures
            res == (specs_known(self.base.specs@.node_profiles, self.base.profiles@)
                && self.links_made() + total_number(self.base.specs@.node_profiles) <= u32::MAX),
    {
        let specs: &'a raw::PlatformSpecs = self.base.specs;
        let all_profiles: &'a raw::Profiles = self.base.profiles;
        let ghost node_profiles = specs@.node_profiles;
        let ghost profiles = all_profiles@;
        let host_profiles_list = ProfileList { list: &all_profiles.host_profiles };
        let link_profiles_list = ProfileList { list: &all_profiles.link_profiles };
        let mut total: u64 = 0;
        let mut known = true;
        let mut i: usize = 0;
        assert(node_profiles.take(0) =~= Seq::empty());
        while i < specs.node_profiles.len()
            invariant
                i <= specs.node_profiles.len(),
                node_profiles == specs@.node_profiles,
                profiles == all_profiles@,
                host_profiles_list.list == &all_profiles.host_profiles,
                link_profiles_list.list == &all_profiles.link_profiles,
                total == total_number(node_profiles.take(i as int)) || (total == u64::MAX
                    && total_number(node_profiles.take(i as int)) > u64::MAX),
                known == forall|k: int|
                    0 <= k < i ==> machine_known(
                        Machine {
                            name: Seq::empty(),
                            host_profile: (#[trigger] node_profiles[k]).host_profile.name,
                            link_profile: node_profiles[k].link_profile.name,
                        },
                        profiles,
                    ),
            decreases specs.node_profiles.len() - i,
        {
            let node = &specs.node_profiles[i];
            proof {
                assert(node_profiles[i as int] == node@);
                crate::fryer::structures::raw::lemma_total_number_take(node_profiles, i as int);
                lemma_host_lookup(
                    all_profiles.host_profiles@,
                    profiles.host_profiles,
                    node@.host_profile.name,
                );
                lemma_link_lookup(
                    all_profiles.link_profiles@,
                    profiles.link_profiles,
                    node@.link_profile.name,
                );
            }
            let here = host_profiles_list.has_profile(node.host_profile.name.as_str())
                && link_profiles_list.has_profile(node.link_profile.name.as_str());
            known = known && here;
            total = total.saturating_add(node.number as u64);
            i += 1;
        }
        proof {
            assert(node_profiles.take(i as int) =~= node_profiles);
        }
        known && total <= (u32::MAX - self.link_count) as u64
    }
}

/// Tells whether a deployed cluster can be given machines.
fn is_cluster_servable(
    raw_cluster: &raw::Cluster,
    fried_cluster: &fried::Cluster,
    all_profiles: &raw::Profiles,
) -> (res: bool)
    ensures
        res == cluster_servable(raw_cluster@, fried_cluster@, all_profiles@),
{
    let ghost nodes = fried_cluster@.nodes;
    let ghost profiles = all_profiles@;
    let (trainer_hosts, aggregator_hosts, trainer_links, aggregator_links) = match (
        &raw_cluster.trainers.host_profiles,
        &raw_cluster.aggregators.host_profiles,
        &raw_cluster.trainers.link_profiles,
        &raw_cluster.aggregators.link_profiles,
    ) {
        (Some(th), Some(ah), Some(tl), Some(al)) => (th, ah, tl, al),
        _ => {
            return false;
        },
    };
    let host_list = ProfileList { list: &all_profiles.host_profiles };
    let link_list = ProfileList { list: &all_profiles.link_profiles };
    let ghost th_names = host_ref_names(raw_cluster@.trainers.host_profiles);
    let ghost ah_names = host_ref_names(raw_cluster@.aggregators.host_profiles);
    let ghost tl_names = link_ref_names(raw_cluster@.trainers.link_profiles);
    let ghost al_names = link_ref_names(raw_cluster@.aggregators.link_profiles);
    let mut host_trainer: usize = 0;
    let mut host_aggregator: usize = 0;
    let mut link_trainer: usize = 0;
    let mut link_aggregator: usize = 0;
    proof {
        assert(forall|k: int| 0 <= k < trainer_hosts.len() ==> th_names[k] == trainer_hosts[k].name@);
        assert(forall|k: int|
            0 <= k < aggregator_hosts.len() ==> ah_names[k] == aggregator_hosts[k].name@);
        assert(forall|k: int| 0 <= k < trainer_links.len() ==> tl_names[k] == trainer_links[k].name@);
        assert(forall|k: int|
            0 <= k < aggregator_links.len() ==> al_names[k] == aggregator_links[k].name@);
        if trainer_hosts.len() > 0 {
            vstd::arithmetic::div_mod::lemma_small_mod(0, trainer_hosts.len() as nat);
        }
        if aggregator_hosts.len() > 0 {
            vstd::arithmetic::div_mod::lemma_small_mod(0, aggregator_hosts.len() as nat);
        }
        if trainer_links.len() > 0 {
            vstd::arithmetic::div_mod::lemma_small_mod(0, trainer_links.len() as nat);
        }
        if aggregator_links.len() > 0 {
            vstd::arithmetic::div_mod::lemma_small_mod(0, aggregator_links.len() as nat);
        }
    }
    let mut j: usize = 0;
    while j < fried_cluster.nodes.len()
        invariant
            j <= fried_cluster.nodes.len(),
            nodes == fried_cluster@.nodes,
            profiles == all_profiles@,
            host_list.list == &all_profiles.host_profiles,
            link_list.list == &all_profiles.link_profiles,
            raw_cluster@.trainers.host_profiles is Some,
            raw_cluster@.trainers.link_profiles is Some,
            raw_cluster@.aggregators.host_profiles is Some,
            raw_cluster@.aggregators.link_profiles is Some,
            th_names == host_ref_names(raw_cluster@.trainers.host_profiles),
            ah_names == host_ref_names(raw_cluster@.aggregators.host_profiles),
            tl_names == link_ref_names(raw_cluster@.trainers.link_profiles),
            al_names == link_ref_names(raw_cluster@.aggregators.link_profiles),
            th_names.len() == trainer_hosts.len(),
            ah_names.len() == aggregator_hosts.len(),
            tl_names.len() == trainer_links.len(),
            al_names.len() == aggregator_links.len(),
            th_names.len() == raw_cluster@.trainers.host_profiles.unwrap().len(),
            ah_names.len() == raw_cluster@.aggregators.host_profiles.unwrap().len(),
            tl_names.len() == raw_cluster@.trainers.link_profiles.unwrap().len(),
            al_names.len() == raw_cluster@.aggregators.link_profiles.unwrap().len(),
            forall|k: int| 0 <= k < trainer_hosts.len() ==> th_names[k] == trainer_hosts[k].name@,
            forall|k: int|
                0 <= k < aggregator_hosts.len() ==> ah_names[k] == aggregator_hosts[k].name@,
            forall|k: int| 0 <= k < trainer_links.len() ==> tl_names[k] == trainer_links[k].name@,
            forall|k: int|
                0 <= k < aggregator_links.len() ==> al_names[k] == aggregator_links[k].name@,
            trainer_hosts.len() > 0 ==> host_trainer == (count_kind(nodes, j as int, true) as int)
                % (trainer_hosts.len() as int),
            aggregator_hosts.len() > 0 ==> host_aggregator == (count_kind(
                nodes,
                j as int,
                false,
            ) as int) % (aggregator_hosts.len() as int),
            trainer_links.len() > 0 ==> link_trainer == (count_kind(nodes, j as int, true) as int)
                % (trainer_links.len() as int),
            aggregator_links.len() > 0 ==> link_aggregator == (count_kind(
                nodes,
                j as int,
                false,
            ) as int) % (aggregator_links.len() as int),
            forall|k: int|
                0 <= k < j ==> match (#[trigger] nodes[k]).role {
                    NodeRoleView::Trainer(_) => th_names.len() > 0 && tl_names.len() > 0,
                    NodeRoleView::Aggregator(_) => ah_names.len() > 0 && al_names.len() > 0,
                },
            forall|k: int|
                0 <= k < j ==> machine_known(
                    #[trigger] deployed_machine(raw_cluster@, nodes, k),
                    profiles,
                ),
        decreases fried_cluster.nodes.len() - j,
    {
        let node = &fried_cluster.nodes[j];
        let ghost machine = deployed_machine(raw_cluster@, nodes, j as int);
        proof {
            assert(nodes[j as int] == node@);
            let trainers_before = count_kind(nodes, j as int, true);
            let aggregators_before = count_kind(nodes, j as int, false);
            if trainer_hosts.len() > 0 {
                lemma_next_in_cycle(trainers_before, trainer_hosts.len() as int);
            }
            if trainer_links.len() > 0 {
                lemma_next_in_cycle(trainers_before, trainer_links.len() as int);
            }
            if aggregator_hosts.len() > 0 {
                lemma_next_in_cycle(aggregators_before, aggregator_hosts.len() as int);
            }
            if aggregator_links.len() > 0 {
                lemma_next_in_cycle(aggregators_before, aggregator_links.len() as int);
            }
        }
        let (host_name, link_name) = match &node.role {
            fried::NodeRole::Trainer(_) => {
                if trainer_hosts.len() == 0 || trainer_links.len() == 0 {
                    return false;
                }
                let names = (&trainer_hosts[host_trainer].name, &trainer_links[link_trainer].name);
                host_trainer = if host_trainer + 1 >= trainer_hosts.len() {
                    0
                } else {
                    host_trainer + 1
                };
                link_trainer = if link_trainer + 1 >= trainer_links.len() {
                    0
                } else {
                    link_trainer + 1
                };
                names
            },
            fried::NodeRole::Aggregator(_) => {
                if aggregator_hosts.len() == 0 || aggregator_links.len() == 0 {
                    return false;
                }
                let names = (
                    &aggregator_hosts[host_aggregator].name,
                    &aggregator_links[link_aggregator].name,
                );
                host_aggregator = if host_aggregator + 1 >= aggregator_hosts.len() {
                    0
                } else {
                    host_aggregator + 1
                };
                link_aggregator = if link_aggregator + 1 >= aggregator_links.len() {
                    0
                } else {
                    link_aggregator + 1
                };
                names
            },
        };
        proof {
            assert(host_name@ == machine.host_profile);
            assert(link_name@ == machine.link_profile);
            lemma_host_lookup(
                all_profiles.host_profiles@,
                profiles.host_profiles,
                machine.host_profile,
            );
            lemma_link_lookup(
                all_profiles.link_profiles@,
                profiles.link_profiles,
                machine.link_profile,
            );
        }
        if !host_list.has_profile(host_name.as_str()) || !link_list.has_profile(link_name.as_str()) {
            assert(!machine_known(deployed_machine(raw_cluster@, nodes, j as int), profiles));
            return false;
        }
        j += 1;
    }
    true
}

impl<'b> Platformer<RawAndFried<'b>> {
    /// Tells whether the star platform can be created: every cluster that
    /// has a counterpart can be given machines, and the links can still be
    /// numbered.
    pub fn can_create_star_topology(&self) -> (res: bool)
        ensures
            res == ((forall|i: int|
                0 <= i < paired(self.base.rf@.clusters, self.base.ff@.clusters)
                    ==> cluster_servable(
                    #[trigger] self.base.rf@.clusters[i],
                    self.base.ff@.clusters[i],
                    self.base.rf@.profiles,
                )) && self.links_made() + deployed_machines(
                self.base.rf@.clusters,
                self.base.ff@.clusters,
                paired(self.base.rf@.clusters, self.base.ff@.clusters),
            ).len() <= u32::MAX),
    {
        let rf: &'b raw::RawFalafels = self.base.rf;
        let ff: &'b fried::FriedFalafels = self.base.ff;
        let ghost raws = rf@.clusters;
        let ghost frieds = ff@.clusters;
        let ghost profiles = rf@.profiles;
        let ghost pairs = paired(raws, frieds);
        let mut total: u64 = 0;
        let mut i: usize = 0;
        while i < rf.clusters.len() && i < ff.clusters.len()
            invariant
                i <= rf.clusters.len(),
                i <= ff.clusters.len(),
                raws == rf@.clusters,
                frieds == ff@.clusters,
                profiles == rf@.profiles,
                pairs == paired(raws, frieds),
                rf == self.base.rf,
                ff == self.base.ff,
                total == deployed_machines(raws, frieds, i as int).len() || (total == u64::MAX
                    && deployed_machines(raws, frieds, i as int).len() > u64::MAX),
                forall|k: int| 0 <= k < i ==> cluster_servable(#[trigger] raws[k], frieds[k], profiles),
            decreases rf.clusters.len() - i,
        {
            let raw_cluster = &rf.clusters[i];
            let fried_cluster = &ff.clusters[i];
            proof {
                assert(raws[i as int] == raw_cluster@);
                assert(frieds[i as int] == fried_cluster@);
            }
            if !is_cluster_servable(raw_cluster, fried_cluster, &rf.profiles) {
                assert(0 <= i < pairs && !cluster_servable(
                    raws[i as int],
                    frieds[i as int],
                    profiles,
                ));
                return false;
            }
            proof {
                lemma_deployed_machines_grow(raws, frieds, i as int + 1, pairs);
            }
            total = total.saturating_add(fried_cluster.nodes.len() as u64);
            i += 1;
        }
        assert(i == pairs);
        total <= (u32::MAX - self.link_count) as u64
    }
}

} // verus!
