//! One individual of a study: a raw description tweaked to one combination
//! of cluster shapes and aggregator kind, with the deployment made of it.

use crate::fryer::fryer::{can_fry, fried_falafels, Fryer, FryerView};
use crate::fryer::platformer::{
    cluster_servable, deployed_machines, paired, specs_known, specs_machines, star_platform,
    Platformer, RawAndFried, SpecsAndProfiles,
};
use crate::fryer::structures::common::{AggregatorType, ClusterTopology, TrainerType};
use crate::fryer::structures::fried::{FriedFalafels, FriedFalafelsView};
use crate::fryer::structures::platform::{Platform, PlatformView};
use crate::fryer::structures::raw;
use crate::fryer::structures::raw::{total_number, RawFalafels, RawFalafelsView};
use crate::text::{decimal, u32_to_string};
use vstd::prelude::*;

verus! {

/// What describes an individual, whatever generation it is in.
#[derive(Debug)]
pub struct Metadata {
    /// Name of the individual, which tells its shape and kind.
    pub name: String,
    /// The combination of shape and kind that the individual belongs to.
    pub category: String,
    /// Directory under which the files of the individual are kept.
    pub output_dir_path: String,
    /// The shape of each cluster.
    pub topo: Vec<ClusterTopology>,
    pub agg_type: AggregatorType,
    /// The raw description that the deployment is made of.
    pub base_rf: RawFalafels,
    /// Tells how the content is made: as one cluster when this holds, as
    /// sub-clusters under a central cluster when it does not. It holds for an
    /// individual of at most one cluster shape.
    pub is_hierarchical: bool,
}

/// Mathematical value of a [`Metadata`].
pub struct MetadataView {
    pub name: Seq<char>,
    pub category: Seq<char>,
    pub output_dir_path: Seq<char>,
    pub topo: Seq<ClusterTopology>,
    pub agg_type: AggregatorType,
    pub base_rf: RawFalafelsView,
    pub is_hierarchical: bool,
}

impl View for Metadata {
    type V = MetadataView;

    open spec fn view(&self) -> MetadataView {
        MetadataView {
            name: self.name@,
            category: self.category@,
            output_dir_path: self.output_dir_path@,
            topo: self.topo@,
            agg_type: self.agg_type,
            base_rf: self.base_rf@,
            is_hierarchical: self.is_hierarchical,
        }
    }
}

impl Clone for Metadata {
    fn clone(&self) -> (res: Self)
        ensures
            res@ == self@,
    {
        Metadata {
            name: self.name.clone(),
            category: self.category.clone(),
            output_dir_path: self.output_dir_path.clone(),
            topo: self.topo.clone(),
            agg_type: self.agg_type,
            base_rf: self.base_rf.clone(),
            is_hierarchical: self.is_hierarchical,
        }
    }
}

/// What an individual is in one generation. `O` is what a simulation of
/// the individual yields.
#[derive(Debug)]
pub struct Content<O> {
    /// Generation of the individual.
    pub gen_nb: u32,
    pub ff: FriedFalafels,
    /// What the last simulation yielded, as long as the individual has not
    /// changed since.
    pub previous_outcome: Option<O>,
    /// The platform of the individual, once it has been generated.
    pub platform: Option<Platform>,
}

/// Mathematical value of a [`Content`].
pub struct ContentView<O> {
    pub gen_nb: u32,
    pub ff: FriedFalafelsView,
    pub previous_outcome: Option<O>,
    pub platform: Option<PlatformView>,
}

impl<O> View for Content<O> {
    type V = ContentView<O>;

    open spec fn view(&self) -> ContentView<O> {
        ContentView {
            gen_nb: self.gen_nb,
            ff: self.ff@,
            previous_outcome: self.previous_outcome,
            platform: self.platform.deep_view(),
        }
    }
}

impl<O: Clone> Clone for Content<O> {
    fn clone(&self) -> (res: Self)
        ensures
            res.gen_nb == self.gen_nb,
            res.ff@ == self.ff@,
            res.platform.deep_view() == self.platform.deep_view(),
            res.previous_outcome is Some == self.previous_outcome is Some,
    {
        Content {
            gen_nb: self.gen_nb,
            ff: self.ff.clone(),
            previous_outcome: self.previous_outcome.clone(),
            platform: crate::copies::clone_opt(&self.platform),
        }
    }
}

/// An individual of a study.
#[derive(Debug)]
pub struct Individual<O> {
    pub meta: Metadata,
    pub content: Option<Content<O>>,
}

impl<O: Clone> Clone for Individual<O> {
    fn clone(&self) -> (res: Self)
        ensures
            res.meta@ == self.meta@,
            res.content is Some == self.content is Some,
            res.content is Some ==> res.content.unwrap().ff@ == self.content.unwrap().ff@
                && res.content.unwrap().gen_nb == self.content.unwrap().gen_nb,
    {
        Individual {
            meta: self.meta.clone(),
            content: match &self.content {
                Some(content) => Some(content.clone()),
                None => None,
            },
        }
    }
}

/// The raw description of an individual of one cluster: the first cluster
/// takes the shape and the kind of the individual.
pub open spec fn normal_rf(meta: MetadataView) -> RawFalafelsView {
    let main = meta.base_rf.clusters[0];
    RawFalafelsView {
        clusters: meta.base_rf.clusters.update(
            0,
            raw::ClusterView {
                topology: meta.topo[0],
                aggregators: raw::AggregatorsView {
                    aggregator_type: meta.agg_type,
                    ..main.aggregators
                },
                ..main
            },
        ),
        ..meta.base_rf
    }
}

/// The first reference alone, if there are references.
pub open spec fn first_only<A>(refs: Option<Seq<A>>) -> Option<Seq<A>> {
    match refs {
        Some(list) => Some(list.subrange(0, 1)),
        None => None,
    }
}

/// The references in reverse order, if there are references.
pub open spec fn reversed<A>(refs: Option<Seq<A>>) -> Option<Seq<A>> {
    match refs {
        Some(list) => Some(list.reverse()),
        None => None,
    }
}

/// Number of trainers of each sub-cluster: the trainers of the main cluster,
/// less one for the aggregator of each sub-cluster, shared out evenly.
pub open spec fn trainers_per_sub_cluster(main: raw::ClusterView, sub_clusters: nat) -> u16 {
    ((main.trainers.number - sub_clusters) / (sub_clusters as int)) as u16
}

/// A sub-cluster of the given shape, made after the main cluster: its
/// aggregator is hierarchical and takes the first profiles of the trainers
/// of the main cluster; its trainers take those profiles in reverse order.
pub open spec fn sub_cluster(
    main: raw::ClusterView,
    topology: ClusterTopology,
    sub_clusters: nat,
) -> raw::ClusterView {
    raw::ClusterView {
        topology,
        trainers: raw::TrainersView {
            number: trainers_per_sub_cluster(main, sub_clusters),
            host_profiles: reversed(main.trainers.host_profiles),
            link_profiles: reversed(main.trainers.link_profiles),
            ..main.trainers
        },
        aggregators: raw::AggregatorsView {
            aggregator_type: AggregatorType::Hierarchical,
            host_profiles: first_only(main.trainers.host_profiles),
            link_profiles: first_only(main.trainers.link_profiles),
            ..main.aggregators
        },
    }
}

/// The central cluster, made after the main cluster: it has no trainers, and
/// its aggregator is of the kind of the individual.
pub open spec fn central_cluster(main: raw::ClusterView, agg_type: AggregatorType) -> raw::ClusterView {
    raw::ClusterView {
        topology: ClusterTopology::Hierarchical,
        trainers: raw::TrainersView {
            number: 0,
            trainer_type: TrainerType::NoTrainer,
            ..main.trainers
        },
        aggregators: raw::AggregatorsView { aggregator_type: agg_type, ..main.aggregators },
    }
}

/// The raw description of an individual of several clusters: in place of
/// the first cluster stand, after the other clusters, one sub-cluster for
/// each shape and then the central cluster.
pub open spec fn hierarchical_rf(meta: MetadataView) -> RawFalafelsView {
    let main = meta.base_rf.clusters[0];
    RawFalafelsView {
        clusters: meta.base_rf.clusters.drop_first() + meta.topo.map_values(
            |t: ClusterTopology| sub_cluster(main, t, meta.topo.len()),
        ) + seq![central_cluster(main, meta.agg_type)],
        ..meta.base_rf
    }
}

/// Whether the raw description of an individual of one cluster can be
/// made: there is a cluster to tweak and a shape to give it.
pub open spec fn normal_rf_ready(meta: MetadataView) -> bool {
    &&& meta.base_rf.clusters.len() > 0
    &&& meta.topo.len() > 0
}

/// Whether the raw description of an individual of several clusters can be
/// made: there is a cluster to split, it has a trainer to spare for the
/// aggregator of each sub-cluster, and where it names profiles for its
/// trainers it names at least one.
pub open spec fn hierarchical_rf_ready(meta: MetadataView) -> bool {
    &&& meta.base_rf.clusters.len() > 0
    &&& 0 < meta.topo.len() <= u16::MAX
    &&& meta.base_rf.clusters[0].trainers.number >= meta.topo.len()
    &&& match meta.base_rf.clusters[0].trainers.host_profiles {
        Some(list) => list.len() > 0,
        None => true,
    }
    &&& match meta.base_rf.clusters[0].trainers.link_profiles {
        Some(list) => list.len() > 0,
        None => true,
    }
}

/// Whether the content of an individual of one cluster can be made.
pub open spec fn normal_ready(meta: MetadataView) -> bool {
    &&& normal_rf_ready(meta)
    &&& can_fry(FryerView { names: None, count_node: 0 }, normal_rf(meta))
}

/// Whether the content of an individual of several clusters can be made.
pub open spec fn hierarchical_ready(meta: MetadataView) -> bool {
    &&& hierarchical_rf_ready(meta)
    &&& can_fry(FryerView { names: None, count_node: 0 }, hierarchical_rf(meta))
}

/// Whether the content of the individual can be made.
pub open spec fn content_ready(meta: MetadataView) -> bool {
    if meta.is_hierarchical {
        normal_ready(meta)
    } else {
        hierarchical_ready(meta)
    }
}

/// The deployment of a fresh content made of the raw description: the
/// deployment of the description, linked and told where to bootstrap from
/// once more.
pub open spec fn content_ff(rf: RawFalafelsView) -> FriedFalafelsView {
    fried_falafels(
        FryerView { names: None, count_node: 0 },
        rf,
    ).with_hierarchical_links().with_bootstrap_nodes()
}

/// The file of the individual under `kind` in its directory: the directory,
/// the kind, then a file named after the generation and the individual.
pub open spec fn generation_file(dir: Seq<char>, kind: Seq<char>, gen_nb: u32, name: Seq<char>) -> Seq<
    char,
> {
    dir + "/"@ + kind + "/GEN-"@ + decimal(gen_nb as nat) + "-"@ + name + ".xml"@
}

/// Writes the name of the file of an individual.
pub fn generation_file_name(dir: &String, kind: &str, gen_nb: u32, name: &String) -> (res: String)
    ensures
        res@ == generation_file(dir@, kind@, gen_nb, name@),
{
    let number = u32_to_string(gen_nb);
    dir.clone().concat("/").concat(kind).concat("/GEN-").concat(number.as_str()).concat("-").concat(
        name.as_str(),
    ).concat(".xml")
}

impl<O> Individual<O> {
    /// Makes an individual and its content.
    pub fn new(
        base_rf: RawFalafels,
        topo: Vec<ClusterTopology>,
        agg_type: AggregatorType,
        name: String,
        output_dir_path: String,
    ) -> (res: Individual<O>)
        requires
            content_ready(
                MetadataView {
                    name: name@,
                    category: name@,
                    output_dir_path: output_dir_path@,
                    topo: topo@,
                    agg_type,
                    base_rf: base_rf@,
                    is_hierarchical: topo.len() <= 1,
                },
            ),
        ensures
            res.meta@.name == name@,
            res.meta@.category == name@,
            res.meta@.output_dir_path == output_dir_path@,
            res.meta@.topo == topo@,
            res.meta@.agg_type == agg_type,
            res.meta@.is_hierarchical == (topo.len() <= 1),
            res.meta@.base_rf == if topo.len() <= 1 {
                normal_rf(MetadataView { base_rf: base_rf@, ..res.meta@ })
            } else {
                base_rf@
            },
            res.content is Some,
            res.content.unwrap()@ == (ContentView::<O> {
                gen_nb: 0,
                ff: content_ff(
                    if topo.len() <= 1 {
                        res.meta@.base_rf
                    } else {
                        hierarchical_rf(res.meta@)
                    },
                ),
                previous_outcome: None,
                platform: None,
            }),
    {
        let is_hierarchical = topo.len() <= 1;
        let mut ind = Individual {
            meta: Metadata {
                topo,
                agg_type,
                name: name.clone(),
                base_rf,
                output_dir_path,
                category: name,
                is_hierarchical,
            },
            content: None,
        };
        ind.refresh_content();
        ind
    }

    /// Makes the content anew, out of the raw description as it stands.
    pub fn refresh_content(&mut self)
        requires
            content_ready(old(self).meta@),
        ensures
            final(self).meta@ == (MetadataView {
                base_rf: if old(self).meta.is_hierarchical {
                    normal_rf(old(self).meta@)
                } else {
                    old(self).meta@.base_rf
                },
                ..old(self).meta@
            }),
            final(self).content is Some,
            final(self).content.unwrap()@ == (ContentView::<O> {
                gen_nb: 0,
                ff: content_ff(
                    if old(self).meta.is_hierarchical {
                        normal_rf(old(self).meta@)
                    } else {
                        hierarchical_rf(old(self).meta@)
                    },
                ),
                previous_outcome: None,
                platform: None,
            }),
    {
        if self.meta.is_hierarchical {
            self.init_content_normal();
        } else {
            self.init_content_hierarchical();
        }
    }

    /// The raw description of this individual as one cluster.
    pub fn normal_rf_of(&self) -> (res: RawFalafels)
        requires
            normal_rf_ready(self.meta@),
        ensures
            res@ == normal_rf(self.meta@),
    {
        let mut rf = self.meta.base_rf.clone();
        rf.clusters[0].topology = self.meta.topo[0];
        rf.clusters[0].aggregators.aggregator_type = self.meta.agg_type;
        assert(rf@.clusters =~= normal_rf(self.meta@).clusters);
        rf
    }

    /// The raw description of this individual as sub-clusters under a
    /// central cluster.
    pub fn hierarchical_rf_of(&self) -> (res: RawFalafels)
        requires
            hierarchical_rf_ready(self.meta@),
        ensures
            res@ == hierarchical_rf(self.meta@),
    {
        let ghost meta = self.meta@;
        let mut rf = self.meta.base_rf.clone();
        let main_cluster = rf.clusters.remove(0);
        let ghost main = main_cluster@;
        let ghost rest = rf.clusters.deep_view();
        proof {
            assert(main == meta.base_rf.clusters[0]);
            assert(rest =~= meta.base_rf.clusters.drop_first());
        }
        let mut nb_trainers = main_cluster.trainers.number;
        let nb_sub_clusters = self.meta.topo.len() as u16;
        nb_trainers -= nb_sub_clusters;
        let nb_trainers_per_sub_cluster = nb_trainers / nb_sub_clusters;
        let ghost subs = meta.topo.map_values(
            |t: ClusterTopology| sub_cluster(main, t, meta.topo.len()),
        );
        let mut i: usize = 0;
        while i < self.meta.topo.len()
            invariant
                i <= self.meta.topo.len(),
                self.meta@ == meta,
                main == main_cluster@,
                hierarchical_rf_ready(meta),
                main == meta.base_rf.clusters[0],
                nb_trainers_per_sub_cluster == trainers_per_sub_cluster(main, meta.topo.len()),
                subs == meta.topo.map_values(
                    |t: ClusterTopology| sub_cluster(main, t, meta.topo.len()),
                ),
                rf.constants@ == meta.base_rf.constants,
                rf.profiles@ == meta.base_rf.profiles,
                rf.platform_specs.deep_view() == meta.base_rf.platform_specs,
                rf.clusters.deep_view() == rest + subs.take(i as int),
            decreases self.meta.topo.len() - i,
        {
            let topology = self.meta.topo[i];
            let mut sub = main_cluster.clone();
            sub.aggregators.aggregator_type = AggregatorType::Hierarchical;
            sub.topology = topology;
            sub.trainers.number = nb_trainers_per_sub_cluster;
            sub.aggregators.host_profiles = match &main_cluster.trainers.host_profiles {
                Some(profiles) => Some(first_of(profiles)),
                None => None,
            };
            sub.aggregators.link_profiles = match &main_cluster.trainers.link_profiles {
                Some(profiles) => Some(first_of(profiles)),
                None => None,
            };
            sub.trainers.host_profiles = match &main_cluster.trainers.host_profiles {
                Some(profiles) => Some(reverse_of(profiles)),
                None => None,
            };
            sub.trainers.link_profiles = match &main_cluster.trainers.link_profiles {
                Some(profiles) => Some(reverse_of(profiles)),
                None => None,
            };
            let ghost prev = rf.clusters.deep_view();
            proof {
                assert(sub@ == sub_cluster(main, topology, meta.topo.len()));
            }
            rf.clusters.push(sub);
            proof {
                assert(rf.clusters.deep_view() =~= prev.push(subs[i as int]));
                assert(subs.take(i + 1) =~= subs.take(i as int).push(subs[i as int]));
            }
            i += 1;
        }
        let mut central = main_cluster;
        central.trainers.number = 0;
        central.trainers.trainer_type = TrainerType::NoTrainer;
        central.topology = ClusterTopology::Hierarchical;
        central.aggregators.aggregator_type = self.meta.agg_type;
        rf.clusters.push(central);
        proof {
            assert(subs.take(i as int) =~= subs);
            assert(rf.clusters.deep_view() =~= hierarchical_rf(meta).clusters);
        }
        rf
    }

    /// Tells whether the content of the individual can be made.
    pub fn is_content_ready(&self) -> (res: bool)
        ensures
            res == content_ready(self.meta@),
    {
        let fryer = Fryer::new(None);
        if self.meta.is_hierarchical {
            if self.meta.base_rf.clusters.len() == 0 || self.meta.topo.len() == 0 {
                return false;
            }
            let rf = self.normal_rf_of();
            fryer.can_fry(&rf)
        } else {
            if self.meta.base_rf.clusters.len() == 0 || self.meta.topo.len() == 0
                || self.meta.topo.len() > 65535 {
                return false;
            }
            let main = &self.meta.base_rf.clusters[0];
            assert(main@ == self.meta@.base_rf.clusters[0]);
            if (main.trainers.number as usize) < self.meta.topo.len() {
                return false;
            }
            let hosts_named = match &main.trainers.host_profiles {
                Some(list) => list.len() > 0,
                None => true,
            };
            let links_named = match &main.trainers.link_profiles {
                Some(list) => list.len() > 0,
                None => true,
            };
            if !hosts_named || !links_named {
                return false;
            }
            let rf = self.hierarchical_rf_of();
            fryer.can_fry(&rf)
        }
    }

    /// Makes the content of an individual of one cluster. The first cluster
    /// of the raw description takes the shape and the kind of the individual.
    pub fn init_content_normal(&mut self)
        requires
            normal_ready(old(self).meta@),
        ensures
            final(self).meta@ == (MetadataView {
                base_rf: normal_rf(old(self).meta@),
                ..old(self).meta@
            }),
            final(self).content is Some,
            final(self).content.unwrap()@ == (ContentView::<O> {
                gen_nb: 0,
                ff: content_ff(normal_rf(old(self).meta@)),
                previous_outcome: None,
                platform: None,
            }),
    {
        self.meta.base_rf = self.normal_rf_of();
        let mut fryer = Fryer::new(None);
        let mut ff = fryer.fry(&self.meta.base_rf);
        proof {
            lemma_fried_keeps_shape(
                FryerView { names: None, count_node: 0 },
                self.meta.base_rf@,
            );
        }
        ff.link_hierarchical_aggregators();
        ff.add_booststrap_nodes();
        self.content = Some(Content { gen_nb: 0, ff, previous_outcome: None, platform: None });
    }

    /// Makes the content of an individual of several clusters: the first
    /// cluster of the raw description is split into one sub-cluster for each
    /// shape, under a central cluster. The raw description itself stays as it
    /// is.
    pub fn init_content_hierarchical(&mut self)
        requires
            hierarchical_ready(old(self).meta@),
        ensures
            final(self).meta@ == old(self).meta@,
            final(self).content is Some,
            final(self).content.unwrap()@ == (ContentView::<O> {
                gen_nb: 0,
                ff: content_ff(hierarchical_rf(old(self).meta@)),
                previous_outcome: None,
                platform: None,
            }),
    {
        let rf = self.hierarchical_rf_of();
        let mut fryer = Fryer::new(None);
        let mut ff = fryer.fry(&rf);
        proof {
            lemma_fried_keeps_shape(FryerView { names: None, count_node: 0 }, rf@);
        }
        ff.link_hierarchical_aggregators();
        ff.add_booststrap_nodes();
        self.content = Some(Content { gen_nb: 0, ff, previous_outcome: None, platform: None });
    }

    /// The file that holds the deployment of the individual.
    pub fn get_ff_path(&self) -> (res: String)
        requires
            self.content is Some,
        ensures
            res@ == generation_file(
                self.meta@.output_dir_path,
                "fried"@,
                self.content.unwrap().gen_nb,
                self.meta@.name,
            ),
    {
        match &self.content {
            Some(content) => generation_file_name(
                &self.meta.output_dir_path,
                "fried",
                content.gen_nb,
                &self.meta.name,
            ),
            None => {
                assert(false);
                String::new()
            },
        }
    }

    /// The file that holds the platform of the individual.
    pub fn get_platform_path(&self) -> (res: String)
        requires
            self.content is Some,
        ensures
            res@ == generation_file(
                self.meta@.output_dir_path,
                "platform"@,
                self.content.unwrap().gen_nb,
                self.meta@.name,
            ),
    {
        match &self.content {
            Some(content) => generation_file_name(
                &self.meta.output_dir_path,
                "platform",
                content.gen_nb,
                &self.meta.name,
            ),
            None => {
                assert(false);
                String::new()
            },
        }
    }
}

/// The platform of an individual: that of the machines given apart from
/// the clusters where there are such, else that of the deployment.
pub open spec fn individual_platform(rf: RawFalafelsView, ff: FriedFalafelsView) -> PlatformView {
    match rf.platform_specs {
        Some(specs) => star_platform(specs_machines(specs.node_profiles), rf.profiles, 0),
        None => star_platform(
            deployed_machines(rf.clusters, ff.clusters, paired(rf.clusters, ff.clusters)),
            rf.profiles,
            0,
        ),
    }
}

/// Whether the platform of an individual can be made.
pub open spec fn platform_ready(rf: RawFalafelsView, ff: FriedFalafelsView) -> bool {
    match rf.platform_specs {
        Some(specs) => specs_known(specs.node_profiles, rf.profiles) && total_number(
            specs.node_profiles,
        ) <= u32::MAX,
        None => (forall|i: int|
            0 <= i < paired(rf.clusters, ff.clusters) ==> cluster_servable(
                #[trigger] rf.clusters[i],
                ff.clusters[i],
                rf.profiles,
            )) && deployed_machines(
            rf.clusters,
            ff.clusters,
            paired(rf.clusters, ff.clusters),
        ).len() <= u32::MAX,
    }
}

/// Generates the platform of a raw description and of the deployment made of
/// it.
pub fn gen_platform(rf: &RawFalafels, ff: &FriedFalafels) -> (res: Platform)
    requires
        platform_ready(rf@, ff@),
    ensures
        res@ == individual_platform(rf@, ff@),
{
    match &rf.platform_specs {
        Some(specs) => {
            let mut platformer = Platformer::new(
                SpecsAndProfiles { specs, profiles: &rf.profiles },
            );
            platformer.create_star_topology()
        },
        None => {
            let mut platformer = Platformer::new(RawAndFried { rf, ff });
            platformer.create_star_topology()
        },
    }
}

/// Tells whether the platform of a raw description and of the deployment
/// made of it can be generated.
pub fn is_platform_ready(rf: &RawFalafels, ff: &FriedFalafels) -> (res: bool)
    ensures
        res == platform_ready(rf@, ff@),
{
    match &rf.platform_specs {
        Some(specs) => {
            let platformer = Platformer::new(SpecsAndProfiles { specs, profiles: &rf.profiles });
            platformer.can_create_star_topology()
        },
        None => {
            let platformer = Platformer::new(RawAndFried { rf, ff });
            platformer.can_create_star_topology()
        },
    }
}

impl<O> Individual<O> {
    /// Tells whether the platform of the individual can be generated.
    pub fn is_platform_ready(&self) -> (res: bool)
        ensures
            res == (self.content is Some && platform_ready(
                self.meta@.base_rf,
                self.content.unwrap()@.ff,
            )),
    {
        match &self.content {
            Some(content) => is_platform_ready(&self.meta.base_rf, &content.ff),
            None => false,
        }
    }

    /// Generates the platform of the individual and keeps it in the content.
    pub fn gen_platform(&mut self)
        requires
            old(self).content is Some,
            platform_ready(old(self).meta@.base_rf, old(self).content.unwrap()@.ff),
        ensures
            final(self).meta@ == old(self).meta@,
            final(self).content is Some,
            final(self).content.unwrap()@ == (ContentView::<O> {
                platform: Some(
                    individual_platform(old(self).meta@.base_rf, old(self).content.unwrap()@.ff),
                ),
                ..old(self).content.unwrap()@
            }),
    {
        match &mut self.content {
            Some(content) => {
                let platform = gen_platform(&self.meta.base_rf, &content.ff);
                content.platform = Some(platform);
            },
            None => {},
        }
    }
}

/// The first reference alone.
fn first_of<T: Clone + DeepView>(refs: &Vec<T>) -> (res: Vec<T>)
    requires
        refs.len() > 0,
        forall|a: T, b: T| cloned::<T>(a, b) ==> a.deep_view() == b.deep_view(),
    ensures
        res.deep_view() == refs.deep_view().subrange(0, 1),
{
    let mut res: Vec<T> = Vec::new();
    let first = refs[0].clone();
    assert(cloned::<T>(refs[0], first));
    res.push(first);
    assert(res.deep_view() =~= refs.deep_view().subrange(0, 1));
    res
}

/// The references in reverse order.
fn reverse_of<T: Clone + DeepView>(refs: &Vec<T>) -> (res: Vec<T>)
    requires
        forall|a: T, b: T| cloned::<T>(a, b) ==> a.deep_view() == b.deep_view(),
    ensures
        res.deep_view() == refs.deep_view().reverse(),
{
    let mut res: Vec<T> = Vec::new();
    let mut i: usize = refs.len();
    while i > 0
        invariant
            i <= refs.len(),
            res.len() == refs.len() - i,
            forall|a: T, b: T| cloned::<T>(a, b) ==> a.deep_view() == b.deep_view(),
            forall|k: int|
                0 <= k < res.len() ==> (#[trigger] res[k]).deep_view() == refs[refs.len() - 1
                    - k].deep_view(),
        decreases i,
    {
        i -= 1;
        let item = refs[i].clone();
        assert(cloned::<T>(refs[i as int], item));
        res.push(item);
    }
    assert(res.deep_view() =~= refs.deep_view().reverse());
    res
}

/// A deployment has the shape of its raw description: as many clusters, of
/// the same shapes, so that its hierarchical clusters are not empty.
pub proof fn lemma_fried_keeps_shape(f: FryerView, rf: RawFalafelsView)
    requires
        can_fry(f, rf),
    ensures
        fried_falafels(f, rf).hierarchical_clusters_have_nodes(),
{
    crate::fryer::fryer::lemma_hierarchical_not_empty(f, rf.clusters);
    let made = FriedFalafelsView {
        version: "0.1"@,
        constants: rf.constants,
        clusters: crate::fryer::fryer::fried_clusters(f, rf.clusters),
    };
    let linked = made.with_hierarchical_links();
    assert(linked.clusters.len() == made.clusters.len());
    assert forall|i: int| 0 <= i < made.clusters.len() implies (#[trigger] linked.clusters[i]).topology
        == made.clusters[i].topology && linked.clusters[i].nodes.len()
        == made.clusters[i].nodes.len() by {}
    let told = linked.with_bootstrap_nodes();
    assert forall|i: int| 0 <= i < told.clusters.len() && (#[trigger] told.clusters[i]).topology
        == ClusterTopology::Hierarchical implies told.clusters[i].nodes.len() > 0 by {
        assert(told.clusters[i] == crate::fryer::structures::fried::bootstrapped_cluster(
            linked.clusters[i],
        ));
        assert(made.clusters[i].topology == rf.clusters[i].topology);
    }
}

} // verus!
