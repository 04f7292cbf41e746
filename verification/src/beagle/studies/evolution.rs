//! The criteria by which an evolution study ranks its individuals.

use crate::beagle::structures::individual::{
    content_ff, content_ready, hierarchical_rf, normal_rf, lemma_fried_keeps_shape, ContentView,
    Individual, MetadataView,
};
use crate::fryer::fryer::FryerView;
use crate::fryer::structures::fried::{
    lemma_links_keep_shape, lemma_renamed_keeps_shape, lemma_same_shape_nodes, FriedFalafelsView,
    ThresholdVariation,
};
use crate::fryer::structures::raw;
use crate::fryer::structures::raw::{
    settled_variation, total_number, RawFalafelsView, MAX_VARIED_TOTAL,
};
use crate::text::{decimal, u32_to_string};
use rand::rngs::StdRng;
use vstd::prelude::*;

verus! {

/// What an evolution study minimises.
#[derive(Clone, Copy, Debug, PartialEq, Eq, Structural)]
pub enum EvolutionCriteria {
    TotalConsumption,
    SimulationTime,
}

impl EvolutionCriteria {
    /// The name of the criteria, as it is given on the command line.
    pub open spec fn name(self) -> Seq<char> {
        match self {
            EvolutionCriteria::SimulationTime => "simulation_time"@,
            EvolutionCriteria::TotalConsumption => "total_consumption"@,
        }
    }

    /// The criteria of that name, if it is the name of one.
    pub open spec fn named(name: Seq<char>) -> Option<EvolutionCriteria> {
        if name == "total_consumption"@ {
            Some(EvolutionCriteria::TotalConsumption)
        } else if name == "simulation_time"@ {
            Some(EvolutionCriteria::SimulationTime)
        } else {
            None
        }
    }

    /// Writes the name of the criteria.
    pub fn to_string(&self) -> (res: String)
        ensures
            res@ == self.name(),
    {
        match self {
            EvolutionCriteria::SimulationTime => "simulation_time".to_string(),
            EvolutionCriteria::TotalConsumption => "total_consumption".to_string(),
        }
    }

    /// Reads the name of a criteria.
    pub fn from_name(name: &str) -> (res: Option<EvolutionCriteria>)
        ensures
            res == Self::named(name@),
    {
        let given = name.to_string();
        if given == "total_consumption".to_string() {
            Some(EvolutionCriteria::TotalConsumption)
        } else if given == "simulation_time".to_string() {
            Some(EvolutionCriteria::SimulationTime)
        } else {
            None
        }
    }
}

/// Number of individuals that survive a generation out of `len`: the worse
/// half is deleted, rounded down.
pub open spec fn survivors(len: nat) -> nat {
    (len - len / 2) as nat
}

/// Number of individuals to keep out of `len` ranked ones.
pub fn number_of_survivors(len: usize) -> (res: usize)
    ensures
        res == survivors(len as nat),
        res <= len,
{
    len - len / 2
}

/// Number of pairs of node names to exchange in a deployment of `nodes`
/// nodes: one for every five nodes.
pub fn number_of_permutations(nodes: usize) -> (res: u32)
    requires
        nodes <= u32::MAX,
    ensures
        res == nodes / 5,
{
    (nodes / 5) as u32
}

/// Why an individual could not be mutated.
#[derive(Clone, Copy, Debug, PartialEq, Eq, Structural)]
pub enum EvolutionError {
    /// The machines of the individual cannot be varied: they are not given
    /// apart from the clusters, or there are too many or too few of them.
    CannotVaryMachines,
    /// With its machines varied, the content of the individual cannot be
    /// made.
    ContentNotReady,
    /// The number of local epochs of an aggregator is no number that can be
    /// varied.
    InvalidLocalEpochs,
    /// The deployment has more nodes than can be numbered.
    TooManyNodes,
}

/// Whether the machines of an individual can be varied for the generation
/// after `gen_nb`, whatever is drawn.
pub open spec fn can_vary_machines(meta: MetadataView, gen_nb: u32) -> bool {
    &&& gen_nb < u32::MAX
    &&& meta.base_rf.platform_specs is Some
    &&& meta.base_rf.platform_specs.unwrap().node_profiles.len() > 0
    &&& total_number(meta.base_rf.platform_specs.unwrap().node_profiles) <= MAX_VARIED_TOTAL
    &&& meta.base_rf.clusters.len() > 0
    &&& 2 <= meta.base_rf.clusters[0].trainers.number <= u16::MAX - 2
}

/// The name of a mutated individual: its former name, then the number of
/// its generation.
pub open spec fn mutated_name(name: Seq<char>, gen_nb: u32) -> Seq<char> {
    name + "_"@ + decimal((gen_nb + 1) as nat)
}

/// What describes an individual after its machines have been varied, when
/// the profile at `index` and the variation `drawn` were drawn: the profile
/// has the machines that the variation settles on, and the first cluster
/// has as many trainers more or less.
pub open spec fn varied_meta(meta: MetadataView, index: int, drawn: i16, gen_nb: u32) -> MetadataView {
    let specs = meta.base_rf.platform_specs.unwrap();
    let applied = settled_variation(
        total_number(specs.node_profiles),
        specs.node_profiles[index].number,
        drawn,
    );
    let main = meta.base_rf.clusters[0];
    MetadataView {
        name: mutated_name(meta.name, gen_nb),
        base_rf: RawFalafelsView {
            platform_specs: Some(specs.varied(index, drawn)),
            clusters: meta.base_rf.clusters.update(
                0,
                raw::ClusterView {
                    trainers: raw::TrainersView {
                        number: (main.trainers.number + applied) as u16,
                        ..main.trainers
                    },
                    ..main
                },
            ),
            ..meta.base_rf
        },
        ..meta
    }
}

/// What describes an individual after its content has been made anew.
pub open spec fn refreshed_meta(meta: MetadataView) -> MetadataView {
    MetadataView {
        base_rf: if meta.is_hierarchical {
            normal_rf(meta)
        } else {
            meta.base_rf
        },
        ..meta
    }
}

/// The deployment of an individual whose content has just been made.
pub open spec fn fresh_ff(meta: MetadataView) -> FriedFalafelsView {
    content_ff(
        if meta.is_hierarchical {
            normal_rf(meta)
        } else {
            hierarchical_rf(meta)
        },
    )
}

/// Whether `result` is a mutation of the deployment `fresh`, with the
/// variations of the proportion thresholds that go with it: every
/// aggregator is mutated, the names of some nodes are exchanged, and then
/// the hierarchical aggregators are linked and the nodes told where to
/// bootstrap from.
pub open spec fn mutated_deployment(
    fresh: FriedFalafelsView,
    variations: Seq<ThresholdVariation>,
    result: FriedFalafelsView,
) -> bool {
    exists|mutated: FriedFalafelsView, names: Seq<Seq<char>>|
        {
            &&& fresh.mutated_to(mutated)
            &&& fresh.variations_cover(variations)
            &&& names.to_multiset() == mutated.node_names().to_multiset()
            &&& result == (#[trigger] mutated.with_node_names(
                names,
            )).with_hierarchical_links().with_bootstrap_nodes()
        }
}

impl<O> Individual<O> {
    /// Tells whether the machines of the individual can be varied.
    pub fn can_vary_machines(&self, gen_nb: u32) -> (res: bool)
        ensures
            res == can_vary_machines(self.meta@, gen_nb),
    {
        if gen_nb == u32::MAX || self.meta.base_rf.clusters.len() == 0 {
            return false;
        }
        let main = &self.meta.base_rf.clusters[0];
        assert(main@ == self.meta@.base_rf.clusters[0]);
        if main.trainers.number < 2 || main.trainers.number > 65533 {
            return false;
        }
        match &self.meta.base_rf.platform_specs {
            Some(specs) => {
                let ghost all = specs@.node_profiles;
                let mut total: u64 = 0;
                let mut i: usize = 0;
                assert(all.take(0) =~= Seq::empty());
                while i < specs.node_profiles.len()
                    invariant
                        i <= specs.node_profiles.len(),
                        all == specs@.node_profiles,
                        total == total_number(all.take(i as int)) || (total == u64::MAX
                            && total_number(all.take(i as int)) > u64::MAX),
                    decreases specs.node_profiles.len() - i,
                {
                    proof {
                        raw::lemma_total_number_take(all, i as int);
                        assert(all[i as int] == specs.node_profiles[i as int]@);
                    }
                    total = total.saturating_add(specs.node_profiles[i].number as u64);
                    i += 1;
                }
                assert(all.take(i as int) =~= all);
                specs.node_profiles.len() > 0 && total <= 32765
            },
            None => false,
        }
    }

    /// Varies the machines of the individual for the generation after
    /// `gen_nb`: the individual is renamed, one of its node profiles, drawn
    /// at random, gets up to two machines more or less, and its first
    /// cluster as many trainers more or less. The content is left as it is.
    pub fn vary_machines(&mut self, rng: &mut StdRng, gen_nb: u32) -> (res: i16)
        requires
            can_vary_machines(old(self).meta@, gen_nb),
        ensures
            final(self).content == old(self).content,
            exists|index: int, drawn: i16|
                {
                    &&& 0 <= index < old(self).meta@.base_rf.platform_specs.unwrap().node_profiles.len()
                    &&& -2 <= drawn <= 2
                    &&& final(self).meta@ == #[trigger] varied_meta(
                        old(self).meta@,
                        index,
                        drawn,
                        gen_nb,
                    )
                    &&& res == settled_variation(
                        total_number(old(self).meta@.base_rf.platform_specs.unwrap().node_profiles),
                        old(
                            self,
                        ).meta@.base_rf.platform_specs.unwrap().node_profiles[index].number,
                        drawn,
                    )
                },
    {
        let ghost before = self.meta@;
        let number = u32_to_string(gen_nb + 1);
        self.meta.name = self.meta.name.clone().concat("_").concat(number.as_str());
        let incr_nb = match &mut self.meta.base_rf.platform_specs {
            Some(specs) => specs.vary_random_profiles(rng),
            None => 0,
        };
        let trainers = self.meta.base_rf.clusters[0].trainers.number;
        proof {
            assert(self.meta.base_rf.clusters[0]@ == before.base_rf.clusters[0]);
        }
        if incr_nb < 0 {
            self.meta.base_rf.clusters[0].trainers.number = trainers - ((-incr_nb) as u16);
        } else {
            self.meta.base_rf.clusters[0].trainers.number = trainers + incr_nb as u16;
        }
        proof {
            let specs = before.base_rf.platform_specs.unwrap();
            let (index, drawn) = choose|index: int, drawn: i16|
                {
                    &&& 0 <= index < specs.node_profiles.len()
                    &&& -2 <= drawn <= 2
                    &&& self.meta@.base_rf.platform_specs.unwrap() == #[trigger] specs.varied(
                        index,
                        drawn,
                    )
                    &&& incr_nb == settled_variation(
                        total_number(specs.node_profiles),
                        specs.node_profiles[index].number,
                        drawn,
                    )
                };
            assert(self.meta@.base_rf.clusters =~= varied_meta(
                before,
                index,
                drawn,
                gen_nb,
            ).base_rf.clusters);
            assert(self.meta@ == varied_meta(before, index, drawn, gen_nb));
        }
        incr_nb
    }

    /// Mutates the individual for the generation after `gen_nb`: its
    /// machines are varied, its content is made anew, every aggregator of
    /// the new deployment is mutated, the names of one pair of nodes for
    /// every five nodes are exchanged, and the deployment is linked again.
    /// Returns the variations drawn for the proportion thresholds of the
    /// asynchronous aggregators. Where a step cannot be made the mutation
    /// stops there, and the error tells at which step.
    pub fn mutate(&mut self, rng: &mut StdRng, gen_nb: u32) -> (res: Result<
        Vec<ThresholdVariation>,
        EvolutionError,
    >)
        ensures
            res == Err::<Vec<ThresholdVariation>, EvolutionError>(
                EvolutionError::CannotVaryMachines,
            ) <==> !can_vary_machines(old(self).meta@, gen_nb),
            !can_vary_machines(old(self).meta@, gen_nb) ==> *final(self) == *old(self),
            can_vary_machines(old(self).meta@, gen_nb) ==> exists|index: int, drawn: i16|
                {
                    let varied = #[trigger] varied_meta(old(self).meta@, index, drawn, gen_nb);
                    &&& 0 <= index < old(self).meta@.base_rf.platform_specs.unwrap().node_profiles.len()
                    &&& -2 <= drawn <= 2
                    &&& match res {
                        Err(EvolutionError::ContentNotReady) => {
                            &&& !content_ready(varied)
                            &&& final(self).meta@ == varied
                            &&& final(self).content == old(self).content
                        },
                        Err(EvolutionError::InvalidLocalEpochs) => {
                            &&& content_ready(varied)
                            &&& final(self).meta@ == refreshed_meta(varied)
                            &&& !fresh_ff(varied).mutable()
                            &&& final(self).content is Some
                            &&& final(self).content.unwrap()@ == (ContentView::<O> {
                                gen_nb: 0,
                                ff: fresh_ff(varied),
                                previous_outcome: None,
                                platform: None,
                            })
                        },
                        Err(EvolutionError::TooManyNodes) => {
                            &&& content_ready(varied)
                            &&& final(self).meta@ == refreshed_meta(varied)
                            &&& fresh_ff(varied).number_nodes() > u32::MAX
                        },
                        Err(EvolutionError::CannotVaryMachines) => false,
                        Ok(variations) => {
                            &&& content_ready(varied)
                            &&& final(self).meta@ == refreshed_meta(varied)
                            &&& final(self).content is Some
                            &&& final(self).content.unwrap().gen_nb == 0
                            &&& final(self).content.unwrap().previous_outcome is None
                            &&& final(self).content.unwrap().platform is None
                            &&& mutated_deployment(
                                fresh_ff(varied),
                                variations@,
                                final(self).content.unwrap().ff@,
                            )
                        },
                    }
                },
    {
        if !self.can_vary_machines(gen_nb) {
            return Err(EvolutionError::CannotVaryMachines);
        }
        let ghost before = self.meta@;
        let _ = self.vary_machines(rng, gen_nb);
        let ghost varied = self.meta@;
        if !self.is_content_ready() {
            return Err(EvolutionError::ContentNotReady);
        }
        self.refresh_content();
        proof {
            lemma_fresh_has_nodes(varied);
        }
        let ghost fresh = fresh_ff(varied);
        match &mut self.content {
            Some(content) => {
                let nodes = match content.ff.checked_number_nodes() {
                    Some(n) => n,
                    None => {
                        return Err(EvolutionError::TooManyNodes);
                    },
                };
                if nodes > u32::MAX as usize {
                    return Err(EvolutionError::TooManyNodes);
                }
                let variations = match content.ff.try_mutate_nodes(rng) {
                    Ok(v) => v,
                    Err(_) => {
                        return Err(EvolutionError::InvalidLocalEpochs);
                    },
                };
                let ghost mutated = content.ff@;
                proof {
                    crate::fryer::structures::fried::lemma_node_names_len(fresh.clusters);
                    crate::fryer::structures::fried::lemma_node_names_len(mutated.clusters);
                    lemma_same_count(fresh.clusters, mutated.clusters);
                }
                let nb_permut = number_of_permutations(nodes);
                content.ff.permute_node_names(rng, nb_permut);
                let ghost names = content.ff@.node_names();
                proof {
                    lemma_renamed_keeps_shape(mutated.clusters, names);
                    lemma_same_shape_nodes(content.ff@, fresh);
                }
                content.ff.link_hierarchical_aggregators();
                content.ff.add_booststrap_nodes();
                proof {
                    assert(content.ff@ == mutated.with_node_names(
                        names,
                    ).with_hierarchical_links().with_bootstrap_nodes());
                    assert(mutated_deployment(fresh, variations@, content.ff@));
                }
                Ok(variations)
            },
            None => {
                assert(false);
                Err(EvolutionError::ContentNotReady)
            },
        }
    }
}

/// The deployment of a fresh content has no empty hierarchical cluster.
pub proof fn lemma_fresh_has_nodes(meta: MetadataView)
    requires
        content_ready(meta),
    ensures
        fresh_ff(meta).hierarchical_clusters_have_nodes(),
{
    let f = FryerView { names: None, count_node: 0 };
    let rf = if meta.is_hierarchical {
        normal_rf(meta)
    } else {
        hierarchical_rf(meta)
    };
    lemma_fried_keeps_shape(f, rf);
    lemma_links_keep_shape(crate::fryer::fryer::fried_falafels(f, rf));
    lemma_same_shape_nodes(fresh_ff(meta), crate::fryer::fryer::fried_falafels(f, rf));
}

/// Clusters of the same shape have as many nodes in all.
pub proof fn lemma_same_count(
    a: Seq<crate::fryer::structures::fried::ClusterView>,
    b: Seq<crate::fryer::structures::fried::ClusterView>,
)
    requires
        a.len() == b.len(),
        forall|i: int| 0 <= i < a.len() ==> (#[trigger] a[i]).nodes.len() == b[i].nodes.len(),
    ensures
        crate::fryer::structures::fried::count_nodes(a)
            == crate::fryer::structures::fried::count_nodes(b),
    decreases a.len(),
{
    if a.len() > 0 {
        lemma_same_count(a.drop_last(), b.drop_last());
    }
}

} // verus!
