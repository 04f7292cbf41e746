//! Making the individuals that a study starts from.

use crate::beagle::structures::individual::{
    content_ready, hierarchical_rf, normal_rf, ContentView, Individual, Metadata, MetadataView,
};
use crate::fryer::fryer::{Fryer, FryerView};
use crate::fryer::structures::common::{AggregatorType, ClusterTopology};
use crate::fryer::structures::raw::{RawFalafels, RawFalafelsView};
use vstd::prelude::*;

verus! {

/// One combination of cluster shapes and aggregator kind, with its name.
pub struct Category {
    pub name: Seq<char>,
    pub topo: Seq<ClusterTopology>,
    pub agg_type: AggregatorType,
}

/// The combinations that a study compares, in the order in which the
/// individuals are made.
pub open spec fn categories() -> Seq<Category> {
    seq![
        Category {
            name: "StarSimple"@,
            topo: seq![ClusterTopology::Star],
            agg_type: AggregatorType::Simple,
        },
        Category {
            name: "StarAsynchronous"@,
            topo: seq![ClusterTopology::Star],
            agg_type: AggregatorType::Asynchronous,
        },
        Category {
            name: "RingUniSimple"@,
            topo: seq![ClusterTopology::RingUni],
            agg_type: AggregatorType::Simple,
        },
        Category {
            name: "RingUniAsynchronous"@,
            topo: seq![ClusterTopology::RingUni],
            agg_type: AggregatorType::Asynchronous,
        },
        Category {
            name: "StarStarHierarchical"@,
            topo: seq![ClusterTopology::Star, ClusterTopology::Star],
            agg_type: AggregatorType::Simple,
        },
        Category {
            name: "StarStarHierarchicalAsync"@,
            topo: seq![ClusterTopology::Star, ClusterTopology::Star],
            agg_type: AggregatorType::Asynchronous,
        },
        Category {
            name: "RingUniRingUniHierarchical"@,
            topo: seq![ClusterTopology::RingUni, ClusterTopology::RingUni],
            agg_type: AggregatorType::Simple,
        },
        Category {
            name: "RingUniRingUniHierarchicalAsync"@,
            topo: seq![ClusterTopology::RingUni, ClusterTopology::RingUni],
            agg_type: AggregatorType::Asynchronous,
        },
    ]
}

/// What describes the individual of a category, before its content is made.
pub open spec fn category_meta(c: Category, base_rf: RawFalafelsView, output_dir: Seq<char>) -> MetadataView {
    MetadataView {
        name: c.name,
        category: c.name,
        output_dir_path: output_dir,
        topo: c.topo,
        agg_type: c.agg_type,
        base_rf,
        is_hierarchical: c.topo.len() <= 1,
    }
}

/// Whether `ind` is the individual of the category, made of `base_rf`.
pub open spec fn is_individual_of<O>(
    ind: Individual<O>,
    c: Category,
    base_rf: RawFalafelsView,
    output_dir: Seq<char>,
) -> bool {
    let meta = category_meta(c, base_rf, output_dir);
    &&& ind.meta@ == (MetadataView {
        base_rf: if c.topo.len() <= 1 {
            normal_rf(meta)
        } else {
            base_rf
        },
        ..meta
    })
    &&& ind.content is Some
    &&& ind.content.unwrap()@ == (ContentView::<O> {
        gen_nb: 0,
        ff: crate::beagle::structures::individual::content_ff(
            if c.topo.len() <= 1 {
                normal_rf(meta)
            } else {
                hierarchical_rf(meta)
            },
        ),
        previous_outcome: None,
        platform: None,
    })
}

/// Makes individuals out of one raw description.
#[derive(Debug)]
pub struct IndividualFactory {
    pub fryer: Fryer,
    /// The raw description that every individual is made of.
    pub base_rf: RawFalafels,
    pub generation_number: u32,
    pub output_dir: String,
}

impl IndividualFactory {
    pub fn new(base_rf: RawFalafels, output_dir: &str) -> (res: IndividualFactory)
        ensures
            res.fryer@ == (FryerView { names: None, count_node: 0 }),
            res.base_rf@ == base_rf@,
            res.generation_number == 0,
            res.output_dir@ == output_dir@,
    {
        let fryer = Fryer::new(None);
        IndividualFactory { fryer, base_rf, generation_number: 0, output_dir: output_dir.to_string() }
    }

    /// Whether the individual of every category can be made.
    pub open spec fn ready(&self) -> bool {
        forall|k: int|
            0 <= k < categories().len() ==> content_ready(
                category_meta(#[trigger] categories()[k], self.base_rf@, self.output_dir@),
            )
    }

    /// Tells whether the individual of one category can be made.
    fn category_is_ready(&self, topo: Vec<ClusterTopology>, agg_type: AggregatorType, name: &str) -> (res:
        bool)
        ensures
            res == content_ready(
                category_meta(
                    Category { name: name@, topo: topo@, agg_type },
                    self.base_rf@,
                    self.output_dir@,
                ),
            ),
    {
        let is_hierarchical = topo.len() <= 1;
        let candidate: Individual<bool> = Individual {
            meta: Metadata {
                name: name.to_string(),
                category: name.to_string(),
                output_dir_path: self.output_dir.clone(),
                topo,
                agg_type,
                base_rf: self.base_rf.clone(),
                is_hierarchical,
            },
            content: None,
        };
        candidate.is_content_ready()
    }

    /// Tells whether the individual of every category can be made.
    pub fn is_ready(&self) -> (res: bool)
        ensures
            res == self.ready(),
    {
        let star_simple = self.category_is_ready(
            one(ClusterTopology::Star),
            AggregatorType::Simple,
            "StarSimple",
        );
        let star_async = self.category_is_ready(
            one(ClusterTopology::Star),
            AggregatorType::Asynchronous,
            "StarAsynchronous",
        );
        let ring_simple = self.category_is_ready(
            one(ClusterTopology::RingUni),
            AggregatorType::Simple,
            "RingUniSimple",
        );
        let ring_async = self.category_is_ready(
            one(ClusterTopology::RingUni),
            AggregatorType::Asynchronous,
            "RingUniAsynchronous",
        );
        let stars_simple = self.category_is_ready(
            two(ClusterTopology::Star),
            AggregatorType::Simple,
            "StarStarHierarchical",
        );
        let stars_async = self.category_is_ready(
            two(ClusterTopology::Star),
            AggregatorType::Asynchronous,
            "StarStarHierarchicalAsync",
        );
        let rings_simple = self.category_is_ready(
            two(ClusterTopology::RingUni),
            AggregatorType::Simple,
            "RingUniRingUniHierarchical",
        );
        let rings_async = self.category_is_ready(
            two(ClusterTopology::RingUni),
            AggregatorType::Asynchronous,
            "RingUniRingUniHierarchicalAsync",
        );
        proof {
            assert(categories().len() == 8);
            let ready = |k: int|
                content_ready(category_meta(categories()[k], self.base_rf@, self.output_dir@));
            assert(star_simple == ready(0));
            assert(star_async == ready(1));
            assert(ring_simple == ready(2));
            assert(ring_async == ready(3));
            assert(stars_simple == ready(4));
            assert(stars_async == ready(5));
            assert(rings_simple == ready(6));
            assert(rings_async == ready(7));
        }
        star_simple && star_async && ring_simple && ring_async && stars_simple && stars_async
            && rings_simple && rings_async
    }

    /// Makes the individual of one category.
    fn init_individual<O>(
        &self,
        topo: Vec<ClusterTopology>,
        agg_type: AggregatorType,
        name: &str,
    ) -> (res: Individual<O>)
        requires
            content_ready(
                category_meta(
                    Category { name: name@, topo: topo@, agg_type },
                    self.base_rf@,
                    self.output_dir@,
                ),
            ),
        ensures
            is_individual_of(
                res,
                Category { name: name@, topo: topo@, agg_type },
                self.base_rf@,
                self.output_dir@,
            ),
    {
        Individual::new(
            self.base_rf.clone(),
            topo,
            agg_type,
            name.to_string(),
            self.output_dir.clone(),
        )
    }

    /// Makes one individual of each category.
    pub fn init_individuals<O>(&mut self) -> (res: Vec<Individual<O>>)
        requires
            old(self).ready(),
        ensures
            final(self).base_rf@ == old(self).base_rf@,
            final(self).output_dir@ == old(self).output_dir@,
            final(self).generation_number == old(self).generation_number,
            res.len() == categories().len(),
            forall|k: int|
                0 <= k < res.len() ==> is_individual_of(
                    #[trigger] res[k],
                    categories()[k],
                    old(self).base_rf@,
                    old(self).output_dir@,
                ),
    {
        let mut individuals: Vec<Individual<O>> = Vec::new();
        proof {
            assert(categories().len() == 8);
            assert(content_ready(category_meta(categories()[0], self.base_rf@, self.output_dir@)));
            assert(content_ready(category_meta(categories()[1], self.base_rf@, self.output_dir@)));
            assert(content_ready(category_meta(categories()[2], self.base_rf@, self.output_dir@)));
            assert(content_ready(category_meta(categories()[3], self.base_rf@, self.output_dir@)));
            assert(content_ready(category_meta(categories()[4], self.base_rf@, self.output_dir@)));
            assert(content_ready(category_meta(categories()[5], self.base_rf@, self.output_dir@)));
            assert(content_ready(category_meta(categories()[6], self.base_rf@, self.output_dir@)));
            assert(content_ready(category_meta(categories()[7], self.base_rf@, self.output_dir@)));
        }
        individuals.push(
            self.init_individual(one(ClusterTopology::Star), AggregatorType::Simple, "StarSimple"),
        );
        individuals.push(
            self.init_individual(
                one(ClusterTopology::Star),
                AggregatorType::Asynchronous,
                "StarAsynchronous",
            ),
        );
        individuals.push(
            self.init_individual(
                one(ClusterTopology::RingUni),
                AggregatorType::Simple,
                "RingUniSimple",
            ),
        );
        individuals.push(
            self.init_individual(
                one(ClusterTopology::RingUni),
                AggregatorType::Asynchronous,
                "RingUniAsynchronous",
            ),
        );
        individuals.push(
            self.init_individual(
                two(ClusterTopology::Star),
                AggregatorType::Simple,
                "StarStarHierarchical",
            ),
        );
        individuals.push(
            self.init_individual(
                two(ClusterTopology::Star),
                AggregatorType::Asynchronous,
                "StarStarHierarchicalAsync",
            ),
        );
        individuals.push(
            self.init_individual(
                two(ClusterTopology::RingUni),
                AggregatorType::Simple,
                "RingUniRingUniHierarchical",
            ),
        );
        individuals.push(
            self.init_individual(
                two(ClusterTopology::RingUni),
                AggregatorType::Asynchronous,
                "RingUniRingUniHierarchicalAsync",
            ),
        );
        individuals
    }
}

/// A list of one cluster shape.
fn one(topology: ClusterTopology) -> (res: Vec<ClusterTopology>)
    ensures
        res@ == seq![topology],
{
    let mut res: Vec<ClusterTopology> = Vec::new();
    res.push(topology);
    res
}

/// A list of two clusters of the same shape.
fn two(topology: ClusterTopology) -> (res: Vec<ClusterTopology>)
    ensures
        res@ == seq![topology, topology],
{
    let mut res: Vec<ClusterTopology> = Vec::new();
    res.push(topology);
    res.push(topology);
    res
}

} // verus!
