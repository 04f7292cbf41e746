use falafels::beagle::individual_factory::IndividualFactory;
use falafels::beagle::structures::base::Clusters;
use falafels::beagle::structures::individual::{
    generation_file_name, gen_platform, is_platform_ready, Individual,
};
use falafels::beagle::studies::evolution::{
    number_of_permutations, number_of_survivors, EvolutionCriteria, EvolutionError,
};
use falafels::beagle::studies::{InputFiles, StudyBase};
use falafels::fryer::structures::common::{
    AggregatorType, ClusterTopology, Constants, TrainerType,
};
use falafels::fryer::structures::fried::{FriedFalafels, NodeRole};
use falafels::fryer::structures::raw;
use rand::rngs::StdRng;
use rand::SeedableRng;

fn profiles() -> raw::Profiles {
    raw::Profiles {
        host_profiles: vec![
            raw::HostProfile {
                name: "h1".to_string(),
                speed: "1Gf".to_string(),
                core: None,
                pstate: None,
                props: vec![],
            },
            raw::HostProfile {
                name: "h2".to_string(),
                speed: "2Gf".to_string(),
                core: None,
                pstate: None,
                props: vec![],
            },
        ],
        link_profiles: vec![raw::LinkProfile {
            name: "l1".to_string(),
            bandwidth: "1MBps".to_string(),
            latency: "1ms".to_string(),
            sharing_policy: None,
            props: vec![],
        }],
    }
}

fn base_rf(trainers: u16, with_specs: bool) -> raw::RawFalafels {
    raw::RawFalafels {
        constants: Constants { list: vec![] },
        profiles: profiles(),
        clusters: vec![raw::Cluster {
            topology: ClusterTopology::Star,
            trainers: raw::Trainers {
                number: trainers,
                trainer_type: TrainerType::Simple,
                host_profiles: Some(vec![
                    raw::HostProfileRef { name: "h1".to_string() },
                    raw::HostProfileRef { name: "h2".to_string() },
                ]),
                link_profiles: Some(vec![raw::LinkProfileRef { name: "l1".to_string() }]),
                network_manager: None,
                args: None,
            },
            aggregators: raw::Aggregators {
                number: 1,
                aggregator_type: AggregatorType::Simple,
                host_profiles: Some(vec![raw::HostProfileRef { name: "h2".to_string() }]),
                link_profiles: Some(vec![raw::LinkProfileRef { name: "l1".to_string() }]),
                network_manager: None,
                args: None,
            },
        }],
        platform_specs: if with_specs {
            Some(raw::PlatformSpecs {
                node_profiles: vec![raw::NodeProfile {
                    number: trainers + 1,
                    host_profile: raw::HostProfileRef { name: "h1".to_string() },
                    link_profile: raw::LinkProfileRef { name: "l1".to_string() },
                }],
            })
        } else {
            None
        },
    }
}

fn shapes(ff: &FriedFalafels) -> Vec<(ClusterTopology, usize)> {
    ff.clusters.iter().map(|c| (c.topology, c.nodes.len())).collect()
}

#[test]
fn individual_of_one_cluster_takes_shape_and_kind() {
    let ind: Individual<u8> = Individual::new(
        base_rf(4, false),
        vec![ClusterTopology::RingUni],
        AggregatorType::Asynchronous,
        "RingUniAsynchronous".to_string(),
        "out".to_string(),
    );
    assert_eq!(ind.meta.name, "RingUniAsynchronous");
    assert_eq!(ind.meta.category, "RingUniAsynchronous");
    assert!(ind.meta.is_hierarchical);
    assert!(ind.is_content_ready());
    assert_eq!(ind.meta.base_rf.clusters[0].topology, ClusterTopology::RingUni);
    assert_eq!(ind.meta.base_rf.clusters[0].aggregators.aggregator_type, AggregatorType::Asynchronous);
    let content = ind.content.as_ref().unwrap();
    assert_eq!(content.gen_nb, 0);
    assert!(content.previous_outcome.is_none());
    assert!(content.platform.is_none());
    assert_eq!(shapes(&content.ff), [(ClusterTopology::RingUni, 5)]);
    assert_eq!(ind.get_ff_path(), "out/fried/GEN-0-RingUniAsynchronous.xml");
    assert_eq!(ind.get_platform_path(), "out/platform/GEN-0-RingUniAsynchronous.xml");
    assert_eq!(
        generation_file_name(&"d".to_string(), "logs", 4294967295, &"x".to_string()),
        "d/logs/GEN-4294967295-x.xml"
    );
}

#[test]
fn individual_of_several_clusters_is_split_under_a_central_cluster() {
    let ind: Individual<u8> = Individual::new(
        base_rf(9, false),
        vec![ClusterTopology::Star, ClusterTopology::RingUni],
        AggregatorType::Simple,
        "mixed".to_string(),
        "out".to_string(),
    );
    assert!(!ind.meta.is_hierarchical);
    // the raw description itself is left as it was
    assert_eq!(ind.meta.base_rf.clusters.len(), 1);
    assert_eq!(ind.meta.base_rf.clusters[0].trainers.number, 9);
    let rf = ind.hierarchical_rf_of();
    assert_eq!(rf.clusters.len(), 3);
    // nine trainers less two aggregators, shared out: three each
    assert_eq!(rf.clusters[0].trainers.number, 3);
    assert_eq!(rf.clusters[1].trainers.number, 3);
    assert_eq!(rf.clusters[0].topology, ClusterTopology::Star);
    assert_eq!(rf.clusters[1].topology, ClusterTopology::RingUni);
    assert_eq!(rf.clusters[0].aggregators.aggregator_type, AggregatorType::Hierarchical);
    let agg_hosts: Vec<&str> = rf.clusters[0]
        .aggregators
        .host_profiles
        .as_ref()
        .unwrap()
        .iter()
        .map(|r| r.name.as_str())
        .collect();
    assert_eq!(agg_hosts, ["h1"]);
    let trainer_hosts: Vec<&str> = rf.clusters[1]
        .trainers
        .host_profiles
        .as_ref()
        .unwrap()
        .iter()
        .map(|r| r.name.as_str())
        .collect();
    assert_eq!(trainer_hosts, ["h2", "h1"]);
    assert_eq!(rf.clusters[2].topology, ClusterTopology::Hierarchical);
    assert_eq!(rf.clusters[2].trainers.number, 0);
    assert_eq!(rf.clusters[2].trainers.trainer_type, TrainerType::NoTrainer);
    assert_eq!(rf.clusters[2].aggregators.aggregator_type, AggregatorType::Simple);

    let ff = &ind.content.as_ref().unwrap().ff;
    assert_eq!(
        shapes(ff),
        [(ClusterTopology::Star, 4), (ClusterTopology::RingUni, 4), (ClusterTopology::Hierarchical, 1)]
    );
    match &ff.clusters[0].nodes[3].role {
        NodeRole::Aggregator(a) => {
            let central = FriedFalafels::get_arg(&a.args, "central_aggregator_name").unwrap();
            assert_eq!(central.value, "Node 9");
        }
        _ => panic!("expected an aggregator"),
    }
}

#[test]
fn content_that_cannot_be_made_is_found_out() {
    let mut ind: Individual<u8> = Individual::new(
        base_rf(4, false),
        vec![ClusterTopology::Star, ClusterTopology::Star],
        AggregatorType::Simple,
        "x".to_string(),
        "out".to_string(),
    );
    assert!(ind.is_content_ready());
    // one trainer cannot be shared out among two sub-clusters
    ind.meta.base_rf.clusters[0].trainers.number = 1;
    assert!(!ind.is_content_ready());
    ind.meta.base_rf.clusters[0].trainers.number = 4;
    ind.meta.base_rf.clusters[0].trainers.host_profiles = Some(vec![]);
    assert!(!ind.is_content_ready());
    ind.meta.base_rf.clusters.clear();
    assert!(!ind.is_content_ready());
    ind.meta.is_hierarchical = true;
    assert!(!ind.is_content_ready());
}

#[test]
fn platform_of_an_individual_follows_the_specs_if_there_are_any() {
    let mut with: Individual<u8> = Individual::new(
        base_rf(3, true),
        vec![ClusterTopology::Star],
        AggregatorType::Simple,
        "a".to_string(),
        "out".to_string(),
    );
    assert!(with.is_platform_ready());
    with.gen_platform();
    let platform = with.content.as_ref().unwrap().platform.as_ref().unwrap();
    let speeds: Vec<&str> = platform.zone.hosts.iter().map(|h| h.speed.as_str()).collect();
    assert_eq!(speeds, ["1Gf", "1Gf", "1Gf", "1Gf"]);

    let mut without: Individual<u8> = Individual::new(
        base_rf(3, false),
        vec![ClusterTopology::Star],
        AggregatorType::Simple,
        "b".to_string(),
        "out".to_string(),
    );
    assert!(without.is_platform_ready());
    without.gen_platform();
    let content = without.content.as_ref().unwrap();
    let platform = content.platform.as_ref().unwrap();
    let speeds: Vec<&str> = platform.zone.hosts.iter().map(|h| h.speed.as_str()).collect();
    assert_eq!(speeds, ["1Gf", "2Gf", "1Gf", "2Gf"]);
    assert!(is_platform_ready(&without.meta.base_rf, &content.ff));
    assert_eq!(gen_platform(&without.meta.base_rf, &content.ff).zone.links.len(), 4);
    without.content = None;
    assert!(!without.is_platform_ready());
}

#[test]
fn factory_makes_one_individual_of_each_category() {
    let mut factory = IndividualFactory::new(base_rf(8, false), "out");
    assert_eq!(factory.generation_number, 0);
    assert_eq!(factory.output_dir, "out");
    let individuals: Vec<Individual<u8>> = factory.init_individuals();
    let names: Vec<&str> = individuals.iter().map(|i| i.meta.name.as_str()).collect();
    assert_eq!(
        names,
        [
            "StarSimple",
            "StarAsynchronous",
            "RingUniSimple",
            "RingUniAsynchronous",
            "StarStarHierarchical",
            "StarStarHierarchicalAsync",
            "RingUniRingUniHierarchical",
            "RingUniRingUniHierarchicalAsync",
        ]
    );
    let sizes: Vec<usize> =
        individuals.iter().map(|i| i.content.as_ref().unwrap().ff.clusters.len()).collect();
    assert_eq!(sizes, [1, 1, 1, 1, 3, 3, 3, 3]);
    assert_eq!(individuals[5].meta.agg_type, AggregatorType::Asynchronous);
    assert_eq!(individuals[6].meta.topo, [ClusterTopology::RingUni, ClusterTopology::RingUni]);
    // every individual has a colour
    let study = StudyBase::new(
        "s".to_string(),
        "out".to_string(),
        InputFiles {
            clusters_path: "c".to_string(),
            constants_path: "k".to_string(),
            profiles_path: "p".to_string(),
            platform_specs: None,
        },
    );
    for name in names {
        assert!(study.color_of(name).is_some());
    }
    assert_eq!(Clusters { list: factory.base_rf.clusters.clone() }.clone().list.len(), 1);
}

#[test]
fn study_knows_its_colours_and_its_directories() {
    let map = StudyBase::init_color_map();
    let listed: Vec<(&str, &str)> =
        map.iter().map(|e| (e.category.as_str(), e.color.as_str())).collect();
    assert_eq!(
        listed,
        [
            ("StarSimple", "#a6cee3"),
            ("StarAsynchronous", "#a6cee3"),
            ("RingUniSimple", "#1f78b4"),
            ("RingUniAsynchronous", "#1f78b4"),
            ("StarStarHierarchical", "#b2df8a"),
            ("StarStarHierarchicalAsync", "#b2df8a"),
            ("RingUniRingUniHierarchical", "#33a02c"),
            ("RingUniRingUniHierarchicalAsync", "#33a02c"),
        ]
    );
    let study = StudyBase::new(
        "name".to_string(),
        "dir".to_string(),
        InputFiles {
            clusters_path: "c".to_string(),
            constants_path: "k".to_string(),
            profiles_path: "p".to_string(),
            platform_specs: Some("s".to_string()),
        },
    );
    assert_eq!(study.name, "name");
    assert_eq!(study.input_files.platform_specs.as_deref(), Some("s"));
    assert_eq!(study.color_of("RingUniSimple").unwrap(), "#1f78b4");
    assert!(study.color_of("Mesh").is_none());
    assert_eq!(study.directories(), ["dir", "dir/logs", "dir/fried", "dir/platform"]);
    assert_eq!(study.clone().color_map.len(), 8);
}

#[test]
fn evolution_criteria_have_names() {
    assert_eq!(EvolutionCriteria::SimulationTime.to_string(), "simulation_time");
    assert_eq!(EvolutionCriteria::TotalConsumption.to_string(), "total_consumption");
    assert_eq!(
        EvolutionCriteria::from_name("total_consumption"),
        Some(EvolutionCriteria::TotalConsumption)
    );
    assert_eq!(
        EvolutionCriteria::from_name("simulation_time"),
        Some(EvolutionCriteria::SimulationTime)
    );
    assert_eq!(EvolutionCriteria::from_name("power_rate"), None);
    assert_eq!(EvolutionCriteria::from_name(""), None);
    assert_eq!(number_of_survivors(10), 5);
    assert_eq!(number_of_survivors(7), 4);
    assert_eq!(number_of_survivors(1), 1);
    assert_eq!(number_of_survivors(0), 0);
    assert_eq!(number_of_permutations(11), 2);
    assert_eq!(number_of_permutations(4), 0);
}

#[test]
fn mutation_of_an_individual_varies_machines_and_deployment() {
    let mut rng = StdRng::seed_from_u64(5);
    let mut ind: Individual<u8> = Individual::new(
        base_rf(10, true),
        vec![ClusterTopology::Star],
        AggregatorType::Asynchronous,
        "StarAsynchronous_3".to_string(),
        "out".to_string(),
    );
    if let Some(content) = &mut ind.content {
        content.previous_outcome = Some(1);
        content.gen_nb = 4;
    }
    assert!(ind.can_vary_machines(4));
    let variations = ind.mutate(&mut rng, 4).unwrap();
    assert_eq!(ind.meta.name, "StarAsynchronous_3_5");
    assert_eq!(ind.meta.category, "StarAsynchronous_3");
    let machines = ind.meta.base_rf.platform_specs.as_ref().unwrap().node_profiles[0].number;
    let trainers = ind.meta.base_rf.clusters[0].trainers.number;
    assert!((9..=13).contains(&machines));
    assert_eq!(trainers + 1, machines);
    let content = ind.content.as_ref().unwrap();
    assert_eq!(content.gen_nb, 0);
    assert!(content.previous_outcome.is_none());
    assert_eq!(content.ff.get_number_nodes(), trainers as usize + 1);
    // the one aggregator is asynchronous: a variation was drawn for it
    assert_eq!(variations.len(), 1);
    assert_eq!(variations[0].cluster, 0);
    assert_eq!(variations[0].node, trainers as usize);
    let mut names = content.ff.get_node_names();
    names.sort();
    let mut expected: Vec<String> = (1..=trainers as usize + 1).map(|k| format!("Node {}", k)).collect();
    expected.sort();
    assert_eq!(names, expected);
    // every node but the aggregator bootstraps from the aggregator
    let main = content.ff.clusters[0].nodes[trainers as usize].name.clone();
    assert_eq!(
        FriedFalafels::get_arg(&content.ff.clusters[0].nodes[0].network_manager.args, "bootstrap-node")
            .unwrap()
            .value,
        main
    );
}

#[test]
fn mutation_is_refused_where_the_machines_cannot_be_varied() {
    let mut rng = StdRng::seed_from_u64(5);
    let mut ind: Individual<u8> = Individual::new(
        base_rf(10, false),
        vec![ClusterTopology::Star],
        AggregatorType::Simple,
        "n".to_string(),
        "out".to_string(),
    );
    assert!(!ind.can_vary_machines(0));
    assert_eq!(ind.mutate(&mut rng, 0), Err(EvolutionError::CannotVaryMachines));
    assert_eq!(ind.meta.name, "n");
    let mut ind: Individual<u8> = Individual::new(
        base_rf(10, true),
        vec![ClusterTopology::Star],
        AggregatorType::Simple,
        "n".to_string(),
        "out".to_string(),
    );
    assert!(!ind.can_vary_machines(u32::MAX));
    assert!(ind.can_vary_machines(u32::MAX - 1));
    ind.meta.base_rf.clusters[0].trainers.number = 1;
    assert!(!ind.can_vary_machines(0));
    ind.meta.base_rf.clusters[0].trainers.number = 10;
    ind.meta.base_rf.platform_specs.as_mut().unwrap().node_profiles[0].number = 32766;
    assert!(!ind.can_vary_machines(0));
    ind.meta.base_rf.platform_specs.as_mut().unwrap().node_profiles.clear();
    assert!(!ind.can_vary_machines(0));
}
