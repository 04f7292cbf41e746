use falafels::fryer::fryer::Fryer;
use falafels::fryer::structures::common::{
    AggregatorType, Arg, ClusterTopology, Constant, Constants, NetworkManager, TrainerType,
};
use falafels::fryer::structures::fried::{
    Aggregator, FriedFalafels, MutationError, NodeRole, ThresholdVariation,
};
use falafels::fryer::structures::raw;
use rand::rngs::StdRng;
use rand::RngCore;
use rand::SeedableRng;

fn raw_cluster(
    topology: ClusterTopology,
    trainers: u16,
    aggregators: u16,
    aggregator_type: AggregatorType,
) -> raw::Cluster {
    raw::Cluster {
        topology,
        trainers: raw::Trainers {
            number: trainers,
            trainer_type: if trainers == 0 { TrainerType::NoTrainer } else { TrainerType::Simple },
            host_profiles: None,
            link_profiles: None,
            network_manager: None,
            args: None,
        },
        aggregators: raw::Aggregators {
            number: aggregators,
            aggregator_type,
            host_profiles: None,
            link_profiles: None,
            network_manager: None,
            args: None,
        },
    }
}

fn raw_falafels(clusters: Vec<raw::Cluster>) -> raw::RawFalafels {
    raw::RawFalafels {
        constants: Constants {
            list: vec![Constant { name: "model_size".to_string(), value: "1000".to_string() }],
        },
        profiles: raw::Profiles { host_profiles: vec![], link_profiles: vec![] },
        clusters,
        platform_specs: None,
    }
}

/// Two star clusters of four trainers and one hierarchical aggregator each,
/// and the central cluster with its asynchronous aggregator: eleven nodes.
fn hierarchical_deployment() -> FriedFalafels {
    let rf = raw_falafels(vec![
        raw_cluster(ClusterTopology::Star, 4, 1, AggregatorType::Hierarchical),
        raw_cluster(ClusterTopology::Star, 4, 1, AggregatorType::Hierarchical),
        raw_cluster(ClusterTopology::Hierarchical, 0, 1, AggregatorType::Asynchronous),
    ]);
    let mut fryer = Fryer::new(None);
    assert!(fryer.can_fry(&rf));
    fryer.fry(&rf)
}

fn arg_value(args: &Option<Vec<Arg>>, name: &str) -> Option<String> {
    FriedFalafels::get_arg(args, name).map(|a| a.value.clone())
}

fn aggregator_of(fried: &mut FriedFalafels, cluster: usize, node: usize) -> &mut Aggregator {
    match &mut fried.clusters[cluster].nodes[node].role {
        NodeRole::Aggregator(a) => a,
        _ => panic!("This test is supposed to grab an aggregator"),
    }
}

/// Applies a variation of the proportion threshold, given in tenths.
fn apply_threshold(aggregator: &mut Aggregator, tenths: i32) {
    let incr = tenths as f64 / 10.0;
    FriedFalafels::set_arg_value_with(&mut aggregator.args, "proportion_threshold", |value_opt| {
        match value_opt {
            Some(value) => {
                let parsed_value = value.parse::<f64>().unwrap();
                if parsed_value < 0.2 {
                    format!("{:.1}", parsed_value + incr.abs())
                } else if parsed_value > 0.8 {
                    format!("{:.1}", parsed_value - incr.abs())
                } else {
                    format!("{:.1}", parsed_value + incr)
                }
            }
            None => "0.5".to_string(),
        }
    });
}

#[test]
fn test_get_names() {
    let fried = hierarchical_deployment();

    let names = fried.get_node_names();

    assert_eq!(
        names,
        [
            "Node 1", "Node 2", "Node 3", "Node 4", "Node 5", "Node 6", "Node 7", "Node 8",
            "Node 9", "Node 10", "Node 11"
        ]
    );
}

#[test]
fn test_get_number_nodes() {
    let fried = hierarchical_deployment();

    let nb = fried.get_number_nodes();

    assert_eq!(nb, 11);
}

#[test]
fn test_get_arg() {
    let fried = hierarchical_deployment();

    let node = fried.clusters.get(0).unwrap().nodes.get(0).unwrap();

    let arg = FriedFalafels::get_arg(&node.network_manager.args, "bootstrap-node");

    assert_eq!(arg.unwrap().value, "Node 5");

    // Arg that doesn't exists (Zhīshì huǒguō: Fondue au fromage => this is clearly not an
    // argument supported by falafels)
    let arg = FriedFalafels::get_arg(&node.network_manager.args, "芝士火锅");

    assert!(matches!(arg, None));
}

#[test]
fn test_set_arg_value() {
    let mut fried = hierarchical_deployment();

    // Get a trainer
    let node = fried.clusters.get_mut(0).unwrap().nodes.get_mut(0).unwrap();

    // Verify value before modification
    assert_eq!(
        FriedFalafels::get_arg(&mut node.network_manager.args, "bootstrap-node")
            .unwrap()
            .value,
        "Node 5"
    );

    FriedFalafels::set_arg_value(
        &mut node.network_manager.args,
        "bootstrap-node",
        "Node 6".to_string(),
    );

    // Verify value after modification
    assert_eq!(
        FriedFalafels::get_arg(&mut node.network_manager.args, "bootstrap-node")
            .unwrap()
            .value,
        "Node 6"
    );
}

#[test]
fn test_set_arg_value_with() {
    let mut fried = hierarchical_deployment();

    // Get a hierarchical aggregator
    let aggregator = aggregator_of(&mut fried, 1, 4);

    FriedFalafels::set_arg_value_with(
        &mut aggregator.args,
        "central_aggregator_name",
        |value_opt| match value_opt {
            Some(value) => format!("{value} modified"),
            None => "Default value".to_string(),
        },
    );

    // Here in this test the value should already exists so it has been modified
    assert_eq!(
        FriedFalafels::get_arg(&aggregator.args, "central_aggregator_name")
            .unwrap()
            .value,
        "Node 11 modified"
    );

    // Test where we set an argument that didn't existed
    FriedFalafels::set_arg_value_with(
        &mut aggregator.args,
        "new_argument_name",
        |value_opt| match value_opt {
            Some(value) => format!("{value} modified"),
            None => "Default value".to_string(),
        },
    );

    assert_eq!(
        FriedFalafels::get_arg(&aggregator.args, "new_argument_name")
            .unwrap()
            .value,
        "Default value"
    );
}

#[test]
fn test_shuffle_node_names() {
    let mut fried = hierarchical_deployment();

    let mut rng = StdRng::seed_from_u64(42);

    fried.shuffle_node_names(&mut rng);

    let names_shuffled = fried.get_node_names();

    assert_eq!(
        names_shuffled,
        [
            "Node 8", "Node 4", "Node 11", "Node 10", "Node 1", "Node 9", "Node 7", "Node 5",
            "Node 3", "Node 6", "Node 2"
        ]
    );
}

#[test]
fn test_permute_node_names() {
    let mut fried = hierarchical_deployment();

    let mut rng = StdRng::seed_from_u64(42);

    fried.permute_node_names(&mut rng, 3);

    let names_shuffled = fried.get_node_names();

    assert_eq!(
        names_shuffled,
        [
            "Node 8", "Node 2", "Node 3", "Node 4", "Node 1", "Node 6", "Node 7", "Node 5",
            "Node 10", "Node 9", "Node 11"
        ]
    );
}

#[test]
fn test_mutate_aggregator() {
    let mut fried = hierarchical_deployment();

    let mut rng = StdRng::seed_from_u64(22);

    // Get a hierarchical aggregator
    let aggregator = aggregator_of(&mut fried, 1, 4);

    FriedFalafels::mutate_aggregator(aggregator, &mut rng);

    let arg = FriedFalafels::get_arg(&aggregator.args, "number_local_epochs");
    // The arg get's decreased to 2
    assert_eq!(arg.unwrap().value, "2");

    FriedFalafels::mutate_aggregator(aggregator, &mut rng);

    let arg = FriedFalafels::get_arg(&aggregator.args, "number_local_epochs");
    // The arg get's decreased to 1
    assert_eq!(arg.unwrap().value, "1");

    FriedFalafels::mutate_aggregator(aggregator, &mut rng);

    let arg = FriedFalafels::get_arg(&aggregator.args, "number_local_epochs");
    // The arg stays at 1
    assert_eq!(arg.unwrap().value, "1");

    FriedFalafels::mutate_aggregator(aggregator, &mut rng);

    let arg = FriedFalafels::get_arg(&aggregator.args, "number_local_epochs");
    // Increase at 2
    assert_eq!(arg.unwrap().value, "2");
}

#[test]
fn test_mutate_async_aggregator() {
    let mut fried = hierarchical_deployment();

    let mut rng = StdRng::seed_from_u64(22);

    // Get an async aggregator
    let aggregator = aggregator_of(&mut fried, 2, 0);

    let results = vec![
        "0.5", "0.5", "0.6", "0.5", "0.5", "0.4", "0.4", "0.5", "0.6", "0.7", "0.6",
    ];
    for res in results {
        let tenths = FriedFalafels::mutate_aggregator(aggregator, &mut rng).unwrap();
        apply_threshold(aggregator, tenths);

        let arg = FriedFalafels::get_arg(&aggregator.args, "proportion_threshold");
        assert_eq!(arg.unwrap().value, res);
    }
}

#[test]
fn fry_names_marks_and_links_the_nodes() {
    let fried = hierarchical_deployment();
    assert_eq!(fried.version, "0.1");
    assert_eq!(fried.constants.list.len(), 1);
    assert_eq!(fried.constants.list[0].name, "model_size");
    assert_eq!(fried.clusters.len(), 3);
    assert_eq!(fried.clusters[0].topology, ClusterTopology::Star);
    assert_eq!(fried.clusters[2].topology, ClusterTopology::Hierarchical);

    // trainers come first, the aggregator last
    for k in 0..4 {
        let n = &fried.clusters[0].nodes[k];
        match &n.role {
            NodeRole::Trainer(t) => {
                assert_eq!(t.trainer_type, TrainerType::Simple);
                assert!(t.args.is_none());
            }
            _ => panic!("expected a trainer"),
        }
        assert_eq!(arg_value(&n.network_manager.args, "bootstrap-node").unwrap(), "Node 5");
    }
    let main = &fried.clusters[0].nodes[4];
    assert_eq!(main.name, "Node 5");
    // the main aggregator is not told to bootstrap from itself
    assert!(main.network_manager.args.is_none());
    match &main.role {
        NodeRole::Aggregator(a) => {
            assert_eq!(a.aggregator_type, AggregatorType::Hierarchical);
            let args = a.args.as_ref().unwrap();
            let listed: Vec<(&str, &str)> =
                args.iter().map(|x| (x.name.as_str(), x.value.as_str())).collect();
            assert_eq!(
                listed,
                [
                    ("is_main_aggregator", "1"),
                    ("number_local_epochs", "3"),
                    ("central_aggregator_name", "Node 11"),
                ]
            );
        }
        _ => panic!("expected an aggregator"),
    }
    // the asynchronous aggregator gets its threshold and no link to itself
    match &fried.clusters[2].nodes[0].role {
        NodeRole::Aggregator(a) => {
            let listed: Vec<(&str, &str)> = a
                .args
                .as_ref()
                .unwrap()
                .iter()
                .map(|x| (x.name.as_str(), x.value.as_str()))
                .collect();
            assert_eq!(
                listed,
                [
                    ("is_main_aggregator", "1"),
                    ("number_local_epochs", "3"),
                    ("proportion_threshold", "0.5"),
                ]
            );
        }
        _ => panic!("expected an aggregator"),
    }
}

#[test]
fn fryer_numbers_from_one_again_after_each_deployment() {
    let rf = raw_falafels(vec![raw_cluster(ClusterTopology::Star, 2, 1, AggregatorType::Simple)]);
    let mut fryer = Fryer::new(None);
    let first = fryer.fry(&rf);
    let second = fryer.fry(&rf);
    assert_eq!(first.get_node_names(), ["Node 1", "Node 2", "Node 3"]);
    assert_eq!(second.get_node_names(), ["Node 1", "Node 2", "Node 3"]);
    assert_eq!(Fryer::count_total_number_nodes(&rf.clusters), 3);
}

#[test]
fn only_a_one_way_ring_takes_several_aggregators() {
    let fryer = Fryer::new(None);
    let star = raw_falafels(vec![raw_cluster(ClusterTopology::Star, 2, 2, AggregatorType::Simple)]);
    assert!(!fryer.can_fry(&star));
    let ring = raw_falafels(vec![raw_cluster(ClusterTopology::RingUni, 2, 2, AggregatorType::Simple)]);
    assert!(fryer.can_fry(&ring));
    let mut fryer = Fryer::new(None);
    let fried = fryer.fry(&ring);
    // only the first aggregator is the main one
    let marks: Vec<bool> = fried.clusters[0]
        .nodes
        .iter()
        .map(|n| match &n.role {
            NodeRole::Aggregator(a) => arg_value(&a.args, "is_main_aggregator").is_some(),
            NodeRole::Trainer(_) => false,
        })
        .collect();
    assert_eq!(marks, [false, false, true, false]);
    // an empty hierarchical cluster has no central aggregator to offer
    let empty = raw_falafels(vec![raw_cluster(ClusterTopology::Hierarchical, 0, 0, AggregatorType::Simple)]);
    assert!(!fryer.can_fry(&empty));
}

#[test]
fn named_nodes_are_picked_from_the_list_without_repetition() {
    let names: Vec<String> = ["Ahri", "Bard", "Camille", "Darius", "Ekko"].iter().map(|s| s.to_string()).collect();
    let draw = StdRng::seed_from_u64(42).next_u64();
    let mut expected = Vec::new();
    let mut left = names.clone();
    for _ in 0..3 {
        let at = (draw % left.len() as u64) as usize;
        expected.push(left.remove(at));
    }
    let rf = raw_falafels(vec![raw_cluster(ClusterTopology::Star, 2, 1, AggregatorType::Simple)]);
    let mut fryer = Fryer::new(Some(names.clone()));
    assert!(fryer.can_fry(&rf));
    let fried = fryer.fry(&rf);
    assert_eq!(fried.get_node_names(), expected);
    // the draw is no position handed back: it is reduced to the length of the list
    assert!(draw >= names.len() as u64);
    // two names are left: not enough for three more nodes
    assert!(!fryer.can_fry(&rf));
    let too_short = Fryer::new(Some(vec!["Ahri".to_string()]));
    assert!(!too_short.can_fry(&rf));
}

#[test]
fn set_arg_value_creates_the_list_and_the_argument() {
    let mut args: Option<Vec<Arg>> = None;
    FriedFalafels::set_arg_value(&mut args, "a", "1".to_string());
    FriedFalafels::set_arg_value(&mut args, "b", "2".to_string());
    FriedFalafels::set_arg_value(&mut args, "a", "3".to_string());
    let listed: Vec<(String, String)> =
        args.as_ref().unwrap().iter().map(|x| (x.name.clone(), x.value.clone())).collect();
    assert_eq!(listed, [("a".to_string(), "3".to_string()), ("b".to_string(), "2".to_string())]);
    // only the first argument of a name is read and written
    let mut twice = Some(vec![
        Arg { name: "x".to_string(), value: "old".to_string() },
        Arg { name: "x".to_string(), value: "other".to_string() },
    ]);
    FriedFalafels::set_arg_value(&mut twice, "x", "new".to_string());
    assert_eq!(arg_value(&twice, "x").unwrap(), "new");
    assert_eq!(twice.as_ref().unwrap()[1].value, "other");
    assert!(FriedFalafels::get_arg(&None, "x").is_none());
}

#[test]
fn renaming_and_swapping_keep_everything_but_the_names() {
    let mut fried = hierarchical_deployment();
    let names: Vec<String> = (0..11).map(|k| format!("N{}", k)).collect();
    fried.set_node_names(&names);
    assert_eq!(fried.get_node_names(), names);
    assert_eq!(fried.clusters[1].nodes[4].name, "N9");
    assert!(matches!(fried.clusters[1].nodes[4].role, NodeRole::Aggregator(_)));
    assert_eq!(
        arg_value(&fried.clusters[0].nodes[0].network_manager.args, "bootstrap-node").unwrap(),
        "Node 5"
    );
    fried.swap_node_names(&vec![(0, 10), (10, 5), (3, 3)]);
    let after = fried.get_node_names();
    assert_eq!(after[0], "N10");
    assert_eq!(after[10], "N5");
    assert_eq!(after[5], "N0");
    assert_eq!(after[3], "N3");
    let mut sorted = after.clone();
    sorted.sort();
    let mut all = names.clone();
    all.sort();
    assert_eq!(sorted, all);
}

#[test]
fn shuffling_keeps_the_names() {
    let mut fried = hierarchical_deployment();
    let mut rng = StdRng::seed_from_u64(7);
    fried.shuffle_node_names(&mut rng);
    let mut names = fried.get_node_names();
    assert_ne!(names, hierarchical_deployment().get_node_names());
    names.sort();
    let mut all = hierarchical_deployment().get_node_names();
    all.sort();
    assert_eq!(names, all);
    // an empty deployment has nothing to permute
    let mut empty = FriedFalafels {
        version: "0.1".to_string(),
        constants: Constants { list: vec![] },
        clusters: vec![],
    };
    empty.permute_node_names(&mut rng, 0);
    empty.shuffle_node_names(&mut rng);
    assert_eq!(empty.get_number_nodes(), 0);
}

#[test]
fn mutation_varies_every_aggregator_and_reports_the_asynchronous_ones() {
    let mut fried = hierarchical_deployment();
    let mut rng = StdRng::seed_from_u64(3);
    assert!(fried.is_mutable());
    let variations = fried.mutate_nodes(&mut rng);
    assert_eq!(variations.len(), 1);
    assert_eq!(variations[0].cluster, 2);
    assert_eq!(variations[0].node, 0);
    assert!((-1..2).contains(&variations[0].tenths));
    for (c, n) in [(0usize, 4usize), (1, 4), (2, 0)] {
        let a = aggregator_of(&mut fried, c, n);
        let v = arg_value(&a.args, "number_local_epochs").unwrap();
        assert!(v == "2" || v == "3");
    }
    // trainers are left alone
    assert!(matches!(&fried.clusters[0].nodes[0].role, NodeRole::Trainer(t) if t.args.is_none()));
    assert_eq!(ThresholdVariation { cluster: 2, node: 0, tenths: 1 }.tenths, 1);
}

#[test]
fn mutation_is_refused_where_the_epochs_are_no_number() {
    let mut fried = hierarchical_deployment();
    let mut rng = StdRng::seed_from_u64(3);
    FriedFalafels::set_arg_value(
        &mut aggregator_of(&mut fried, 1, 4).args,
        "number_local_epochs",
        "many".to_string(),
    );
    assert!(!fried.is_mutable());
    assert_eq!(fried.try_mutate_nodes(&mut rng), Err(MutationError::InvalidLocalEpochs));
    assert_eq!(arg_value(&aggregator_of(&mut fried, 0, 4).args, "number_local_epochs").unwrap(), "3");
    let a = aggregator_of(&mut fried, 1, 4);
    assert_eq!(FriedFalafels::try_mutate_aggregator(a, &mut rng), Err(MutationError::InvalidLocalEpochs));
    assert_eq!(arg_value(&a.args, "number_local_epochs").unwrap(), "many");
    FriedFalafels::set_arg_value(&mut a.args, "number_local_epochs", "-9223372036854775808".to_string());
    assert!(FriedFalafels::try_mutate_aggregator(a, &mut rng).is_err());
    FriedFalafels::set_arg_value(&mut a.args, "number_local_epochs", "-7".to_string());
    FriedFalafels::mutate_aggregator_by(a, -1);
    assert_eq!(arg_value(&a.args, "number_local_epochs").unwrap(), "-8");
    FriedFalafels::set_arg_value(&mut a.args, "number_local_epochs", "1".to_string());
    FriedFalafels::mutate_aggregator_by(a, -1);
    assert_eq!(arg_value(&a.args, "number_local_epochs").unwrap(), "2");
    a.args = Some(vec![]);
    assert_eq!(FriedFalafels::try_mutate_aggregator(a, &mut rng), Ok(None));
    assert_eq!(arg_value(&a.args, "number_local_epochs").unwrap(), "3");
    assert!(fried.try_mutate_nodes(&mut rng).is_ok());
}

#[test]
fn network_manager_of_the_cluster_goes_to_its_nodes() {
    let mut c = raw_cluster(ClusterTopology::Star, 1, 1, AggregatorType::Simple);
    c.trainers.network_manager = Some(NetworkManager {
        args: Some(vec![Arg { name: "kind".to_string(), value: "star".to_string() }]),
    });
    c.trainers.args = Some(vec![Arg { name: "t".to_string(), value: "v".to_string() }]);
    c.aggregators.args = Some(vec![Arg { name: "given".to_string(), value: "yes".to_string() }]);
    let mut fryer = Fryer::new(None);
    let fried = fryer.fry(&raw_falafels(vec![c]));
    let trainer = &fried.clusters[0].nodes[0];
    let listed: Vec<&str> =
        trainer.network_manager.args.as_ref().unwrap().iter().map(|a| a.name.as_str()).collect();
    assert_eq!(listed, ["kind", "bootstrap-node"]);
    match &trainer.role {
        NodeRole::Trainer(t) => assert_eq!(arg_value(&t.args, "t").unwrap(), "v"),
        _ => panic!("expected a trainer"),
    }
    match &fried.clusters[0].nodes[1].role {
        NodeRole::Aggregator(a) => {
            let listed: Vec<&str> = a.args.as_ref().unwrap().iter().map(|x| x.name.as_str()).collect();
            assert_eq!(listed, ["given", "is_main_aggregator", "number_local_epochs"]);
        }
        _ => panic!("expected an aggregator"),
    }
}

#[test]
fn empty_hierarchical_clusters_are_found_out() {
    let mut fried = hierarchical_deployment();
    assert!(fried.has_hierarchical_nodes());
    assert_eq!(fried.checked_number_nodes(), Some(11));
    fried.clusters[2].nodes.clear();
    assert!(!fried.has_hierarchical_nodes());
    fried.clusters[2].topology = ClusterTopology::Star;
    assert!(fried.has_hierarchical_nodes());
    // without a hierarchical cluster there is nobody to link to
    fried.link_hierarchical_aggregators();
    let a = aggregator_of(&mut fried, 0, 4);
    assert_eq!(arg_value(&a.args, "central_aggregator_name").unwrap(), "Node 11");
}
