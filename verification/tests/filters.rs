use falafels::protocol::filters::NodeFilter;
use falafels::protocol::{NodeInfo, RoleEnum};

#[test]
fn test_trainers_filter() {
    let node_info = NodeInfo {
        name: "Node1".to_string(),
        role: RoleEnum::Trainer,
    };

    let trainers_filter = NodeFilter::Trainers;
    assert!(trainers_filter.filter(&node_info));
}

#[test]
fn test_aggregators_filter() {
    let node_info = NodeInfo {
        name: "Node2".to_string(),
        role: RoleEnum::Aggregator,
    };

    let aggregators_filter = NodeFilter::Aggregators;
    assert!(aggregators_filter.filter(&node_info));
}

#[test]
fn test_main_aggregator_filter() {
    let node_info = NodeInfo {
        name: "Node3".to_string(),
        role: RoleEnum::MainAggregator,
    };

    let aggregators_filter = NodeFilter::Aggregators;
    assert!(aggregators_filter.filter(&node_info));
}

#[test]
fn test_everyone_filter() {
    let node_info = NodeInfo {
        name: "Node4".to_string(),
        role: RoleEnum::Trainer,
    };

    let everyone_filter = NodeFilter::Everyone;
    assert!(everyone_filter.filter(&node_info));

    let node_info = NodeInfo {
        name: "Node5".to_string(),
        role: RoleEnum::Aggregator,
    };

    assert!(everyone_filter.filter(&node_info));

    let node_info = NodeInfo {
        name: "Node6".to_string(),
        role: RoleEnum::MainAggregator,
    };

    assert!(everyone_filter.filter(&node_info));
}

#[test]
fn filters_reject_the_other_roles() {
    let trainer = NodeInfo { name: "T".to_string(), role: RoleEnum::Trainer };
    let aggregator = NodeInfo { name: "A".to_string(), role: RoleEnum::Aggregator };
    let main = NodeInfo { name: "M".to_string(), role: RoleEnum::MainAggregator };

    assert!(!NodeFilter::Trainers.filter(&aggregator));
    assert!(!NodeFilter::Trainers.filter(&main));
    assert!(!NodeFilter::Aggregators.filter(&trainer));
    assert!(NodeFilter::TrainersAndAggregators.filter(&trainer));
    assert!(NodeFilter::TrainersAndAggregators.filter(&aggregator));
    assert!(!NodeFilter::TrainersAndAggregators.filter(&main));
}
