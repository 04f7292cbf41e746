use falafels::fryer::fryer::{Fryer, NamesList};
use falafels::fryer::structures::common::{
    AggregatorType, Arg, ClusterTopology, NetworkManager, TrainerType,
};
use falafels::fryer::structures::fried::{Node, NodeRole, Trainer};
use falafels::fryer::structures::raw;
use falafels::text::numbered_name;

fn cluster(topology: ClusterTopology, trainers: u16, aggregators: u16) -> raw::Cluster {
    raw::Cluster {
        topology,
        trainers: raw::Trainers {
            number: trainers,
            trainer_type: TrainerType::Simple,
            host_profiles: None,
            link_profiles: None,
            network_manager: None,
            args: None,
        },
        aggregators: raw::Aggregators {
            number: aggregators,
            aggregator_type: AggregatorType::Simple,
            host_profiles: None,
            link_profiles: None,
            network_manager: None,
            args: None,
        },
    }
}

fn bootstraps(node: &Node) -> Vec<String> {
    match &node.network_manager.args {
        Some(args) => {
            args.iter().filter(|a| a.name == "bootstrap-node").map(|a| a.value.clone()).collect()
        }
        None => vec![],
    }
}

#[test]
fn star_cluster_is_wired_both_ways() {
    let mut fryer = Fryer::new(None);
    let c = fryer.create_star_cluster(&cluster(ClusterTopology::Star, 3, 1));
    let names: Vec<&str> = c.nodes.iter().map(|n| n.name.as_str()).collect();
    assert_eq!(names, ["Node 1", "Node 2", "Node 3", "Node 4"]);
    for k in 0..3 {
        assert!(matches!(c.nodes[k].role, NodeRole::Trainer(_)));
        assert_eq!(bootstraps(&c.nodes[k]), ["Node 4"]);
    }
    assert!(matches!(c.nodes[3].role, NodeRole::Aggregator(_)));
    assert_eq!(bootstraps(&c.nodes[3]), ["Node 1", "Node 2", "Node 3"]);
    assert_eq!(c.topology, ClusterTopology::Star);
    // the fryer numbers on
    assert_eq!(fryer.pick_node_name(), "Node 5");
}

#[test]
fn fully_connected_cluster_links_every_node_to_the_others() {
    let mut fryer = Fryer::new(None);
    let c = fryer.create_fully_connected_cluster(&cluster(ClusterTopology::FullyConnected, 2, 1));
    assert_eq!(bootstraps(&c.nodes[0]), ["Node 2", "Node 3"]);
    assert_eq!(bootstraps(&c.nodes[1]), ["Node 1", "Node 3"]);
    assert_eq!(bootstraps(&c.nodes[2]), ["Node 1", "Node 2"]);
}

#[test]
fn bootstrap_peers_are_added_after_what_is_there() {
    let mut node = Node {
        name: "n".to_string(),
        role: NodeRole::Trainer(Trainer { trainer_type: TrainerType::Simple, args: None }),
        network_manager: NetworkManager {
            args: Some(vec![Arg { name: "bootstrap-node".to_string(), value: "a".to_string() }]),
        },
    };
    Fryer::set_bootstrap_node(&mut node, &"b".to_string());
    Fryer::set_bootstrap_node(&mut node, &"a".to_string());
    assert_eq!(bootstraps(&node), ["a", "b", "a"]);
    node.network_manager.args = None;
    Fryer::set_bootstrap_node(&mut node, &"c".to_string());
    assert_eq!(bootstraps(&node), ["c"]);
}

#[test]
fn nodes_are_numbered_in_base_ten() {
    assert_eq!(numbered_name("Node ", 0), "Node 0");
    assert_eq!(numbered_name("Node ", 7), "Node 7");
    assert_eq!(numbered_name("Node ", 10), "Node 10");
    assert_eq!(numbered_name("Node ", 4294967295), "Node 4294967295");
    assert_eq!(numbered_name("", 120), "120");
    let mut fryer = Fryer::new(None);
    let nodes = fryer.create_trainer_nodes(&cluster(ClusterTopology::Star, 12, 1));
    assert_eq!(nodes[9].name, "Node 10");
    assert_eq!(nodes[11].name, "Node 12");
    let aggregators = fryer.create_aggregator_nodes(&cluster(ClusterTopology::Star, 12, 1));
    assert_eq!(aggregators[0].name, "Node 13");
}

#[test]
fn names_list_tells_whether_it_is_big_enough() {
    let mut list = NamesList::new(vec!["a".to_string(), "b".to_string(), "c".to_string()]);
    assert!(list.is_list_big_enough(3));
    assert!(list.is_list_big_enough(0));
    assert!(!list.is_list_big_enough(4));
    let picked = list.pick_name();
    assert_eq!(list.list_of_names.len(), 2);
    assert!(!list.list_of_names.contains(&picked));
    assert!(["a", "b", "c"].contains(&picked.as_str()));
}
