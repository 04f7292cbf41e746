use falafels::protocol::filters::NodeFilter;
use falafels::protocol::operations::Operation;
use falafels::protocol::packet::Packet;
use falafels::protocol::{clone_node_list, NodeInfo, RoleEnum};

#[test]
fn new_packet_is_point_to_point() {
    let p = Packet::new(
        "next".to_string(),
        "last".to_string(),
        Operation::SendGlobalModel { number_local_epochs: 5 },
    );
    assert!(!p.broadcast);
    assert!(p.target_filter.is_none());
    assert_eq!(p.dst, "next");
    assert_eq!(p.final_dst, "last");
    assert_eq!(p.src, "next");
    assert_eq!(p.original_src, "");
    assert_eq!(p.nb_hops, 0);
    assert!(matches!(p.op, Operation::SendGlobalModel { number_local_epochs: 5 }));
}

#[test]
fn new_broadcast_packet_carries_its_filter() {
    for filter in [
        NodeFilter::Trainers,
        NodeFilter::Aggregators,
        NodeFilter::TrainersAndAggregators,
        NodeFilter::Everyone,
    ] {
        let p = Packet::new_broadcast(filter, Operation::Kill);
        assert!(p.broadcast);
        assert_eq!(p.target_filter, Some(filter));
        assert_eq!(p.broadcast, p.target_filter.is_some());
        assert_eq!(p.dst, "");
        assert_eq!(p.src, "");
        assert_eq!(p.final_dst, "");
        assert_eq!(p.original_src, "");
        assert_eq!(p.nb_hops, 0);
        assert!(matches!(p.op, Operation::Kill));
    }
}

#[test]
fn packets_get_identifiers_of_their_own() {
    let a = Packet::new("x".to_string(), "x".to_string(), Operation::Kill);
    let b = Packet::new("x".to_string(), "x".to_string(), Operation::Kill);
    assert_ne!(a.id, b.id);
    assert_eq!(a.id.get_version_num(), 4);
}

#[test]
fn clone_duplicates_every_field() {
    let mut p = Packet::new_broadcast(
        NodeFilter::Trainers,
        Operation::RegistrationConfirmation {
            node_list: vec![NodeInfo { name: "A".to_string(), role: RoleEnum::MainAggregator }],
        },
    );
    p.nb_hops = 4;
    p.original_src = "origin".to_string();
    let mut q = p.clone();
    assert_eq!(q.id, p.id);
    assert_eq!(q.nb_hops, 4);
    assert_eq!(q.original_src, "origin");
    assert_eq!(q.target_filter, Some(NodeFilter::Trainers));
    // the copy shares nothing with the packet it was made of
    q.dst = "elsewhere".to_string();
    if let Operation::RegistrationConfirmation { node_list } = &mut q.op {
        node_list[0].name = "B".to_string();
    }
    assert_eq!(p.dst, "");
    match &p.op {
        Operation::RegistrationConfirmation { node_list } => assert_eq!(node_list[0].name, "A"),
        _ => panic!("expected a confirmation"),
    }
}

#[test]
fn hop_copy_rewrites_source_and_destination_only() {
    let p = Packet::new_broadcast(NodeFilter::Everyone, Operation::SendLocalModel { number_local_epochs_done: 9 });
    let h = p.for_hop("me".to_string(), "you".to_string());
    assert_eq!(h.src, "me");
    assert_eq!(h.dst, "you");
    assert_eq!(h.final_dst, "");
    assert_eq!(h.id, p.id);
    assert!(h.broadcast);
    assert_eq!(h.target_filter, Some(NodeFilter::Everyone));
    assert!(matches!(h.op, Operation::SendLocalModel { number_local_epochs_done: 9 }));
}

#[test]
fn operations_are_named_after_their_variant() {
    let n = NodeInfo { name: "n".to_string(), role: RoleEnum::Trainer };
    assert_eq!(
        Operation::RegistrationConfirmation { node_list: vec![] }.to_string(),
        "RegistrationConfirmation"
    );
    assert_eq!(Operation::SendGlobalModel { number_local_epochs: 1 }.to_string(), "SendGlobalModel");
    assert_eq!(Operation::Kill.to_string(), "Kill");
    assert_eq!(
        Operation::RegistrationRequest { node_to_register: n.clone() }.to_string(),
        "RegistrationRequest"
    );
    assert_eq!(Operation::SendLocalModel { number_local_epochs_done: 1 }.to_string(), "SendLocalModel");
    assert!(Operation::Kill.is_kill());
    assert!(!Operation::SendGlobalModel { number_local_epochs: 0 }.is_kill());
}

#[test]
fn node_lists_are_copied_element_by_element() {
    let list = vec![
        NodeInfo { name: "a".to_string(), role: RoleEnum::Trainer },
        NodeInfo { name: "b".to_string(), role: RoleEnum::Aggregator },
    ];
    let copy = clone_node_list(&list);
    assert_eq!(copy.len(), 2);
    assert_eq!(copy[0].name, "a");
    assert_eq!(copy[1].name, "b");
    assert_eq!(copy[1].role, RoleEnum::Aggregator);
}
