use falafels::moms::star_mom::{StarMom, State, REGISTRATION_TIMEOUT};
use falafels::moms::{MOMEvent, MOM};
use falafels::motherboard::{MotherboardEvent, MotherboardTask, MotherbroadOrRoleEvent};
use falafels::protocol::filters::NodeFilter;
use falafels::protocol::operations::Operation;
use falafels::protocol::packet::Packet;
use falafels::protocol::{NodeInfo, RoleEnum};
use falafels::roles::RoleEvent;

fn node(name: &str, role: RoleEnum) -> NodeInfo {
    NodeInfo { name: name.to_string(), role }
}

fn received(packet: Packet) -> MotherbroadOrRoleEvent {
    MotherbroadOrRoleEvent::Motherboard(MotherboardEvent::PacketReceived(packet))
}

fn registration(name: &str) -> MotherbroadOrRoleEvent {
    received(Packet::new(
        "Node 1".to_string(),
        "Node 1".to_string(),
        Operation::RegistrationRequest { node_to_register: node(name, RoleEnum::Trainer) },
    ))
}

fn running_aggregator(trainers: &[&str]) -> StarMom {
    let mut sm = StarMom::new(node("Node 1", RoleEnum::MainAggregator), vec![]);
    sm.put_event(MotherbroadOrRoleEvent::Motherboard(MotherboardEvent::MotherboardInitialized));
    for t in trainers {
        sm.put_event(registration(t));
    }
    sm.put_event(MotherbroadOrRoleEvent::Motherboard(MotherboardEvent::TaskTimeoutDone));
    while sm.pop_task().is_some() {}
    sm
}

#[test]
fn test_typical_workflow_for_trainer() {
    let aggregator_info = NodeInfo {
        name: "Node 2".to_string(),
        role: RoleEnum::MainAggregator,
    };

    let mut sm = StarMom::new(
        // The node of the MOM
        NodeInfo {
            name: "Node 1".to_string(),
            role: RoleEnum::Trainer,
        },
        // bootstrap node is a MainAggregator
        vec![aggregator_info.clone()],
    );

    sm.put_event(MotherbroadOrRoleEvent::Motherboard(
        MotherboardEvent::MotherboardInitialized,
    ));

    // Changes its state to WaitingRegistrationConfirmation
    assert!(matches!(sm.state(), State::WaitingRegistrationConfirmation));

    let task = sm.pop_task().unwrap();

    // It should ask to send a packet
    assert!(matches!(task, MotherboardTask::Send(_)));

    if let MotherboardTask::Send(packet) = task {
        // To Node 2
        assert_eq!(packet.dst, "Node 2");
        assert_eq!(packet.final_dst, "Node 2");
    }

    // Pretend that motherboard is handing the confirmation
    let event = sm.put_event(MotherbroadOrRoleEvent::Motherboard(
        MotherboardEvent::PacketReceived(Packet::new(
            "Node 1".to_string(),
            "Node 1".to_string(),
            Operation::RegistrationConfirmation {
                node_list: vec![aggregator_info.clone()],
            },
        )),
    ));

    // The state must be connected and it returned NodeConnected event
    assert!(matches!(sm.state(), State::Running));
    assert!(matches!(event, Some(MOMEvent::NodeConnected)));

    // Pretend that we send a global model
    let event = sm.put_event(MotherbroadOrRoleEvent::Motherboard(
        MotherboardEvent::PacketReceived(Packet::new_broadcast(
            // With this filter, it should reroute the packet to Role
            NodeFilter::Trainers,
            Operation::SendGlobalModel {
                number_local_epochs: 3,
            },
        )),
    ));

    // Still running
    assert!(matches!(sm.state(), State::Running));
    // Make sure the MOM routed the received operation to the Role
    assert!(matches!(
        event,
        Some(MOMEvent::OperationReceived(Operation::SendGlobalModel {
            number_local_epochs: 3,
        }))
    ));
}

#[test]
fn test_typical_workflow_for_aggregator() {
    let trainers = vec![
        NodeInfo {
            name: "Node 2".to_string(),
            role: RoleEnum::Trainer,
        },
        NodeInfo {
            name: "Node 3".to_string(),
            role: RoleEnum::Trainer,
        },
        NodeInfo {
            name: "Node 4".to_string(),
            role: RoleEnum::Trainer,
        },
    ];

    let mut sm = StarMom::new(
        // The node of the MOM
        NodeInfo {
            name: "Node 1".to_string(),
            role: RoleEnum::MainAggregator,
        },
        // No bootstrap nodes cause we're an Aggregator
        vec![],
    );

    sm.put_event(MotherbroadOrRoleEvent::Motherboard(
        MotherboardEvent::MotherboardInitialized,
    ));

    // Here we wait for the requests
    assert!(matches!(sm.state(), State::WaitingRegistrationRequests));

    let task = sm.pop_task().unwrap();

    // And it should give a timeout task to be able to quit the waiting state at some point
    assert!(matches!(task, MotherboardTask::Timeout(_)));

    if let MotherboardTask::Timeout(timeout) = task {
        assert_eq!(timeout as f64, 20.0);
    }

    // Send multiple registration requests to the aggregator
    for trainer in trainers {
        let _event = sm.put_event(MotherbroadOrRoleEvent::Motherboard(
            MotherboardEvent::PacketReceived(Packet::new(
                "Node 1".to_string(),
                "Node 1".to_string(),
                Operation::RegistrationRequest {
                    node_to_register: trainer.clone(),
                },
            )),
        ));

        // State is not changing
        assert!(matches!(sm.state(), State::WaitingRegistrationRequests));
    }

    // Send a timeout
    let event = sm.put_event(MotherbroadOrRoleEvent::Motherboard(
        MotherboardEvent::TaskTimeoutDone,
    ));

    // Now we should be in running state and not accepting any other request
    assert!(matches!(sm.state(), State::Running));

    assert_eq!(sm.connected_nodes().len(), 3);

    // And it sends a ClusterConnected event with 3 connected trainers
    match event.unwrap() {
        MOMEvent::ClusterConnected(value) => assert_eq!(value, 3),
        _ => panic!("Expected MOMEvent::ClusterConnected"),
    }

    // Send global model to trainers
    sm.put_event(MotherbroadOrRoleEvent::Role(RoleEvent::ToBeSentPacket {
        // With this filter, it should reroute the packet to Role
        filter: NodeFilter::Trainers,
        op: Operation::SendGlobalModel {
            number_local_epochs: 3,
        },
    }));

    let task = sm.pop_task().unwrap();

    // It should produce a Send packet task
    assert!(matches!(task, MotherboardTask::Send(_)));

    // And still running
    assert!(matches!(sm.state(), State::Running));

    // Then we receive local model
    let event = sm.put_event(MotherbroadOrRoleEvent::Motherboard(
        MotherboardEvent::PacketReceived(Packet::new_broadcast(
            NodeFilter::Aggregators,
            Operation::SendLocalModel {
                number_local_epochs_done: 3,
            },
        )),
    ));

    // And still running
    assert!(matches!(sm.state(), State::Running));

    // And the MOM should route the local model to the Role
    assert!(matches!(
        event,
        Some(MOMEvent::OperationReceived(Operation::SendLocalModel {
            number_local_epochs_done: 3,
        }))
    ));
}

#[test]
fn trainer_handshake_sends_request_to_first_bootstrap_peer() {
    let mut sm = StarMom::new(
        node("N1", RoleEnum::Trainer),
        vec![node("N2", RoleEnum::MainAggregator), node("N9", RoleEnum::MainAggregator)],
    );
    assert_eq!(sm.state(), State::Initializing);
    let event =
        sm.put_event(MotherbroadOrRoleEvent::Motherboard(MotherboardEvent::MotherboardInitialized));
    assert!(event.is_none());
    assert_eq!(sm.state(), State::WaitingRegistrationConfirmation);
    assert_eq!(sm.number_of_tasks(), 1);
    match sm.pop_task() {
        Some(MotherboardTask::Send(p)) => {
            assert_eq!(p.dst, "N2");
            assert_eq!(p.final_dst, "N2");
            assert!(!p.broadcast);
            assert!(p.target_filter.is_none());
            match p.op {
                Operation::RegistrationRequest { node_to_register } => {
                    assert_eq!(node_to_register.name, "N1");
                    assert_eq!(node_to_register.role, RoleEnum::Trainer);
                }
                _ => panic!("expected a registration request"),
            }
        }
        _ => panic!("expected a send task"),
    }
    assert!(sm.pop_task().is_none());

    let event = sm.put_event(received(Packet::new(
        "N1".to_string(),
        "N1".to_string(),
        Operation::RegistrationConfirmation { node_list: vec![node("N2", RoleEnum::MainAggregator)] },
    )));
    assert!(matches!(event, Some(MOMEvent::NodeConnected)));
    assert_eq!(sm.state(), State::Running);
    assert_eq!(sm.connected_nodes().len(), 1);
    assert_eq!(sm.connected_nodes()[0].name, "N2");
}

#[test]
fn waiting_trainer_ignores_other_events() {
    let mut sm = StarMom::new(node("N1", RoleEnum::Trainer), vec![node("N2", RoleEnum::MainAggregator)]);
    sm.put_event(MotherbroadOrRoleEvent::Motherboard(MotherboardEvent::MotherboardInitialized));
    assert!(sm.pop_task().is_some());
    let events = vec![
        MotherbroadOrRoleEvent::Motherboard(MotherboardEvent::MotherboardInitialized),
        MotherbroadOrRoleEvent::Motherboard(MotherboardEvent::TaskExecDone),
        MotherbroadOrRoleEvent::Motherboard(MotherboardEvent::TaskSendDone),
        MotherbroadOrRoleEvent::Motherboard(MotherboardEvent::TaskTimeoutDone),
        received(Packet::new_broadcast(NodeFilter::Everyone, Operation::Kill)),
        MotherbroadOrRoleEvent::Role(RoleEvent::ToBeSentPacket {
            filter: NodeFilter::Everyone,
            op: Operation::Kill,
        }),
    ];
    for e in events {
        assert!(sm.put_event(e).is_none());
        assert_eq!(sm.state(), State::WaitingRegistrationConfirmation);
        assert_eq!(sm.number_of_tasks(), 0);
        assert_eq!(sm.connected_nodes().len(), 0);
    }
}

#[test]
fn aggregator_handshake_confirms_every_request() {
    let mut sm = StarMom::new(node("N1", RoleEnum::MainAggregator), vec![]);
    sm.put_event(MotherbroadOrRoleEvent::Motherboard(MotherboardEvent::MotherboardInitialized));
    assert_eq!(sm.state(), State::WaitingRegistrationRequests);
    match sm.pop_task() {
        Some(MotherboardTask::Timeout(t)) => {
            assert_eq!(t, 20);
            assert_eq!(t, REGISTRATION_TIMEOUT);
        }
        _ => panic!("expected a timeout task"),
    }
    // a second initialisation does not arm the timeout again
    sm.put_event(MotherbroadOrRoleEvent::Motherboard(MotherboardEvent::MotherboardInitialized));
    assert_eq!(sm.number_of_tasks(), 0);

    for name in ["T1", "T2", "T3"] {
        assert!(sm.put_event(registration(name)).is_none());
        assert_eq!(sm.state(), State::WaitingRegistrationRequests);
        assert_eq!(sm.connected_nodes().len(), 0);
    }
    let event = sm.put_event(MotherbroadOrRoleEvent::Motherboard(MotherboardEvent::TaskTimeoutDone));
    assert!(matches!(event, Some(MOMEvent::ClusterConnected(3))));
    assert_eq!(sm.state(), State::Running);
    let names: Vec<String> = sm.connected_nodes().iter().map(|n| n.name.clone()).collect();
    assert_eq!(names, ["T1", "T2", "T3"]);

    // confirmations come out newest first
    assert_eq!(sm.number_of_tasks(), 3);
    for expected in ["T3", "T2", "T1"] {
        match sm.pop_task() {
            Some(MotherboardTask::Send(p)) => {
                assert_eq!(p.dst, expected);
                assert_eq!(p.final_dst, expected);
                assert_eq!(p.src, expected);
                assert_eq!(p.original_src, "");
                assert_eq!(p.nb_hops, 0);
                match p.op {
                    Operation::RegistrationConfirmation { node_list } => {
                        assert_eq!(node_list.len(), 1);
                        assert_eq!(node_list[0].name, "N1");
                        assert_eq!(node_list[0].role, RoleEnum::MainAggregator);
                    }
                    _ => panic!("expected a confirmation"),
                }
            }
            _ => panic!("expected a send task"),
        }
    }
    assert!(sm.pop_task().is_none());
}

#[test]
fn registration_round_with_one_and_with_many_requests() {
    for n in [1usize, 2, 17] {
        let mut sm = StarMom::new(node("A", RoleEnum::MainAggregator), vec![]);
        sm.put_event(MotherbroadOrRoleEvent::Motherboard(MotherboardEvent::MotherboardInitialized));
        for k in 0..n {
            sm.put_event(registration(&format!("T{}", k)));
        }
        let event =
            sm.put_event(MotherbroadOrRoleEvent::Motherboard(MotherboardEvent::TaskTimeoutDone));
        assert_eq!(sm.connected_nodes().len(), n);
        match event {
            Some(MOMEvent::ClusterConnected(c)) => assert_eq!(c, n as u64),
            _ => panic!("expected ClusterConnected"),
        }
    }
}

#[test]
fn timeout_without_requests_connects_an_empty_cluster() {
    let mut sm = StarMom::new(node("A", RoleEnum::MainAggregator), vec![]);
    sm.put_event(MotherbroadOrRoleEvent::Motherboard(MotherboardEvent::MotherboardInitialized));
    let event = sm.put_event(MotherbroadOrRoleEvent::Motherboard(MotherboardEvent::TaskTimeoutDone));
    assert!(matches!(event, Some(MOMEvent::ClusterConnected(0))));
    assert_eq!(sm.state(), State::Running);
    assert_eq!(sm.number_of_tasks(), 1);
}

#[test]
fn broadcast_resolves_to_the_peers_that_pass_the_filter() {
    let mut sm = StarMom::new(node("T0", RoleEnum::Trainer), vec![node("A", RoleEnum::MainAggregator)]);
    sm.put_event(MotherbroadOrRoleEvent::Motherboard(MotherboardEvent::MotherboardInitialized));
    sm.pop_task();
    sm.put_event(received(Packet::new(
        "T0".to_string(),
        "T0".to_string(),
        Operation::RegistrationConfirmation {
            node_list: vec![
                node("A", RoleEnum::MainAggregator),
                node("T1", RoleEnum::Trainer),
                node("B", RoleEnum::Aggregator),
            ],
        },
    )));
    assert_eq!(sm.connected_nodes().len(), 3);

    let event = sm.put_event(MotherbroadOrRoleEvent::Role(RoleEvent::ToBeSentPacket {
        filter: NodeFilter::Aggregators,
        op: Operation::SendLocalModel { number_local_epochs_done: 7 },
    }));
    assert!(event.is_none());
    assert_eq!(sm.state(), State::Running);
    assert_eq!(sm.number_of_tasks(), 2);
    let mut ids = Vec::new();
    for expected in ["B", "A"] {
        match sm.pop_task() {
            Some(MotherboardTask::Send(p)) => {
                assert_eq!(p.src, "T0");
                assert_eq!(p.dst, expected);
                assert!(p.broadcast);
                assert_eq!(p.target_filter, Some(NodeFilter::Aggregators));
                assert!(matches!(p.op, Operation::SendLocalModel { number_local_epochs_done: 7 }));
                ids.push(p.id);
            }
            _ => panic!("expected a send task"),
        }
    }
    // every delivery of one broadcast carries the identifier of the broadcast
    assert_eq!(ids[0], ids[1]);

    sm.put_event(MotherbroadOrRoleEvent::Role(RoleEvent::ToBeSentPacket {
        filter: NodeFilter::Trainers,
        op: Operation::SendGlobalModel { number_local_epochs: 1 },
    }));
    assert_eq!(sm.number_of_tasks(), 1);
    sm.put_event(MotherbroadOrRoleEvent::Role(RoleEvent::ToBeSentPacket {
        filter: NodeFilter::Everyone,
        op: Operation::SendGlobalModel { number_local_epochs: 1 },
    }));
    assert_eq!(sm.number_of_tasks(), 4);
}

#[test]
fn running_node_routes_only_what_targets_its_role() {
    let mut sm = running_aggregator(&["T1"]);
    // a broadcast for trainers is not for an aggregator's role
    let event = sm.put_event(received(Packet::new_broadcast(
        NodeFilter::Trainers,
        Operation::SendGlobalModel { number_local_epochs: 3 },
    )));
    assert!(event.is_none());
    assert_eq!(sm.state(), State::Running);
    // a point-to-point packet for this node is
    let event = sm.put_event(received(Packet::new(
        "Node 1".to_string(),
        "Node 1".to_string(),
        Operation::SendLocalModel { number_local_epochs_done: 2 },
    )));
    assert!(matches!(
        event,
        Some(MOMEvent::OperationReceived(Operation::SendLocalModel { number_local_epochs_done: 2 }))
    ));
    // one on its way to another node is not
    let event = sm.put_event(received(Packet::new(
        "Node 1".to_string(),
        "Node 7".to_string(),
        Operation::SendLocalModel { number_local_epochs_done: 2 },
    )));
    assert!(event.is_none());
    assert_eq!(sm.number_of_tasks(), 0);
}

#[test]
fn kill_received_while_running_ends_all_sending() {
    let mut sm = running_aggregator(&["T1", "T2"]);
    assert_eq!(sm.state(), State::Running);
    let event = sm.put_event(received(Packet::new_broadcast(NodeFilter::Everyone, Operation::Kill)));
    assert!(event.is_none());
    assert_eq!(sm.state(), State::Killing);
    assert_eq!(sm.number_of_tasks(), 0);

    // no further send task is queued afterward, whatever happens
    sm.put_event(MotherbroadOrRoleEvent::Role(RoleEvent::ToBeSentPacket {
        filter: NodeFilter::Everyone,
        op: Operation::SendGlobalModel { number_local_epochs: 3 },
    }));
    sm.put_event(registration("T3"));
    sm.put_event(MotherbroadOrRoleEvent::Motherboard(MotherboardEvent::TaskTimeoutDone));
    sm.put_event(MotherbroadOrRoleEvent::Motherboard(MotherboardEvent::MotherboardInitialized));
    assert_eq!(sm.state(), State::Killing);
    assert_eq!(sm.number_of_tasks(), 0);
    assert!(sm.pop_task().is_none());
    assert_eq!(sm.connected_nodes().len(), 2);
}

#[test]
fn kill_sent_by_the_role_goes_out_and_ends_the_node() {
    let mut sm = running_aggregator(&["T1", "T2"]);
    let event = sm.put_event(MotherbroadOrRoleEvent::Role(RoleEvent::ToBeSentPacket {
        filter: NodeFilter::Everyone,
        op: Operation::Kill,
    }));
    assert!(event.is_none());
    assert_eq!(sm.state(), State::Killing);
    assert_eq!(sm.number_of_tasks(), 2);
    for expected in ["T2", "T1"] {
        match sm.pop_task() {
            Some(MotherboardTask::Send(p)) => {
                assert_eq!(p.dst, expected);
                assert!(matches!(p.op, Operation::Kill));
            }
            _ => panic!("expected a send task"),
        }
    }
}

#[test]
fn configuration_is_checked_before_a_node_is_made() {
    assert!(StarMom::is_valid_config(&node("A", RoleEnum::MainAggregator), &vec![]));
    assert!(StarMom::is_valid_config(
        &node("T", RoleEnum::Trainer),
        &vec![node("A", RoleEnum::MainAggregator)]
    ));
    // a trainer needs a peer to register with
    assert!(!StarMom::is_valid_config(&node("T", RoleEnum::Trainer), &vec![]));
    // a star cluster has no secondary aggregator
    assert!(!StarMom::is_valid_config(&node("B", RoleEnum::Aggregator), &vec![]));
    assert!(!StarMom::is_valid_config(
        &node("B", RoleEnum::Aggregator),
        &vec![node("A", RoleEnum::MainAggregator)]
    ));
}

fn trace(sm: &mut StarMom, events: Vec<MotherbroadOrRoleEvent>) -> Vec<String> {
    let mut out = Vec::new();
    for e in events {
        let emitted = sm.put_event(e);
        let emitted = match emitted {
            Some(MOMEvent::OperationReceived(op)) => format!("op:{}", op.to_string()),
            Some(MOMEvent::NodeConnected) => "connected".to_string(),
            Some(MOMEvent::ClusterConnected(n)) => format!("cluster:{}", n),
            None => "-".to_string(),
        };
        out.push(format!("{:?}/{}/{}/{}", sm.state(), sm.connected_nodes().len(), sm.number_of_tasks(), emitted));
    }
    while let Some(task) = sm.pop_task() {
        out.push(match task {
            MotherboardTask::Send(p) => format!("send:{}>{}:{}", p.src, p.dst, p.op.to_string()),
            MotherboardTask::Exec(k) => format!("exec:{:?}", k),
            MotherboardTask::Timeout(t) => format!("timeout:{}", t),
        });
    }
    out
}

fn script() -> Vec<MotherbroadOrRoleEvent> {
    vec![
        MotherbroadOrRoleEvent::Motherboard(MotherboardEvent::MotherboardInitialized),
        registration("T1"),
        MotherbroadOrRoleEvent::Motherboard(MotherboardEvent::TaskSendDone),
        registration("T2"),
        MotherbroadOrRoleEvent::Motherboard(MotherboardEvent::TaskTimeoutDone),
        MotherbroadOrRoleEvent::Role(RoleEvent::ToBeSentPacket {
            filter: NodeFilter::Trainers,
            op: Operation::SendGlobalModel { number_local_epochs: 3 },
        }),
        received(Packet::new_broadcast(
            NodeFilter::Aggregators,
            Operation::SendLocalModel { number_local_epochs_done: 3 },
        )),
        received(Packet::new_broadcast(NodeFilter::Everyone, Operation::Kill)),
        registration("T3"),
    ]
}

#[test]
fn two_instances_fed_the_same_events_behave_alike() {
    let mut a = StarMom::new(node("Node 1", RoleEnum::MainAggregator), vec![]);
    let mut b = StarMom::new(node("Node 1", RoleEnum::MainAggregator), vec![]);
    let ta = trace(&mut a, script());
    let tb = trace(&mut b, script());
    assert_eq!(ta, tb);
    assert_eq!(ta[4], "Running/2/3/cluster:2");
    assert_eq!(ta[7], "Killing/2/5/-");
    assert_eq!(ta[8], "Killing/2/5/-");
}

#[test]
fn pending_tasks_can_be_cancelled_by_the_runtime() {
    let mut sm = StarMom::new(node("A", RoleEnum::MainAggregator), vec![]);
    sm.put_event(MotherbroadOrRoleEvent::Motherboard(MotherboardEvent::MotherboardInitialized));
    sm.put_event(registration("T1"));
    sm.put_event(MotherbroadOrRoleEvent::Motherboard(MotherboardEvent::TaskTimeoutDone));
    assert_eq!(sm.number_of_tasks(), 2);
    let cancelled = sm.cancel_pending_tasks();
    assert_eq!(cancelled.len(), 2);
    // oldest first
    assert!(matches!(cancelled[0], MotherboardTask::Timeout(20)));
    assert!(matches!(cancelled[1], MotherboardTask::Send(_)));
    assert_eq!(sm.number_of_tasks(), 0);
    assert_eq!(sm.state(), State::Running);
    assert_eq!(sm.connected_nodes().len(), 1);
    assert!(sm.cancel_pending_tasks().is_empty());
}
