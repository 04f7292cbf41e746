use falafels::moms::star_mom::State as MomState;
use falafels::motherboard::{KindExec, Motherboard, MotherboardEvent, MotherboardTask};
use falafels::protocol::filters::NodeFilter;
use falafels::protocol::operations::Operation;
use falafels::protocol::packet::Packet;
use falafels::protocol::{NodeInfo, RoleEnum};
use falafels::roles::aggregators::simple_aggregator::State as AggregatorState;
use falafels::roles::trainers::simple_trainers::State as TrainerState;
use falafels::roles::RoleKind;

fn node(name: &str, role: RoleEnum) -> NodeInfo {
    NodeInfo { name: name.to_string(), role }
}

fn describe(tasks: &Vec<MotherboardTask>) -> Vec<String> {
    tasks
        .iter()
        .map(|t| match t {
            MotherboardTask::Send(p) => format!("send:{}>{}:{}", p.src, p.dst, p.op.to_string()),
            MotherboardTask::Exec(k) => format!("exec:{:?}", k),
            MotherboardTask::Timeout(t) => format!("timeout:{}", t),
        })
        .collect()
}

fn trainer_state(mb: &Motherboard) -> TrainerState {
    match mb.role() {
        RoleKind::Trainer(t) => t.state(),
        _ => panic!("expected a trainer"),
    }
}

fn aggregator_state(mb: &Motherboard) -> AggregatorState {
    match mb.role() {
        RoleKind::Aggregator(a) => a.state(),
        _ => panic!("expected an aggregator"),
    }
}

#[test]
fn trainer_node_registers_trains_and_reports() {
    let mut mb = Motherboard::new(
        node("T", RoleEnum::Trainer),
        vec![node("A", RoleEnum::MainAggregator)],
    );
    let tasks = mb.put_event(MotherboardEvent::MotherboardInitialized);
    assert_eq!(describe(&tasks), ["send:A>A:RegistrationRequest"]);
    assert_eq!(mb.mom().state(), MomState::WaitingRegistrationConfirmation);
    assert_eq!(mb.mom().number_of_tasks(), 0);

    let tasks = mb.put_event(MotherboardEvent::PacketReceived(Packet::new(
        "T".to_string(),
        "T".to_string(),
        Operation::RegistrationConfirmation { node_list: vec![node("A", RoleEnum::MainAggregator)] },
    )));
    assert!(tasks.is_empty());
    assert_eq!(mb.mom().state(), MomState::Running);
    assert_eq!(trainer_state(&mb), TrainerState::WaitingGlobalModels);

    // the global model reaches the role, which starts to train
    let tasks = mb.put_event(MotherboardEvent::PacketReceived(Packet::new_broadcast(
        NodeFilter::Trainers,
        Operation::SendGlobalModel { number_local_epochs: 6 },
    )));
    assert_eq!(describe(&tasks), ["exec:Training"]);
    assert_eq!(trainer_state(&mb), TrainerState::Training);

    // the end of the training sends the local model to the aggregator
    let tasks = mb.put_event(MotherboardEvent::TaskExecDone);
    assert_eq!(describe(&tasks), ["send:T>A:SendLocalModel"]);
    match &tasks[0] {
        MotherboardTask::Send(p) => {
            assert!(matches!(p.op, Operation::SendLocalModel { number_local_epochs_done: 6 }));
            assert_eq!(p.target_filter, Some(NodeFilter::Aggregators));
        }
        _ => panic!("expected a send task"),
    }
    assert_eq!(trainer_state(&mb), TrainerState::WaitingGlobalModels);

    // a kill ends the node: nothing is handed out any more
    let tasks = mb.put_event(MotherboardEvent::PacketReceived(Packet::new_broadcast(
        NodeFilter::Everyone,
        Operation::Kill,
    )));
    assert!(tasks.is_empty());
    assert_eq!(mb.mom().state(), MomState::Killing);
    let tasks = mb.put_event(MotherboardEvent::PacketReceived(Packet::new_broadcast(
        NodeFilter::Trainers,
        Operation::SendGlobalModel { number_local_epochs: 6 },
    )));
    assert!(tasks.is_empty());
    assert_eq!(trainer_state(&mb), TrainerState::WaitingGlobalModels);
}

#[test]
fn aggregator_node_runs_a_round() {
    let mut mb = Motherboard::new(node("A", RoleEnum::MainAggregator), vec![]);
    let tasks = mb.put_event(MotherboardEvent::MotherboardInitialized);
    assert_eq!(describe(&tasks), ["timeout:20"]);
    for name in ["T1", "T2"] {
        let tasks = mb.put_event(MotherboardEvent::PacketReceived(Packet::new(
            "A".to_string(),
            "A".to_string(),
            Operation::RegistrationRequest { node_to_register: node(name, RoleEnum::Trainer) },
        )));
        assert!(tasks.is_empty());
    }
    // the timeout connects the cluster, and the role sends the first global model
    let tasks = mb.put_event(MotherboardEvent::TaskTimeoutDone);
    assert_eq!(
        describe(&tasks),
        [
            "send:A>T2:SendGlobalModel",
            "send:A>T1:SendGlobalModel",
            "send:T2>T2:RegistrationConfirmation",
            "send:T1>T1:RegistrationConfirmation",
        ]
    );
    assert_eq!(mb.mom().state(), MomState::Running);
    assert_eq!(aggregator_state(&mb), AggregatorState::WaitingLocalModels);

    let local = || {
        MotherboardEvent::PacketReceived(Packet::new_broadcast(
            NodeFilter::Aggregators,
            Operation::SendLocalModel { number_local_epochs_done: 3 },
        ))
    };
    assert!(mb.put_event(local()).is_empty());
    let tasks = mb.put_event(local());
    assert_eq!(describe(&tasks), ["exec:Aggregating"]);
    assert!(matches!(tasks[0], MotherboardTask::Exec(KindExec::Aggregating)));
    assert_eq!(aggregator_state(&mb), AggregatorState::Aggregating);

    // six local epochs are not enough: the next round starts
    let tasks = mb.put_event(MotherboardEvent::TaskExecDone);
    assert_eq!(describe(&tasks), ["send:A>T2:SendGlobalModel", "send:A>T1:SendGlobalModel"]);
    assert_eq!(aggregator_state(&mb), AggregatorState::WaitingLocalModels);
    // events that concern nobody change nothing
    assert!(mb.put_event(MotherboardEvent::TaskSendDone).is_empty());
    assert!(mb.put_event(MotherboardEvent::TaskExecDone).is_empty());
}

#[test]
fn two_nodes_fed_the_same_events_hand_out_the_same_tasks() {
    let script = || {
        vec![
            MotherboardEvent::MotherboardInitialized,
            MotherboardEvent::PacketReceived(Packet::new(
                "A".to_string(),
                "A".to_string(),
                Operation::RegistrationRequest { node_to_register: node("T1", RoleEnum::Trainer) },
            )),
            MotherboardEvent::TaskTimeoutDone,
            MotherboardEvent::PacketReceived(Packet::new_broadcast(
                NodeFilter::Aggregators,
                Operation::SendLocalModel { number_local_epochs_done: 2000 },
            )),
            MotherboardEvent::TaskExecDone,
            MotherboardEvent::TaskExecDone,
        ]
    };
    let run = || {
        let mut mb = Motherboard::new(node("A", RoleEnum::MainAggregator), vec![]);
        let mut out = Vec::new();
        for e in script() {
            let tasks = mb.put_event(e);
            out.push(format!("{:?}|{:?}", mb.mom().state(), describe(&tasks)));
        }
        out
    };
    let first = run();
    assert_eq!(first, run());
    // enough local epochs were reported: the training ends with a kill for everyone
    assert_eq!(first[4], "Killing|[\"send:A>T1:Kill\"]");
    assert_eq!(first[5], "Killing|[]");
}

#[test]
fn node_with_a_configured_role_uses_its_configuration() {
    use_configured_role();
}

fn use_configured_role() {
    let role = RoleKind::Aggregator(
        falafels::roles::aggregators::simple_aggregator::SimpleAggregator::with_config(9, 5),
    );
    let mut mb = Motherboard::with_role(node("A", RoleEnum::MainAggregator), vec![], role);
    mb.put_event(MotherboardEvent::MotherboardInitialized);
    mb.put_event(MotherboardEvent::PacketReceived(Packet::new(
        "A".to_string(),
        "A".to_string(),
        Operation::RegistrationRequest { node_to_register: node("T1", RoleEnum::Trainer) },
    )));
    let tasks = mb.put_event(MotherboardEvent::TaskTimeoutDone);
    match &tasks[0] {
        MotherboardTask::Send(p) => {
            assert!(matches!(p.op, Operation::SendGlobalModel { number_local_epochs: 9 }))
        }
        _ => panic!("expected a send task"),
    }
}
