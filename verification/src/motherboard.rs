//! The surface between one node and the simulator: the tasks a node hands
//! out, the events that come back, and the runtime that binds one middleware
//! instance to one role instance.

use crate::moms::star_mom::{StarMom, StarMomView};
use crate::moms::{MOMEvent, MOMEventView, MOM};
use crate::protocol::packet::{Packet, PacketView};
use crate::protocol::{NodeInfo, NodeInfoView, RoleEnum};
use crate::roles::aggregators::simple_aggregator::{SimpleAggregator, SimpleAggregatorView};
use crate::roles::trainers::simple_trainers::{SimpleTrainer, SimpleTrainerView};
use crate::roles::{Role, RoleEvent, RoleEventView, RoleKind, RoleKindView};
use vstd::prelude::*;

verus! {

/// What a computation task stands for.
#[derive(Clone, Copy, Debug, PartialEq, Eq, Structural)]
pub enum KindExec {
    Aggregating,
    Training,
}

/// Work that a node asks the simulator to carry out.
#[derive(Debug)]
pub enum MotherboardTask {
    /// A computation of simulated duration.
    Exec(KindExec),
    /// A network transmission.
    Send(Packet),
    /// Asks for a timeout event after the given number of seconds.
    Timeout(u64),
}

/// Mathematical value of a [`MotherboardTask`].
pub enum MotherboardTaskView {
    Exec(KindExec),
    Send(PacketView),
    Timeout(u64),
}

impl View for MotherboardTask {
    type V = MotherboardTaskView;

    open spec fn view(&self) -> MotherboardTaskView {
        match self {
            MotherboardTask::Exec(kind) => MotherboardTaskView::Exec(*kind),
            MotherboardTask::Send(packet) => MotherboardTaskView::Send(packet@),
            MotherboardTask::Timeout(seconds) => MotherboardTaskView::Timeout(*seconds),
        }
    }
}

impl DeepView for MotherboardTask {
    type V = MotherboardTaskView;

    open spec fn deep_view(&self) -> MotherboardTaskView {
        self@
    }
}

impl MotherboardTaskView {
    /// Whether the task is a network transmission.
    pub open spec fn is_send(self) -> bool {
        self is Send
    }
}

/// What the simulator reports to a node.
#[derive(Debug)]
pub enum MotherboardEvent {
    /// First event after the node's runtime has been set up.
    MotherboardInitialized,
    /// A computation task has finished.
    TaskExecDone,
    /// A transmission task has finished.
    TaskSendDone,
    /// A timeout has fired.
    TaskTimeoutDone,
    /// A packet has arrived from the network.
    PacketReceived(Packet),
}

/// Mathematical value of a [`MotherboardEvent`].
pub enum MotherboardEventView {
    MotherboardInitialized,
    TaskExecDone,
    TaskSendDone,
    TaskTimeoutDone,
    PacketReceived(PacketView),
}

impl View for MotherboardEvent {
    type V = MotherboardEventView;

    open spec fn view(&self) -> MotherboardEventView {
        match self {
            MotherboardEvent::MotherboardInitialized => MotherboardEventView::MotherboardInitialized,
            MotherboardEvent::TaskExecDone => MotherboardEventView::TaskExecDone,
            MotherboardEvent::TaskSendDone => MotherboardEventView::TaskSendDone,
            MotherboardEvent::TaskTimeoutDone => MotherboardEventView::TaskTimeoutDone,
            MotherboardEvent::PacketReceived(packet) => MotherboardEventView::PacketReceived(
                packet@,
            ),
        }
    }
}

impl Clone for MotherboardEvent {
    fn clone(&self) -> (res: Self)
        ensures
            res@ == self@,
    {
        match self {
            MotherboardEvent::MotherboardInitialized => MotherboardEvent::MotherboardInitialized,
            MotherboardEvent::TaskExecDone => MotherboardEvent::TaskExecDone,
            MotherboardEvent::TaskSendDone => MotherboardEvent::TaskSendDone,
            MotherboardEvent::TaskTimeoutDone => MotherboardEvent::TaskTimeoutDone,
            MotherboardEvent::PacketReceived(packet) => MotherboardEvent::PacketReceived(
                packet.clone(),
            ),
        }
    }
}

/// An input of a role: it comes from the simulator or from the middleware.
#[derive(Debug)]
pub enum MotherboardOrMOMEvent {
    Motherboard(MotherboardEvent),
    MOM(MOMEvent),
}

/// Mathematical value of a [`MotherboardOrMOMEvent`].
pub enum MotherboardOrMOMEventView {
    Motherboard(MotherboardEventView),
    MOM(MOMEventView),
}

impl View for MotherboardOrMOMEvent {
    type V = MotherboardOrMOMEventView;

    open spec fn view(&self) -> MotherboardOrMOMEventView {
        match self {
            MotherboardOrMOMEvent::Motherboard(e) => MotherboardOrMOMEventView::Motherboard(e@),
            MotherboardOrMOMEvent::MOM(e) => MotherboardOrMOMEventView::MOM(e@),
        }
    }
}

/// An input of the middleware: it comes from the simulator or from the role.
#[derive(Debug)]
pub enum MotherbroadOrRoleEvent {
    Motherboard(MotherboardEvent),
    Role(RoleEvent),
}

/// Mathematical value of a [`MotherbroadOrRoleEvent`].
pub enum MotherbroadOrRoleEventView {
    Motherboard(MotherboardEventView),
    Role(RoleEventView),
}

impl View for MotherbroadOrRoleEvent {
    type V = MotherbroadOrRoleEventView;

    open spec fn view(&self) -> MotherbroadOrRoleEventView {
        match self {
            MotherbroadOrRoleEvent::Motherboard(e) => MotherbroadOrRoleEventView::Motherboard(e@),
            MotherbroadOrRoleEvent::Role(e) => MotherbroadOrRoleEventView::Role(e@),
        }
    }
}

/// Mathematical value of a [`Motherboard`].
pub struct MotherboardView {
    pub mom: StarMomView,
    pub role: RoleKindView,
}

impl MotherboardView {
    /// The role that a node plays by default: a trainer trains, any other
    /// node aggregates.
    pub open spec fn default_role(role: RoleEnum) -> RoleKindView {
        match role {
            RoleEnum::Trainer => RoleKindView::Trainer(SimpleTrainerView::init()),
            _ => RoleKindView::Aggregator(SimpleAggregatorView::init()),
        }
    }

    /// The runtime of a node that has just been created.
    pub open spec fn init(node: NodeInfoView, bootstrap_nodes: Seq<NodeInfoView>) -> MotherboardView {
        MotherboardView {
            mom: StarMomView::init(node, bootstrap_nodes),
            role: Self::default_role(node.role),
        }
    }

    /// What the role is fed after the middleware has seen `event`: the event
    /// that the middleware derived, or else the simulator's event itself.
    pub open spec fn role_input(event: MotherboardEventView, derived: Option<MOMEventView>) -> MotherboardOrMOMEventView {
        match derived {
            Some(e) => MotherboardOrMOMEventView::MOM(e),
            None => MotherboardOrMOMEventView::Motherboard(event),
        }
    }

    /// The node after one event of the simulator, before its task queues are
    /// drained. The middleware sees the event first; the role sees what the
    /// middleware derived from it, or the event itself; a request of the role
    /// goes back to the middleware, which resolves it into transmissions.
    pub open spec fn react(self, event: MotherboardEventView) -> MotherboardView {
        let (mom1, derived) = self.mom.step(MotherbroadOrRoleEventView::Motherboard(event));
        let (role1, request) = self.role.step(Self::role_input(event, derived));
        let mom2 = match request {
            Some(r) => mom1.step(MotherbroadOrRoleEventView::Role(r)).0,
            None => mom1,
        };
        MotherboardView { mom: mom2, role: role1 }
    }

    /// Everything that is queued, in the order in which it is handed out: the
    /// tasks of the middleware, newest first, then those of the role, newest
    /// first.
    pub open spec fn pending(self) -> Seq<MotherboardTaskView> {
        self.mom.tasks.reverse() + self.role.tasks().reverse()
    }

    /// The same node with empty task queues.
    pub open spec fn drained(self) -> MotherboardView {
        MotherboardView {
            mom: StarMomView { tasks: Seq::empty(), ..self.mom },
            role: self.role.with_tasks(Seq::empty()),
        }
    }

    /// The node after one event of the simulator, and the tasks it hands to
    /// the simulator.
    pub open spec fn step(self, event: MotherboardEventView) -> (
        MotherboardView,
        Seq<MotherboardTaskView>,
    ) {
        (self.react(event).drained(), self.react(event).pending())
    }
}

impl MotherboardView {
    /// The node after a sequence of events of the simulator, fed in order.
    pub open spec fn run(self, events: Seq<MotherboardEventView>) -> MotherboardView
        decreases events.len(),
    {
        if events.len() == 0 {
            self
        } else {
            self.run(events.drop_last()).step(events.last()).0
        }
    }

    /// The tasks handed to the simulator over a sequence of events, one
    /// entry per event.
    pub open spec fn handed_out(self, events: Seq<MotherboardEventView>) -> Seq<
        Seq<MotherboardTaskView>,
    >
        decreases events.len(),
    {
        if events.len() == 0 {
            Seq::empty()
        } else {
            self.handed_out(events.drop_last()).push(
                self.run(events.drop_last()).step(events.last()).1,
            )
        }
    }
}

/// Determinism. Two nodes made of the same identity and the same bootstrap
/// peers, fed the same events, go through the same values and hand the same
/// tasks to the simulator, at every point of the sequence.
pub proof fn lemma_node_deterministic(
    node: NodeInfoView,
    bootstrap_nodes: Seq<NodeInfoView>,
    events: Seq<MotherboardEventView>,
    upto: int,
)
    requires
        0 <= upto <= events.len(),
    ensures
        ({
            let a = MotherboardView::init(node, bootstrap_nodes);
            let b = MotherboardView::init(node, bootstrap_nodes);
            &&& a.run(events.take(upto)) == b.run(events.take(upto))
            &&& a.handed_out(events.take(upto)) == b.handed_out(events.take(upto))
        }),
{
}

/// The node keeps the invariant of its middleware through every event, and
/// leaves no task behind: whatever was queued has been handed out.
pub proof fn lemma_node_step(s: MotherboardView, event: MotherboardEventView)
    requires
        s.mom.inv(),
    ensures
        s.step(event).0.mom.inv(),
        s.step(event).0.mom.tasks.len() == 0,
        s.step(event).0.role.tasks().len() == 0,
{
    let derived = s.mom.step(MotherbroadOrRoleEventView::Motherboard(event));
    crate::moms::star_mom::lemma_step_preserves_inv(
        s.mom,
        MotherbroadOrRoleEventView::Motherboard(event),
    );
    let request = s.role.step(MotherboardView::role_input(event, derived.1)).1;
    match request {
        Some(r) => {
            crate::moms::star_mom::lemma_step_preserves_inv(
                derived.0,
                MotherbroadOrRoleEventView::Role(r),
            );
        },
        None => {},
    }
}

/// The runtime of one simulated node: exactly one middleware instance and one
/// role instance, which it feeds strictly one after the other.
pub struct Motherboard {
    role: RoleKind,
    mom: StarMom,
}

impl View for Motherboard {
    type V = MotherboardView;

    closed spec fn view(&self) -> MotherboardView {
        MotherboardView { mom: self.mom@, role: self.role@ }
    }
}

impl Motherboard {
    /// Makes the runtime of a node. A configuration that the star topology
    /// forbids is a fatal error of the deployment and must not get here.
    pub fn new(node_info: NodeInfo, bootstrap_nodes: Vec<NodeInfo>) -> (res: Motherboard)
        requires
            StarMomView::valid_config(node_info@, bootstrap_nodes.deep_view()),
        ensures
            res@ == MotherboardView::init(node_info@, bootstrap_nodes.deep_view()),
            res@.mom.inv(),
    {
        let role = match node_info.role {
            RoleEnum::Trainer => RoleKind::Trainer(SimpleTrainer::new()),
            _ => RoleKind::Aggregator(SimpleAggregator::new()),
        };
        Motherboard { role, mom: StarMom::new(node_info, bootstrap_nodes) }
    }

    /// Makes the runtime of a node that plays the given role, which may have
    /// been configured beforehand.
    pub fn with_role(node_info: NodeInfo, bootstrap_nodes: Vec<NodeInfo>, role: RoleKind) -> (res:
        Motherboard)
        requires
            StarMomView::valid_config(node_info@, bootstrap_nodes.deep_view()),
        ensures
            res@ == (MotherboardView {
                mom: StarMomView::init(node_info@, bootstrap_nodes.deep_view()),
                role: role@,
            }),
            res@.mom.inv(),
    {
        Motherboard { role, mom: StarMom::new(node_info, bootstrap_nodes) }
    }

    /// The middleware of this node.
    pub fn mom(&self) -> (res: &StarMom)
        ensures
            res@ == self@.mom,
    {
        &self.mom
    }

    /// The role of this node.
    pub fn role(&self) -> (res: &RoleKind)
        ensures
            res@ == self@.role,
    {
        &self.role
    }

    /// Moves every queued task to `out`, the middleware's first.
    fn drain(&mut self, out: &mut Vec<MotherboardTask>)
        requires
            old(self)@.mom.inv(),
        ensures
            final(self)@ == old(self)@.drained(),
            final(out).deep_view() == old(out).deep_view() + old(self)@.pending(),
    {
        let ghost start = self@;
        let ghost before = out.deep_view();
        loop
            invariant
                self@.mom.inv(),
                self@.role == start.role,
                self@.mom == (StarMomView { tasks: self@.mom.tasks, ..start.mom }),
                before + start.mom.tasks.reverse() == out.deep_view() + self@.mom.tasks.reverse(),
            ensures
                self@.mom.tasks.len() == 0,
            decreases self@.mom.tasks.len(),
        {
            let ghost queued = self@.mom.tasks;
            let ghost prev = out.deep_view();
            match self.mom.pop_task() {
                Some(task) => {
                    out.push(task);
                    proof {
                        assert(out.deep_view() =~= prev.push(task@));
                        assert(queued.reverse() =~= seq![queued.last()] + queued.drop_last().reverse());
                        assert(out.deep_view() + self@.mom.tasks.reverse() =~= prev
                            + queued.reverse());
                    }
                },
                None => {
                    break ;
                },
            }
        }
        assert(self@.mom.tasks =~= Seq::empty());
        assert(out.deep_view() =~= before + start.mom.tasks.reverse()) by {
            assert(self@.mom.tasks.reverse() =~= Seq::empty());
        }
        let ghost middle = out.deep_view();
        loop
            invariant
                self@.mom == (StarMomView { tasks: Seq::empty(), ..start.mom }),
                self@.role == start.role.with_tasks(self@.role.tasks()),
                middle + start.role.tasks().reverse() == out.deep_view()
                    + self@.role.tasks().reverse(),
            ensures
                self@.role.tasks().len() == 0,
            decreases self@.role.tasks().len(),
        {
            let ghost queued = self@.role.tasks();
            let ghost prev = out.deep_view();
            match self.role.pop_task() {
                Some(task) => {
                    out.push(task);
                    proof {
                        assert(out.deep_view() =~= prev.push(task@));
                        assert(queued.reverse() =~= seq![queued.last()] + queued.drop_last().reverse());
                        assert(out.deep_view() + self@.role.tasks().reverse() =~= prev
                            + queued.reverse());
                    }
                },
                None => {
                    break ;
                },
            }
        }
        proof {
            assert(self@.role.tasks() =~= Seq::empty());
            assert(self@.role.tasks().reverse() =~= Seq::empty());
            assert(out.deep_view() =~= before + start.pending());
        }
    }

    /// Processes one event of the simulator and returns the tasks for the
    /// simulator: the node moves as `MotherboardView::step` says.
    pub fn put_event(&mut self, event: MotherboardEvent) -> (res: Vec<MotherboardTask>)
        requires
            old(self)@.mom.inv(),
        ensures
            final(self)@ == old(self)@.step(event@).0,
            res.deep_view() == old(self)@.step(event@).1,
            final(self)@.mom.inv(),
    {
        let for_role = event.clone();
        let derived = self.mom.run_one_step(MotherbroadOrRoleEvent::Motherboard(event));
        let role_input = match derived {
            Some(e) => MotherboardOrMOMEvent::MOM(e),
            None => MotherboardOrMOMEvent::Motherboard(for_role),
        };
        let request = self.role.put_event(role_input);
        match request {
            Some(r) => {
                let _ = self.mom.run_one_step(MotherbroadOrRoleEvent::Role(r));
            },
            None => {},
        }
        let mut out: Vec<MotherboardTask> = Vec::new();
        assert(out.deep_view() =~= Seq::empty());
        self.drain(&mut out);
        assert(out.deep_view() =~= old(self)@.react(event@).pending());
        out
    }
}

} // verus!
