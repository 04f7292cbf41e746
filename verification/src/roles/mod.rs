//! Application-level state machines that drive the training round.

use crate::motherboard::{
    MotherboardOrMOMEvent, MotherboardOrMOMEventView, MotherboardTask, MotherboardTaskView,
};
use crate::roles::aggregators::simple_aggregator::{SimpleAggregator, SimpleAggregatorView};
use crate::roles::trainers::simple_trainers::{SimpleTrainer, SimpleTrainerView};
use crate::protocol::filters::NodeFilter;
use crate::protocol::operations::{Operation, OperationView};
use vstd::prelude::*;

pub mod aggregators;
pub mod trainers;

verus! {

/// The interface of a role towards the node runtime.
pub trait Role {
    /// The invariant of the implementation, which constructors establish.
    spec fn wf(&self) -> bool;

    /// Feeds one event to the role, which may answer with a request for the
    /// middleware.
    fn put_event(&mut self, mb_event: MotherboardOrMOMEvent) -> (res: Option<RoleEvent>)
        requires
            old(self).wf(),
        ensures
            final(self).wf(),
    ;

    /// Takes the most recently queued task, if there is one.
    fn pop_task(&mut self) -> (res: Option<MotherboardTask>)
        requires
            old(self).wf(),
        ensures
            final(self).wf(),
    ;
}

/// What a role asks of the middleware.
#[derive(Debug)]
pub enum RoleEvent {
    /// Send `op` to every known peer that passes `filter`.
    ToBeSentPacket { filter: NodeFilter, op: Operation },
}

/// Mathematical value of a [`RoleEvent`].
pub enum RoleEventView {
    ToBeSentPacket { filter: NodeFilter, op: OperationView },
}

impl View for RoleEvent {
    type V = RoleEventView;

    open spec fn view(&self) -> RoleEventView {
        match self {
            RoleEvent::ToBeSentPacket { filter, op } => RoleEventView::ToBeSentPacket {
                filter: *filter,
                op: op@,
            },
        }
    }
}

impl DeepView for RoleEvent {
    type V = RoleEventView;

    open spec fn deep_view(&self) -> RoleEventView {
        self@
    }
}

/// The roles a node can play, as one closed type.
#[derive(Debug)]
pub enum RoleKind {
    Aggregator(SimpleAggregator),
    Trainer(SimpleTrainer),
}

/// Mathematical value of a [`RoleKind`].
pub enum RoleKindView {
    Aggregator(SimpleAggregatorView),
    Trainer(SimpleTrainerView),
}

impl RoleKindView {
    /// The role after one event, and the request it hands to the middleware.
    pub open spec fn step(self, event: MotherboardOrMOMEventView) -> (
        RoleKindView,
        Option<RoleEventView>,
    ) {
        match self {
            RoleKindView::Aggregator(a) => (RoleKindView::Aggregator(a.step(event).0), a.step(
                event,
            ).1),
            RoleKindView::Trainer(t) => (RoleKindView::Trainer(t.step(event).0), t.step(event).1),
        }
    }

    /// The queued tasks, oldest first.
    pub open spec fn tasks(self) -> Seq<MotherboardTaskView> {
        match self {
            RoleKindView::Aggregator(a) => a.tasks,
            RoleKindView::Trainer(t) => t.tasks,
        }
    }

    /// The same role with another task queue.
    pub open spec fn with_tasks(self, tasks: Seq<MotherboardTaskView>) -> RoleKindView {
        match self {
            RoleKindView::Aggregator(a) => RoleKindView::Aggregator(
                SimpleAggregatorView { tasks, ..a },
            ),
            RoleKindView::Trainer(t) => RoleKindView::Trainer(SimpleTrainerView { tasks, ..t }),
        }
    }
}

impl View for RoleKind {
    type V = RoleKindView;

    open spec fn view(&self) -> RoleKindView {
        match self {
            RoleKind::Aggregator(a) => RoleKindView::Aggregator(a@),
            RoleKind::Trainer(t) => RoleKindView::Trainer(t@),
        }
    }
}

impl Role for RoleKind {
    open spec fn wf(&self) -> bool {
        true
    }

    fn put_event(&mut self, event: MotherboardOrMOMEvent) -> (res: Option<RoleEvent>)
        ensures
            final(self)@ == old(self)@.step(event@).0,
            res.deep_view() == old(self)@.step(event@).1,
    {
        match self {
            RoleKind::Aggregator(a) => a.run_one_step(event),
            RoleKind::Trainer(t) => t.run_one_step(event),
        }
    }

    /// Takes the most recently queued task.
    fn pop_task(&mut self) -> (res: Option<MotherboardTask>)
        ensures
            old(self)@.tasks().len() == 0 ==> res is None && final(self)@ == old(self)@,
            old(self)@.tasks().len() > 0 ==> res.deep_view() == Some(old(self)@.tasks().last())
                && final(self)@ == old(self)@.with_tasks(old(self)@.tasks().drop_last()),
    {
        match self {
            RoleKind::Aggregator(a) => a.pop_task(),
            RoleKind::Trainer(t) => t.pop_task(),
        }
    }
}

} // verus!
