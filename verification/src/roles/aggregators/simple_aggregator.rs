//! The plain aggregator: it waits for the local model of every connected
//! trainer, merges them, and starts the next round until enough local epochs
//! have been done.

use super::{kill_event, send_global_model_event, AggregatorBase, EndReport};
use crate::moms::{MOMEvent, MOMEventView};
use crate::motherboard::{
    KindExec, MotherboardEvent, MotherboardEventView, MotherboardOrMOMEvent,
    MotherboardOrMOMEventView, MotherboardTask, MotherboardTaskView,
};
use crate::protocol::operations::{Operation, OperationView};
use crate::roles::{Role, RoleEvent, RoleEventView};
use vstd::prelude::*;

verus! {

/// State of the aggregator.
#[derive(Clone, Copy, Debug, PartialEq, Eq, Structural)]
pub enum State {
    Initializing,
    WaitingLocalModels,
    Aggregating,
}

/// Mathematical value of a [`SimpleAggregator`].
pub struct SimpleAggregatorView {
    pub base: AggregatorBase,
    pub state: State,
    /// Queued tasks, oldest first. The last one is popped first.
    pub tasks: Seq<MotherboardTaskView>,
    /// The report on the training, once its end has been decided.
    pub report: Option<EndReport>,
}

impl SimpleAggregatorView {
    /// An aggregator that has just been created with the default
    /// configuration.
    pub open spec fn init() -> SimpleAggregatorView {
        Self::init_with(AggregatorBase::initial())
    }

    /// An aggregator that has just been created with the given counters and
    /// configuration.
    pub open spec fn init_with(base: AggregatorBase) -> SimpleAggregatorView {
        SimpleAggregatorView { base, state: State::Initializing, tasks: Seq::empty(), report: None }
    }

    /// Transition out of `Initializing`: the cluster tells how many trainers
    /// are connected, and the first global model goes out.
    pub open spec fn on_initializing(self, event: MotherboardOrMOMEventView) -> (
        SimpleAggregatorView,
        Option<RoleEventView>,
    ) {
        match event {
            MotherboardOrMOMEventView::MOM(MOMEventView::ClusterConnected(n)) => (
                SimpleAggregatorView {
                    base: AggregatorBase { number_client_training: n, ..self.base },
                    state: State::WaitingLocalModels,
                    ..self
                },
                Some(send_global_model_event(self.base.number_local_epochs)),
            ),
            _ => (self, None),
        }
    }

    /// Transition while local models come in: each one is counted, and the
    /// one that completes the round starts the aggregation.
    pub open spec fn on_waiting_local_models(self, event: MotherboardOrMOMEventView) -> (
        SimpleAggregatorView,
        Option<RoleEventView>,
    ) {
        match event {
            MotherboardOrMOMEventView::MOM(
                MOMEventView::OperationReceived(
                    OperationView::SendLocalModel { number_local_epochs_done },
                ),
            ) => {
                let base = self.base.with_local_model(number_local_epochs_done);
                if base.round_complete() {
                    (
                        SimpleAggregatorView {
                            base,
                            state: State::Aggregating,
                            tasks: self.tasks.push(
                                MotherboardTaskView::Exec(KindExec::Aggregating),
                            ),
                            ..self
                        },
                        None,
                    )
                } else {
                    (SimpleAggregatorView { base, ..self }, None)
                }
            },
            _ => (self, None),
        }
    }

    /// Transition when the aggregation is done: the round is merged into the
    /// totals; then either the training ends, with a report and a `Kill` for
    /// everyone, or the next round starts with a new global model.
    pub open spec fn on_aggregating(self, event: MotherboardOrMOMEventView) -> (
        SimpleAggregatorView,
        Option<RoleEventView>,
    ) {
        match event {
            MotherboardOrMOMEventView::Motherboard(MotherboardEventView::TaskExecDone) => {
                let merged = self.base.with_round_merged();
                if merged.end_condition() {
                    (
                        SimpleAggregatorView {
                            base: merged,
                            report: Some(merged.report()),
                            ..self
                        },
                        Some(kill_event()),
                    )
                } else {
                    (
                        SimpleAggregatorView {
                            base: AggregatorBase { number_local_models: 0, ..merged },
                            state: State::WaitingLocalModels,
                            ..self
                        },
                        Some(send_global_model_event(self.base.number_local_epochs)),
                    )
                }
            },
            _ => (self, None),
        }
    }

    /// The aggregator after one event, and the request it hands to the
    /// middleware. Whatever no rule mentions is ignored.
    pub open spec fn step(self, event: MotherboardOrMOMEventView) -> (
        SimpleAggregatorView,
        Option<RoleEventView>,
    ) {
        match self.state {
            State::Initializing => self.on_initializing(event),
            State::WaitingLocalModels => self.on_waiting_local_models(event),
            State::Aggregating => self.on_aggregating(event),
        }
    }

    /// The aggregator after a sequence of events, fed in order.
    pub open spec fn run(self, events: Seq<MotherboardOrMOMEventView>) -> SimpleAggregatorView
        decreases events.len(),
    {
        if events.len() == 0 {
            self
        } else {
            self.run(events.drop_last()).step(events.last()).0
        }
    }
}

/// The arrival of local models that report these numbers of local epochs, in
/// order.
pub open spec fn local_models(epochs: Seq<u64>) -> Seq<MotherboardOrMOMEventView> {
    epochs.map_values(
        |e: u64|
            MotherboardOrMOMEventView::MOM(
                MOMEventView::OperationReceived(
                    OperationView::SendLocalModel { number_local_epochs_done: e },
                ),
            ),
    )
}

/// Sum of the numbers, which stays at the largest value once it is reached.
pub open spec fn saturating_total(start: u64, epochs: Seq<u64>) -> u64
    decreases epochs.len(),
{
    if epochs.len() == 0 {
        start
    } else {
        super::saturating_sum(saturating_total(start, epochs.drop_last()), epochs.last())
    }
}

/// While fewer local models have arrived than trainers are expected, the
/// aggregator goes on waiting: it counts the models and their local epochs
/// and queues nothing.
pub proof fn lemma_models_counted(s: SimpleAggregatorView, epochs: Seq<u64>)
    requires
        s.state == State::WaitingLocalModels,
        s.base.number_local_models == 0,
        epochs.len() < s.base.number_client_training,
    ensures
        s.run(local_models(epochs)) == (SimpleAggregatorView {
            base: AggregatorBase {
                number_local_models: epochs.len() as u64,
                total_number_local_epochs: saturating_total(
                    s.base.total_number_local_epochs,
                    epochs,
                ),
                ..s.base
            },
            ..s
        }),
    decreases epochs.len(),
{
    if epochs.len() > 0 {
        lemma_models_counted(s, epochs.drop_last());
        assert(local_models(epochs).drop_last() =~= local_models(epochs.drop_last()));
        assert(local_models(epochs).last() == MotherboardOrMOMEventView::MOM(
            MOMEventView::OperationReceived(
                OperationView::SendLocalModel { number_local_epochs_done: epochs.last() },
            ),
        ));
    }
}

/// Aggregation round. An aggregator that waits for the models of its
/// trainers, of which there is at least one, goes on waiting until the last
/// of them has arrived. On that one it queues the aggregation and moves to
/// `Aggregating`.
pub proof fn lemma_round_completes(s: SimpleAggregatorView, epochs: Seq<u64>)
    requires
        s.state == State::WaitingLocalModels,
        s.base.number_local_models == 0,
        epochs.len() == s.base.number_client_training,
        epochs.len() >= 1,
    ensures
        forall|k: int|
            0 <= k < epochs.len() ==> (#[trigger] s.run(local_models(epochs.take(k)))).state
                == State::WaitingLocalModels && s.run(local_models(epochs.take(k))).tasks
                == s.tasks,
        s.run(local_models(epochs)).state == State::Aggregating,
        s.run(local_models(epochs)).tasks == s.tasks.push(
            MotherboardTaskView::Exec(KindExec::Aggregating),
        ),
        s.run(local_models(epochs)).base.number_local_models == epochs.len(),
{
    assert forall|k: int| 0 <= k < epochs.len() implies (#[trigger] s.run(
        local_models(epochs.take(k)),
    )).state == State::WaitingLocalModels && s.run(local_models(epochs.take(k))).tasks
        == s.tasks by {
        lemma_models_counted(s, epochs.take(k));
    }
    lemma_models_counted(s, epochs.drop_last());
    assert(local_models(epochs).drop_last() =~= local_models(epochs.drop_last()));
    assert(local_models(epochs).last() == MotherboardOrMOMEventView::MOM(
        MOMEventView::OperationReceived(
            OperationView::SendLocalModel { number_local_epochs_done: epochs.last() },
        ),
    ));
}

/// After an aggregation the training either ends, with a report and a
/// `Kill` for everyone, or goes on with a fresh round: which of the two is
/// decided by the number of local epochs reported so far.
pub proof fn lemma_aggregation_done(s: SimpleAggregatorView)
    requires
        s.state == State::Aggregating,
    ensures
        ({
            let done = s.step(
                MotherboardOrMOMEventView::Motherboard(MotherboardEventView::TaskExecDone),
            );
            if s.base.total_number_local_epochs >= s.base.end_threshold {
                &&& done.1 == Some(kill_event())
                &&& done.0.report == Some(done.0.base.report())
                &&& done.0.state == State::Aggregating
            } else {
                &&& done.1 == Some(send_global_model_event(s.base.number_local_epochs))
                &&& done.0.state == State::WaitingLocalModels
                &&& done.0.base.number_local_models == 0
                &&& done.0.report == s.report
            }
        }),
{
}

/// An aggregator node's role.
#[derive(Debug)]
pub struct SimpleAggregator {
    base: AggregatorBase,
    state: State,
    tasks: Vec<MotherboardTask>,
    report: Option<EndReport>,
}

impl View for SimpleAggregator {
    type V = SimpleAggregatorView;

    closed spec fn view(&self) -> SimpleAggregatorView {
        SimpleAggregatorView {
            base: self.base,
            state: self.state,
            tasks: self.tasks.deep_view(),
            report: self.report,
        }
    }
}

impl SimpleAggregator {
    /// An aggregator with the default configuration.
    pub fn new() -> (res: SimpleAggregator)
        ensures
            res@ == SimpleAggregatorView::init(),
    {
        let res = SimpleAggregator {
            base: AggregatorBase::new(),
            state: State::Initializing,
            tasks: Vec::new(),
            report: None,
        };
        assert(res.tasks.deep_view() =~= Seq::empty());
        res
    }

    /// An aggregator that asks for `number_local_epochs` local epochs per
    /// round and ends the training once `end_threshold` local epochs have
    /// been reported.
    pub fn with_config(number_local_epochs: u64, end_threshold: u64) -> (res: SimpleAggregator)
        ensures
            res@ == SimpleAggregatorView::init_with(
                AggregatorBase { number_local_epochs, end_threshold, ..AggregatorBase::initial() },
            ),
    {
        let mut base = AggregatorBase::new();
        base.number_local_epochs = number_local_epochs;
        base.end_threshold = end_threshold;
        let res = SimpleAggregator {
            base,
            state: State::Initializing,
            tasks: Vec::new(),
            report: None,
        };
        assert(res.tasks.deep_view() =~= Seq::empty());
        res
    }

    /// The current state.
    pub fn state(&self) -> (res: State)
        ensures
            res == self@.state,
    {
        self.state
    }

    /// The configuration and the counters.
    pub fn base(&self) -> (res: &AggregatorBase)
        ensures
            *res == self@.base,
    {
        &self.base
    }

    /// The report on the training, once its end has been decided.
    pub fn report(&self) -> (res: Option<EndReport>)
        ensures
            res == self@.report,
    {
        self.report
    }

    fn initializing(&mut self, event: MotherboardOrMOMEvent) -> (res: Option<RoleEvent>)
        requires
            old(self).state == State::Initializing,
        ensures
            final(self)@ == old(self)@.step(event@).0,
            res.deep_view() == old(self)@.step(event@).1,
    {
        match event {
            MotherboardOrMOMEvent::MOM(MOMEvent::ClusterConnected(nb_clients_connected)) => {
                self.base.number_client_training = nb_clients_connected;
                self.state = State::WaitingLocalModels;
                Some(self.base.create_send_global_model_event())
            },
            _ => None,
        }
    }

    fn waiting_local_models(&mut self, event: MotherboardOrMOMEvent) -> (res: Option<RoleEvent>)
        requires
            old(self).state == State::WaitingLocalModels,
        ensures
            final(self)@ == old(self)@.step(event@).0,
            res.deep_view() == old(self)@.step(event@).1,
    {
        match event {
            MotherboardOrMOMEvent::MOM(
                MOMEvent::OperationReceived(Operation::SendLocalModel { number_local_epochs_done }),
            ) => {
                self.base.record_local_model(number_local_epochs_done);
                if self.base.number_local_models >= self.base.number_client_training {
                    let ghost prev = self.tasks.deep_view();
                    let task = self.base.create_aggregating_task();
                    self.tasks.push(task);
                    assert(self.tasks.deep_view() =~= prev.push(
                        MotherboardTaskView::Exec(KindExec::Aggregating),
                    ));
                    self.state = State::Aggregating;
                }
            },
            _ => {},
        }
        None
    }

    fn aggregating(&mut self, event: MotherboardOrMOMEvent) -> (res: Option<RoleEvent>)
        requires
            old(self).state == State::Aggregating,
        ensures
            final(self)@ == old(self)@.step(event@).0,
            res.deep_view() == old(self)@.step(event@).1,
    {
        match event {
            MotherboardOrMOMEvent::Motherboard(MotherboardEvent::TaskExecDone) => {
                self.base.merge_round();
                if self.base.check_end_condition() {
                    self.report = Some(self.base.end_report());
                    Some(self.base.send_kills())
                } else {
                    self.base.number_local_models = 0;
                    self.state = State::WaitingLocalModels;
                    Some(self.base.create_send_global_model_event())
                }
            },
            _ => None,
        }
    }

    /// Processes one event: the aggregator moves as
    /// `SimpleAggregatorView::step` says and returns the request that `step`
    /// hands to the middleware.
    pub fn run_one_step(&mut self, event: MotherboardOrMOMEvent) -> (res: Option<RoleEvent>)
        ensures
            final(self)@ == old(self)@.step(event@).0,
            res.deep_view() == old(self)@.step(event@).1,
    {
        match self.state {
            State::Initializing => self.initializing(event),
            State::WaitingLocalModels => self.waiting_local_models(event),
            State::Aggregating => self.aggregating(event),
        }
    }
}

impl Role for SimpleAggregator {
    open spec fn wf(&self) -> bool {
        true
    }

    fn put_event(&mut self, event: MotherboardOrMOMEvent) -> (res: Option<RoleEvent>)
        ensures
            final(self)@ == old(self)@.step(event@).0,
            res.deep_view() == old(self)@.step(event@).1,
    {
        self.run_one_step(event)
    }

    /// Takes the most recently queued task.
    fn pop_task(&mut self) -> (res: Option<MotherboardTask>)
        ensures
            old(self)@.tasks.len() == 0 ==> res is None && final(self)@ == old(self)@,
            old(self)@.tasks.len() > 0 ==> res.deep_view() == Some(old(self)@.tasks.last())
                && final(self)@ == (SimpleAggregatorView {
                tasks: old(self)@.tasks.drop_last(),
                ..old(self)@
            }),
    {
        let ghost prev = self.tasks.deep_view();
        let res = self.tasks.pop();
        assert(self.tasks.deep_view() =~= if prev.len() > 0 {
            prev.drop_last()
        } else {
            prev
        });
        res
    }
}

} // verus!
