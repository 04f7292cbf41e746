//! The plain trainer: it trains whenever a global model arrives and sends the
//! local model back when the training is done.

use super::{send_local_model_event, TrainerBase};
use crate::moms::{MOMEvent, MOMEventView};
use crate::motherboard::{
    KindExec, MotherboardEvent, MotherboardEventView, MotherboardOrMOMEvent,
    MotherboardOrMOMEventView, MotherboardTask, MotherboardTaskView,
};
use crate::protocol::operations::{Operation, OperationView};
use crate::roles::{Role, RoleEvent, RoleEventView};
use vstd::prelude::*;

verus! {

/// State of the trainer.
#[derive(Clone, Copy, Debug, PartialEq, Eq, Structural)]
pub enum State {
    WaitingGlobalModels,
    Training,
}

/// Mathematical value of a [`SimpleTrainer`].
pub struct SimpleTrainerView {
    pub state: State,
    /// Local epochs assigned for the current round.
    pub number_local_epochs: u64,
    /// Queued tasks, oldest first. The last one is popped first.
    pub tasks: Seq<MotherboardTaskView>,
}

impl SimpleTrainerView {
    /// A trainer that has just been created.
    pub open spec fn init() -> SimpleTrainerView {
        SimpleTrainerView {
            state: State::WaitingGlobalModels,
            number_local_epochs: 0,
            tasks: Seq::empty(),
        }
    }

    /// Whether the event is the arrival of a global model.
    pub open spec fn is_global_model(event: MotherboardOrMOMEventView) -> bool {
        event matches MotherboardOrMOMEventView::MOM(
            MOMEventView::OperationReceived(OperationView::SendGlobalModel { .. }),
        )
    }

    /// Whether the event is the completion of a computation.
    pub open spec fn is_exec_done(event: MotherboardOrMOMEventView) -> bool {
        event == MotherboardOrMOMEventView::Motherboard(MotherboardEventView::TaskExecDone)
    }

    /// The trainer after one event, and the request it hands to the
    /// middleware. Whatever no rule mentions is ignored.
    pub open spec fn step(self, event: MotherboardOrMOMEventView) -> (
        SimpleTrainerView,
        Option<RoleEventView>,
    ) {
        match self.state {
            State::WaitingGlobalModels => match event {
                MotherboardOrMOMEventView::MOM(
                    MOMEventView::OperationReceived(
                        OperationView::SendGlobalModel { number_local_epochs },
                    ),
                ) => (
                    SimpleTrainerView {
                        state: State::Training,
                        number_local_epochs,
                        tasks: self.tasks.push(MotherboardTaskView::Exec(KindExec::Training)),
                    },
                    None,
                ),
                _ => (self, None),
            },
            State::Training => match event {
                MotherboardOrMOMEventView::Motherboard(MotherboardEventView::TaskExecDone) => (
                    SimpleTrainerView { state: State::WaitingGlobalModels, ..self },
                    Some(send_local_model_event(self.number_local_epochs)),
                ),
                _ => (self, None),
            },
        }
    }

    /// The trainer after a sequence of events, fed in order.
    pub open spec fn run(self, events: Seq<MotherboardOrMOMEventView>) -> SimpleTrainerView
        decreases events.len(),
    {
        if events.len() == 0 {
            self
        } else {
            self.run(events.drop_last()).step(events.last()).0
        }
    }
}

/// The trainer alternates strictly between its two states. It leaves
/// `WaitingGlobalModels` on the arrival of a global model and on nothing
/// else, and then trains; it leaves `Training` on the completion of the
/// computation and on nothing else, and then waits again. Any other event
/// changes nothing and yields nothing.
pub proof fn lemma_trainer_alternates(s: SimpleTrainerView, event: MotherboardOrMOMEventView)
    ensures
        s.state == State::WaitingGlobalModels && SimpleTrainerView::is_global_model(event)
            ==> s.step(event).0.state == State::Training,
        s.state == State::WaitingGlobalModels && !SimpleTrainerView::is_global_model(event)
            ==> s.step(event) == (s, None::<RoleEventView>),
        s.state == State::Training && SimpleTrainerView::is_exec_done(event) ==> s.step(
            event,
        ).0.state == State::WaitingGlobalModels,
        s.state == State::Training && !SimpleTrainerView::is_exec_done(event) ==> s.step(event)
            == (s, None::<RoleEventView>),
{
}

/// A round of the trainer: the local model it sends back reports exactly the
/// number of local epochs that the global model asked for.
pub proof fn lemma_trainer_round(s: SimpleTrainerView, epochs: u64)
    requires
        s.state == State::WaitingGlobalModels,
    ensures
        ({
            let asked = MotherboardOrMOMEventView::MOM(
                MOMEventView::OperationReceived(
                    OperationView::SendGlobalModel { number_local_epochs: epochs },
                ),
            );
            let done = MotherboardOrMOMEventView::Motherboard(MotherboardEventView::TaskExecDone);
            let training = s.step(asked).0;
            &&& training.tasks == s.tasks.push(MotherboardTaskView::Exec(KindExec::Training))
            &&& training.step(done).0.state == State::WaitingGlobalModels
            &&& training.step(done).1 == Some(send_local_model_event(epochs))
        }),
{
}

/// A trainer node's role.
#[derive(Debug)]
pub struct SimpleTrainer {
    base: TrainerBase,
    state: State,
    tasks: Vec<MotherboardTask>,
}

impl View for SimpleTrainer {
    type V = SimpleTrainerView;

    closed spec fn view(&self) -> SimpleTrainerView {
        SimpleTrainerView {
            state: self.state,
            number_local_epochs: self.base.number_local_epochs,
            tasks: self.tasks.deep_view(),
        }
    }
}

impl SimpleTrainer {
    pub fn new() -> (res: SimpleTrainer)
        ensures
            res@ == SimpleTrainerView::init(),
    {
        let res = SimpleTrainer {
            base: TrainerBase::new(),
            state: State::WaitingGlobalModels,
            tasks: Vec::new(),
        };
        assert(res.tasks.deep_view() =~= Seq::empty());
        res
    }

    /// The current state.
    pub fn state(&self) -> (res: State)
        ensures
            res == self@.state,
    {
        self.state
    }

    fn waiting_global_model(&mut self, event: MotherboardOrMOMEvent) -> (res: Option<RoleEvent>)
        requires
            old(self).state == State::WaitingGlobalModels,
        ensures
            final(self)@ == old(self)@.step(event@).0,
            res.deep_view() == old(self)@.step(event@).1,
    {
        match event {
            MotherboardOrMOMEvent::MOM(
                MOMEvent::OperationReceived(Operation::SendGlobalModel { number_local_epochs }),
            ) => {
                self.base.number_local_epochs = number_local_epochs;
                self.state = State::Training;
                let ghost prev = self.tasks.deep_view();
                let task = self.base.create_training_task();
                self.tasks.push(task);
                assert(self.tasks.deep_view() =~= prev.push(
                    MotherboardTaskView::Exec(KindExec::Training),
                ));
            },
            _ => {},
        }
        None
    }

    fn training(&mut self, event: MotherboardOrMOMEvent) -> (res: Option<RoleEvent>)
        requires
            old(self).state == State::Training,
        ensures
            final(self)@ == old(self)@.step(event@).0,
            res.deep_view() == old(self)@.step(event@).1,
    {
        match event {
            MotherboardOrMOMEvent::Motherboard(MotherboardEvent::TaskExecDone) => {
                self.state = State::WaitingGlobalModels;
                Some(self.base.create_send_local_model_event())
            },
            _ => None,
        }
    }

    /// Processes one event: the trainer moves as `SimpleTrainerView::step`
    /// says and returns the request that `step` hands to the middleware.
    pub fn run_one_step(&mut self, event: MotherboardOrMOMEvent) -> (res: Option<RoleEvent>)
        ensures
            final(self)@ == old(self)@.step(event@).0,
            res.deep_view() == old(self)@.step(event@).1,
    {
        match self.state {
            State::WaitingGlobalModels => self.waiting_global_model(event),
            State::Training => self.training(event),
        }
    }
}

impl Role for SimpleTrainer {
    open spec fn wf(&self) -> bool {
        true
    }

    fn put_event(&mut self, event: MotherboardOrMOMEvent) -> (res: Option<RoleEvent>)
        ensures
            final(self)@ == old(self)@.step(event@).0,
            res.deep_view() == old(self)@.step(event@).1,
    {
        self.run_one_step(event)
    }

    /// Takes the most recently queued task.
    fn pop_task(&mut self) -> (res: Option<MotherboardTask>)
        ensures
            old(self)@.tasks.len() == 0 ==> res is None && final(self)@ == old(self)@,
            old(self)@.tasks.len() > 0 ==> res.deep_view() == Some(old(self)@.tasks.last())
                && final(self)@ == (SimpleTrainerView {
                tasks: old(self)@.tasks.drop_last(),
                ..old(self)@
            }),
    {
        let ghost prev = self.tasks.deep_view();
        let res = self.tasks.pop();
        assert(self.tasks.deep_view() =~= if prev.len() > 0 {
            prev.drop_last()
        } else {
            prev
        });
        res
    }
}

} // verus!
