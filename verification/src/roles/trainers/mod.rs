//! Trainers: nodes that train a local model on request of an aggregator.

use super::{RoleEvent, RoleEventView};
use crate::motherboard::{KindExec, MotherboardTask, MotherboardTaskView};
use crate::protocol::filters::NodeFilter;
use crate::protocol::operations::{Operation, OperationView};
use vstd::prelude::*;

pub mod simple_trainers;

verus! {

/// What every trainer keeps: the number of local epochs it was last asked to
/// perform.
#[derive(Debug)]
pub struct TrainerBase {
    pub number_local_epochs: u64,
}

/// The request by which a trainer reports a local model trained for `epochs`
/// local epochs.
pub open spec fn send_local_model_event(epochs: u64) -> RoleEventView {
    RoleEventView::ToBeSentPacket {
        filter: NodeFilter::Aggregators,
        op: OperationView::SendLocalModel { number_local_epochs_done: epochs },
    }
}

impl TrainerBase {
    /// A trainer that has not been asked for anything yet.
    pub fn new() -> (res: Self)
        ensures
            res.number_local_epochs == 0,
    {
        TrainerBase { number_local_epochs: 0 }
    }

    /// The computation task that stands for one training.
    pub fn create_training_task(&self) -> (res: MotherboardTask)
        ensures
            res@ == MotherboardTaskView::Exec(KindExec::Training),
    {
        MotherboardTask::Exec(KindExec::Training)
    }

    /// The request to send the local model to the aggregators, with the
    /// number of local epochs that were done.
    pub fn create_send_local_model_event(&self) -> (res: RoleEvent)
        ensures
            res@ == send_local_model_event(self.number_local_epochs),
    {
        RoleEvent::ToBeSentPacket {
            filter: NodeFilter::Aggregators,
            op: Operation::SendLocalModel { number_local_epochs_done: self.number_local_epochs },
        }
    }
}

} // verus!
