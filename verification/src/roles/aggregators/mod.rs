//! Aggregators: nodes that collect local models and merge them into the next
//! global model.

use super::{RoleEvent, RoleEventView};
use crate::motherboard::{KindExec, MotherboardTask, MotherboardTaskView};
use crate::protocol::filters::NodeFilter;
use crate::protocol::operations::{Operation, OperationView};
use vstd::prelude::*;

pub mod simple_aggregator;

verus! {

/// Local epochs that an aggregator asks for when it was told nothing else.
pub const DEFAULT_NUMBER_LOCAL_EPOCHS: u64 = 3;

/// Cumulated local epochs after which the training ends, when nothing else
/// was configured.
pub const DEFAULT_END_THRESHOLD: u64 = 1000;

/// Number of trainers that an aggregator expects before the cluster has told
/// it how many are connected.
pub const UNKNOWN_NUMBER_CLIENTS: u64 = 65535;

/// What every aggregator keeps: its configuration and its counters.
#[derive(Clone, Copy, Debug, PartialEq, Eq, Structural)]
pub struct AggregatorBase {
    /// Local epochs that the trainers are asked to perform each round.
    pub number_local_epochs: u64,
    /// Completed aggregation rounds, derived from the two counters below.
    pub number_global_epochs: u64,
    /// Local models merged so far, over all rounds.
    pub total_aggregated_models: u64,
    /// Number of trainers whose models make a round complete.
    pub number_client_training: u64,
    /// Local models received in the current round.
    pub number_local_models: u64,
    /// Local epochs reported by the trainers so far, over all rounds.
    pub total_number_local_epochs: u64,
    /// Cumulated local epochs from which on the training ends.
    pub end_threshold: u64,
    pub is_main_aggregator: bool,
}

/// What an aggregator reports when the training ends.
#[derive(Clone, Copy, Debug, PartialEq, Eq, Structural)]
pub struct EndReport {
    pub number_global_epochs: u64,
    pub total_aggregated_models: u64,
    pub total_number_local_epochs: u64,
    pub number_client_training: u64,
}

/// Sum of two counters, which stays at the largest value once it is reached.
pub open spec fn saturating_sum(a: u64, b: u64) -> u64 {
    if a + b > u64::MAX {
        u64::MAX
    } else {
        (a + b) as u64
    }
}

/// Completed rounds after `total` merged models from `clients` trainers per
/// round. Without trainers no round is ever complete.
pub open spec fn global_epochs(total: u64, clients: u64) -> u64 {
    if clients == 0 {
        0
    } else {
        total / clients
    }
}

/// The request by which an aggregator sends out a global model to be trained
/// for `epochs` local epochs.
pub open spec fn send_global_model_event(epochs: u64) -> RoleEventView {
    RoleEventView::ToBeSentPacket {
        filter: NodeFilter::Trainers,
        op: OperationView::SendGlobalModel { number_local_epochs: epochs },
    }
}

/// The request by which an aggregator ends the training on every node.
pub open spec fn kill_event() -> RoleEventView {
    RoleEventView::ToBeSentPacket { filter: NodeFilter::Everyone, op: OperationView::Kill }
}

impl AggregatorBase {
    /// The counters of an aggregator that has not started, with the default
    /// configuration.
    pub open spec fn initial() -> AggregatorBase {
        AggregatorBase {
            number_local_epochs: DEFAULT_NUMBER_LOCAL_EPOCHS,
            number_global_epochs: 0,
            total_aggregated_models: 0,
            number_client_training: UNKNOWN_NUMBER_CLIENTS,
            number_local_models: 0,
            total_number_local_epochs: 0,
            end_threshold: DEFAULT_END_THRESHOLD,
            is_main_aggregator: false,
        }
    }

    /// Whether enough local epochs have been reported for the training to
    /// end.
    pub open spec fn end_condition(self) -> bool {
        self.total_number_local_epochs >= self.end_threshold
    }

    /// The counters after one more local model that reports `epochs_done`
    /// local epochs.
    pub open spec fn with_local_model(self, epochs_done: u64) -> AggregatorBase {
        AggregatorBase {
            number_local_models: saturating_sum(self.number_local_models, 1),
            total_number_local_epochs: saturating_sum(self.total_number_local_epochs, epochs_done),
            ..self
        }
    }

    /// Whether the models of every expected trainer have arrived.
    pub open spec fn round_complete(self) -> bool {
        self.number_local_models >= self.number_client_training
    }

    /// The counters after the models of the current round have been merged.
    pub open spec fn with_round_merged(self) -> AggregatorBase {
        let total = saturating_sum(self.total_aggregated_models, self.number_local_models);
        AggregatorBase {
            total_aggregated_models: total,
            number_global_epochs: global_epochs(total, self.number_client_training),
            ..self
        }
    }

    /// The report on these counters.
    pub open spec fn report(self) -> EndReport {
        EndReport {
            number_global_epochs: self.number_global_epochs,
            total_aggregated_models: self.total_aggregated_models,
            total_number_local_epochs: self.total_number_local_epochs,
            number_client_training: self.number_client_training,
        }
    }

    pub fn new() -> (res: Self)
        ensures
            res == Self::initial(),
    {
        AggregatorBase {
            number_local_epochs: DEFAULT_NUMBER_LOCAL_EPOCHS,
            number_global_epochs: 0,
            total_aggregated_models: 0,
            number_client_training: UNKNOWN_NUMBER_CLIENTS,
            number_local_models: 0,
            total_number_local_epochs: 0,
            end_threshold: DEFAULT_END_THRESHOLD,
            is_main_aggregator: false,
        }
    }

    /// The computation task that stands for one aggregation.
    pub fn create_aggregating_task(&self) -> (res: MotherboardTask)
        ensures
            res@ == MotherboardTaskView::Exec(KindExec::Aggregating),
    {
        MotherboardTask::Exec(KindExec::Aggregating)
    }

    /// The request to send the global model to the trainers.
    pub fn create_send_global_model_event(&self) -> (res: RoleEvent)
        ensures
            res@ == send_global_model_event(self.number_local_epochs),
    {
        RoleEvent::ToBeSentPacket {
            filter: NodeFilter::Trainers,
            op: Operation::SendGlobalModel { number_local_epochs: self.number_local_epochs },
        }
    }

    /// The request to end the training on every node.
    pub fn send_kills(&self) -> (res: RoleEvent)
        ensures
            res@ == kill_event(),
    {
        RoleEvent::ToBeSentPacket { filter: NodeFilter::Everyone, op: Operation::Kill }
    }

    /// The report on the training as it stands.
    pub fn end_report(&self) -> (res: EndReport)
        ensures
            res == self.report(),
    {
        EndReport {
            number_global_epochs: self.number_global_epochs,
            total_aggregated_models: self.total_aggregated_models,
            total_number_local_epochs: self.total_number_local_epochs,
            number_client_training: self.number_client_training,
        }
    }

    /// Tells whether the training has gone on for long enough.
    pub fn check_end_condition(&self) -> (res: bool)
        ensures
            res == self.end_condition(),
    {
        self.total_number_local_epochs >= self.end_threshold
    }

    /// Counts one more local model.
    pub fn record_local_model(&mut self, epochs_done: u64)
        ensures
            *final(self) == old(self).with_local_model(epochs_done),
    {
        self.number_local_models = self.number_local_models.saturating_add(1);
        self.total_number_local_epochs = self.total_number_local_epochs.saturating_add(
            epochs_done,
        );
    }

    /// Merges the models of the current round into the totals.
    pub fn merge_round(&mut self)
        ensures
            *final(self) == old(self).with_round_merged(),
    {
        self.total_aggregated_models = self.total_aggregated_models.saturating_add(
            self.number_local_models,
        );
        self.number_global_epochs = if self.number_client_training == 0 {
            0
        } else {
            self.total_aggregated_models / self.number_client_training
        };
    }
}

} // verus!
