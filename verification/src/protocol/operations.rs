//! The tagged payloads that nodes exchange.

use super::{clone_node_list, NodeInfo, NodeInfoView};
use vstd::prelude::*;

verus! {

/// One protocol message payload.
#[derive(Debug)]
pub enum Operation {
    /// Answer of the aggregator to a registration: the nodes attributed to
    /// the requester.
    RegistrationConfirmation { node_list: Vec<NodeInfo> },
    /// A new global model, with the number of local epochs to perform on it.
    SendGlobalModel { number_local_epochs: u64 },
    /// Orders the receiver to terminate.
    Kill,
    /// A node asks the aggregator to register it.
    RegistrationRequest { node_to_register: NodeInfo },
    /// A trained local model, with the number of local epochs that were done.
    SendLocalModel { number_local_epochs_done: u64 },
}

/// Mathematical value of an [`Operation`].
pub enum OperationView {
    RegistrationConfirmation { node_list: Seq<NodeInfoView> },
    SendGlobalModel { number_local_epochs: u64 },
    Kill,
    RegistrationRequest { node_to_register: NodeInfoView },
    SendLocalModel { number_local_epochs_done: u64 },
}

impl View for Operation {
    type V = OperationView;

    open spec fn view(&self) -> OperationView {
        match self {
            Operation::RegistrationConfirmation { node_list } => {
                OperationView::RegistrationConfirmation { node_list: node_list.deep_view() }
            },
            Operation::SendGlobalModel { number_local_epochs } => OperationView::SendGlobalModel {
                number_local_epochs: *number_local_epochs,
            },
            Operation::Kill => OperationView::Kill,
            Operation::RegistrationRequest { node_to_register } => {
                OperationView::RegistrationRequest { node_to_register: node_to_register@ }
            },
            Operation::SendLocalModel { number_local_epochs_done } => {
                OperationView::SendLocalModel {
                    number_local_epochs_done: *number_local_epochs_done,
                }
            },
        }
    }
}

impl DeepView for Operation {
    type V = OperationView;

    open spec fn deep_view(&self) -> OperationView {
        self@
    }
}

impl OperationView {
    /// The name of the variant, as it appears in traces.
    pub open spec fn label(self) -> Seq<char> {
        match self {
            OperationView::RegistrationConfirmation { .. } => "RegistrationConfirmation"@,
            OperationView::SendGlobalModel { .. } => "SendGlobalModel"@,
            OperationView::Kill => "Kill"@,
            OperationView::RegistrationRequest { .. } => "RegistrationRequest"@,
            OperationView::SendLocalModel { .. } => "SendLocalModel"@,
        }
    }
}

impl Operation {
    /// Whether this operation orders termination.
    pub fn is_kill(&self) -> (res: bool)
        ensures
            res == (self@ == OperationView::Kill),
    {
        match self {
            Operation::Kill => true,
            _ => false,
        }
    }

    /// The name of the variant, without its payload.
    pub fn to_string(&self) -> (res: String)
        ensures
            res@ == self@.label(),
    {
        match self {
            Operation::RegistrationConfirmation { .. } => "RegistrationConfirmation".to_string(),
            Operation::SendGlobalModel { .. } => "SendGlobalModel".to_string(),
            Operation::Kill => "Kill".to_string(),
            Operation::RegistrationRequest { .. } => "RegistrationRequest".to_string(),
            Operation::SendLocalModel { .. } => "SendLocalModel".to_string(),
        }
    }
}

impl Clone for Operation {
    fn clone(&self) -> (res: Self)
        ensures
            res@ == self@,
    {
        match self {
            Operation::RegistrationConfirmation { node_list } => {
                Operation::RegistrationConfirmation { node_list: clone_node_list(node_list) }
            },
            Operation::SendGlobalModel { number_local_epochs } => Operation::SendGlobalModel {
                number_local_epochs: *number_local_epochs,
            },
            Operation::Kill => Operation::Kill,
            Operation::RegistrationRequest { node_to_register } => {
                Operation::RegistrationRequest { node_to_register: node_to_register.clone() }
            },
            Operation::SendLocalModel { number_local_epochs_done } => Operation::SendLocalModel {
                number_local_epochs_done: *number_local_epochs_done,
            },
        }
    }
}

} // verus!
