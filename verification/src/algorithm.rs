//! Execution algorithms: their lifecycle and the child orders they ask for.

use vstd::prelude::*;
use crate::ident::Uuid;
use crate::market::{
    OrderRequest, OrderRequestModel, OrderUpdateRequest, OrderUpdateRequestModel,
};

verus! {

/// Where an algorithm stands in its life. Every state but `Working` is terminal.
#[derive(Clone, Copy, Debug, PartialEq, Eq, Structural)]
pub enum AlgoStatus {
    Working,
    Completed,
    Cancelled,
    Failed,
}

/// Whether a status is terminal: the algorithm never leaves it.
pub open spec fn is_terminal(status: AlgoStatus) -> bool {
    status != AlgoStatus::Working
}

/// Whether an algorithm may go from `from` to `to`: it may stay where it is, and it may
/// leave `Working` for any terminal state. Nothing leads out of a terminal state.
pub open spec fn may_follow(from: AlgoStatus, to: AlgoStatus) -> bool {
    from == to || from == AlgoStatus::Working
}

/// The status after an event that asks for `target`: the target if the algorithm is
/// working, the old status otherwise.
pub open spec fn status_after(current: AlgoStatus, target: AlgoStatus) -> AlgoStatus {
    if current == AlgoStatus::Working {
        target
    } else {
        current
    }
}

impl AlgoStatus {
    /// Whether the status is terminal.
    pub fn is_terminal(self) -> (r: bool)
        ensures
            r == is_terminal(self),
    {
        match self {
            AlgoStatus::Working => false,
            _ => true,
        }
    }

    /// The status after an event that asks for `target`. Terminal states are sticky.
    pub fn advance(self, target: AlgoStatus) -> (r: AlgoStatus)
        ensures
            r == status_after(self, target),
            may_follow(self, r),
    {
        match self {
            AlgoStatus::Working => target,
            _ => self,
        }
    }

    /// The label under which the status is stored.
    pub fn label(self) -> (r: &'static str)
        ensures
            r@ == status_label(self),
    {
        match self {
            AlgoStatus::Working => "Working",
            AlgoStatus::Completed => "Completed",
            AlgoStatus::Cancelled => "Cancelled",
            AlgoStatus::Failed => "Failed",
        }
    }
}

/// The label under which a status is stored.
pub open spec fn status_label(status: AlgoStatus) -> Seq<char> {
    match status {
        AlgoStatus::Working => "Working"@,
        AlgoStatus::Completed => "Completed"@,
        AlgoStatus::Cancelled => "Cancelled"@,
        AlgoStatus::Failed => "Failed"@,
    }
}

/// Statuses only ever move along `Working -> {Completed, Cancelled, Failed}`: a chain of
/// allowed moves that starts in a terminal state never leaves it, and one that reaches a
/// terminal state stays there.
pub proof fn lemma_terminal_is_sticky(a: AlgoStatus, b: AlgoStatus, c: AlgoStatus)
    requires
        may_follow(a, b),
        may_follow(b, c),
    ensures
        may_follow(a, c),
        is_terminal(a) ==> a == b && b == c,
        is_terminal(b) ==> b == c,
{
}

/// Whatever an event asks for, the status that results is an allowed move.
pub proof fn lemma_status_after_is_allowed(current: AlgoStatus, target: AlgoStatus)
    ensures
        may_follow(current, status_after(current, target)),
        is_terminal(current) ==> status_after(current, target) == current,
{
}

/// What an algorithm asks the broker to do.
#[derive(Debug, PartialEq)]
pub enum ChildOrderAction {
    Place(OrderRequest),
    Amend(OrderUpdateRequest),
}

/// The mathematical content of a [`ChildOrderAction`].
pub enum ChildOrderActionModel {
    Place(OrderRequestModel),
    Amend(OrderUpdateRequestModel),
}

impl View for ChildOrderAction {
    type V = ChildOrderActionModel;

    open spec fn view(&self) -> ChildOrderActionModel {
        match self {
            ChildOrderAction::Place(r) => ChildOrderActionModel::Place(r@),
            ChildOrderAction::Amend(r) => ChildOrderActionModel::Amend(r@),
        }
    }
}

impl Clone for ChildOrderAction {
    fn clone(&self) -> (r: ChildOrderAction)
        ensures
            r == *self,
    {
        match self {
            ChildOrderAction::Place(x) => ChildOrderAction::Place(x.clone()),
            ChildOrderAction::Amend(x) => ChildOrderAction::Amend(x.clone()),
        }
    }
}

/// A child order asked for by the algorithm `parent_algo_id`.
#[derive(Debug, PartialEq)]
pub struct ChildOrderRequest {
    pub parent_algo_id: Uuid,
    pub action: ChildOrderAction,
}

/// The mathematical content of a [`ChildOrderRequest`].
pub struct ChildOrderRequestModel {
    pub parent_algo_id: u128,
    pub action: ChildOrderActionModel,
}

impl View for ChildOrderRequest {
    type V = ChildOrderRequestModel;

    open spec fn view(&self) -> ChildOrderRequestModel {
        ChildOrderRequestModel { parent_algo_id: self.parent_algo_id.value, action: self.action@ }
    }
}

impl Clone for ChildOrderRequest {
    fn clone(&self) -> (r: ChildOrderRequest)
        ensures
            r == *self,
    {
        ChildOrderRequest { parent_algo_id: self.parent_algo_id, action: self.action.clone() }
    }
}

/// The models of a sequence of child orders.
pub open spec fn child_models(children: Seq<ChildOrderRequest>) -> Seq<ChildOrderRequestModel> {
    children.map_values(|c: ChildOrderRequest| c@)
}

} // verus!
