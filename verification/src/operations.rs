//! The receipt manager as a state machine: what a sequence of operations
//! makes of a state, and what holds of every such sequence.

use crate::data_id::{data_id_position, data_id_receipt, lemma_local_data_id_injective};
use crate::errors::ReceiptError;
use crate::model::{first_missing, lemma_first_missing, ReceiptManagerView};
use crate::receipt_manager::{FunctionCallActionIndex, GasWeight};
use crate::transaction::ActionView;
use near_primitives_core::types::AccountId;
use vstd::prelude::*;

verus! {

/// One operation on a receipt manager, with its arguments as decoded.
pub enum Operation {
    /// The creation of a receipt addressed to `receiver_id` that depends
    /// on the receipts that `receipt_indices` names.
    CreateReceipt { receipt_indices: Seq<u64>, receiver_id: AccountId },
    /// The appending of `action` to the receipt at `receipt_index`. Where
    /// the action is a function call, `gas_weight` is its claim on the
    /// leftover gas; zero claims nothing.
    AppendAction { receipt_index: u64, action: ActionView, gas_weight: GasWeight },
}

impl ReceiptManagerView {
    /// Whether `operation` is carried out in this state: every receipt
    /// that it names exists.
    pub open spec fn accepts(self, operation: Operation) -> bool {
        match operation {
            Operation::CreateReceipt { receipt_indices, .. } => first_missing(
                receipt_indices,
                self.action_receipts.len(),
            ) is None,
            Operation::AppendAction { receipt_index, .. } => receipt_index
                < self.action_receipts.len(),
        }
    }

    /// The state after `operation`. An operation that is not accepted
    /// changes nothing.
    pub open spec fn step(self, operation: Operation) -> Self {
        if !self.accepts(operation) {
            self
        } else {
            match operation {
                Operation::CreateReceipt { receipt_indices, receiver_id } => self.with_receipt(
                    receipt_indices,
                    receiver_id,
                ),
                Operation::AppendAction { receipt_index, action, gas_weight } => {
                    let appended = self.with_action(receipt_index as int, action);
                    if action is FunctionCall {
                        appended.with_gas_weight(
                            FunctionCallActionIndex {
                                receipt_index: receipt_index as usize,
                                action_index: self.action_receipts[receipt_index as int]
                                    .actions.len() as usize,
                            },
                            gas_weight,
                        )
                    } else {
                        appended
                    }
                },
            }
        }
    }

    /// The state after `operations`, carried out in their order.
    pub open spec fn run(self, operations: Seq<Operation>) -> Self
        decreases operations.len(),
    {
        if operations.len() == 0 {
            self
        } else {
            self.run(operations.drop_last()).step(operations.last())
        }
    }

    /// Whether `later` can come out of this state: receipts keep their
    /// index, receiver and inputs, and every list has only grown at its end.
    pub open spec fn extends_to(self, later: Self) -> bool {
        &&& self.action_receipts.len() <= later.action_receipts.len()
        &&& forall|r: int|
            #![trigger later.action_receipts[r]]
            0 <= r < self.action_receipts.len() ==> {
                let before = self.action_receipts[r];
                let after = later.action_receipts[r];
                &&& after.receiver_id == before.receiver_id
                &&& after.input_data_ids == before.input_data_ids
                &&& before.actions.is_prefix_of(after.actions)
                &&& before.output_data_receivers.is_prefix_of(after.output_data_receivers)
            }
        &&& self.gas_weights.is_prefix_of(later.gas_weights)
    }
}

/// How many of `operations` create a receipt when they are carried out
/// from `state` on.
pub open spec fn receipts_created(state: ReceiptManagerView, operations: Seq<Operation>) -> nat
    decreases operations.len(),
{
    if operations.len() == 0 {
        0
    } else {
        let before = state.run(operations.drop_last());
        receipts_created(state, operations.drop_last()) + if operations.last() is CreateReceipt
            && before.accepts(operations.last()) {
            1nat
        } else {
            0nat
        }
    }
}

/// One operation only appends: what was there stays as it was.
pub proof fn lemma_step_extends(state: ReceiptManagerView, operation: Operation)
    ensures
        state.extends_to(state.step(operation)),
{
    let later = state.step(operation);
    assert forall|r: int| 0 <= r < state.action_receipts.len() implies {
        let before = state.action_receipts[r];
        let after = #[trigger] later.action_receipts[r];
        &&& after.receiver_id == before.receiver_id
        &&& after.input_data_ids == before.input_data_ids
        &&& before.actions.is_prefix_of(after.actions)
        &&& before.output_data_receivers.is_prefix_of(after.output_data_receivers)
    } by {}
}

/// Any sequence of operations only appends.
pub proof fn lemma_run_extends(state: ReceiptManagerView, operations: Seq<Operation>)
    ensures
        state.extends_to(state.run(operations)),
    decreases operations.len(),
{
    if operations.len() > 0 {
        let before = state.run(operations.drop_last());
        lemma_run_extends(state, operations.drop_last());
        lemma_step_extends(before, operations.last());
    }
}

/// A receipt keeps its receiver whatever operations follow.
pub proof fn lemma_receiver_is_stable(
    state: ReceiptManagerView,
    operations: Seq<Operation>,
    receipt_index: int,
)
    requires
        0 <= receipt_index < state.action_receipts.len(),
    ensures
        receipt_index < state.run(operations).action_receipts.len(),
        state.run(operations).action_receipts[receipt_index].receiver_id
            == state.action_receipts[receipt_index].receiver_id,
{
    lemma_run_extends(state, operations);
}

/// An accepted creation gives the new receipt the next free index and
/// the receiver that was passed, and the receipt at that index has this
/// receiver after any further operations.
pub proof fn lemma_created_receipt_keeps_receiver(
    state: ReceiptManagerView,
    receipt_indices: Seq<u64>,
    receiver_id: AccountId,
    operations: Seq<Operation>,
)
    requires
        state.accepts(Operation::CreateReceipt { receipt_indices, receiver_id }),
    ensures
        ({
            let created = state.step(Operation::CreateReceipt { receipt_indices, receiver_id });
            let index = state.action_receipts.len() as int;
            &&& created.action_receipts.len() == index + 1
            &&& created.action_receipts[index].receiver_id == receiver_id
            &&& index < created.run(operations).action_receipts.len()
            &&& created.run(operations).action_receipts[index].receiver_id == receiver_id
        }),
{
    let created = state.step(Operation::CreateReceipt { receipt_indices, receiver_id });
    lemma_receiver_is_stable(created, operations, state.action_receipts.len() as int);
}

/// The indices in use are exactly those below the number of receipts
/// created: each accepted creation adds one receipt, and nothing else
/// adds or removes one.
pub proof fn lemma_receipt_count(state: ReceiptManagerView, operations: Seq<Operation>)
    ensures
        state.run(operations).action_receipts.len() == state.action_receipts.len()
            + receipts_created(state, operations),
    decreases operations.len(),
{
    if operations.len() > 0 {
        lemma_receipt_count(state, operations.drop_last());
    }
}

/// Actions appended to one receipt stand in its action list in the order
/// of their appending, behind those that were there, whatever their
/// kinds. The index of each is its place in that list.
pub proof fn lemma_actions_keep_their_order(
    state: ReceiptManagerView,
    receipt_index: u64,
    operations: Seq<Operation>,
)
    requires
        receipt_index < state.action_receipts.len(),
        forall|k: int|
            0 <= k < operations.len() ==> (#[trigger] operations[k]) is AppendAction
                && operations[k]->receipt_index == receipt_index,
    ensures
        state.run(operations).action_receipts.len() == state.action_receipts.len(),
        state.run(operations).action_receipts[receipt_index as int].actions
            == state.action_receipts[receipt_index as int].actions + Seq::new(
            operations.len(),
            |k: int| operations[k]->action,
        ),
    decreases operations.len(),
{
    let appended = Seq::new(operations.len(), |k: int| operations[k]->action);
    if operations.len() == 0 {
        assert(state.action_receipts[receipt_index as int].actions + appended
            =~= state.action_receipts[receipt_index as int].actions);
    } else {
        let rest = operations.drop_last();
        lemma_actions_keep_their_order(state, receipt_index, rest);
        let before = state.run(rest);
        assert(operations.last() == operations[operations.len() - 1]);
        assert(state.run(operations).action_receipts[receipt_index as int].actions
            =~= state.action_receipts[receipt_index as int].actions + appended);
    }
}

/// An append that is described by `appended` is one step: that of the
/// operation which appends `action` and claims no gas weight.
pub proof fn lemma_appended_is_step(
    pre: ReceiptManagerView,
    receipt_index: u64,
    action: ActionView,
    res: Result<(), ReceiptError>,
    post: ReceiptManagerView,
)
    requires
        pre.appended(receipt_index, action, res, post),
    ensures
        post == pre.step(
            Operation::AppendAction { receipt_index, action, gas_weight: GasWeight(0) },
        ),
        res is Ok <==> pre.accepts(
            Operation::AppendAction { receipt_index, action, gas_weight: GasWeight(0) },
        ),
{
}

/// A creation that is carried out is one step, and a creation that is
/// refused names the first receipt that is missing.
pub proof fn lemma_creation_is_step(
    pre: ReceiptManagerView,
    receipt_indices: Seq<u64>,
    receiver_id: AccountId,
)
    ensures
        ({
            let creation = Operation::CreateReceipt { receipt_indices, receiver_id };
            match first_missing(receipt_indices, pre.action_receipts.len()) {
                Some(receipt_index) => !pre.accepts(creation) && pre.step(creation) == pre
                    && receipt_index >= pre.action_receipts.len() && receipt_indices.contains(
                    receipt_index,
                ),
                None => pre.accepts(creation) && pre.step(creation) == pre.with_receipt(
                    receipt_indices,
                    receiver_id,
                ),
            }
        }),
{
    lemma_first_missing(receipt_indices, pre.action_receipts.len());
}

/// A weighted function call that is carried out is one step: that of
/// the operation which appends the call and claims its weight.
pub proof fn lemma_weighted_call_is_step(
    pre: ReceiptManagerView,
    receipt_index: u64,
    action: ActionView,
    gas_weight: GasWeight,
)
    requires
        receipt_index < pre.action_receipts.len(),
        action is FunctionCall,
    ensures
        pre.step(Operation::AppendAction { receipt_index, action, gas_weight })
            == pre.with_action(receipt_index as int, action).with_gas_weight(
            FunctionCallActionIndex {
                receipt_index: receipt_index as usize,
                action_index: pre.action_receipts[receipt_index as int].actions.len() as usize,
            },
            gas_weight,
        ),
{
}

/// Two data receivers of one manager never carry the same identifier.
pub proof fn lemma_data_ids_differ(
    state: ReceiptManagerView,
    receipt_a: int,
    position_a: int,
    receipt_b: int,
    position_b: int,
)
    requires
        state.wf(),
        0 <= receipt_a < state.action_receipts.len(),
        0 <= position_a < state.action_receipts[receipt_a].output_data_receivers.len(),
        0 <= receipt_b < state.action_receipts.len(),
        0 <= position_b < state.action_receipts[receipt_b].output_data_receivers.len(),
        state.action_receipts[receipt_a].output_data_receivers[position_a].data_id
            == state.action_receipts[receipt_b].output_data_receivers[position_b].data_id,
    ensures
        receipt_a == receipt_b,
        position_a == position_b,
{
    lemma_local_data_id_injective(receipt_a, position_a, receipt_b, position_b);
}

/// Every input of a receipt comes from exactly one data receiver: that
/// of an earlier receipt, which routes the data to this receipt, and no
/// other data receiver carries the input's identifier.
pub proof fn lemma_input_has_one_source(
    state: ReceiptManagerView,
    receipt_index: int,
    k: int,
    r: int,
    p: int,
)
    requires
        state.wf(),
        0 <= receipt_index < state.action_receipts.len(),
        0 <= k < state.action_receipts[receipt_index].input_data_ids.len(),
        0 <= r < state.action_receipts.len(),
        0 <= p < state.action_receipts[r].output_data_receivers.len(),
    ensures
        state.is_data_edge(receipt_index, k),
        state.action_receipts[r].output_data_receivers[p].data_id
            == state.action_receipts[receipt_index].input_data_ids[k] <==> r == data_id_receipt(
            state.action_receipts[receipt_index].input_data_ids[k],
        ) && p == data_id_position(state.action_receipts[receipt_index].input_data_ids[k]),
{
    let id = state.action_receipts[receipt_index].input_data_ids[k];
    assert(state.is_data_edge(receipt_index, k));
    if state.action_receipts[r].output_data_receivers[p].data_id == id {
        lemma_data_ids_differ(state, r, p, data_id_receipt(id), data_id_position(id));
    }
}

} // verus!
