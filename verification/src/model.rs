//! The receipt manager as a mathematical value: what creating a receipt
//! and appending an action make of it, and the invariant that they keep.

use crate::data_id::{data_id_position, data_id_receipt, lemma_local_data_id, local_data_id};
use crate::errors::ReceiptError;
use crate::receipt::DataReceiverView;
use crate::receipt_manager::{FunctionCallActionIndex, GasWeight};
use crate::transaction::ActionView;
use near_primitives_core::types::AccountId;
use vstd::prelude::*;

verus! {

/// The mathematical value of one pending receipt.
pub struct ReceiptView {
    pub receiver_id: AccountId,
    pub output_data_receivers: Seq<DataReceiverView>,
    pub input_data_ids: Seq<Seq<u8>>,
    pub actions: Seq<ActionView>,
}

/// How often `receipt_index` occurs in `indices`.
pub open spec fn occurrences(indices: Seq<u64>, receipt_index: int) -> nat
    decreases indices.len(),
{
    if indices.len() == 0 {
        0
    } else {
        occurrences(indices.drop_last(), receipt_index) + if indices.last() == receipt_index {
            1nat
        } else {
            0nat
        }
    }
}

/// The first of `indices` that names no receipt among `count` receipts.
pub open spec fn first_missing(indices: Seq<u64>, count: nat) -> Option<u64>
    decreases indices.len(),
{
    if indices.len() == 0 {
        None
    } else if indices.first() >= count {
        Some(indices.first())
    } else {
        first_missing(indices.drop_first(), count)
    }
}

/// The mathematical value of a receipt manager.
pub struct ReceiptManagerView {
    /// The pending receipts; a receipt's index is its place here.
    pub action_receipts: Seq<ReceiptView>,
    /// The recorded gas weights, in the order they were recorded.
    pub gas_weights: Seq<(FunctionCallActionIndex, GasWeight)>,
}

impl ReceiptManagerView {
    /// A manager without receipts.
    pub open spec fn empty() -> Self {
        ReceiptManagerView { action_receipts: Seq::empty(), gas_weights: Seq::empty() }
    }

    /// The state in which `action` has been appended to the receipt at
    /// `receipt_index`.
    pub open spec fn with_action(self, receipt_index: int, action: ActionView) -> Self {
        let receipt = self.action_receipts[receipt_index];
        ReceiptManagerView {
            action_receipts: self.action_receipts.update(
                receipt_index,
                ReceiptView { actions: receipt.actions.push(action), ..receipt },
            ),
            ..self
        }
    }

    /// The state in which the function call at `at` has claimed `weight`
    /// of the leftover gas. A weight of zero claims nothing and is not
    /// recorded.
    pub open spec fn with_gas_weight(self, at: FunctionCallActionIndex, weight: GasWeight) -> Self {
        if weight.0 > 0 {
            ReceiptManagerView { gas_weights: self.gas_weights.push((at, weight)), ..self }
        } else {
            self
        }
    }

    /// Whether `res` and `post` are what appending `action` to the
    /// receipt at `receipt_index` gives: the action is appended if the
    /// receipt exists, and else nothing changes.
    pub open spec fn appended(
        self,
        receipt_index: u64,
        action: ActionView,
        res: Result<(), ReceiptError>,
        post: Self,
    ) -> bool {
        if receipt_index < self.action_receipts.len() {
            &&& res is Ok
            &&& post == self.with_action(receipt_index as int, action)
        } else {
            &&& res == Err::<(), ReceiptError>(ReceiptError::InvalidReceiptIndex { receipt_index })
            &&& post == self
        }
    }

    /// The receipt at `receipt_index` once a receipt addressed to
    /// `receiver_id` has subscribed to it as often as `indices` names it:
    /// each subscription appends one data receiver with a fresh identifier.
    pub open spec fn subscribed(
        self,
        receipt_index: int,
        indices: Seq<u64>,
        receiver_id: AccountId,
    ) -> ReceiptView {
        let receipt = self.action_receipts[receipt_index];
        let before = receipt.output_data_receivers.len() as int;
        ReceiptView {
            output_data_receivers: receipt.output_data_receivers + Seq::new(
                occurrences(indices, receipt_index),
                |j: int|
                    DataReceiverView {
                        data_id: local_data_id(receipt_index, before + j),
                        receiver_id,
                    },
            ),
            ..receipt
        }
    }

    /// The existing receipts once a receipt addressed to `receiver_id` has
    /// subscribed to the predecessors that `indices` names.
    pub open spec fn with_data_receivers(self, indices: Seq<u64>, receiver_id: AccountId) -> Seq<
        ReceiptView,
    > {
        Seq::new(
            self.action_receipts.len(),
            |r: int| self.subscribed(r, indices, receiver_id),
        )
    }

    /// The identifier minted for the `k`-th of `indices`: that of the
    /// data receiver that this subscription appends to its predecessor.
    pub open spec fn minted_data_id(self, indices: Seq<u64>, k: int) -> Seq<u8> {
        let receipt_index = indices[k] as int;
        local_data_id(
            receipt_index,
            (self.action_receipts[receipt_index].output_data_receivers.len() + occurrences(
                indices.take(k),
                receipt_index,
            )) as int,
        )
    }

    /// The identifiers minted for `indices`, in their order.
    pub open spec fn minted_data_ids(self, indices: Seq<u64>) -> Seq<Seq<u8>> {
        Seq::new(indices.len(), |k: int| self.minted_data_id(indices, k))
    }

    /// The state in which a receipt addressed to `receiver_id` has been
    /// created that depends on the predecessors that `indices` names.
    pub open spec fn with_receipt(self, indices: Seq<u64>, receiver_id: AccountId) -> Self {
        ReceiptManagerView {
            action_receipts: self.with_data_receivers(indices, receiver_id).push(
                ReceiptView {
                    receiver_id,
                    output_data_receivers: Seq::empty(),
                    input_data_ids: self.minted_data_ids(indices),
                    actions: Seq::empty(),
                },
            ),
            ..self
        }
    }

    /// Every data receiver carries the identifier of its own place, which
    /// makes the identifiers of one manager pairwise different.
    pub open spec fn data_receivers_wf(self) -> bool {
        &&& self.action_receipts.len() <= u64::MAX
        &&& forall|r: int|
            #![trigger self.action_receipts[r]]
            0 <= r < self.action_receipts.len()
                ==> self.action_receipts[r].output_data_receivers.len() <= u64::MAX
        &&& forall|r: int, p: int|
            #![trigger self.action_receipts[r].output_data_receivers[p]]
            0 <= r < self.action_receipts.len() && 0 <= p
                < self.action_receipts[r].output_data_receivers.len()
                ==> self.action_receipts[r].output_data_receivers[p].data_id == local_data_id(r, p)
    }

    /// Whether the `k`-th input of the receipt at `receipt_index` is a
    /// data edge: its identifier names a data receiver of an earlier
    /// receipt, and that data receiver routes the data to this receipt.
    pub open spec fn is_data_edge(self, receipt_index: int, k: int) -> bool {
        let receipt = self.action_receipts[receipt_index];
        let id = receipt.input_data_ids[k];
        let from = data_id_receipt(id);
        let position = data_id_position(id);
        &&& 0 <= from < receipt_index
        &&& 0 <= position < self.action_receipts[from].output_data_receivers.len()
        &&& self.action_receipts[from].output_data_receivers[position] == (DataReceiverView {
            data_id: id,
            receiver_id: receipt.receiver_id,
        })
    }

    /// Every input of every receipt is a data edge from an earlier receipt.
    pub open spec fn data_edges_wf(self) -> bool {
        forall|r: int, k: int|
            #![trigger self.action_receipts[r].input_data_ids[k]]
            0 <= r < self.action_receipts.len() && 0 <= k
                < self.action_receipts[r].input_data_ids.len() ==> self.is_data_edge(r, k)
    }

    /// Whether `weight` can stand recorded for the action at `at`: it is
    /// positive, and the action exists and is a function call.
    pub open spec fn is_gas_claim(self, at: FunctionCallActionIndex, weight: GasWeight) -> bool {
        &&& weight.0 > 0
        &&& at.receipt_index < self.action_receipts.len()
        &&& at.action_index < self.action_receipts[at.receipt_index as int].actions.len()
        &&& self.action_receipts[at.receipt_index as int].actions[at.action_index as int]
            is FunctionCall
    }

    /// Every recorded gas weight is positive and belongs to a function
    /// call that exists, and no function call has two of them.
    pub open spec fn gas_weights_wf(self) -> bool {
        &&& forall|k: int|
            #![trigger self.gas_weights[k]]
            0 <= k < self.gas_weights.len() ==> self.is_gas_claim(
                self.gas_weights[k].0,
                self.gas_weights[k].1,
            )
        &&& forall|j: int, k: int|
            #![trigger self.gas_weights[j], self.gas_weights[k]]
            0 <= j < k < self.gas_weights.len() ==> self.gas_weights[j].0 != self.gas_weights[k].0
    }

    /// The invariant of every receipt manager.
    pub open spec fn wf(self) -> bool {
        &&& self.data_receivers_wf()
        &&& self.data_edges_wf()
        &&& self.gas_weights_wf()
    }
}

/// Taking one more of `indices` counts it, and nothing else.
pub proof fn lemma_occurrences_take_step(indices: Seq<u64>, i: int, receipt_index: int)
    requires
        0 <= i < indices.len(),
    ensures
        occurrences(indices.take(i + 1), receipt_index) == occurrences(
            indices.take(i),
            receipt_index,
        ) + if indices[i] == receipt_index {
            1nat
        } else {
            0nat
        },
{
    assert(indices.take(i + 1).drop_last() =~= indices.take(i));
}

/// A prefix of `indices` holds no more occurrences than `indices`, and
/// fewer where the index just behind the prefix is the one counted.
pub proof fn lemma_occurrences_prefix(indices: Seq<u64>, k: int, receipt_index: int)
    requires
        0 <= k <= indices.len(),
    ensures
        occurrences(indices.take(k), receipt_index) <= occurrences(indices, receipt_index),
        k < indices.len() && indices[k] == receipt_index ==> occurrences(
            indices.take(k),
            receipt_index,
        ) < occurrences(indices, receipt_index),
    decreases indices.len() - k,
{
    if k == indices.len() {
        assert(indices.take(k) =~= indices);
    } else {
        lemma_occurrences_take_step(indices, k, receipt_index);
        lemma_occurrences_prefix(indices, k + 1, receipt_index);
    }
}

/// No index is missing exactly when every index names a receipt.
pub proof fn lemma_first_missing(indices: Seq<u64>, count: nat)
    ensures
        first_missing(indices, count) is None <==> forall|k: int|
            0 <= k < indices.len() ==> indices[k] < count,
        first_missing(indices, count) matches Some(missing) ==> exists|k: int|
            0 <= k < indices.len() && indices[k] == missing && missing >= count && forall|j: int|
                0 <= j < k ==> indices[j] < count,
    decreases indices.len(),
{
    if indices.len() > 0 {
        let rest = indices.drop_first();
        lemma_first_missing(rest, count);
        if indices.first() >= count {
            assert(indices[0] == indices.first());
        } else {
            assert forall|k: int| 0 <= k < rest.len() implies rest[k] == indices[k + 1] by {}
            if first_missing(rest, count) is None {
                assert forall|k: int| 0 <= k < indices.len() implies indices[k] < count by {
                    if k > 0 {
                        assert(rest[k - 1] == indices[k]);
                    }
                }
            } else {
                let missing = first_missing(rest, count)->Some_0;
                let k = choose|k: int|
                    0 <= k < rest.len() && rest[k] == missing && missing >= count && forall|j: int|
                        0 <= j < k ==> rest[j] < count;
                assert(indices[k + 1] == missing);
                assert forall|j: int| 0 <= j < k + 1 implies indices[j] < count by {
                    if j > 0 {
                        assert(rest[j - 1] == indices[j]);
                    }
                }
            }
        }
    }
}

/// Creating a receipt keeps the invariant, as long as every predecessor
/// exists and the lists stay within what can be indexed.
pub proof fn lemma_with_receipt_wf(
    pre: ReceiptManagerView,
    indices: Seq<u64>,
    receiver_id: AccountId,
)
    requires
        pre.wf(),
        pre.action_receipts.len() < u64::MAX,
        forall|k: int| 0 <= k < indices.len() ==> indices[k] < pre.action_receipts.len(),
        forall|r: int|
            0 <= r < pre.action_receipts.len()
                ==> pre.action_receipts[r].output_data_receivers.len() + occurrences(indices, r)
                <= u64::MAX,
    ensures
        pre.with_receipt(indices, receiver_id).wf(),
{
    let post = pre.with_receipt(indices, receiver_id);
    let count = pre.action_receipts.len() as int;
    assert forall|r: int, k: int|
        0 <= r < post.action_receipts.len() && 0 <= k
            < post.action_receipts[r].input_data_ids.len() implies post.is_data_edge(r, k) by {
        if r < count {
            assert(pre.is_data_edge(r, k));
            let id = pre.action_receipts[r].input_data_ids[k];
            let from = data_id_receipt(id);
            let position = data_id_position(id);
            assert(post.action_receipts[from].output_data_receivers[position]
                == pre.action_receipts[from].output_data_receivers[position]);
        } else {
            let from = indices[k] as int;
            let before = pre.action_receipts[from].output_data_receivers.len() as int;
            let j = occurrences(indices.take(k), from) as int;
            lemma_occurrences_prefix(indices, k, from);
            lemma_local_data_id(from, before + j);
            assert(post.action_receipts[r].input_data_ids[k] == local_data_id(from, before + j));
            assert(post.action_receipts[from].output_data_receivers[before + j] == (
            DataReceiverView { data_id: local_data_id(from, before + j), receiver_id }));
        }
    }
    assert forall|k: int| 0 <= k < post.gas_weights.len() implies post.is_gas_claim(
        (#[trigger] post.gas_weights[k]).0,
        post.gas_weights[k].1,
    ) by {
        let (at, weight) = pre.gas_weights[k];
        assert(pre.is_gas_claim(at, weight));
        assert(post.action_receipts[at.receipt_index as int].actions
            == pre.action_receipts[at.receipt_index as int].actions);
    }
}

/// Appending an action keeps the invariant.
pub proof fn lemma_with_action_wf(pre: ReceiptManagerView, receipt_index: int, action: ActionView)
    requires
        pre.wf(),
        0 <= receipt_index < pre.action_receipts.len(),
    ensures
        pre.with_action(receipt_index, action).wf(),
{
    let post = pre.with_action(receipt_index, action);
    assert forall|r: int, k: int|
        0 <= r < post.action_receipts.len() && 0 <= k
            < post.action_receipts[r].input_data_ids.len() implies post.is_data_edge(r, k) by {
        assert(pre.is_data_edge(r, k));
    }
    assert forall|k: int| 0 <= k < post.gas_weights.len() implies post.is_gas_claim(
        (#[trigger] post.gas_weights[k]).0,
        post.gas_weights[k].1,
    ) by {
        assert(pre.is_gas_claim(pre.gas_weights[k].0, pre.gas_weights[k].1));
    }
}

/// Appending a function call and recording its gas weight keeps the
/// invariant.
pub proof fn lemma_weighted_call_wf(
    pre: ReceiptManagerView,
    receipt_index: int,
    action: ActionView,
    weight: GasWeight,
)
    requires
        pre.wf(),
        0 <= receipt_index < pre.action_receipts.len(),
        pre.action_receipts.len() <= usize::MAX,
        pre.action_receipts[receipt_index].actions.len() <= usize::MAX,
        action is FunctionCall,
    ensures
        pre.with_action(receipt_index, action).with_gas_weight(
            FunctionCallActionIndex {
                receipt_index: receipt_index as usize,
                action_index: pre.action_receipts[receipt_index].actions.len() as usize,
            },
            weight,
        ).wf(),
{
    let mid = pre.with_action(receipt_index, action);
    let at = FunctionCallActionIndex {
        receipt_index: receipt_index as usize,
        action_index: pre.action_receipts[receipt_index].actions.len() as usize,
    };
    let post = mid.with_gas_weight(at, weight);
    assert(post.action_receipts == mid.action_receipts);
    assert forall|r: int, k: int|
        0 <= r < post.action_receipts.len() && 0 <= k
            < post.action_receipts[r].input_data_ids.len() implies post.is_data_edge(r, k) by {
        assert(pre.is_data_edge(r, k));
    }
    assert forall|k: int| 0 <= k < pre.gas_weights.len() implies (#[trigger] pre.gas_weights[k]).0
        != at && post.is_gas_claim(pre.gas_weights[k].0, pre.gas_weights[k].1) by {
        assert(pre.is_gas_claim(pre.gas_weights[k].0, pre.gas_weights[k].1));
    }
    assert(post.is_gas_claim(at, weight) || weight.0 == 0);
    assert(post.gas_weights_wf());
}

} // verus!
