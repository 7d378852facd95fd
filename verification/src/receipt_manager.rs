//! The receipt manager: the pending receipts of one contract execution,
//! the data edges between them, and the gas weights of their function calls.

use crate::account::{
    AccessKey, AccessKeyPermission, AccessKeyPermissionView, AccessKeyView, FunctionCallPermission,
    FunctionCallPermissionView,
};
use crate::crypto::{decoded_public_key, parse_public_key};
use crate::data_id::new_data_id;
use crate::errors::ReceiptError;
use crate::hash::{hashes_view, CryptoHash};
use crate::method_name::{all_valid_utf8, decode_method_names, decoded_names, string_from_utf8};
use crate::model::{
    first_missing, lemma_first_missing, lemma_occurrences_take_step, lemma_weighted_call_wf,
    lemma_with_action_wf, lemma_with_receipt_wf, occurrences, ReceiptManagerView, ReceiptView,
};
use crate::receipt::{data_receivers_view, DataReceiver, DataReceiverView};
use crate::transaction::{actions_view, Action, ActionView};
use near_primitives_core::types::AccountId;
use vstd::prelude::*;
use vstd::utf8::{decode_utf8, valid_utf8};

verus! {

/// The share of the leftover gas that a function call claims, relative to
/// the weights of the other calls of the same execution.
#[derive(Clone, Copy, Debug, PartialEq, Eq, Structural)]
pub struct GasWeight(pub u64);

/// Names one action: the receipt that holds it and its place in that
/// receipt's action list.
#[derive(Clone, Copy, Debug, PartialEq, Eq, Structural)]
pub struct FunctionCallActionIndex {
    pub receipt_index: usize,
    pub action_index: usize,
}

/// What is recorded of one pending receipt besides its receiver.
#[derive(Clone, Debug, PartialEq, Eq)]
pub struct ReceiptMetadata {
    /// Where the data that this receipt produces is routed.
    pub output_data_receivers: Vec<DataReceiver>,
    /// The data that this receipt waits for.
    pub input_data_ids: Vec<CryptoHash>,
    /// What the receipt does once all its inputs are there, in order.
    pub actions: Vec<Action>,
}

/// The mathematical value of a stored receipt.
pub open spec fn receipt_view(entry: (AccountId, ReceiptMetadata)) -> ReceiptView {
    ReceiptView {
        receiver_id: entry.0,
        output_data_receivers: data_receivers_view(entry.1.output_data_receivers@),
        input_data_ids: hashes_view(entry.1.input_data_ids@),
        actions: actions_view(entry.1.actions@),
    }
}

/// The mathematical value of a list of stored receipts.
pub open spec fn receipts_view(entries: Seq<(AccountId, ReceiptMetadata)>) -> Seq<ReceiptView> {
    Seq::new(entries.len(), |i: int| receipt_view(entries[i]))
}

/// The pending receipts of one contract execution. A fresh manager is
/// empty; receipts and actions are only ever appended.
pub struct ReceiptManager {
    action_receipts: Vec<(AccountId, ReceiptMetadata)>,
    gas_weights: Vec<(FunctionCallActionIndex, GasWeight)>,
}

impl View for ReceiptManager {
    type V = ReceiptManagerView;

    closed spec fn view(&self) -> ReceiptManagerView {
        ReceiptManagerView {
            action_receipts: receipts_view(self.action_receipts@),
            gas_weights: self.gas_weights@,
        }
    }
}

impl Default for ReceiptManager {
    /// A manager without receipts.
    fn default() -> (res: ReceiptManager)
        ensures
            res.wf(),
            res@ == ReceiptManagerView::empty(),
    {
        let res = ReceiptManager { action_receipts: Vec::new(), gas_weights: Vec::new() };
        assert(res@.action_receipts =~= Seq::empty());
        res
    }
}

impl ReceiptManager {
    /// The invariant of the manager: it holds of a fresh manager, and
    /// every operation keeps it.
    pub open spec fn wf(&self) -> bool {
        self@.wf()
    }

    /// The pending receipts in the order of their creation, each with
    /// its receiver. This is what is read when the execution has ended.
    pub fn action_receipts(&self) -> (res: &Vec<(AccountId, ReceiptMetadata)>)
        ensures
            receipts_view(res@) == self@.action_receipts,
    {
        &self.action_receipts
    }

    /// The recorded gas weights in the order of their recording, each
    /// with the function call that claims it.
    pub fn gas_weights(&self) -> (res: &Vec<(FunctionCallActionIndex, GasWeight)>)
        ensures
            res@ == self@.gas_weights,
    {
        &self.gas_weights
    }

    /// The receiver of the receipt at `receipt_index`, if there is one.
    pub fn get_receipt_receiver(&self, receipt_index: u64) -> (res: Option<&AccountId>)
        ensures
            res == if receipt_index < self@.action_receipts.len() {
                Some(&self@.action_receipts[receipt_index as int].receiver_id)
            } else {
                None
            },
    {
        if receipt_index < self.action_receipts.len() as u64 {
            Some(&self.action_receipts[receipt_index as usize].0)
        } else {
            None
        }
    }

    /// Creates a receipt addressed to `receiver_id` that waits for data
    /// from each receipt that `receipt_indices` names, and returns its
    /// index. Every named receipt gets a data receiver with a fresh data
    /// identifier, and the new receipt lists those identifiers as its
    /// inputs, in the order of `receipt_indices`. If one of the named
    /// receipts does not exist, nothing changes.
    pub fn create_receipt(&mut self, receipt_indices: Vec<u64>, receiver_id: AccountId) -> (res:
        Result<u64, ReceiptError>)
        requires
            old(self).wf(),
        ensures
            final(self).wf(),
            match first_missing(receipt_indices@, old(self)@.action_receipts.len()) {
                Some(receipt_index) => {
                    &&& res == Err::<u64, ReceiptError>(
                        ReceiptError::InvalidReceiptIndex { receipt_index },
                    )
                    &&& final(self)@ == old(self)@
                },
                None => {
                    &&& res == Ok::<u64, ReceiptError>(old(self)@.action_receipts.len() as u64)
                    &&& final(self)@ == old(self)@.with_receipt(receipt_indices@, receiver_id)
                },
            },
    {
        let ghost pre = self@;
        let ghost indices = receipt_indices@;
        let count = self.action_receipts.len();
        assert(indices.skip(0) =~= indices);
        let mut i: usize = 0;
        while i < receipt_indices.len()
            invariant
                i <= receipt_indices@.len(),
                indices == receipt_indices@,
                self@ == pre,
                pre.wf(),
                pre.action_receipts.len() == count,
                first_missing(indices, count as nat) == first_missing(
                    indices.skip(i as int),
                    count as nat,
                ),
            decreases receipt_indices@.len() - i,
        {
            let receipt_index = receipt_indices[i];
            if receipt_index >= count as u64 {
                return Err(ReceiptError::InvalidReceiptIndex { receipt_index });
            }
            assert(indices.skip(i as int).drop_first() =~= indices.skip(i as int + 1));
            i += 1;
        }
        proof {
            lemma_first_missing(indices, count as nat);
        }
        let mut input_data_ids: Vec<CryptoHash> = Vec::new();
        let mut i: usize = 0;
        while i < receipt_indices.len()
            invariant
                i <= receipt_indices@.len(),
                indices == receipt_indices@,
                pre.wf(),
                pre.action_receipts.len() == count,
                forall|k: int| 0 <= k < indices.len() ==> indices[k] < count,
                self.action_receipts@.len() == count,
                self@.gas_weights == pre.gas_weights,
                self@.action_receipts == pre.with_data_receivers(
                    indices.take(i as int),
                    receiver_id,
                ),
                input_data_ids@.len() == i,
                forall|k: int|
                    0 <= k < i ==> (#[trigger] input_data_ids@[k])@ == pre.minted_data_id(
                        indices,
                        k,
                    ),
            decreases receipt_indices@.len() - i,
        {
            let index = receipt_indices[i] as usize;
            let position = self.action_receipts[index].1.output_data_receivers.len();
            let data_id = new_data_id(index as u64, position as u64);
            let ghost before = self@;
            let ghost stored = self.action_receipts@[index as int].1.output_data_receivers@;
            let data_receiver = DataReceiver { data_id, receiver_id: receiver_id.clone() };
            self.action_receipts[index].1.output_data_receivers.push(data_receiver);
            input_data_ids.push(data_id);
            proof {
                let next = pre.with_data_receivers(indices.take(i as int + 1), receiver_id);
                assert(before.action_receipts[index as int] == pre.subscribed(
                    index as int,
                    indices.take(i as int),
                    receiver_id,
                ));
                assert(position
                    == before.action_receipts[index as int].output_data_receivers.len());
                assert(index == indices[i as int]);
                assert(data_id@ == pre.minted_data_id(indices, i as int));
                assert(data_receivers_view(stored.push(data_receiver)) =~= data_receivers_view(
                    stored,
                ).push(data_receiver@));
                assert forall|r: int| 0 <= r < count implies #[trigger] self@.action_receipts[r]
                    == next[r] by {
                    lemma_occurrences_take_step(indices, i as int, r);
                    assert(before.action_receipts[r] == pre.subscribed(
                        r,
                        indices.take(i as int),
                        receiver_id,
                    ));
                    assert(self@.action_receipts[r].output_data_receivers
                        =~= next[r].output_data_receivers);
                }
                assert(self@.action_receipts =~= next);
            }
            i += 1;
        }
        let new_receipt = ReceiptMetadata {
            output_data_receivers: Vec::new(),
            input_data_ids,
            actions: Vec::new(),
        };
        let new_receipt_index = self.action_receipts.len() as u64;
        self.action_receipts.push((receiver_id, new_receipt));
        proof {
            assert(self.action_receipts.len() == self.action_receipts@.len() == count + 1);
            assert(indices.take(indices.len() as int) =~= indices);
            let post = pre.with_receipt(indices, receiver_id);
            assert(self@.action_receipts[count as int].input_data_ids =~= pre.minted_data_ids(
                indices,
            ));
            assert(self@.action_receipts[count as int].actions =~= Seq::<ActionView>::empty());
            assert(self@.action_receipts[count as int].output_data_receivers =~= Seq::<
                DataReceiverView,
            >::empty());
            assert(self@.action_receipts =~= post.action_receipts);
            assert forall|r: int| 0 <= r < count implies #[trigger]
                pre.action_receipts[r].output_data_receivers.len() + occurrences(indices, r)
                <= u64::MAX by {
                let stored = self.action_receipts@[r].1.output_data_receivers;
                assert(stored.len() == stored@.len());
                assert(self@.action_receipts[r].output_data_receivers.len() == stored@.len());
            }
            lemma_with_receipt_wf(pre, indices, receiver_id);
        }
        Ok(new_receipt_index)
    }

    /// Appends `action` to the receipt at `receipt_index` and returns the
    /// index of the action within that receipt.
    pub fn append_action(&mut self, receipt_index: u64, action: Action) -> (res: Result<
        usize,
        ReceiptError,
    >)
        requires
            old(self).wf(),
        ensures
            final(self).wf(),
            match res {
                Ok(action_index) => {
                    &&& receipt_index < old(self)@.action_receipts.len()
                    &&& action_index == old(
                        self,
                    )@.action_receipts[receipt_index as int].actions.len()
                    &&& final(self)@ == old(self)@.with_action(receipt_index as int, action@)
                },
                Err(error) => {
                    &&& receipt_index >= old(self)@.action_receipts.len()
                    &&& error == (ReceiptError::InvalidReceiptIndex { receipt_index })
                    &&& final(self)@ == old(self)@
                },
            },
    {
        if receipt_index >= self.action_receipts.len() as u64 {
            return Err(ReceiptError::InvalidReceiptIndex { receipt_index });
        }
        let index = receipt_index as usize;
        let action_index = self.action_receipts[index].1.actions.len();
        self.action_receipts[index].1.actions.push(action);
        assert(self@.action_receipts =~= old(self)@.with_action(
            receipt_index as int,
            action@,
        ).action_receipts) by {
            assert(self@.action_receipts[index as int].actions =~= old(
                self,
            )@.action_receipts[index as int].actions.push(action@));
        }
        proof {
            lemma_with_action_wf(old(self)@, receipt_index as int, action@);
        }
        Ok(action_index)
    }

    /// Appends to the receipt at `receipt_index` the creation of its
    /// receiver account.
    pub fn append_action_create_account(&mut self, receipt_index: u64) -> (res: Result<
        (),
        ReceiptError,
    >)
        requires
            old(self).wf(),
        ensures
            final(self).wf(),
            old(self)@.appended(receipt_index, ActionView::CreateAccount, res, final(self)@),
    {
        match self.append_action(receipt_index, Action::CreateAccount) {
            Ok(_) => Ok(()),
            Err(error) => Err(error),
        }
    }

    /// Appends to the receipt at `receipt_index` the deployment of `code`.
    pub fn append_action_deploy_contract(&mut self, receipt_index: u64, code: Vec<u8>) -> (res:
        Result<(), ReceiptError>)
        requires
            old(self).wf(),
        ensures
            final(self).wf(),
            old(self)@.appended(
                receipt_index,
                ActionView::DeployContract { code: code@ },
                res,
                final(self)@,
            ),
    {
        match self.append_action(receipt_index, Action::DeployContract { code }) {
            Ok(_) => Ok(()),
            Err(error) => Err(error),
        }
    }

    /// Appends to the receipt at `receipt_index` a call of `method_name`
    /// with `prepaid_gas` as a floor, and records `gas_weight` as the
    /// call's claim on the gas that is left over at the end of the
    /// execution, unless the weight is zero. A method name that is not
    /// valid UTF-8 is refused.
    pub fn append_action_function_call_weight(
        &mut self,
        receipt_index: u64,
        method_name: Vec<u8>,
        args: Vec<u8>,
        attached_deposit: u128,
        prepaid_gas: u64,
        gas_weight: GasWeight,
    ) -> (res: Result<(), ReceiptError>)
        requires
            old(self).wf(),
        ensures
            final(self).wf(),
            if !valid_utf8(method_name@) {
                &&& res == Err::<(), ReceiptError>(ReceiptError::InvalidMethodName)
                &&& final(self)@ == old(self)@
            } else if receipt_index >= old(self)@.action_receipts.len() {
                &&& res == Err::<(), ReceiptError>(
                    ReceiptError::InvalidReceiptIndex { receipt_index },
                )
                &&& final(self)@ == old(self)@
            } else {
                &&& res is Ok
                &&& final(self)@ == old(self)@.with_action(
                    receipt_index as int,
                    ActionView::FunctionCall {
                        method_name: decode_utf8(method_name@),
                        args: args@,
                        gas: prepaid_gas,
                        deposit: attached_deposit,
                    },
                ).with_gas_weight(
                    FunctionCallActionIndex {
                        receipt_index: receipt_index as usize,
                        action_index: old(
                            self,
                        )@.action_receipts[receipt_index as int].actions.len() as usize,
                    },
                    gas_weight,
                )
            },
    {
        let method_name = match string_from_utf8(method_name.as_slice()) {
            Some(text) => text,
            None => {
                return Err(ReceiptError::InvalidMethodName);
            },
        };
        let action = Action::FunctionCall {
            method_name,
            args,
            gas: prepaid_gas,
            deposit: attached_deposit,
        };
        let ghost appended = action@;
        let action_index = match self.append_action(receipt_index, action) {
            Ok(action_index) => action_index,
            Err(error) => {
                return Err(error);
            },
        };
        proof {
            let stored = self.action_receipts@[receipt_index as int].1.actions;
            assert(stored.len() == stored@.len());
            assert(self.action_receipts.len() == self.action_receipts@.len());
            lemma_weighted_call_wf(old(self)@, receipt_index as int, appended, gas_weight);
        }
        if gas_weight.0 > 0 {
            self.gas_weights.push(
                (
                    FunctionCallActionIndex {
                        receipt_index: receipt_index as usize,
                        action_index,
                    },
                    gas_weight,
                ),
            );
        }
        Ok(())
    }

    /// Appends to the receipt at `receipt_index` a call of `method_name`
    /// with exactly `prepaid_gas`. A method name that is not valid UTF-8
    /// is refused.
    pub fn append_action_function_call(
        &mut self,
        receipt_index: u64,
        method_name: Vec<u8>,
        args: Vec<u8>,
        attached_deposit: u128,
        prepaid_gas: u64,
    ) -> (res: Result<(), ReceiptError>)
        requires
            old(self).wf(),
        ensures
            final(self).wf(),
            if valid_utf8(method_name@) {
                old(self)@.appended(
                    receipt_index,
                    ActionView::FunctionCall {
                        method_name: decode_utf8(method_name@),
                        args: args@,
                        gas: prepaid_gas,
                        deposit: attached_deposit,
                    },
                    res,
                    final(self)@,
                )
            } else {
                &&& res == Err::<(), ReceiptError>(ReceiptError::InvalidMethodName)
                &&& final(self)@ == old(self)@
            },
    {
        let method_name = match string_from_utf8(method_name.as_slice()) {
            Some(text) => text,
            None => {
                return Err(ReceiptError::InvalidMethodName);
            },
        };
        let action = Action::FunctionCall {
            method_name,
            args,
            gas: prepaid_gas,
            deposit: attached_deposit,
        };
        match self.append_action(receipt_index, action) {
            Ok(_) => Ok(()),
            Err(error) => Err(error),
        }
    }

    /// Appends to the receipt at `receipt_index` the transfer of `deposit`.
    pub fn append_action_transfer(&mut self, receipt_index: u64, deposit: u128) -> (res: Result<
        (),
        ReceiptError,
    >)
        requires
            old(self).wf(),
        ensures
            final(self).wf(),
            old(self)@.appended(
                receipt_index,
                ActionView::Transfer { deposit },
                res,
                final(self)@,
            ),
    {
        match self.append_action(receipt_index, Action::Transfer { deposit }) {
            Ok(_) => Ok(()),
            Err(error) => Err(error),
        }
    }

    /// Appends to the receipt at `receipt_index` the staking of `stake`
    /// under the key that `public_key` encodes. Bytes that encode no key
    /// are refused.
    pub fn append_action_stake(
        &mut self,
        receipt_index: u64,
        stake: u128,
        public_key: Vec<u8>,
    ) -> (res: Result<(), ReceiptError>)
        requires
            old(self).wf(),
        ensures
            final(self).wf(),
            match decoded_public_key(public_key@) {
                Some(key) => old(self)@.appended(
                    receipt_index,
                    ActionView::Stake { stake, public_key: key },
                    res,
                    final(self)@,
                ),
                None => {
                    &&& res == Err::<(), ReceiptError>(ReceiptError::InvalidPublicKey)
                    &&& final(self)@ == old(self)@
                },
            },
    {
        let public_key = match parse_public_key(public_key.as_slice()) {
            Some(key) => key,
            None => {
                return Err(ReceiptError::InvalidPublicKey);
            },
        };
        match self.append_action(receipt_index, Action::Stake { stake, public_key }) {
            Ok(_) => Ok(()),
            Err(error) => Err(error),
        }
    }

    /// Appends to the receipt at `receipt_index` the addition of the key
    /// that `public_key` encodes, with full access and the given `nonce`.
    /// Bytes that encode no key are refused.
    pub fn append_action_add_key_with_full_access(
        &mut self,
        receipt_index: u64,
        public_key: Vec<u8>,
        nonce: u64,
    ) -> (res: Result<(), ReceiptError>)
        requires
            old(self).wf(),
        ensures
            final(self).wf(),
            match decoded_public_key(public_key@) {
                Some(key) => old(self)@.appended(
                    receipt_index,
                    ActionView::AddKey {
                        public_key: key,
                        access_key: AccessKeyView {
                            nonce,
                            permission: AccessKeyPermissionView::FullAccess,
                        },
                    },
                    res,
                    final(self)@,
                ),
                None => {
                    &&& res == Err::<(), ReceiptError>(ReceiptError::InvalidPublicKey)
                    &&& final(self)@ == old(self)@
                },
            },
    {
        let public_key = match parse_public_key(public_key.as_slice()) {
            Some(key) => key,
            None => {
                return Err(ReceiptError::InvalidPublicKey);
            },
        };
        let access_key = AccessKey { nonce, permission: AccessKeyPermission::FullAccess };
        match self.append_action(receipt_index, Action::AddKey { public_key, access_key }) {
            Ok(_) => Ok(()),
            Err(error) => Err(error),
        }
    }

    /// Appends to the receipt at `receipt_index` the addition of the key
    /// that `public_key` encodes, restricted to calling `method_names` on
    /// `receiver_id` within `allowance`. Bytes that encode no key are
    /// refused, and so is a method name that is not valid UTF-8.
    pub fn append_action_add_key_with_function_call(
        &mut self,
        receipt_index: u64,
        public_key: Vec<u8>,
        nonce: u64,
        allowance: Option<u128>,
        receiver_id: AccountId,
        method_names: Vec<Vec<u8>>,
    ) -> (res: Result<(), ReceiptError>)
        requires
            old(self).wf(),
        ensures
            final(self).wf(),
            match decoded_public_key(public_key@) {
                Some(key) => if all_valid_utf8(method_names@) {
                    old(self)@.appended(
                        receipt_index,
                        ActionView::AddKey {
                            public_key: key,
                            access_key: AccessKeyView {
                                nonce,
                                permission: AccessKeyPermissionView::FunctionCall(
                                    FunctionCallPermissionView {
                                        allowance,
                                        receiver_id,
                                        method_names: decoded_names(method_names@),
                                    },
                                ),
                            },
                        },
                        res,
                        final(self)@,
                    )
                } else {
                    &&& res == Err::<(), ReceiptError>(ReceiptError::InvalidMethodName)
                    &&& final(self)@ == old(self)@
                },
                None => {
                    &&& res == Err::<(), ReceiptError>(ReceiptError::InvalidPublicKey)
                    &&& final(self)@ == old(self)@
                },
            },
    {
        let public_key = match parse_public_key(public_key.as_slice()) {
            Some(key) => key,
            None => {
                return Err(ReceiptError::InvalidPublicKey);
            },
        };
        let method_names = match decode_method_names(&method_names) {
            Some(texts) => texts,
            None => {
                return Err(ReceiptError::InvalidMethodName);
            },
        };
        let access_key = AccessKey {
            nonce,
            permission: AccessKeyPermission::FunctionCall(
                FunctionCallPermission { allowance, receiver_id, method_names },
            ),
        };
        match self.append_action(receipt_index, Action::AddKey { public_key, access_key }) {
            Ok(_) => Ok(()),
            Err(error) => Err(error),
        }
    }

    /// Appends to the receipt at `receipt_index` the removal of the key
    /// that `public_key` encodes. Bytes that encode no key are refused.
    pub fn append_action_delete_key(&mut self, receipt_index: u64, public_key: Vec<u8>) -> (res:
        Result<(), ReceiptError>)
        requires
            old(self).wf(),
        ensures
            final(self).wf(),
            match decoded_public_key(public_key@) {
                Some(key) => old(self)@.appended(
                    receipt_index,
                    ActionView::DeleteKey { public_key: key },
                    res,
                    final(self)@,
                ),
                None => {
                    &&& res == Err::<(), ReceiptError>(ReceiptError::InvalidPublicKey)
                    &&& final(self)@ == old(self)@
                },
            },
    {
        let public_key = match parse_public_key(public_key.as_slice()) {
            Some(key) => key,
            None => {
                return Err(ReceiptError::InvalidPublicKey);
            },
        };
        match self.append_action(receipt_index, Action::DeleteKey { public_key }) {
            Ok(_) => Ok(()),
            Err(error) => Err(error),
        }
    }

    /// Appends to the receipt at `receipt_index` the deletion of its
    /// receiver account in favour of `beneficiary_id`.
    pub fn append_action_delete_account(
        &mut self,
        receipt_index: u64,
        beneficiary_id: AccountId,
    ) -> (res: Result<(), ReceiptError>)
        requires
            old(self).wf(),
        ensures
            final(self).wf(),
            old(self)@.appended(
                receipt_index,
                ActionView::DeleteAccount { beneficiary_id },
                res,
                final(self)@,
            ),
    {
        match self.append_action(receipt_index, Action::DeleteAccount { beneficiary_id }) {
            Ok(_) => Ok(()),
            Err(error) => Err(error),
        }
    }
}

} // verus!
