//! The operations that a receipt can carry.

use crate::account::{AccessKey, AccessKeyView};
use crate::crypto::PublicKey;
use near_primitives_core::types::AccountId;
use vstd::prelude::*;

verus! {

/// One operation of a receipt. The set is closed: every kind has its own
/// variant, and a receipt performs its actions in the order it lists them.
#[derive(Clone, Debug, PartialEq, Eq)]
pub enum Action {
    /// Creates the receiver account.
    CreateAccount,
    /// Deploys `code` as the receiver's contract.
    DeployContract { code: Vec<u8> },
    /// Calls `method_name` on the receiver's contract with `args`, with
    /// `gas` prepaid and `deposit` attached.
    FunctionCall { method_name: String, args: Vec<u8>, gas: u64, deposit: u128 },
    /// Moves `deposit` to the receiver.
    Transfer { deposit: u128 },
    /// Stakes `stake` under `public_key`.
    Stake { stake: u128, public_key: PublicKey },
    /// Adds `public_key` to the receiver with the rights of `access_key`.
    AddKey { public_key: PublicKey, access_key: AccessKey },
    /// Removes `public_key` from the receiver.
    DeleteKey { public_key: PublicKey },
    /// Deletes the receiver and sends what it holds to `beneficiary_id`.
    DeleteAccount { beneficiary_id: AccountId },
}

/// The mathematical value of an `Action`.
pub enum ActionView {
    CreateAccount,
    DeployContract { code: Seq<u8> },
    FunctionCall { method_name: Seq<char>, args: Seq<u8>, gas: u64, deposit: u128 },
    Transfer { deposit: u128 },
    Stake { stake: u128, public_key: PublicKey },
    AddKey { public_key: PublicKey, access_key: AccessKeyView },
    DeleteKey { public_key: PublicKey },
    DeleteAccount { beneficiary_id: AccountId },
}

impl View for Action {
    type V = ActionView;

    open spec fn view(&self) -> ActionView {
        match self {
            Action::CreateAccount => ActionView::CreateAccount,
            Action::DeployContract { code } => ActionView::DeployContract { code: code@ },
            Action::FunctionCall { method_name, args, gas, deposit } => ActionView::FunctionCall {
                method_name: method_name@,
                args: args@,
                gas: *gas,
                deposit: *deposit,
            },
            Action::Transfer { deposit } => ActionView::Transfer { deposit: *deposit },
            Action::Stake { stake, public_key } => ActionView::Stake {
                stake: *stake,
                public_key: *public_key,
            },
            Action::AddKey { public_key, access_key } => ActionView::AddKey {
                public_key: *public_key,
                access_key: access_key@,
            },
            Action::DeleteKey { public_key } => ActionView::DeleteKey { public_key: *public_key },
            Action::DeleteAccount { beneficiary_id } => ActionView::DeleteAccount {
                beneficiary_id: *beneficiary_id,
            },
        }
    }
}

/// The mathematical value of a list of actions.
pub open spec fn actions_view(actions: Seq<Action>) -> Seq<ActionView> {
    Seq::new(actions.len(), |i: int| actions[i]@)
}

} // verus!
