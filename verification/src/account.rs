//! Account identifiers and the access keys that an account can hold.

use near_primitives_core::types::AccountId;
use vstd::prelude::*;

verus! {

/// `near_primitives_core::types::AccountId`: an account name whose grammar
/// is enforced where it is parsed. Here it is only carried and copied.
#[verifier::external_type_specification]
#[verifier::external_body]
pub struct ExAccountId(AccountId);

/// `AccountId::clone`: the copy is the same account name.
pub assume_specification[ <AccountId as Clone>::clone ](id: &AccountId) -> (res: AccountId)
    ensures
        res == *id,
;

/// What an access key may be used for.
#[derive(Clone, Debug, PartialEq, Eq)]
pub enum AccessKeyPermission {
    /// Calls to chosen methods of one contract, paid from an allowance.
    FunctionCall(FunctionCallPermission),
    /// Every action on behalf of the account.
    FullAccess,
}

/// The limits of an access key that is restricted to function calls.
#[derive(Clone, Debug, PartialEq, Eq)]
pub struct FunctionCallPermission {
    /// What the key may still spend on fees; `None` is unlimited.
    pub allowance: Option<u128>,
    /// The contract that the key may call.
    pub receiver_id: AccountId,
    /// The methods that the key may call; empty means any method.
    pub method_names: Vec<String>,
}

/// An access key: a nonce and what the key permits.
#[derive(Clone, Debug, PartialEq, Eq)]
pub struct AccessKey {
    /// Replay protection: grows with every transaction signed by the key.
    pub nonce: u64,
    /// What the key may be used for.
    pub permission: AccessKeyPermission,
}

/// The mathematical value of a list of names.
pub open spec fn names_view(names: Seq<String>) -> Seq<Seq<char>> {
    Seq::new(names.len(), |i: int| names[i]@)
}

/// The mathematical value of a `FunctionCallPermission`.
pub struct FunctionCallPermissionView {
    pub allowance: Option<u128>,
    pub receiver_id: AccountId,
    pub method_names: Seq<Seq<char>>,
}

/// The mathematical value of an `AccessKeyPermission`.
pub enum AccessKeyPermissionView {
    FunctionCall(FunctionCallPermissionView),
    FullAccess,
}

/// The mathematical value of an `AccessKey`.
pub struct AccessKeyView {
    pub nonce: u64,
    pub permission: AccessKeyPermissionView,
}

impl View for FunctionCallPermission {
    type V = FunctionCallPermissionView;

    open spec fn view(&self) -> FunctionCallPermissionView {
        FunctionCallPermissionView {
            allowance: self.allowance,
            receiver_id: self.receiver_id,
            method_names: names_view(self.method_names@),
        }
    }
}

impl View for AccessKeyPermission {
    type V = AccessKeyPermissionView;

    open spec fn view(&self) -> AccessKeyPermissionView {
        match self {
            AccessKeyPermission::FunctionCall(permission) => AccessKeyPermissionView::FunctionCall(
                permission@,
            ),
            AccessKeyPermission::FullAccess => AccessKeyPermissionView::FullAccess,
        }
    }
}

impl View for AccessKey {
    type V = AccessKeyView;

    open spec fn view(&self) -> AccessKeyView {
        AccessKeyView { nonce: self.nonce, permission: self.permission@ }
    }
}

} // verus!
