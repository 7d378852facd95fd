//! Routing records for the data that one receipt produces for another.

use crate::hash::CryptoHash;
use near_primitives_core::types::AccountId;
use vstd::prelude::*;

verus! {

/// Says where a piece of data goes once it exists: the data named by
/// `data_id` becomes an input of the receipt addressed to `receiver_id`.
#[derive(Clone, Debug, PartialEq, Eq)]
pub struct DataReceiver {
    pub data_id: CryptoHash,
    pub receiver_id: AccountId,
}

/// The mathematical value of a `DataReceiver`.
pub struct DataReceiverView {
    pub data_id: Seq<u8>,
    pub receiver_id: AccountId,
}

impl View for DataReceiver {
    type V = DataReceiverView;

    open spec fn view(&self) -> DataReceiverView {
        DataReceiverView { data_id: self.data_id@, receiver_id: self.receiver_id }
    }
}

/// The mathematical value of a list of data receivers.
pub open spec fn data_receivers_view(receivers: Seq<DataReceiver>) -> Seq<DataReceiverView> {
    Seq::new(receivers.len(), |i: int| receivers[i]@)
}

} // verus!
