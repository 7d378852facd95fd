//! The identifiers that name data edges within one execution.
//!
//! An identifier is minted for every data receiver and says where that
//! receiver is stored: the index of the receipt that produces the data,
//! then the receiver's place in that receipt's list, each as eight
//! little-endian bytes, then sixteen zero bytes. It is a local handle,
//! distinct from every other one minted by the same manager.

use crate::hash::CryptoHash;
use vstd::bytes::{
    lemma_auto_spec_u64_to_from_le_bytes, spec_u64_from_le_bytes, spec_u64_to_le_bytes,
    u64_to_le_bytes,
};
use vstd::prelude::*;

verus! {

/// The identifier of the data routed by the data receiver at `position`
/// in the receipt at `receipt_index`.
pub open spec fn local_data_id(receipt_index: int, position: int) -> Seq<u8> {
    spec_u64_to_le_bytes(receipt_index as u64) + spec_u64_to_le_bytes(position as u64) + Seq::new(
        16,
        |i: int| 0u8,
    )
}

/// The receipt index that an identifier names.
pub open spec fn data_id_receipt(id: Seq<u8>) -> int {
    spec_u64_from_le_bytes(id.subrange(0, 8)) as int
}

/// The place in the producing receipt's list that an identifier names.
pub open spec fn data_id_position(id: Seq<u8>) -> int {
    spec_u64_from_le_bytes(id.subrange(8, 16)) as int
}

/// An identifier has 32 bytes and gives back the receipt index and the
/// position it was minted for.
pub proof fn lemma_local_data_id(receipt_index: int, position: int)
    requires
        0 <= receipt_index <= u64::MAX,
        0 <= position <= u64::MAX,
    ensures
        local_data_id(receipt_index, position).len() == 32,
        data_id_receipt(local_data_id(receipt_index, position)) == receipt_index,
        data_id_position(local_data_id(receipt_index, position)) == position,
{
    lemma_auto_spec_u64_to_from_le_bytes();
    let id = local_data_id(receipt_index, position);
    assert(id.subrange(0, 8) =~= spec_u64_to_le_bytes(receipt_index as u64));
    assert(id.subrange(8, 16) =~= spec_u64_to_le_bytes(position as u64));
}

/// Identifiers minted for different places are different.
pub proof fn lemma_local_data_id_injective(
    receipt_a: int,
    position_a: int,
    receipt_b: int,
    position_b: int,
)
    requires
        0 <= receipt_a <= u64::MAX,
        0 <= position_a <= u64::MAX,
        0 <= receipt_b <= u64::MAX,
        0 <= position_b <= u64::MAX,
        local_data_id(receipt_a, position_a) == local_data_id(receipt_b, position_b),
    ensures
        receipt_a == receipt_b,
        position_a == position_b,
{
    lemma_local_data_id(receipt_a, position_a);
    lemma_local_data_id(receipt_b, position_b);
}

/// Mints the identifier for the data receiver at `position` in the receipt
/// at `receipt_index`.
pub fn new_data_id(receipt_index: u64, position: u64) -> (id: CryptoHash)
    ensures
        id@ == local_data_id(receipt_index as int, position as int),
{
    let head = u64_to_le_bytes(receipt_index);
    let tail = u64_to_le_bytes(position);
    proof {
        lemma_auto_spec_u64_to_from_le_bytes();
    }
    let mut bytes = [0u8; 32];
    let mut i: usize = 0;
    while i < 8
        invariant
            i <= 8,
            head@.len() == 8,
            tail@.len() == 8,
            forall|j: int| 0 <= j < i ==> bytes@[j] == head@[j],
            forall|j: int| 8 <= j < 8 + i ==> bytes@[j] == tail@[j - 8],
            forall|j: int| i <= j < 8 || 8 + i <= j < 32 ==> bytes@[j] == 0u8,
        decreases 8 - i,
    {
        bytes[i] = head[i];
        bytes[i + 8] = tail[i];
        i += 1;
    }
    let id = CryptoHash(bytes);
    assert(id@ =~= local_data_id(receipt_index as int, position as int));
    id
}

} // verus!
