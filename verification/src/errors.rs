//! The failures that the receipt manager reports to the host-call layer.

use vstd::prelude::*;

verus! {

/// Why an operation on the receipt manager was refused. None of them is
/// retryable, and a refused operation leaves the manager untouched.
#[derive(Clone, Copy, Debug, PartialEq, Eq, Structural)]
pub enum ReceiptError {
    /// The receipt named by `receipt_index` does not exist.
    InvalidReceiptIndex { receipt_index: u64 },
    /// A method name is not valid UTF-8.
    InvalidMethodName,
    /// A byte string does not decode to a public key.
    InvalidPublicKey,
}

} // verus!
