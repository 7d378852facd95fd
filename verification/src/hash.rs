//! The 32-byte content identifier and the digest that produces it.

use vstd::prelude::*;

verus! {

/// An opaque 32-byte identifier, used for data ids and receipt ids.
#[derive(Clone, Copy, Debug, PartialEq, Eq, Hash)]
pub struct CryptoHash(pub [u8; 32]);

impl View for CryptoHash {
    type V = Seq<u8>;

    open spec fn view(&self) -> Seq<u8> {
        self.0@
    }
}

impl Default for CryptoHash {
    fn default() -> (res: CryptoHash)
        ensures
            res@ == Seq::new(32, |i: int| 0u8),
    {
        let res = CryptoHash([0u8; 32]);
        assert(res@ =~= Seq::new(32, |i: int| 0u8));
        res
    }
}

/// The mathematical value of a list of identifiers.
pub open spec fn hashes_view(hashes: Seq<CryptoHash>) -> Seq<Seq<u8>> {
    Seq::new(hashes.len(), |i: int| hashes[i]@)
}

/// The SHA-256 digest of `data`, as 32 bytes.
pub uninterp spec fn sha256(data: Seq<u8>) -> Seq<u8>;

/// Calls `near_primitives_core::hash::hash`, which returns the SHA-256
/// digest of the bytes it is given; the result is that digest.
#[verifier::external_body]
pub(crate) fn hash(data: &[u8]) -> (res: CryptoHash)
    ensures
        res@ == sha256(data@),
{
    CryptoHash(near_primitives_core::hash::hash(data).0)
}

} // verus!
