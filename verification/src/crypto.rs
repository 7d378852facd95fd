//! Public keys as the receipt manager stores them, and their decoding
//! from the raw encoding that a contract hands over.

use borsh::BorshDeserialize;
use vstd::prelude::*;

verus! {

/// A public key on one of the two supported curves, held as its raw bytes.
#[derive(Clone, Copy, Debug, PartialEq, Eq)]
pub enum PublicKey {
    /// A 256-bit ed25519 key.
    ED25519([u8; 32]),
    /// A 512-bit secp256k1 key.
    SECP256K1([u8; 64]),
}

/// The key-type tag that opens the encoding of an ed25519 key.
pub const ED25519_TAG: u8 = 0;

/// The key-type tag that opens the encoding of a secp256k1 key.
pub const SECP256K1_TAG: u8 = 1;

impl PublicKey {
    /// The raw encoding of the key: the tag of its curve, then its bytes.
    pub open spec fn encoding(self) -> Seq<u8> {
        match self {
            PublicKey::ED25519(data) => seq![ED25519_TAG] + data@,
            PublicKey::SECP256K1(data) => seq![SECP256K1_TAG] + data@,
        }
    }
}

/// Whether `bytes` is the raw encoding of a public key: one tag byte
/// followed by exactly as many bytes as that curve's keys have.
pub open spec fn is_public_key_encoding(bytes: Seq<u8>) -> bool {
    ||| bytes.len() == 33 && bytes[0] == ED25519_TAG
    ||| bytes.len() == 65 && bytes[0] == SECP256K1_TAG
}

/// The key that `bytes` encodes, if `bytes` is the encoding of a key.
pub open spec fn decoded_public_key(bytes: Seq<u8>) -> Option<PublicKey> {
    if is_public_key_encoding(bytes) {
        Some(choose|key: PublicKey| key.encoding() == bytes)
    } else {
        None
    }
}

/// Two keys with the same encoding are the same key.
pub proof fn lemma_encoding_injective(a: PublicKey, b: PublicKey)
    requires
        a.encoding() == b.encoding(),
    ensures
        a == b,
{
    assert(a is ED25519 <==> a.encoding()[0] == ED25519_TAG);
    assert(b is ED25519 <==> b.encoding()[0] == ED25519_TAG);
    match (a, b) {
        (PublicKey::ED25519(x), PublicKey::ED25519(y)) => {
            assert forall|i: int| 0 <= i < 32 implies x[i] == y[i] by {
                assert(a.encoding()[i + 1] == x[i]);
                assert(b.encoding()[i + 1] == y[i]);
            }
            assert(x =~= y);
        },
        (PublicKey::SECP256K1(x), PublicKey::SECP256K1(y)) => {
            assert forall|i: int| 0 <= i < 64 implies x[i] == y[i] by {
                assert(a.encoding()[i + 1] == x[i]);
                assert(b.encoding()[i + 1] == y[i]);
            }
            assert(x =~= y);
        },
        _ => {},
    }
}

/// Decodes a public key from its raw encoding.
pub fn parse_public_key(bytes: &[u8]) -> (res: Option<PublicKey>)
    ensures
        res == decoded_public_key(bytes@),
{
    let res = decode_public_key(bytes);
    proof {
        if let Some(key) = res {
            lemma_encoding_injective(key, decoded_public_key(bytes@)->Some_0);
        }
    }
    res
}

/// Calls `near_crypto::PublicKey::try_from_slice`, the Borsh decoding of a
/// public key. It reads one tag byte (0 or 1), then 32 or 64 key bytes, and
/// fails on any other tag, on too few bytes and on bytes left over. The
/// decoded key is handed back as its curve and raw bytes.
#[verifier::external_body]
pub(crate) fn decode_public_key(bytes: &[u8]) -> (res: Option<PublicKey>)
    ensures
        res is Some <==> is_public_key_encoding(bytes@),
        res matches Some(key) ==> key.encoding() == bytes@,
{
    match near_crypto::PublicKey::try_from_slice(bytes) {
        Ok(near_crypto::PublicKey::ED25519(key)) => Some(PublicKey::ED25519(key.0)),
        Ok(near_crypto::PublicKey::SECP256K1(key)) => {
            <[u8; 64]>::try_from(key.as_ref()).ok().map(PublicKey::SECP256K1)
        },
        Err(_) => None,
    }
}

} // verus!
