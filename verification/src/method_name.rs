//! Method names arrive as bytes and are kept as text.

use crate::account::names_view;
use vstd::prelude::*;
use vstd::utf8::{decode_utf8, valid_utf8};

verus! {

/// Whether every one of `names` is valid UTF-8.
pub open spec fn all_valid_utf8(names: Seq<Vec<u8>>) -> bool {
    forall|i: int| 0 <= i < names.len() ==> valid_utf8(#[trigger] names[i]@)
}

/// The texts that `names` encode, one for one.
pub open spec fn decoded_names(names: Seq<Vec<u8>>) -> Seq<Seq<char>> {
    Seq::new(names.len(), |i: int| decode_utf8(names[i]@))
}

/// Calls `String::from_utf8` on a copy of `bytes`. It succeeds exactly
/// when the bytes are valid UTF-8, and the string then holds the
/// characters that they encode.
#[verifier::external_body]
pub(crate) fn string_from_utf8(bytes: &[u8]) -> (res: Option<String>)
    ensures
        res is Some <==> valid_utf8(bytes@),
        res matches Some(text) ==> text@ == decode_utf8(bytes@),
{
    String::from_utf8(bytes.to_vec()).ok()
}

/// Decodes every one of `names`, or none if one of them is not valid
/// UTF-8.
pub fn decode_method_names(names: &Vec<Vec<u8>>) -> (res: Option<Vec<String>>)
    ensures
        res is Some <==> all_valid_utf8(names@),
        res matches Some(texts) ==> names_view(texts@) == decoded_names(names@),
{
    let mut texts: Vec<String> = Vec::new();
    let mut i: usize = 0;
    while i < names.len()
        invariant
            i <= names@.len(),
            texts@.len() == i,
            forall|j: int| 0 <= j < i ==> valid_utf8(#[trigger] names@[j]@),
            forall|j: int| 0 <= j < i ==> (#[trigger] texts@[j])@ == decode_utf8(names@[j]@),
        decreases names@.len() - i,
    {
        match string_from_utf8(names[i].as_slice()) {
            Some(text) => {
                texts.push(text);
            },
            None => {
                return None;
            },
        }
        i += 1;
    }
    assert(names_view(texts@) =~= decoded_names(names@));
    Some(texts)
}

} // verus!
