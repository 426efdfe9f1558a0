//! Trusted wrappers around the Rescue Prime Optimized hash.
//!
//! Commitments over the oracle's storage, code and account record are RPO-256
//! digests. The hash itself lives in an outside crate; each wrapper states
//! only that the call returns a well-formed digest named as a function of the
//! input, and the commitment and Merkle logic of this crate is verified
//! against those names.

use vstd::prelude::*;
use miden_crypto::Felt;
use miden_crypto::field::PrimeField64;
use miden_crypto::hash::rpo::Rpo256;
use crate::word::{FIELD_MODULUS, Word};

verus! {

/// The RPO-256 digest of a sequence of field elements, as four field
/// elements. The digest depends on the elements alone.
pub uninterp spec fn rpo_hash_of(elements: Seq<u64>) -> Seq<u64>;

/// The RPO-256 merge of two digests, as four field elements. The result
/// depends on the two digests alone.
pub uninterp spec fn rpo_merge_of(left: Seq<u64>, right: Seq<u64>) -> Seq<u64>;

/// Relies on `miden_crypto::hash::rpo::Rpo256::hash_elements`: the digest of
/// the given field elements, a function of them alone; its four elements are
/// returned in canonical (reduced) form.
#[verifier::external_body]
pub(crate) fn rpo_hash_elements(elements: &Vec<u64>) -> (d: Word)
    requires
        forall|i: int| 0 <= i < elements@.len() ==> elements@[i] < FIELD_MODULUS,
    ensures
        d@ == rpo_hash_of(elements@),
        d.wf(),
{
    let felts: Vec<Felt> = elements.iter().map(|&x| Felt::new(x)).collect();
    let digest = Rpo256::hash_elements(&felts);
    let e = digest.as_elements();
    Word {
        e0: e[0].as_canonical_u64(),
        e1: e[1].as_canonical_u64(),
        e2: e[2].as_canonical_u64(),
        e3: e[3].as_canonical_u64(),
    }
}

/// Relies on `miden_crypto::hash::rpo::Rpo256::merge`: the merge of two
/// digests, a function of them alone; its four elements are returned in
/// canonical (reduced) form.
#[verifier::external_body]
pub(crate) fn rpo_merge(left: &Word, right: &Word) -> (d: Word)
    requires
        left.wf(),
        right.wf(),
    ensures
        d@ == rpo_merge_of(left@, right@),
        d.wf(),
{
    let l = [Felt::new(left.e0), Felt::new(left.e1), Felt::new(left.e2), Felt::new(left.e3)];
    let r = [Felt::new(right.e0), Felt::new(right.e1), Felt::new(right.e2), Felt::new(right.e3)];
    let digest = Rpo256::merge(&[miden_crypto::Word::new(l), miden_crypto::Word::new(r)]);
    let e = digest.as_elements();
    Word {
        e0: e[0].as_canonical_u64(),
        e1: e[1].as_canonical_u64(),
        e2: e[2].as_canonical_u64(),
        e3: e[3].as_canonical_u64(),
    }
}

} // verus!
