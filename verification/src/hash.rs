//! The hash functions of the address computation.
//!
//! The Pedersen hash is computed by the `starknet` crate. Its result is a
//! function of its two arguments alone, far too long to write down here, so
//! contracts refer to it by name.

use crate::field::Felt;
use vstd::prelude::*;

verus! {

/// The Pedersen hash of two field elements, as a function on their values.
pub uninterp spec fn pedersen_value(x: nat, y: nat) -> nat;

/// The bound below which every contract address lies, `2^251 - 256`.
pub open spec fn address_bound() -> nat {
    0x7ffffffffffffffffffffffffffffffffffffffffffffffffffffffffffff00nat
}

/// The running hash over a list: start at 0 and hash each element in.
pub open spec fn hash_fold(data: Seq<nat>) -> nat
    decreases data.len(),
{
    if data.len() == 0 {
        0
    } else {
        pedersen_value(hash_fold(data.drop_last()), data.last())
    }
}

/// The hash of a list of elements: the running hash over the list, hashed
/// once more with the list's length.
pub open spec fn hash_on_elements_value(data: Seq<nat>) -> nat {
    pedersen_value(hash_fold(data), data.len())
}

/// The values of a list of field elements.
pub open spec fn values_of(data: Seq<Felt>) -> Seq<nat> {
    Seq::new(data.len(), |i: int| data[i]@)
}

/// Calls `starknet::core::crypto::pedersen_hash`.
///
/// Trusted: the result depends on the two values alone.
#[verifier::external_body]
pub(crate) fn pedersen(x: &Felt, y: &Felt) -> (r: Felt)
    ensures
        r@ == pedersen_value(x@, y@),
{
    let a = starknet::core::types::FieldElement::from_bytes_be(&x.bytes).unwrap();
    let b = starknet::core::types::FieldElement::from_bytes_be(&y.bytes).unwrap();
    Felt { bytes: starknet::core::crypto::pedersen_hash(&a, &b).to_bytes_be() }
}

/// Calls `starknet::core::crypto::compute_hash_on_elements`.
///
/// Trusted: the function starts from 0, hashes every element of the list in
/// with the Pedersen hash, in order, and hashes the list's length in last.
#[verifier::external_body]
pub(crate) fn compute_hash_on_elements(data: &[Felt]) -> (r: Felt)
    ensures
        r@ == hash_on_elements_value(values_of(data@)),
{
    let mut elements = Vec::with_capacity(data.len());
    for item in data.iter() {
        elements.push(starknet::core::types::FieldElement::from_bytes_be(&item.bytes).unwrap());
    }
    Felt { bytes: starknet::core::crypto::compute_hash_on_elements(&elements).to_bytes_be() }
}

/// Calls `starknet::core::utils::normalize_address`.
///
/// Trusted: the result is the value reduced by the address bound.
#[verifier::external_body]
pub(crate) fn normalize_address(address: &Felt) -> (r: Felt)
    ensures
        r@ == address@ % address_bound(),
{
    let a = starknet::core::types::FieldElement::from_bytes_be(&address.bytes).unwrap();
    Felt { bytes: starknet::core::utils::normalize_address(a).to_bytes_be() }
}

/// The hash of a list of field elements.
pub fn hash_on_elements(data: &[Felt]) -> (r: Felt)
    ensures
        r@ == hash_on_elements_value(values_of(data@)),
{
    compute_hash_on_elements(data)
}

} // verus!
