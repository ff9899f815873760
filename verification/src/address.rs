//! Deployment addresses of contracts deployed through the Universal Deployer
//! Contract.

use crate::field::Felt;
use crate::hash::address_bound;
use crate::hash::compute_hash_on_elements;
use crate::hash::hash_on_elements_value;
use crate::hash::normalize_address;
use crate::hash::pedersen;
use crate::hash::pedersen_value;
use vstd::prelude::*;

verus! {

/// The domain tag of contract addresses: the text `STARKNET_CONTRACT_ADDRESS`
/// read as a big-endian number.
pub open spec fn contract_address_prefix() -> nat {
    0x535441524b4e45545f434f4e54524143545f41444452455353nat
}

/// The address of the Universal Deployer Contract,
/// `0x041a78e741e5af2fec34b695679bc6891742439f7afb8484ecd7766661ad02bf`.
pub open spec fn default_udc_address() -> nat {
    0x041a78e741e5af2fec34b695679bc6891742439f7afb8484ecd7766661ad02bfnat
}

/// How the deployer enters the address of a deployed contract.
#[derive(Clone, Copy, Debug, PartialEq, Eq)]
pub enum UniquenessMode {
    /// The address does not depend on who deploys: the salt is used as it is
    /// and the deployer is zero.
    NotUnique,
    /// The address is tied to the deployer: the salt is hashed with the
    /// deployer's address, and the registry contract stands as deployer.
    Unique { deployer_address: Felt, registry_address: Felt },
}

/// A uniqueness mode, with the values of its addresses.
pub ghost enum ModeView {
    NotUnique,
    Unique { deployer_address: nat, registry_address: nat },
}

impl View for UniquenessMode {
    type V = ModeView;

    open spec fn view(&self) -> ModeView {
        match *self {
            UniquenessMode::NotUnique => ModeView::NotUnique,
            UniquenessMode::Unique { deployer_address, registry_address } => ModeView::Unique {
                deployer_address: deployer_address@,
                registry_address: registry_address@,
            },
        }
    }
}

impl ModeView {
    /// The salt that enters the address hash for a given nonce.
    pub open spec fn effective_salt(self, nonce: nat) -> nat {
        match self {
            ModeView::NotUnique => nonce,
            ModeView::Unique { deployer_address, .. } => pedersen_value(deployer_address, nonce),
        }
    }

    /// The deployer that enters the address hash.
    pub open spec fn effective_deployer(self) -> nat {
        match self {
            ModeView::NotUnique => 0,
            ModeView::Unique { registry_address, .. } => registry_address,
        }
    }
}

/// The deployment address for a nonce, as a function on values.
pub open spec fn deployed_address(
    nonce: nat,
    class_hash: nat,
    ctor_args_hash: nat,
    mode: ModeView,
) -> nat {
    hash_on_elements_value(
        seq![
            contract_address_prefix(),
            mode.effective_deployer(),
            mode.effective_salt(nonce),
            class_hash,
            ctor_args_hash,
        ],
    ) % address_bound()
}

/// The domain tag of contract addresses.
pub fn address_prefix() -> (r: Felt)
    ensures
        r@ == contract_address_prefix(),
{
    Felt::from_limbs(0x53, 0x5441524b4e45545f, 0x434f4e5452414354, 0x5f41444452455353)
}

/// The address of the Universal Deployer Contract.
pub fn udc_address() -> (r: Felt)
    ensures
        r@ == default_udc_address(),
{
    Felt::from_limbs(
        0x041a78e741e5af2f,
        0xec34b695679bc689,
        0x1742439f7afb8484,
        0xecd7766661ad02bf,
    )
}

/// Brings a hash into the range of addresses: reduces it by the address
/// bound.
pub fn normalize(raw_address: &Felt) -> (r: Felt)
    ensures
        r@ == raw_address@ % address_bound(),
{
    normalize_address(raw_address)
}

/// Computes the deployment address for `nonce`.
///
/// Without uniqueness the salt is the nonce and the deployer is zero. With
/// it the salt is the Pedersen hash of the deployer's address and the nonce,
/// and the registry stands as deployer. The address is the hash of the
/// domain tag, the deployer, the salt, the class hash and the hash of the
/// constructor's arguments, brought into the range of addresses.
pub fn derive(nonce: &Felt, class_hash: &Felt, ctor_args_hash: &Felt, mode: &UniquenessMode) -> (r:
    Felt)
    ensures
        r@ == deployed_address(nonce@, class_hash@, ctor_args_hash@, mode@),
        r@ < address_bound(),
{
    let (effective_salt, effective_deployer) = match mode {
        UniquenessMode::NotUnique => (*nonce, Felt::zero()),
        UniquenessMode::Unique { deployer_address, registry_address } => (
            pedersen(deployer_address, nonce),
            *registry_address,
        ),
    };
    let elements = [address_prefix(), effective_deployer, effective_salt, *class_hash, *ctor_args_hash];
    let raw = compute_hash_on_elements(elements.as_slice());
    proof {
        assert(crate::hash::values_of(elements@) =~= seq![
            contract_address_prefix(),
            mode@.effective_deployer(),
            mode@.effective_salt(nonce@),
            class_hash@,
            ctor_args_hash@,
        ]);
    }
    normalize(&raw)
}

/// Determinism: two addresses derived from the same nonce, class hash,
/// constructor hash and mode are the same element.
pub proof fn lemma_derive_deterministic(
    first: Felt,
    second: Felt,
    nonce: nat,
    class_hash: nat,
    ctor_args_hash: nat,
    mode: ModeView,
)
    requires
        first@ == deployed_address(nonce, class_hash, ctor_args_hash, mode),
        second@ == deployed_address(nonce, class_hash, ctor_args_hash, mode),
    ensures
        first == second,
{
    Felt::lemma_view_injective(first, second);
}

} // verus!
