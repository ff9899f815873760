//! Vanity contract-address mining for Starknet deployments made through the
//! Universal Deployer Contract, together with the decision table that selects
//! a signer source.
//!
//! Given a class hash, constructor arguments and a uniqueness mode, the miner
//! searches for a salt whose deployment address starts and ends with chosen
//! bit patterns. Every function here carries a contract that Verus checks;
//! the handful of calls into the `starknet` and `rand` crates sit behind small
//! wrappers whose contracts are taken on trust and are documented as such.

pub mod address;
pub mod cancel;
pub mod error;
pub mod field;
pub mod hash;
pub mod mine_udc_salt;
pub mod miner;
pub mod pattern;
pub mod scheduler;
pub mod signer;
