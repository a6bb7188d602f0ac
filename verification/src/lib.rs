//! Verified core of a command-line client for a UTXO-based blockchain:
//! ledger value types, a transaction builder that selects inputs and computes
//! change under checked arithmetic, a signer that binds one signature per
//! input to a canonical signing domain, and a submission pipeline that never
//! hands a transaction to the network before local verification succeeds.

pub mod args;
pub mod builder;
pub mod codec;
pub mod ledger;
pub mod pipeline;
pub mod signer;
