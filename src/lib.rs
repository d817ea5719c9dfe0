//! Re-derivation of Starknet transaction hashes and block state commitments.

pub mod felt;
pub mod hash_chain;
pub mod transaction;
pub mod transaction_hash;
pub mod state_updates;
