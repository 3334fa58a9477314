//! Client-side call construction for a liquidity-locking program: address
//! derivation, fixed-layout payload encoding, assembly of ordered account
//! lists, and strict decoding of the program's account records.

pub mod address;
pub mod lock_instructions;
pub mod lock_utils;
pub mod process_lock_commands;
pub mod record_proofs;
pub mod signers;
pub mod wire;
