//! Instruction arguments: their byte layouts, parsing and serialization.

pub mod claim_distribution;
pub mod convert;
pub mod create_distribution_escrow;
pub mod initialize_mint;
pub mod proof_account;
pub mod rate_account;
pub mod receipt_account;
pub mod split;
pub mod update_metadata;
pub mod verify;
pub mod verification_config;



