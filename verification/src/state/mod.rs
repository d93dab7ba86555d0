//! Account layouts owned by the program.

pub mod corporate_actions;
pub mod discriminator;
pub mod distribution_escrow_authority;
pub mod mint_authority;
pub mod program_account;
pub mod proof_account;
pub mod rate;
pub mod receipt;
pub mod verification;
pub mod verification_status;
