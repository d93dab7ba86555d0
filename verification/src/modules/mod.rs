//! The checks and decisions of the verification and operations modules.

pub mod account_checks;
pub mod config_management;
pub mod metadata_update;
pub mod operation_checks;
pub mod operations;
pub mod program_verification;
pub mod utils;
pub mod verification;
