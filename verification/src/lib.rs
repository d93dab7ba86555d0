//! Security Token Standard program logic for Solana, with machine-checked contracts.
//!
//! The library holds the parsing and serialization of every instruction argument
//! and account layout, the arithmetic of rates and conversions, Merkle proof
//! checking for distributions, Token-2022 extension scanning and the account
//! checks and decisions that the program applies before it calls other programs.

pub mod bytes;
pub mod constants;
pub mod error;
pub mod instruction;
pub mod instructions;
pub mod merkle_tree_utils;
pub mod modules;
pub mod processor;
pub mod state;
pub mod token22_extensions;
pub mod utils;


use vstd::prelude::*;

verus! {

} // verus!
