//! Fixed-layout records of corporate actions: a conversion or split rate and a receipt.
use vstd::prelude::*;
use crate::bytes::Pubkey;

verus! {

/// Rate for conversions and splits
#[derive(Clone, Copy, Debug, PartialEq, Eq)]
pub struct Rate {
    /// Numerator
    pub numerator: u64,
    /// Denominator
    pub denominator: u64,
    /// Rounding direction
    pub rounding: u8,
    /// Reserved
    pub _reserved: [u8; 7],
}

/// Receipt for corporate actions
#[derive(Clone, Copy, Debug, PartialEq, Eq)]
pub struct Receipt {
    /// Action ID
    pub action_id: u64,
    /// Account that received the action
    pub account: Pubkey,
    /// Amount processed
    pub amount: u64,
    /// Timestamp
    pub timestamp: i64,
    /// Reserved
    pub _reserved: [u8; 8],
}

} // verus!
