//! The balance decisions of program-owned accounts: funding a resized account and moving
//! the lamports of a closed one.
use vstd::prelude::*;
use crate::error::ProgramError;

verus! {

/// How the balance of a resized account meets the rent of its new size.
#[derive(Clone, Copy, Debug, PartialEq, Eq, Structural)]
pub enum RentAdjustment {
    /// The payer sends this many lamports to the account.
    Fund(u64),
    /// The account returns this many lamports to the payer.
    Refund(u64),
    /// The balance already matches.
    Keep,
}

/// The adjustment that brings an account holding `current_lamports` to exactly
/// `required_lamports`.
pub fn rent_adjustment(current_lamports: u64, required_lamports: u64) -> (r: RentAdjustment)
    ensures
        r == (if required_lamports > current_lamports {
            RentAdjustment::Fund((required_lamports - current_lamports) as u64)
        } else if required_lamports < current_lamports {
            RentAdjustment::Refund((current_lamports - required_lamports) as u64)
        } else {
            RentAdjustment::Keep
        }),
{
    if required_lamports > current_lamports {
        RentAdjustment::Fund(required_lamports - current_lamports)
    } else if required_lamports < current_lamports {
        RentAdjustment::Refund(current_lamports - required_lamports)
    } else {
        RentAdjustment::Keep
    }
}

/// The balance after carrying out an adjustment on an account holding `current_lamports`.
pub open spec fn spec_adjusted_balance(current_lamports: u64, a: RentAdjustment) -> int {
    match a {
        RentAdjustment::Fund(n) => current_lamports + n,
        RentAdjustment::Refund(n) => current_lamports - n,
        RentAdjustment::Keep => current_lamports as int,
    }
}

/// Carrying out the adjustment leaves the account holding exactly what its rent requires.
pub proof fn lemma_rent_adjustment_reaches_requirement(current_lamports: u64, required_lamports: u64)
    ensures
        spec_adjusted_balance(current_lamports, if required_lamports > current_lamports {
            RentAdjustment::Fund((required_lamports - current_lamports) as u64)
        } else if required_lamports < current_lamports {
            RentAdjustment::Refund((current_lamports - required_lamports) as u64)
        } else {
            RentAdjustment::Keep
        }) == required_lamports,
{
}

/// The balance of the account that receives the lamports of a closed account: the sum of
/// both, or `overflow_error` when it does not fit.
pub fn merged_lamports(destination_lamports: u64, closed_lamports: u64, overflow_error: ProgramError) -> (r: Result<u64, ProgramError>)
    ensures
        r == (if destination_lamports + closed_lamports > u64::MAX {
            Err(overflow_error)
        } else {
            Ok((destination_lamports + closed_lamports) as u64)
        }),
{
    match destination_lamports.checked_add(closed_lamports) {
        Some(total) => Ok(total),
        None => Err(overflow_error),
    }
}

/// The balances after moving `amount` lamports from one account to another: `error` when
/// the source holds less or the destination would overflow.
pub fn moved_lamports(from_lamports: u64, to_lamports: u64, amount: u64, error: ProgramError) -> (r: Result<(u64, u64), ProgramError>)
    ensures
        r == (if from_lamports < amount || to_lamports + amount > u64::MAX {
            Err(error)
        } else {
            Ok(((from_lamports - amount) as u64, (to_lamports + amount) as u64))
        }),
{
    let from_after = match from_lamports.checked_sub(amount) {
        Some(v) => v,
        None => return Err(error),
    };
    let to_after = match to_lamports.checked_add(amount) {
        Some(v) => v,
        None => return Err(error),
    };
    Ok((from_after, to_after))
}

} // verus!
