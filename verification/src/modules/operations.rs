//! Decisions of the token operations: how a split or conversion changes balances, and
//! whether a distribution claim may be paid.
use vstd::prelude::*;
use crate::bytes::{Pubkey, key_eq};
use crate::error::ProgramError;
use crate::merkle_tree_utils::{
    MerkleTreeRoot, ProofData, create_merkle_tree_leaf_node, verify_merkle_proof, spec_verify_merkle_proof,
    spec_keccak256, spec_leaf_preimage,
};
use crate::bytes::key_views;
use crate::state::rate::{Rate, Rounding};

verus! {

/// How a split changes a holder's balance.
#[derive(Clone, Copy, Debug, PartialEq, Eq, Structural)]
pub enum SplitPlan {
    /// The balance stays.
    Unchanged,
    /// Mint this many tokens to the holder.
    Mint(u64),
    /// Burn this many tokens of the holder.
    Burn(u64),
}

/// The change a split by `rate` makes to a balance of `current_amount`: an empty balance
/// is insufficient funds; otherwise the rate gives the new balance, and the difference
/// is minted or burned.
pub open spec fn spec_plan_split(rate: Rate, current_amount: u64) -> Result<SplitPlan, ProgramError> {
    if current_amount == 0 {
        Err(ProgramError::InsufficientFunds)
    } else {
        match rate.spec_calculate(current_amount) {
            Err(e) => Err(e),
            Ok(new_amount) => if new_amount == current_amount {
                Ok(SplitPlan::Unchanged)
            } else if new_amount > current_amount {
                Ok(SplitPlan::Mint((new_amount - current_amount) as u64))
            } else {
                Ok(SplitPlan::Burn((current_amount - new_amount) as u64))
            },
        }
    }
}

/// The balance after carrying out a split plan.
pub open spec fn spec_apply_split(plan: SplitPlan, current_amount: u64) -> int {
    match plan {
        SplitPlan::Unchanged => current_amount as int,
        SplitPlan::Mint(d) => current_amount + d,
        SplitPlan::Burn(d) => current_amount - d,
    }
}

/// Carrying out a split plan leaves the holder with exactly the balance the rate gives.
pub proof fn lemma_split_reaches_rate(rate: Rate, current_amount: u64)
    ensures
        spec_plan_split(rate, current_amount) matches Ok(plan) ==> rate.spec_calculate(current_amount)
            == Ok::<u64, ProgramError>(spec_apply_split(plan, current_amount) as u64)
            && 0 <= spec_apply_split(plan, current_amount) <= u64::MAX,
{
}

/// The amount minted for converting `amount_to_convert` out of a balance of
/// `current_amount`: an empty or smaller balance is insufficient funds, a conversion
/// error is passed on, and a conversion to nothing is invalid instruction data.
pub open spec fn spec_plan_convert(
    rate: Rate,
    amount_to_convert: u64,
    current_amount: u64,
    decimals_from: u8,
    decimals_to: u8,
) -> Result<u64, ProgramError> {
    if current_amount == 0 || current_amount < amount_to_convert {
        Err(ProgramError::InsufficientFunds)
    } else {
        match rate.spec_convert(amount_to_convert, decimals_from, decimals_to) {
            Err(e) => Err(e),
            Ok(0) => Err(ProgramError::InvalidInstructionData),
            Ok(n) => Ok(n),
        }
    }
}

/// The decisions of the token operations.
pub struct OperationsModule;

impl OperationsModule {
    /// Decides how a split changes a holder's balance.
    pub fn plan_split(rate: &Rate, current_amount: u64) -> (r: Result<SplitPlan, ProgramError>)
        requires
            rate.rounding == Rounding::Up && current_amount != 0 && current_amount * rate.numerator <= u64::MAX
                ==> rate.denominator != 0,
        ensures
            r == spec_plan_split(*rate, current_amount),
    {
        if current_amount == 0 {
            return Err(ProgramError::InsufficientFunds);
        }
        let new_amount = rate.calculate(current_amount)?;
        if new_amount == current_amount {
            Ok(SplitPlan::Unchanged)
        } else if new_amount > current_amount {
            Ok(SplitPlan::Mint(new_amount - current_amount))
        } else {
            Ok(SplitPlan::Burn(current_amount - new_amount))
        }
    }
    /// Decides how much to mint for a conversion.
    pub fn plan_convert(
        rate: &Rate,
        amount_to_convert: u64,
        current_amount: u64,
        decimals_from: u8,
        decimals_to: u8,
    ) -> (r: Result<u64, ProgramError>)
        requires
            rate.rounding == Rounding::Up && amount_to_convert != 0 && current_amount >= amount_to_convert
                ==> rate.denominator != 0,
        ensures
            r == spec_plan_convert(*rate, amount_to_convert, current_amount, decimals_from, decimals_to),
    {
        if current_amount == 0 || current_amount < amount_to_convert {
            return Err(ProgramError::InsufficientFunds);
        }
        let amount_to_mint = rate.convert_from_to_amount(amount_to_convert, decimals_from, decimals_to)?;
        if amount_to_mint == 0 {
            return Err(ProgramError::InvalidInstructionData);
        }
        Ok(amount_to_mint)
    }
    /// Checks a claim against the distribution's Merkle tree: the leaf of the eligible token
    /// account, the mint, the action and the amount must be proven under the root at the
    /// leaf index (else invalid instruction data).
    pub fn verify_claim(
        eligible_token_account: &Pubkey,
        mint: &Pubkey,
        action_id: u64,
        amount: u64,
        merkle_root: &MerkleTreeRoot,
        proof: &ProofData,
        leaf_index: u32,
    ) -> (r: Result<(), ProgramError>)
        ensures
            r is Ok <==> spec_verify_merkle_proof(
                spec_keccak256(spec_leaf_preimage(eligible_token_account@, mint@, action_id, amount)),
                merkle_root@,
                key_views(proof@),
                leaf_index,
            ),
            r is Err ==> r == Err::<(), ProgramError>(ProgramError::InvalidInstructionData),
    {
        let node = create_merkle_tree_leaf_node(eligible_token_account, mint, action_id, amount);
        if !verify_merkle_proof(&node, merkle_root, proof, leaf_index) {
            return Err(ProgramError::InvalidInstructionData);
        }
        Ok(())
    }
    /// Checks the escrow of a distribution before paying a claim: the escrow and the
    /// eligible token account must hold the distribution's mint (else invalid account data)
    /// and the escrow must hold at least the amount (else insufficient funds).
    pub fn check_escrow_payment(
        mint: &Pubkey,
        escrow_mint: &Pubkey,
        eligible_mint: &Pubkey,
        escrow_amount: u64,
        amount: u64,
    ) -> (r: Result<(), ProgramError>)
        ensures
            r == (if escrow_mint@ != mint@ || eligible_mint@ != mint@ {
                Err(ProgramError::InvalidAccountData)
            } else if escrow_amount < amount {
                Err(ProgramError::InsufficientFunds)
            } else {
                Ok(())
            }),
    {
        if !key_eq(escrow_mint, mint) || !key_eq(eligible_mint, mint) {
            return Err(ProgramError::InvalidAccountData);
        }
        if escrow_amount < amount {
            return Err(ProgramError::InsufficientFunds);
        }
        Ok(())
    }
}

} // verus!
