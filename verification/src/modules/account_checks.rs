//! Checks on the accounts an instruction is given.
use vstd::prelude::*;
use crate::bytes::{Pubkey, key_eq};
use crate::constants::{
    TRANSFER_HOOK_PROGRAM_ID, TOKEN_2022_PROGRAM_ID, SYSTEM_PROGRAM_ID, INSTRUCTIONS_SYSVAR_ID, RENT_SYSVAR_ID,
    ASSOCIATED_TOKEN_PROGRAM_ID,
};
use crate::error::ProgramError;

verus! {

/// What the program reads of an account passed to an instruction.
pub struct AccountView {
    /// The account's address
    pub key: Pubkey,
    /// The program that owns the account
    pub owner: Pubkey,
    /// The account's balance
    pub lamports: u64,
    /// The account's data
    pub data: Vec<u8>,
    /// Whether the account signed the transaction
    pub is_signer: bool,
    /// Whether the account may be written
    pub is_writable: bool,
}

/// An address check: `Ok` when the addresses are equal, `err` otherwise.
pub open spec fn spec_keys_check(a: Seq<u8>, b: Seq<u8>, err: ProgramError) -> Result<(), ProgramError> {
    if a == b { Ok(()) } else { Err(err) }
}

/// The account must be writable.
pub fn verify_writable(info: &AccountView) -> (r: Result<(), ProgramError>)
    ensures
        r == (if info.is_writable { Ok(()) } else { Err(ProgramError::Immutable) }),
{
    if !info.is_writable {
        return Err(ProgramError::Immutable);
    }
    Ok(())
}

/// The account must have signed.
pub fn verify_signer(info: &AccountView) -> (r: Result<(), ProgramError>)
    ensures
        r == (if info.is_signer { Ok(()) } else { Err(ProgramError::MissingRequiredSignature) }),
{
    if !info.is_signer {
        return Err(ProgramError::MissingRequiredSignature);
    }
    Ok(())
}

/// The account must be owned by `owner`.
pub fn verify_owner(info: &AccountView, owner: &Pubkey) -> (r: Result<(), ProgramError>)
    ensures
        r == spec_keys_check(info.owner@, owner@, ProgramError::InvalidAccountOwner),
{
    if !key_eq(&info.owner, owner) {
        return Err(ProgramError::InvalidAccountOwner);
    }
    Ok(())
}

/// The account must be the system program.
pub fn verify_system_program(info: &AccountView) -> (r: Result<(), ProgramError>)
    ensures
        r == spec_keys_check(info.key@, SYSTEM_PROGRAM_ID@, ProgramError::IncorrectProgramId),
{
    if !key_eq(&info.key, &SYSTEM_PROGRAM_ID) {
        return Err(ProgramError::IncorrectProgramId);
    }
    Ok(())
}

/// The account must be the Token-2022 program.
pub fn verify_token22_program(info: &AccountView) -> (r: Result<(), ProgramError>)
    ensures
        r == spec_keys_check(info.key@, TOKEN_2022_PROGRAM_ID@, ProgramError::IncorrectProgramId),
{
    if !key_eq(&info.key, &TOKEN_2022_PROGRAM_ID) {
        return Err(ProgramError::IncorrectProgramId);
    }
    Ok(())
}

/// The account must be the associated token account program.
pub fn verify_associated_token_program(info: &AccountView) -> (r: Result<(), ProgramError>)
    ensures
        r == spec_keys_check(info.key@, ASSOCIATED_TOKEN_PROGRAM_ID@, ProgramError::IncorrectProgramId),
{
    if !key_eq(&info.key, &ASSOCIATED_TOKEN_PROGRAM_ID) {
        return Err(ProgramError::IncorrectProgramId);
    }
    Ok(())
}

/// The account must be the instructions sysvar.
pub fn verify_instructions_sysvar(info: &AccountView) -> (r: Result<(), ProgramError>)
    ensures
        r == spec_keys_check(info.key@, INSTRUCTIONS_SYSVAR_ID@, ProgramError::IncorrectProgramId),
{
    if !key_eq(&info.key, &INSTRUCTIONS_SYSVAR_ID) {
        return Err(ProgramError::IncorrectProgramId);
    }
    Ok(())
}

/// The account must be the rent sysvar.
pub fn verify_rent_sysvar(info: &AccountView) -> (r: Result<(), ProgramError>)
    ensures
        r == spec_keys_check(info.key@, RENT_SYSVAR_ID@, ProgramError::IncorrectProgramId),
{
    if !key_eq(&info.key, &RENT_SYSVAR_ID) {
        return Err(ProgramError::IncorrectProgramId);
    }
    Ok(())
}

/// The mint of an operation must be the mint that was verified.
pub fn verify_mint_keys_match(verified_mint_info: &AccountView, operation_mint_info: &AccountView) -> (r: Result<(), ProgramError>)
    ensures
        r == spec_keys_check(operation_mint_info.key@, verified_mint_info.key@, ProgramError::InvalidAccountData),
{
    if !key_eq(&operation_mint_info.key, &verified_mint_info.key) {
        return Err(ProgramError::InvalidAccountData);
    }
    Ok(())
}

/// The account must not exist yet: no data and no balance.
pub fn verify_account_not_initialized(info: &AccountView) -> (r: Result<(), ProgramError>)
    ensures
        r == (if info.data@.len() == 0 && info.lamports == 0 { Ok(()) } else { Err(ProgramError::AccountAlreadyInitialized) }),
{
    if info.data.len() != 0 || info.lamports > 0 {
        return Err(ProgramError::AccountAlreadyInitialized);
    }
    Ok(())
}

/// The account must exist: some data and a balance.
pub fn verify_account_initialized(info: &AccountView) -> (r: Result<(), ProgramError>)
    ensures
        r == (if info.data@.len() == 0 || info.lamports == 0 { Err(ProgramError::UninitializedAccount) } else { Ok(()) }),
{
    if info.data.len() == 0 || info.lamports == 0 {
        return Err(ProgramError::UninitializedAccount);
    }
    Ok(())
}

/// A provided program address must be the expected one.
pub fn verify_pda_keys_match(provided_pda: &Pubkey, expected_pda: &Pubkey) -> (r: Result<(), ProgramError>)
    ensures
        r == spec_keys_check(provided_pda@, expected_pda@, ProgramError::InvalidSeeds),
{
    if !key_eq(provided_pda, expected_pda) {
        return Err(ProgramError::InvalidSeeds);
    }
    Ok(())
}

/// The account must be the transfer hook program of security tokens.
pub fn verify_transfer_hook_program(transfer_hook_pda: &AccountView) -> (r: Result<(), ProgramError>)
    ensures
        r == spec_keys_check(transfer_hook_pda.key@, TRANSFER_HOOK_PROGRAM_ID@, ProgramError::IncorrectProgramId),
{
    if !key_eq(&transfer_hook_pda.key, &TRANSFER_HOOK_PROGRAM_ID) {
        return Err(ProgramError::IncorrectProgramId);
    }
    Ok(())
}

} // verus!
