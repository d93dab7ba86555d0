//! What the token operations check of their accounts, and what they read from them,
//! before they call the token program.
use vstd::prelude::*;
use crate::bytes::{Pubkey, key_eq, le64, from_le64, read_pubkey, read_u64, key_views};
use crate::constants::{
    PROGRAM_ID, TOKEN_2022_PROGRAM_ID, SYSTEM_PROGRAM_ID, TRANSFER_HOOK_PROGRAM_ID, SEED_RATE_ACCOUNT, SEED_PROOF_ACCOUNT,
    ASSOCIATED_TOKEN_PROGRAM_ID,
};
use crate::error::ProgramError;
use crate::merkle_tree_utils::{ProofData, ProofNode, spec_verify_merkle_proof, spec_keccak256, spec_leaf_preimage};
use crate::instructions::claim_distribution::ClaimDistributionArgs;
use crate::state::discriminator::{AccountSerialize, Discriminator};
use crate::modules::account_checks::{
    AccountView, verify_mint_keys_match, verify_token22_program, verify_system_program, verify_signer,
    verify_writable, verify_owner, verify_account_not_initialized, verify_account_initialized,
    verify_pda_keys_match, verify_transfer_hook_program, verify_associated_token_program,
};
use crate::modules::operations::OperationsModule;
use crate::state::mint_authority::{MintAuthority, spec_mint_authority_fields};
use crate::state::proof_account::{Proof, spec_claim_proof, proof_data_result_view, spec_proof_fields, valid_proof_nodes};
use crate::state::rate::{Rate, Rounding, spec_rate_of_account, spec_rounding_from_u8};
use crate::state::receipt::Receipt;
use crate::token22_extensions::{MINT_BASE_LEN, TOKEN_ACCOUNT_BASE_LEN};
use crate::utils::spec_checked_create_program_address;

verus! {

/// The decimals of a Token-2022 mint account, as the token library reads them: the data
/// must hold the 82-byte base mint (else invalid account data) and the account must belong
/// to Token-2022 (else an invalid owner); the decimals are byte 44.
pub open spec fn spec_mint_decimals(a: AccountView) -> Result<u8, ProgramError> {
    if a.data@.len() < 82 {
        Err(ProgramError::InvalidAccountData)
    } else if a.owner@ != TOKEN_2022_PROGRAM_ID@ {
        Err(ProgramError::InvalidAccountOwner)
    } else {
        Ok(a.data@[44])
    }
}

/// Reads the decimals of a Token-2022 mint account.
pub fn mint_decimals(a: &AccountView) -> (r: Result<u8, ProgramError>)
    ensures
        r == spec_mint_decimals(*a),
{
    if a.data.len() < MINT_BASE_LEN {
        return Err(ProgramError::InvalidAccountData);
    }
    if !key_eq(&a.owner, &TOKEN_2022_PROGRAM_ID) {
        return Err(ProgramError::InvalidAccountOwner);
    }
    Ok(a.data[44])
}

/// The mint and balance of a Token-2022 token account, as the token library reads them:
/// the data must hold the 165-byte base account and the account must belong to
/// Token-2022 (else invalid account data); the mint is bytes 0..32 and the balance the
/// little-endian `u64` at 64.
pub open spec fn spec_token_account_state(a: AccountView) -> Result<(Seq<u8>, u64), ProgramError> {
    if a.data@.len() < 165 || a.owner@ != TOKEN_2022_PROGRAM_ID@ {
        Err(ProgramError::InvalidAccountData)
    } else {
        Ok((a.data@.subrange(0, 32), from_le64(a.data@.subrange(64, 72))))
    }
}

/// Reads the mint and balance of a Token-2022 token account.
pub fn token_account_state(a: &AccountView) -> (r: Result<(Pubkey, u64), ProgramError>)
    ensures
        match r {
            Ok((mint, amount)) => spec_token_account_state(*a) == Ok::<(Seq<u8>, u64), ProgramError>((mint@, amount)),
            Err(e) => spec_token_account_state(*a) == Err::<(Seq<u8>, u64), ProgramError>(e),
        },
{
    if a.data.len() < TOKEN_ACCOUNT_BASE_LEN || !key_eq(&a.owner, &TOKEN_2022_PROGRAM_ID) {
        return Err(ProgramError::InvalidAccountData);
    }
    let data = a.data.as_slice();
    Ok((read_pubkey(data, 0), read_u64(data, 64)))
}

/// The address of the rate of an action between two mints, for the rate's bump.
pub open spec fn spec_rate_address(action_id: u64, mint_from: Seq<u8>, mint_to: Seq<u8>, bump: u8) -> Result<Seq<u8>, ProgramError> {
    spec_checked_create_program_address(seq![SEED_RATE_ACCOUNT@, le64(action_id), mint_from, mint_to, seq![bump]], PROGRAM_ID@)
}

/// The rate account holds a rate at the address derived for the action and mints (else
/// invalid seeds), with the errors of reading it.
pub open spec fn spec_checked_rate(a: AccountView, action_id: u64, mint_from: Seq<u8>, mint_to: Seq<u8>) -> Result<Rate, ProgramError> {
    match spec_rate_of_account(a) {
        Err(e) => Err(e),
        Ok(rate) => match spec_rate_address(action_id, mint_from, mint_to, rate.bump) {
            Err(e) => Err(e),
            Ok(addr) => if addr != a.key@ { Err(ProgramError::InvalidSeeds) } else { Ok(rate) },
        },
    }
}

/// Reads the rate account and checks its address.
fn checked_rate(a: &AccountView, action_id: u64, mint_from: &Pubkey, mint_to: &Pubkey) -> (r: Result<Rate, ProgramError>)
    ensures
        r == spec_checked_rate(*a, action_id, mint_from@, mint_to@),
{
    let rate = Rate::from_account_info(a)?;
    let expected = rate.derive_pda(action_id, mint_from, mint_to)?;
    verify_pda_keys_match(&a.key, &expected)?;
    Ok(rate)
}

/// The mint authority account holds the authority of `mint` (else invalid instruction
/// data), with the errors of reading it.
pub open spec fn spec_authority_of_mint(a: AccountView, mint: Seq<u8>) -> Result<(Seq<u8>, Seq<u8>, u8), ProgramError> {
    match spec_mint_authority_fields(a.data@, a.owner@) {
        Err(e) => Err(e),
        Ok(m) => if m.0 != mint { Err(ProgramError::InvalidInstructionData) } else { Ok(m) },
    }
}

/// Reads the mint authority account of `mint`.
fn authority_of_mint(a: &AccountView, mint: &Pubkey) -> (r: Result<MintAuthority, ProgramError>)
    ensures
        match r {
            Ok(m) => spec_authority_of_mint(*a, mint@) == Ok::<(Seq<u8>, Seq<u8>, u8), ProgramError>((m.mint@, m.mint_creator@, m.bump)),
            Err(e) => spec_authority_of_mint(*a, mint@) == Err::<(Seq<u8>, Seq<u8>, u8), ProgramError>(e),
        },
{
    let m = MintAuthority::from_account_info(a)?;
    if !key_eq(mint, &m.mint) {
        return Err(ProgramError::InvalidInstructionData);
    }
    Ok(m)
}

/// The balance of a token account of `mint` (a token account of another mint is invalid
/// instruction data), with the errors of reading it.
pub open spec fn spec_balance_of_mint(a: AccountView, mint: Seq<u8>) -> Result<u64, ProgramError> {
    match spec_token_account_state(a) {
        Err(e) => Err(e),
        Ok((m, amount)) => if m != mint { Err(ProgramError::InvalidInstructionData) } else { Ok(amount) },
    }
}

/// Reads the balance of a token account of `mint`.
fn balance_of_mint(a: &AccountView, mint: &Pubkey) -> (r: Result<u64, ProgramError>)
    ensures
        r == spec_balance_of_mint(*a, mint@),
{
    let (m, amount) = token_account_state(a)?;
    if !key_eq(&m, mint) {
        return Err(ProgramError::InvalidInstructionData);
    }
    Ok(amount)
}

/// What a split reads from its accounts.
pub struct SplitContext {
    /// The split rate
    pub rate: Rate,
    /// Decimals of the mint
    pub decimals: u8,
    /// The mint authority that mints new tokens
    pub mint_authority: MintAuthority,
    /// The holder's balance
    pub current_amount: u64,
}

/// The checks of a split, in order, and what it reads: the accounts are mint authority,
/// permanent delegate, payer, mint, token account, rate, receipt, token program and system
/// program; the permanent delegate and receipt must be at the given derived addresses.
pub open spec fn spec_split_context(
    verified_mint: AccountView,
    accounts: Seq<AccountView>,
    action_id: u64,
    permanent_delegate_pda: Seq<u8>,
    receipt_pda: Seq<u8>,
) -> Result<(Rate, u8, (Seq<u8>, Seq<u8>, u8), u64), ProgramError> {
    if accounts.len() != 9 {
        Err(ProgramError::NotEnoughAccountKeys)
    } else {
        let mint = accounts[3].key@;
        if mint != verified_mint.key@ {
            Err(ProgramError::InvalidAccountData)
        } else if accounts[7].key@ != TOKEN_2022_PROGRAM_ID@ || accounts[8].key@ != SYSTEM_PROGRAM_ID@ {
            Err(ProgramError::IncorrectProgramId)
        } else if !accounts[2].is_signer {
            Err(ProgramError::MissingRequiredSignature)
        } else if !accounts[4].is_writable || !accounts[6].is_writable || !accounts[2].is_writable || !accounts[3].is_writable {
            Err(ProgramError::Immutable)
        } else if accounts[0].owner@ != PROGRAM_ID@ || accounts[5].owner@ != PROGRAM_ID@ {
            Err(ProgramError::InvalidAccountOwner)
        } else if accounts[6].data@.len() != 0 || accounts[6].lamports != 0 {
            Err(ProgramError::AccountAlreadyInitialized)
        } else if accounts[5].data@.len() == 0 || accounts[5].lamports == 0 {
            Err(ProgramError::UninitializedAccount)
        } else if accounts[1].key@ != permanent_delegate_pda || accounts[6].key@ != receipt_pda {
            Err(ProgramError::InvalidSeeds)
        } else {
            match spec_checked_rate(accounts[5], action_id, mint, mint) {
                Err(e) => Err(e),
                Ok(rate) => match spec_mint_decimals(accounts[3]) {
                    Err(e) => Err(e),
                    Ok(decimals) => match spec_authority_of_mint(accounts[0], mint) {
                        Err(e) => Err(e),
                        Ok(m) => match spec_balance_of_mint(accounts[4], mint) {
                            Err(e) => Err(e),
                            Ok(amount) => Ok((rate, decimals, m, amount)),
                        },
                    },
                },
            }
        }
    }
}

/// What a conversion reads from its accounts.
pub struct ConvertContext {
    /// The conversion rate
    pub rate: Rate,
    /// Decimals of the source mint
    pub decimals_from: u8,
    /// Decimals of the target mint
    pub decimals_to: u8,
    /// The mint authority of the target mint
    pub mint_authority: MintAuthority,
    /// The holder's balance of the source token
    pub current_amount: u64,
}

/// The checks of a conversion, in order, and what it reads: the accounts are mint
/// authority, permanent delegate, payer, source mint, target mint, source and target token
/// accounts, rate, receipt, token program and system program; the target mint is the
/// verified one, and the permanent delegate (of the source mint) and the receipt must be
/// at the given derived addresses.
pub open spec fn spec_convert_context(
    verified_mint: AccountView,
    accounts: Seq<AccountView>,
    action_id: u64,
    amount_to_convert: u64,
    permanent_delegate_pda: Seq<u8>,
    receipt_pda: Seq<u8>,
) -> Result<(Rate, u8, u8, (Seq<u8>, Seq<u8>, u8), u64), ProgramError> {
    if accounts.len() != 11 {
        Err(ProgramError::NotEnoughAccountKeys)
    } else {
        let mint_from = accounts[3].key@;
        let mint_to = accounts[4].key@;
        if mint_to != verified_mint.key@ {
            Err(ProgramError::InvalidAccountData)
        } else if accounts[9].key@ != TOKEN_2022_PROGRAM_ID@ || accounts[10].key@ != SYSTEM_PROGRAM_ID@ {
            Err(ProgramError::IncorrectProgramId)
        } else if !accounts[2].is_signer {
            Err(ProgramError::MissingRequiredSignature)
        } else if !accounts[5].is_writable || !accounts[6].is_writable || !accounts[8].is_writable
            || !accounts[2].is_writable || !accounts[3].is_writable || !accounts[4].is_writable {
            Err(ProgramError::Immutable)
        } else if accounts[7].owner@ != PROGRAM_ID@ || accounts[0].owner@ != PROGRAM_ID@ {
            Err(ProgramError::InvalidAccountOwner)
        } else if accounts[8].data@.len() != 0 || accounts[8].lamports != 0 {
            Err(ProgramError::AccountAlreadyInitialized)
        } else if accounts[7].data@.len() == 0 || accounts[7].lamports == 0 {
            Err(ProgramError::UninitializedAccount)
        } else if accounts[1].key@ != permanent_delegate_pda || accounts[8].key@ != receipt_pda {
            Err(ProgramError::InvalidSeeds)
        } else {
            match spec_checked_rate(accounts[7], action_id, mint_from, mint_to) {
                Err(e) => Err(e),
                Ok(rate) => match spec_mint_decimals(accounts[3]) {
                    Err(e) => Err(e),
                    Ok(decimals_from) => match spec_mint_decimals(accounts[4]) {
                        Err(e) => Err(e),
                        Ok(decimals_to) => match spec_balance_of_mint(accounts[5], mint_from) {
                            Err(e) => Err(e),
                            Ok(amount) => if amount == 0 || amount < amount_to_convert {
                                Err(ProgramError::InsufficientFunds)
                            } else {
                                match spec_balance_of_mint(accounts[6], mint_to) {
                                    Err(e) => Err(e),
                                    Ok(_) => match spec_authority_of_mint(accounts[0], mint_to) {
                                        Err(e) => Err(e),
                                        Ok(m) => Ok((rate, decimals_from, decimals_to, m, amount)),
                                    },
                                }
                            },
                        },
                    },
                },
            }
        }
    }
}

/// What a distribution claim reads from its accounts before the receipt address is known.
pub struct ClaimContext {
    /// The claim is settled outside the program: the escrow slot holds the program's address
    pub external_settlement: bool,
    /// The Merkle proof of the claim
    pub proof: ProofData,
}

/// The checks of a distribution claim up to reading its proof, in order: the accounts are
/// permanent delegate, payer, mint, eligible token account, escrow token account, receipt,
/// proof account, transfer hook program, token program and system program; with external
/// settlement (the program's address in the escrow slot) the escrow is not written.
pub open spec fn spec_claim_context(
    verified_mint: AccountView,
    accounts: Seq<AccountView>,
    action_id: u64,
    merkle_proof: Option<Seq<Seq<u8>>>,
) -> Result<(bool, Seq<Seq<u8>>), ProgramError> {
    if accounts.len() != 10 {
        Err(ProgramError::NotEnoughAccountKeys)
    } else if accounts[2].key@ != verified_mint.key@ {
        Err(ProgramError::InvalidAccountData)
    } else if accounts[7].key@ != TRANSFER_HOOK_PROGRAM_ID@ || accounts[8].key@ != TOKEN_2022_PROGRAM_ID@
        || accounts[9].key@ != SYSTEM_PROGRAM_ID@ {
        Err(ProgramError::IncorrectProgramId)
    } else if !accounts[1].is_signer {
        Err(ProgramError::MissingRequiredSignature)
    } else {
        let external = accounts[4].key@ == PROGRAM_ID@;
        if !accounts[1].is_writable || !accounts[5].is_writable || !accounts[3].is_writable
            || (!external && !accounts[4].is_writable) {
            Err(ProgramError::Immutable)
        } else if accounts[5].data@.len() != 0 || accounts[5].lamports != 0 {
            Err(ProgramError::AccountAlreadyInitialized)
        } else {
            match spec_claim_proof(accounts[3].key@, action_id, accounts[6], merkle_proof) {
                Err(e) => Err(e),
                Ok(nodes) => Ok((external, nodes)),
            }
        }
    }
}

/// The payment of a claim out of the distribution's escrow.
#[derive(Clone, Copy, Debug, PartialEq, Eq, Structural)]
pub struct ClaimTransfer {
    /// The tokens moved from the escrow to the eligible token account
    pub amount: u64,
    /// The mint's decimals, for the checked transfer
    pub decimals: u8,
}

/// What a distribution claim does.
pub struct ClaimPlan {
    /// The Merkle proof of the claim, from the arguments or the proof account
    pub proof: ProofData,
    /// The payment out of the escrow; none when the claim is settled outside the program
    pub transfer: Option<ClaimTransfer>,
    /// The data of the receipt created at the receipt address
    pub receipt_data: Vec<u8>,
}

/// The proof a claim passes in its arguments, by its views.
pub open spec fn claim_proof_arg(args: ClaimDistributionArgs) -> Option<Seq<Seq<u8>>> {
    match args.merkle_proof {
        Some(p) => Some(key_views(p@)),
        None => None,
    }
}

/// A distribution claim, in order: the checks of `spec_claim_context`; the receipt account
/// at the address derived for the claim (else invalid seeds); the leaf of the eligible token
/// account, the mint, the action and the amount proven under the root at the leaf index
/// (else invalid instruction data); then, unless the claim is settled outside the program,
/// the checks of `spec_claim_payment` and a transfer of the amount with the mint's
/// decimals. Gives the proof and the transfer.
pub open spec fn spec_claim_distribution(
    verified_mint: AccountView,
    accounts: Seq<AccountView>,
    args: ClaimDistributionArgs,
    receipt_pda: Seq<u8>,
    escrow_ata: Seq<u8>,
    permanent_delegate_pda: Seq<u8>,
) -> Result<(Seq<Seq<u8>>, Option<ClaimTransfer>), ProgramError> {
    match spec_claim_context(verified_mint, accounts, args.action_id, claim_proof_arg(args)) {
        Err(e) => Err(e),
        Ok((external, nodes)) => if accounts[5].key@ != receipt_pda {
            Err(ProgramError::InvalidSeeds)
        } else if !spec_verify_merkle_proof(
            spec_keccak256(spec_leaf_preimage(accounts[3].key@, accounts[2].key@, args.action_id, args.amount)),
            args.merkle_root@,
            nodes,
            args.leaf_index,
        ) {
            Err(ProgramError::InvalidInstructionData)
        } else if external {
            Ok((nodes, None))
        } else {
            match spec_claim_payment(accounts, args.amount, escrow_ata, permanent_delegate_pda) {
                Err(e) => Err(e),
                Ok(decimals) => Ok((nodes, Some(ClaimTransfer { amount: args.amount, decimals }))),
            }
        },
    }
}

/// The checks of paying a claim out of the distribution's escrow, in order: the escrow and
/// the permanent delegate at their derived addresses (else invalid seeds), the mint's
/// decimals, the escrow and eligible token accounts readable and of the mint (else invalid
/// account data), and the escrow holding the amount (else insufficient funds). Gives the
/// mint's decimals.
pub open spec fn spec_claim_payment(accounts: Seq<AccountView>, amount: u64, escrow_ata: Seq<u8>, permanent_delegate_pda: Seq<u8>) -> Result<u8, ProgramError> {
    if accounts[4].key@ != escrow_ata || accounts[0].key@ != permanent_delegate_pda {
        Err(ProgramError::InvalidSeeds)
    } else {
        match spec_mint_decimals(accounts[2]) {
            Err(e) => Err(e),
            Ok(decimals) => match spec_token_account_state(accounts[4]) {
                Err(e) => Err(e),
                Ok((escrow_mint, escrow_amount)) => match spec_token_account_state(accounts[3]) {
                    Err(e) => Err(e),
                    Ok((eligible_mint, _)) => if escrow_mint != accounts[2].key@ || eligible_mint != accounts[2].key@ {
                        Err(ProgramError::InvalidAccountData)
                    } else if escrow_amount < amount {
                        Err(ProgramError::InsufficientFunds)
                    } else {
                        Ok(decimals)
                    },
                },
            },
        }
    }
}

impl OperationsModule {
    /// The checks of a split, and what it reads (see `spec_split_context`).
    pub fn check_split(
        verified_mint: &AccountView,
        accounts: &[AccountView],
        action_id: u64,
        permanent_delegate_pda: &Pubkey,
        receipt_pda: &Pubkey,
    ) -> (r: Result<SplitContext, ProgramError>)
        ensures
            match r {
                Ok(c) => spec_split_context(*verified_mint, accounts@, action_id, permanent_delegate_pda@, receipt_pda@)
                    == Ok::<(Rate, u8, (Seq<u8>, Seq<u8>, u8), u64), ProgramError>((c.rate, c.decimals,
                        (c.mint_authority.mint@, c.mint_authority.mint_creator@, c.mint_authority.bump), c.current_amount)),
                Err(e) => spec_split_context(*verified_mint, accounts@, action_id, permanent_delegate_pda@, receipt_pda@)
                    == Err::<(Rate, u8, (Seq<u8>, Seq<u8>, u8), u64), ProgramError>(e),
            },
    {
        if accounts.len() != 9 {
            return Err(ProgramError::NotEnoughAccountKeys);
        }
        let mint = &accounts[3];
        verify_mint_keys_match(verified_mint, mint)?;
        verify_token22_program(&accounts[7])?;
        verify_system_program(&accounts[8])?;
        verify_signer(&accounts[2])?;
        verify_writable(&accounts[4])?;
        verify_writable(&accounts[6])?;
        verify_writable(&accounts[2])?;
        verify_writable(mint)?;
        verify_owner(&accounts[0], &PROGRAM_ID)?;
        verify_owner(&accounts[5], &PROGRAM_ID)?;
        verify_account_not_initialized(&accounts[6])?;
        verify_account_initialized(&accounts[5])?;
        verify_pda_keys_match(&accounts[1].key, permanent_delegate_pda)?;
        verify_pda_keys_match(&accounts[6].key, receipt_pda)?;
        let rate = checked_rate(&accounts[5], action_id, &mint.key, &mint.key)?;
        let decimals = mint_decimals(mint)?;
        let mint_authority = authority_of_mint(&accounts[0], &mint.key)?;
        let current_amount = balance_of_mint(&accounts[4], &mint.key)?;
        Ok(SplitContext { rate, decimals, mint_authority, current_amount })
    }

    /// The checks of a conversion, and what it reads (see `spec_convert_context`).
    pub fn check_convert(
        verified_mint: &AccountView,
        accounts: &[AccountView],
        action_id: u64,
        amount_to_convert: u64,
        permanent_delegate_pda: &Pubkey,
        receipt_pda: &Pubkey,
    ) -> (r: Result<ConvertContext, ProgramError>)
        ensures
            match r {
                Ok(c) => spec_convert_context(*verified_mint, accounts@, action_id, amount_to_convert,
                        permanent_delegate_pda@, receipt_pda@)
                    == Ok::<(Rate, u8, u8, (Seq<u8>, Seq<u8>, u8), u64), ProgramError>((c.rate, c.decimals_from,
                        c.decimals_to, (c.mint_authority.mint@, c.mint_authority.mint_creator@, c.mint_authority.bump),
                        c.current_amount)),
                Err(e) => spec_convert_context(*verified_mint, accounts@, action_id, amount_to_convert,
                        permanent_delegate_pda@, receipt_pda@)
                    == Err::<(Rate, u8, u8, (Seq<u8>, Seq<u8>, u8), u64), ProgramError>(e),
            },
    {
        if accounts.len() != 11 {
            return Err(ProgramError::NotEnoughAccountKeys);
        }
        let mint_from = &accounts[3];
        let mint_to = &accounts[4];
        verify_mint_keys_match(verified_mint, mint_to)?;
        verify_token22_program(&accounts[9])?;
        verify_system_program(&accounts[10])?;
        verify_signer(&accounts[2])?;
        verify_writable(&accounts[5])?;
        verify_writable(&accounts[6])?;
        verify_writable(&accounts[8])?;
        verify_writable(&accounts[2])?;
        verify_writable(mint_from)?;
        verify_writable(mint_to)?;
        verify_owner(&accounts[7], &PROGRAM_ID)?;
        verify_owner(&accounts[0], &PROGRAM_ID)?;
        verify_account_not_initialized(&accounts[8])?;
        verify_account_initialized(&accounts[7])?;
        verify_pda_keys_match(&accounts[1].key, permanent_delegate_pda)?;
        verify_pda_keys_match(&accounts[8].key, receipt_pda)?;
        let rate = checked_rate(&accounts[7], action_id, &mint_from.key, &mint_to.key)?;
        let decimals_from = mint_decimals(mint_from)?;
        let decimals_to = mint_decimals(mint_to)?;
        let current_amount = balance_of_mint(&accounts[5], &mint_from.key)?;
        if current_amount == 0 || current_amount < amount_to_convert {
            return Err(ProgramError::InsufficientFunds);
        }
        balance_of_mint(&accounts[6], &mint_to.key)?;
        let mint_authority = authority_of_mint(&accounts[0], &mint_to.key)?;
        Ok(ConvertContext { rate, decimals_from, decimals_to, mint_authority, current_amount })
    }

    /// The checks of a distribution claim up to reading its proof (see `spec_claim_context`).
    pub fn check_claim(
        verified_mint: &AccountView,
        accounts: &[AccountView],
        action_id: u64,
        merkle_proof: Option<ProofData>,
    ) -> (r: Result<ClaimContext, ProgramError>)
        ensures
            match r {
                Ok(c) => spec_claim_context(*verified_mint, accounts@, action_id,
                        match merkle_proof { Some(p) => Some(key_views(p@)), None => None })
                    == Ok::<(bool, Seq<Seq<u8>>), ProgramError>((c.external_settlement, key_views(c.proof@))),
                Err(e) => spec_claim_context(*verified_mint, accounts@, action_id,
                        match merkle_proof { Some(p) => Some(key_views(p@)), None => None })
                    == Err::<(bool, Seq<Seq<u8>>), ProgramError>(e),
            },
    {
        if accounts.len() != 10 {
            return Err(ProgramError::NotEnoughAccountKeys);
        }
        verify_mint_keys_match(verified_mint, &accounts[2])?;
        verify_transfer_hook_program(&accounts[7])?;
        verify_token22_program(&accounts[8])?;
        verify_system_program(&accounts[9])?;
        verify_signer(&accounts[1])?;
        verify_writable(&accounts[1])?;
        verify_writable(&accounts[5])?;
        let external_settlement = key_eq(&accounts[4].key, &PROGRAM_ID);
        verify_writable(&accounts[3])?;
        if !external_settlement {
            verify_writable(&accounts[4])?;
        }
        verify_account_not_initialized(&accounts[5])?;
        let proof = Proof::get_proof_data_from_instruction(&accounts[3].key, action_id, &accounts[6], merkle_proof)?;
        Ok(ClaimContext { external_settlement, proof })
    }

    /// The checks of paying a claim out of the escrow (see `spec_claim_payment`); gives the
    /// mint's decimals.
    pub fn check_claim_payment(
        accounts: &[AccountView],
        amount: u64,
        escrow_ata: &Pubkey,
        permanent_delegate_pda: &Pubkey,
    ) -> (r: Result<u8, ProgramError>)
        requires
            accounts@.len() == 10,
        ensures
            r == spec_claim_payment(accounts@, amount, escrow_ata@, permanent_delegate_pda@),
    {
        verify_pda_keys_match(&accounts[4].key, escrow_ata)?;
        verify_pda_keys_match(&accounts[0].key, permanent_delegate_pda)?;
        let decimals = mint_decimals(&accounts[2])?;
        let (escrow_mint, escrow_amount) = token_account_state(&accounts[4])?;
        let (eligible_mint, _) = token_account_state(&accounts[3])?;
        Self::check_escrow_payment(&accounts[2].key, &escrow_mint, &eligible_mint, escrow_amount, amount)?;
        Ok(decimals)
    }

    /// Decides a distribution claim (see `spec_claim_distribution`), given the address of
    /// its receipt, the escrow's associated token account and the permanent delegate; the
    /// receipt created holds the receipt discriminator.
    pub fn plan_claim_distribution(
        verified_mint: &AccountView,
        accounts: &[AccountView],
        args: &ClaimDistributionArgs,
        receipt_pda: &Pubkey,
        escrow_ata: &Pubkey,
        permanent_delegate_pda: &Pubkey,
    ) -> (r: Result<ClaimPlan, ProgramError>)
        ensures
            match r {
                Ok(p) => {
                    &&& spec_claim_distribution(*verified_mint, accounts@, *args, receipt_pda@, escrow_ata@, permanent_delegate_pda@)
                        == Ok::<(Seq<Seq<u8>>, Option<ClaimTransfer>), ProgramError>((key_views(p.proof@), p.transfer))
                    &&& p.receipt_data@ == seq![3u8]
                },
                Err(e) => spec_claim_distribution(*verified_mint, accounts@, *args, receipt_pda@, escrow_ata@, permanent_delegate_pda@)
                    == Err::<(Seq<Seq<u8>>, Option<ClaimTransfer>), ProgramError>(e),
            },
    {
        let merkle_proof: Option<ProofData> = match &args.merkle_proof {
            Some(p) => Some(vstd::slice::slice_to_vec(p.as_slice())),
            None => None,
        };
        let ctx = Self::check_claim(verified_mint, accounts, args.action_id, merkle_proof)?;
        verify_pda_keys_match(&accounts[5].key, receipt_pda)?;
        Self::verify_claim(
            &accounts[3].key,
            &accounts[2].key,
            args.action_id,
            args.amount,
            &args.merkle_root,
            &ctx.proof,
            args.leaf_index,
        )?;
        let transfer = if ctx.external_settlement {
            None
        } else {
            let decimals = Self::check_claim_payment(accounts, args.amount, escrow_ata, permanent_delegate_pda)?;
            Some(ClaimTransfer { amount: args.amount, decimals })
        };
        let receipt = Receipt {};
        let receipt_data = receipt.to_bytes();
        assert(receipt_data@ =~= seq![3u8]);
        Ok(ClaimPlan { proof: ctx.proof, transfer, receipt_data })
    }
}

/// The checks of minting, in order: the accounts are mint authority, mint, destination
/// and token program; the mint authority account must belong to the program and hold the
/// authority of this mint (else invalid account data). Gives the mint's decimals and the
/// authority.
pub open spec fn spec_mint_context(verified_mint: AccountView, accounts: Seq<AccountView>) -> Result<(u8, (Seq<u8>, Seq<u8>, u8)), ProgramError> {
    if accounts.len() != 4 {
        Err(ProgramError::NotEnoughAccountKeys)
    } else if accounts[1].key@ != verified_mint.key@ {
        Err(ProgramError::InvalidAccountData)
    } else if accounts[3].key@ != TOKEN_2022_PROGRAM_ID@ {
        Err(ProgramError::IncorrectProgramId)
    } else if accounts[0].owner@ != PROGRAM_ID@ {
        Err(ProgramError::InvalidAccountOwner)
    } else if !accounts[1].is_writable || !accounts[2].is_writable {
        Err(ProgramError::Immutable)
    } else {
        match spec_mint_decimals(accounts[1]) {
            Err(e) => Err(e),
            Ok(decimals) => match spec_mint_authority_fields(accounts[0].data@, accounts[0].owner@) {
                Err(e) => Err(e),
                Ok(m) => if m.0 != accounts[1].key@ { Err(ProgramError::InvalidAccountData) } else { Ok((decimals, m)) },
            },
        }
    }
}

/// The checks of an operation by a program authority on a mint and one token account
/// (burning by the permanent delegate, freezing and thawing by the freeze authority), in
/// order: the accounts are authority, mint, token account and token program; the mint is
/// written too when `mint_writable`; the authority must be at its derived address.
pub open spec fn spec_authority_token_checks(
    verified_mint: AccountView,
    accounts: Seq<AccountView>,
    authority_pda: Seq<u8>,
    mint_writable: bool,
) -> Result<(), ProgramError> {
    if accounts.len() != 4 {
        Err(ProgramError::NotEnoughAccountKeys)
    } else if accounts[1].key@ != verified_mint.key@ {
        Err(ProgramError::InvalidAccountData)
    } else if accounts[3].key@ != TOKEN_2022_PROGRAM_ID@ {
        Err(ProgramError::IncorrectProgramId)
    } else if (mint_writable && !accounts[1].is_writable) || !accounts[2].is_writable {
        Err(ProgramError::Immutable)
    } else if accounts[0].key@ != authority_pda {
        Err(ProgramError::InvalidSeeds)
    } else {
        Ok(())
    }
}

/// The checks of pausing or resuming a mint, in order: the accounts are pause authority,
/// mint and token program; the pause authority must be at its derived address.
pub open spec fn spec_pause_checks(verified_mint: AccountView, accounts: Seq<AccountView>, pause_authority_pda: Seq<u8>) -> Result<(), ProgramError> {
    if accounts.len() != 3 {
        Err(ProgramError::NotEnoughAccountKeys)
    } else if accounts[1].key@ != verified_mint.key@ {
        Err(ProgramError::InvalidAccountData)
    } else if accounts[2].key@ != TOKEN_2022_PROGRAM_ID@ {
        Err(ProgramError::IncorrectProgramId)
    } else if !accounts[1].is_writable {
        Err(ProgramError::Immutable)
    } else if accounts[0].key@ != pause_authority_pda {
        Err(ProgramError::InvalidSeeds)
    } else {
        Ok(())
    }
}

/// The checks of a transfer by the permanent delegate, in order: the accounts are
/// permanent delegate, mint, source, destination, transfer hook program and token program.
/// Gives the mint's decimals.
pub open spec fn spec_transfer_context(verified_mint: AccountView, accounts: Seq<AccountView>, permanent_delegate_pda: Seq<u8>) -> Result<u8, ProgramError> {
    if accounts.len() != 6 {
        Err(ProgramError::NotEnoughAccountKeys)
    } else if accounts[1].key@ != verified_mint.key@ {
        Err(ProgramError::InvalidAccountData)
    } else if accounts[5].key@ != TOKEN_2022_PROGRAM_ID@ || accounts[4].key@ != TRANSFER_HOOK_PROGRAM_ID@ {
        Err(ProgramError::IncorrectProgramId)
    } else if !accounts[2].is_writable || !accounts[3].is_writable {
        Err(ProgramError::Immutable)
    } else if accounts[0].key@ != permanent_delegate_pda {
        Err(ProgramError::InvalidSeeds)
    } else {
        spec_mint_decimals(accounts[1])
    }
}

/// The checks of creating a rate, in order: the accounts are payer, rate, source mint,
/// target mint (the verified one) and system program; the rate account must be new and at
/// its derived address. Gives the rate to store.
pub open spec fn spec_create_rate_context(
    verified_mint: AccountView,
    accounts: Seq<AccountView>,
    numerator: u8,
    denominator: u8,
    rounding: u8,
    rate_pda: Seq<u8>,
    bump: u8,
) -> Result<Rate, ProgramError> {
    if accounts.len() != 5 {
        Err(ProgramError::NotEnoughAccountKeys)
    } else if accounts[3].key@ != verified_mint.key@ {
        Err(ProgramError::InvalidAccountData)
    } else if accounts[4].key@ != SYSTEM_PROGRAM_ID@ {
        Err(ProgramError::IncorrectProgramId)
    } else if !accounts[0].is_signer {
        Err(ProgramError::MissingRequiredSignature)
    } else if !accounts[0].is_writable || !accounts[1].is_writable {
        Err(ProgramError::Immutable)
    } else if accounts[1].data@.len() != 0 || accounts[1].lamports != 0 {
        Err(ProgramError::AccountAlreadyInitialized)
    } else if accounts[1].key@ != rate_pda {
        Err(ProgramError::InvalidSeeds)
    } else {
        match spec_rounding_from_u8(rounding) {
            Err(e) => Err(e),
            Ok(r) => if numerator != 0 && denominator != 0 {
                Ok(Rate { rounding: r, numerator, denominator, bump })
            } else {
                Err(ProgramError::InvalidAccountData)
            },
        }
    }
}

/// The checks of updating a rate, in order: the accounts are rate, source mint and target
/// mint (the verified one); the rate account must be writable, the program's, initialized
/// and a rate at its derived address. Gives the updated rate.
pub open spec fn spec_update_rate_context(
    verified_mint: AccountView,
    accounts: Seq<AccountView>,
    action_id: u64,
    numerator: u8,
    denominator: u8,
    rounding: u8,
) -> Result<Rate, ProgramError> {
    if accounts.len() != 3 {
        Err(ProgramError::NotEnoughAccountKeys)
    } else if accounts[2].key@ != verified_mint.key@ {
        Err(ProgramError::InvalidAccountData)
    } else if !accounts[0].is_writable {
        Err(ProgramError::Immutable)
    } else if accounts[0].owner@ != PROGRAM_ID@ {
        Err(ProgramError::InvalidAccountOwner)
    } else if accounts[0].data@.len() == 0 || accounts[0].lamports == 0 {
        Err(ProgramError::UninitializedAccount)
    } else {
        match spec_checked_rate(accounts[0], action_id, accounts[1].key@, accounts[2].key@) {
            Err(e) => Err(e),
            Ok(rate) => match spec_rounding_from_u8(rounding) {
                Err(e) => Err(e),
                Ok(r) => if numerator != 0 && denominator != 0 {
                    Ok(Rate { rounding: r, numerator, denominator, bump: rate.bump })
                } else {
                    Err(ProgramError::InvalidAccountData)
                },
            },
        }
    }
}

/// The checks of closing a rate, in order: the accounts are rate, destination, source
/// mint and target mint (the verified one); the rate account must be writable, the
/// program's, initialized and a rate at its derived address.
pub open spec fn spec_close_rate_checks(verified_mint: AccountView, accounts: Seq<AccountView>, action_id: u64) -> Result<(), ProgramError> {
    if accounts.len() != 4 {
        Err(ProgramError::NotEnoughAccountKeys)
    } else if accounts[3].key@ != verified_mint.key@ {
        Err(ProgramError::InvalidAccountData)
    } else if !accounts[1].is_writable || !accounts[0].is_writable {
        Err(ProgramError::Immutable)
    } else if accounts[0].owner@ != PROGRAM_ID@ {
        Err(ProgramError::InvalidAccountOwner)
    } else if accounts[0].data@.len() == 0 || accounts[0].lamports == 0 {
        Err(ProgramError::UninitializedAccount)
    } else {
        match spec_checked_rate(accounts[0], action_id, accounts[2].key@, accounts[3].key@) {
            Err(e) => Err(e),
            Ok(_) => Ok(()),
        }
    }
}

/// The checks of creating a proof account, in order: the accounts are payer, mint, proof
/// account, token account and system program; the token account must be of the mint and
/// the proof account new and at its derived address. Gives the nodes to store, which must
/// be one to 32 non-zero nodes (else invalid account data).
pub open spec fn spec_create_proof_checks(
    verified_mint: AccountView,
    accounts: Seq<AccountView>,
    nodes: Seq<Seq<u8>>,
    proof_pda: Seq<u8>,
) -> Result<(), ProgramError> {
    if accounts.len() != 5 {
        Err(ProgramError::NotEnoughAccountKeys)
    } else if accounts[1].key@ != verified_mint.key@ {
        Err(ProgramError::InvalidAccountData)
    } else if accounts[4].key@ != SYSTEM_PROGRAM_ID@ {
        Err(ProgramError::IncorrectProgramId)
    } else if !accounts[0].is_writable || !accounts[2].is_writable {
        Err(ProgramError::Immutable)
    } else if !accounts[0].is_signer {
        Err(ProgramError::MissingRequiredSignature)
    } else if accounts[2].data@.len() != 0 || accounts[2].lamports != 0 {
        Err(ProgramError::AccountAlreadyInitialized)
    } else {
        match spec_balance_of_mint(accounts[3], accounts[1].key@) {
            Err(e) => Err(e),
            Ok(_) => if accounts[2].key@ != proof_pda {
                Err(ProgramError::InvalidSeeds)
            } else if !valid_proof_nodes(nodes) {
                Err(ProgramError::InvalidAccountData)
            } else {
                Ok(())
            },
        }
    }
}

/// The nodes after writing `node` at `offset`: appended at the end, or replacing the node
/// there; an offset past the end is invalid account data, and so is a result that is not
/// one to 32 non-zero nodes.
pub open spec fn spec_nodes_after_update(nodes: Seq<Seq<u8>>, node: Seq<u8>, offset: int) -> Result<Seq<Seq<u8>>, ProgramError> {
    if offset > nodes.len() {
        Err(ProgramError::InvalidAccountData)
    } else {
        let updated = if offset == nodes.len() { nodes.push(node) } else { nodes.update(offset, node) };
        if valid_proof_nodes(updated) { Ok(updated) } else { Err(ProgramError::InvalidAccountData) }
    }
}

/// The checks of updating a proof account, in order: the accounts are payer, mint, proof
/// account, token account and system program; the token account must be of the mint and
/// the proof account initialized, readable and at its derived address. Gives the bump and
/// the updated nodes.
pub open spec fn spec_update_proof_context(
    verified_mint: AccountView,
    accounts: Seq<AccountView>,
    action_id: u64,
    node: Seq<u8>,
    offset: int,
) -> Result<(u8, Seq<Seq<u8>>), ProgramError> {
    if accounts.len() != 5 {
        Err(ProgramError::NotEnoughAccountKeys)
    } else if accounts[1].key@ != verified_mint.key@ {
        Err(ProgramError::InvalidAccountData)
    } else if accounts[4].key@ != SYSTEM_PROGRAM_ID@ {
        Err(ProgramError::IncorrectProgramId)
    } else if !accounts[0].is_signer {
        Err(ProgramError::MissingRequiredSignature)
    } else if !accounts[0].is_writable || !accounts[2].is_writable {
        Err(ProgramError::Immutable)
    } else if accounts[2].data@.len() == 0 || accounts[2].lamports == 0 {
        Err(ProgramError::UninitializedAccount)
    } else {
        match spec_balance_of_mint(accounts[3], accounts[1].key@) {
            Err(e) => Err(e),
            Ok(_) => match spec_proof_fields(accounts[2].data@, accounts[2].owner@) {
                Err(e) => Err(e),
                Ok((bump, nodes)) => match spec_checked_create_program_address(
                    seq![SEED_PROOF_ACCOUNT@, accounts[3].key@, le64(action_id), seq![bump]],
                    PROGRAM_ID@,
                ) {
                    Err(e) => Err(e),
                    Ok(a) => if a != accounts[2].key@ {
                        Err(ProgramError::InvalidSeeds)
                    } else {
                        match spec_nodes_after_update(nodes, node, offset) {
                            Err(e) => Err(e),
                            Ok(updated) => Ok((bump, updated)),
                        }
                    },
                },
            },
        }
    }
}

/// The checks of creating a distribution escrow, in order: the accounts are escrow
/// authority, payer, escrow token account, mint, token program, associated token program
/// and system program; the escrow token account must be new, and the authority and the
/// escrow at their derived addresses.
pub open spec fn spec_create_escrow_checks(
    verified_mint: AccountView,
    accounts: Seq<AccountView>,
    escrow_authority_pda: Seq<u8>,
    escrow_ata: Seq<u8>,
) -> Result<(), ProgramError> {
    if accounts.len() != 7 {
        Err(ProgramError::NotEnoughAccountKeys)
    } else if accounts[3].key@ != verified_mint.key@ {
        Err(ProgramError::InvalidAccountData)
    } else if accounts[4].key@ != TOKEN_2022_PROGRAM_ID@ || accounts[5].key@ != ASSOCIATED_TOKEN_PROGRAM_ID@
        || accounts[6].key@ != SYSTEM_PROGRAM_ID@ {
        Err(ProgramError::IncorrectProgramId)
    } else if !accounts[2].is_writable || !accounts[1].is_writable {
        Err(ProgramError::Immutable)
    } else if !accounts[1].is_signer {
        Err(ProgramError::MissingRequiredSignature)
    } else if accounts[2].data@.len() != 0 || accounts[2].lamports != 0 {
        Err(ProgramError::AccountAlreadyInitialized)
    } else if accounts[0].key@ != escrow_authority_pda || accounts[2].key@ != escrow_ata {
        Err(ProgramError::InvalidSeeds)
    } else {
        Ok(())
    }
}

/// A receipt account: one byte, the program's, the receipt discriminator.
pub open spec fn spec_receipt_check(a: AccountView) -> Result<(), ProgramError> {
    if a.data@.len() != 1 {
        Err(ProgramError::InvalidAccountData)
    } else if a.owner@ != PROGRAM_ID@ {
        Err(ProgramError::InvalidAccountOwner)
    } else if a.data@[0] != 3 {
        Err(ProgramError::InvalidAccountData)
    } else {
        Ok(())
    }
}

/// The checks of closing the receipt of an action on a whole mint, in order: the accounts
/// are receipt, destination and mint; the receipt must be writable, initialized, a receipt
/// and at its derived address.
pub open spec fn spec_close_action_receipt_checks(verified_mint: AccountView, accounts: Seq<AccountView>, receipt_pda: Seq<u8>) -> Result<(), ProgramError> {
    if accounts.len() != 3 {
        Err(ProgramError::NotEnoughAccountKeys)
    } else if accounts[2].key@ != verified_mint.key@ {
        Err(ProgramError::InvalidAccountData)
    } else if !accounts[1].is_writable || !accounts[0].is_writable {
        Err(ProgramError::Immutable)
    } else if accounts[0].data@.len() == 0 || accounts[0].lamports == 0 {
        Err(ProgramError::UninitializedAccount)
    } else {
        match spec_receipt_check(accounts[0]) {
            Err(e) => Err(e),
            Ok(()) => if accounts[0].key@ != receipt_pda { Err(ProgramError::InvalidSeeds) } else { Ok(()) },
        }
    }
}

/// The checks of closing a claim receipt up to reading the claim's proof, in order: the
/// accounts are receipt, destination, mint, eligible token account and proof account; the
/// receipt must be writable, initialized and a receipt. Gives the proof nodes.
pub open spec fn spec_close_claim_receipt_context(
    verified_mint: AccountView,
    accounts: Seq<AccountView>,
    action_id: u64,
    merkle_proof: Option<Seq<Seq<u8>>>,
) -> Result<Seq<Seq<u8>>, ProgramError> {
    if accounts.len() != 5 {
        Err(ProgramError::NotEnoughAccountKeys)
    } else if accounts[2].key@ != verified_mint.key@ {
        Err(ProgramError::InvalidAccountData)
    } else if !accounts[1].is_writable || !accounts[0].is_writable {
        Err(ProgramError::Immutable)
    } else if accounts[0].data@.len() == 0 || accounts[0].lamports == 0 {
        Err(ProgramError::UninitializedAccount)
    } else {
        match spec_receipt_check(accounts[0]) {
            Err(e) => Err(e),
            Ok(()) => spec_claim_proof(accounts[3].key@, action_id, accounts[4], merkle_proof),
        }
    }
}

/// What updating a proof account does.
pub struct ProofUpdatePlan {
    /// The updated proof
    pub proof: Proof,
    /// Its serialized size; the account is resized when it differs from the current size
    pub new_len: usize,
    /// The size of the proof account now
    pub current_len: usize,
}

impl OperationsModule {
    /// The checks of minting (see `spec_mint_context`); gives the decimals and the mint authority.
    pub fn check_mint(verified_mint: &AccountView, accounts: &[AccountView]) -> (r: Result<(u8, MintAuthority), ProgramError>)
        ensures
            match r {
                Ok((d, m)) => spec_mint_context(*verified_mint, accounts@)
                    == Ok::<(u8, (Seq<u8>, Seq<u8>, u8)), ProgramError>((d, (m.mint@, m.mint_creator@, m.bump))),
                Err(e) => spec_mint_context(*verified_mint, accounts@) == Err::<(u8, (Seq<u8>, Seq<u8>, u8)), ProgramError>(e),
            },
    {
        if accounts.len() != 4 {
            return Err(ProgramError::NotEnoughAccountKeys);
        }
        verify_mint_keys_match(verified_mint, &accounts[1])?;
        verify_token22_program(&accounts[3])?;
        verify_owner(&accounts[0], &PROGRAM_ID)?;
        verify_writable(&accounts[1])?;
        verify_writable(&accounts[2])?;
        let decimals = mint_decimals(&accounts[1])?;
        let mint_authority = MintAuthority::from_account_info(&accounts[0])?;
        if !key_eq(&mint_authority.mint, &accounts[1].key) {
            return Err(ProgramError::InvalidAccountData);
        }
        Ok((decimals, mint_authority))
    }

    /// The checks of burning by the permanent delegate (see `spec_authority_token_checks`,
    /// with the mint written); gives the mint's decimals.
    pub fn check_burn(verified_mint: &AccountView, accounts: &[AccountView], permanent_delegate_pda: &Pubkey) -> (r: Result<u8, ProgramError>)
        ensures
            r == match spec_authority_token_checks(*verified_mint, accounts@, permanent_delegate_pda@, true) {
                Err(e) => Err(e),
                Ok(()) => spec_mint_decimals(accounts@[1]),
            },
    {
        Self::check_authority_token_operation(verified_mint, accounts, permanent_delegate_pda, true)?;
        mint_decimals(&accounts[1])
    }

    /// The checks of freezing or thawing a token account by the freeze authority (see
    /// `spec_authority_token_checks`, with the mint only read).
    pub fn check_freeze(verified_mint: &AccountView, accounts: &[AccountView], freeze_authority_pda: &Pubkey) -> (r: Result<(), ProgramError>)
        ensures
            r == spec_authority_token_checks(*verified_mint, accounts@, freeze_authority_pda@, false),
    {
        Self::check_authority_token_operation(verified_mint, accounts, freeze_authority_pda, false)
    }

    /// The checks of an operation by a program authority on a mint and a token account.
    fn check_authority_token_operation(
        verified_mint: &AccountView,
        accounts: &[AccountView],
        authority_pda: &Pubkey,
        mint_writable: bool,
    ) -> (r: Result<(), ProgramError>)
        ensures
            r == spec_authority_token_checks(*verified_mint, accounts@, authority_pda@, mint_writable),
    {
        if accounts.len() != 4 {
            return Err(ProgramError::NotEnoughAccountKeys);
        }
        verify_mint_keys_match(verified_mint, &accounts[1])?;
        verify_token22_program(&accounts[3])?;
        if mint_writable {
            verify_writable(&accounts[1])?;
        }
        verify_writable(&accounts[2])?;
        verify_pda_keys_match(&accounts[0].key, authority_pda)?;
        Ok(())
    }

    /// The checks of pausing or resuming a mint (see `spec_pause_checks`).
    pub fn check_pause(verified_mint: &AccountView, accounts: &[AccountView], pause_authority_pda: &Pubkey) -> (r: Result<(), ProgramError>)
        ensures
            r == spec_pause_checks(*verified_mint, accounts@, pause_authority_pda@),
    {
        if accounts.len() != 3 {
            return Err(ProgramError::NotEnoughAccountKeys);
        }
        verify_mint_keys_match(verified_mint, &accounts[1])?;
        verify_token22_program(&accounts[2])?;
        verify_writable(&accounts[1])?;
        verify_pda_keys_match(&accounts[0].key, pause_authority_pda)?;
        Ok(())
    }

    /// The checks of a transfer by the permanent delegate (see `spec_transfer_context`);
    /// gives the mint's decimals.
    pub fn check_transfer(verified_mint: &AccountView, accounts: &[AccountView], permanent_delegate_pda: &Pubkey) -> (r: Result<u8, ProgramError>)
        ensures
            r == spec_transfer_context(*verified_mint, accounts@, permanent_delegate_pda@),
    {
        if accounts.len() != 6 {
            return Err(ProgramError::NotEnoughAccountKeys);
        }
        verify_mint_keys_match(verified_mint, &accounts[1])?;
        verify_token22_program(&accounts[5])?;
        verify_transfer_hook_program(&accounts[4])?;
        verify_writable(&accounts[2])?;
        verify_writable(&accounts[3])?;
        verify_pda_keys_match(&accounts[0].key, permanent_delegate_pda)?;
        mint_decimals(&accounts[1])
    }

    /// The checks of creating a rate (see `spec_create_rate_context`); gives the rate.
    pub fn check_create_rate(
        verified_mint: &AccountView,
        accounts: &[AccountView],
        numerator: u8,
        denominator: u8,
        rounding: u8,
        rate_pda: &Pubkey,
        bump: u8,
    ) -> (r: Result<Rate, ProgramError>)
        ensures
            r == spec_create_rate_context(*verified_mint, accounts@, numerator, denominator, rounding, rate_pda@, bump),
    {
        if accounts.len() != 5 {
            return Err(ProgramError::NotEnoughAccountKeys);
        }
        verify_mint_keys_match(verified_mint, &accounts[3])?;
        verify_system_program(&accounts[4])?;
        verify_signer(&accounts[0])?;
        verify_writable(&accounts[0])?;
        verify_writable(&accounts[1])?;
        verify_account_not_initialized(&accounts[1])?;
        verify_pda_keys_match(&accounts[1].key, rate_pda)?;
        let rounding_enum = Rounding::try_from(rounding)?;
        Rate::new(rounding_enum, numerator, denominator, bump)
    }

    /// The checks of updating a rate (see `spec_update_rate_context`); gives the updated rate.
    pub fn check_update_rate(
        verified_mint: &AccountView,
        accounts: &[AccountView],
        action_id: u64,
        numerator: u8,
        denominator: u8,
        rounding: u8,
    ) -> (r: Result<Rate, ProgramError>)
        ensures
            r == spec_update_rate_context(*verified_mint, accounts@, action_id, numerator, denominator, rounding),
    {
        if accounts.len() != 3 {
            return Err(ProgramError::NotEnoughAccountKeys);
        }
        verify_mint_keys_match(verified_mint, &accounts[2])?;
        verify_writable(&accounts[0])?;
        verify_owner(&accounts[0], &PROGRAM_ID)?;
        verify_account_initialized(&accounts[0])?;
        let mut rate = checked_rate(&accounts[0], action_id, &accounts[1].key, &accounts[2].key)?;
        let rounding_enum = Rounding::try_from(rounding)?;
        rate.update(rounding_enum, numerator, denominator)?;
        Ok(rate)
    }

    /// The checks of closing a rate (see `spec_close_rate_checks`).
    pub fn check_close_rate(verified_mint: &AccountView, accounts: &[AccountView], action_id: u64) -> (r: Result<(), ProgramError>)
        ensures
            r == spec_close_rate_checks(*verified_mint, accounts@, action_id),
    {
        if accounts.len() != 4 {
            return Err(ProgramError::NotEnoughAccountKeys);
        }
        verify_mint_keys_match(verified_mint, &accounts[3])?;
        verify_writable(&accounts[1])?;
        verify_writable(&accounts[0])?;
        verify_owner(&accounts[0], &PROGRAM_ID)?;
        verify_account_initialized(&accounts[0])?;
        checked_rate(&accounts[0], action_id, &accounts[2].key, &accounts[3].key)?;
        Ok(())
    }

    /// The checks of creating a proof account (see `spec_create_proof_checks`); gives the proof.
    pub fn check_create_proof(
        verified_mint: &AccountView,
        accounts: &[AccountView],
        proof_data: &[ProofNode],
        proof_pda: &Pubkey,
        bump: u8,
    ) -> (r: Result<Proof, ProgramError>)
        ensures
            match r {
                Ok(p) => spec_create_proof_checks(*verified_mint, accounts@, key_views(proof_data@), proof_pda@) is Ok
                    && p.bump == bump && p.data@ == proof_data@,
                Err(e) => spec_create_proof_checks(*verified_mint, accounts@, key_views(proof_data@), proof_pda@)
                    == Err::<(), ProgramError>(e),
            },
    {
        if accounts.len() != 5 {
            return Err(ProgramError::NotEnoughAccountKeys);
        }
        verify_mint_keys_match(verified_mint, &accounts[1])?;
        verify_system_program(&accounts[4])?;
        verify_writable(&accounts[0])?;
        verify_writable(&accounts[2])?;
        verify_signer(&accounts[0])?;
        verify_account_not_initialized(&accounts[2])?;
        balance_of_mint(&accounts[3], &accounts[1].key)?;
        verify_pda_keys_match(&accounts[2].key, proof_pda)?;
        Proof::new(proof_data, bump)
    }

    /// The checks of updating a proof account (see `spec_update_proof_context`); gives the
    /// updated proof and the sizes.
    pub fn check_update_proof(
        verified_mint: &AccountView,
        accounts: &[AccountView],
        action_id: u64,
        proof_node: ProofNode,
        offset: u32,
    ) -> (r: Result<ProofUpdatePlan, ProgramError>)
        ensures
            match r {
                Ok(p) => {
                    &&& spec_update_proof_context(*verified_mint, accounts@, action_id, proof_node@, offset as int)
                        == Ok::<(u8, Seq<Seq<u8>>), ProgramError>((p.proof.bump, p.proof.nodes()))
                    &&& p.new_len == 6 + 32 * p.proof.data@.len()
                    &&& p.current_len == accounts@[2].data@.len()
                },
                Err(e) => spec_update_proof_context(*verified_mint, accounts@, action_id, proof_node@, offset as int)
                    == Err::<(u8, Seq<Seq<u8>>), ProgramError>(e),
            },
    {
        if accounts.len() != 5 {
            return Err(ProgramError::NotEnoughAccountKeys);
        }
        verify_mint_keys_match(verified_mint, &accounts[1])?;
        verify_system_program(&accounts[4])?;
        verify_signer(&accounts[0])?;
        verify_writable(&accounts[0])?;
        verify_writable(&accounts[2])?;
        verify_account_initialized(&accounts[2])?;
        balance_of_mint(&accounts[3], &accounts[1].key)?;
        let mut proof = Proof::from_account_info(&accounts[2])?;
        let expected = proof.derive_pda(&accounts[3].key, action_id)?;
        verify_pda_keys_match(&accounts[2].key, &expected)?;
        let current_len = accounts[2].data.len();
        let ghost before = proof.nodes();
        let updated = proof.update_data_at_offset(proof_node, offset as usize);
        proof {
            if (offset as int) == before.len() {
                assert(proof.nodes() =~= before.push(proof_node@));
            } else if (offset as int) < before.len() {
                assert(proof.nodes() =~= before.update(offset as int, proof_node@));
            }
        }
        updated?;
        let new_len = proof.serialized_len();
        Ok(ProofUpdatePlan { proof, new_len, current_len })
    }

    /// The checks of creating a distribution escrow (see `spec_create_escrow_checks`).
    pub fn check_create_distribution_escrow(
        verified_mint: &AccountView,
        accounts: &[AccountView],
        escrow_authority_pda: &Pubkey,
        escrow_ata: &Pubkey,
    ) -> (r: Result<(), ProgramError>)
        ensures
            r == spec_create_escrow_checks(*verified_mint, accounts@, escrow_authority_pda@, escrow_ata@),
    {
        if accounts.len() != 7 {
            return Err(ProgramError::NotEnoughAccountKeys);
        }
        verify_mint_keys_match(verified_mint, &accounts[3])?;
        verify_token22_program(&accounts[4])?;
        verify_associated_token_program(&accounts[5])?;
        verify_system_program(&accounts[6])?;
        verify_writable(&accounts[2])?;
        verify_writable(&accounts[1])?;
        verify_signer(&accounts[1])?;
        verify_account_not_initialized(&accounts[2])?;
        verify_pda_keys_match(&accounts[0].key, escrow_authority_pda)?;
        verify_pda_keys_match(&accounts[2].key, escrow_ata)?;
        Ok(())
    }

    /// The checks of closing the receipt of an action on a whole mint (see
    /// `spec_close_action_receipt_checks`).
    pub fn check_close_action_receipt(verified_mint: &AccountView, accounts: &[AccountView], receipt_pda: &Pubkey) -> (r: Result<(), ProgramError>)
        ensures
            r == spec_close_action_receipt_checks(*verified_mint, accounts@, receipt_pda@),
    {
        if accounts.len() != 3 {
            return Err(ProgramError::NotEnoughAccountKeys);
        }
        verify_mint_keys_match(verified_mint, &accounts[2])?;
        verify_writable(&accounts[1])?;
        verify_writable(&accounts[0])?;
        verify_account_initialized(&accounts[0])?;
        Receipt::from_account_info(&accounts[0])?;
        verify_pda_keys_match(&accounts[0].key, receipt_pda)?;
        Ok(())
    }

    /// The checks of closing a claim receipt up to reading the claim's proof (see
    /// `spec_close_claim_receipt_context`); gives the proof.
    pub fn check_close_claim_receipt(
        verified_mint: &AccountView,
        accounts: &[AccountView],
        action_id: u64,
        merkle_proof: Option<ProofData>,
    ) -> (r: Result<ProofData, ProgramError>)
        ensures
            proof_data_result_view(r) == spec_close_claim_receipt_context(*verified_mint, accounts@, action_id,
                match merkle_proof { Some(p) => Some(key_views(p@)), None => None }),
    {
        if accounts.len() != 5 {
            return Err(ProgramError::NotEnoughAccountKeys);
        }
        verify_mint_keys_match(verified_mint, &accounts[2])?;
        verify_writable(&accounts[1])?;
        verify_writable(&accounts[0])?;
        verify_account_initialized(&accounts[0])?;
        Receipt::from_account_info(&accounts[0])?;
        Proof::get_proof_data_from_instruction(&accounts[3].key, action_id, &accounts[4], merkle_proof)
    }
}

/// A split is done once: when its receipt account already holds the receipt that a split
/// writes, the split checks refuse it, so a second split of the same action fails.
pub proof fn lemma_split_receipt_blocks_repeat(
    verified_mint: AccountView,
    accounts: Seq<AccountView>,
    action_id: u64,
    permanent_delegate_pda: Seq<u8>,
    receipt_pda: Seq<u8>,
)
    requires
        accounts.len() == 9,
        accounts[6].data@ == seq![Receipt::spec_discriminator()] + (Receipt {}).spec_bytes_inner(),
    ensures
        spec_split_context(verified_mint, accounts, action_id, permanent_delegate_pda, receipt_pda) is Err,
{
}

/// A conversion is done once: when its receipt account already holds the receipt that a
/// conversion writes, the conversion checks refuse it.
pub proof fn lemma_convert_receipt_blocks_repeat(
    verified_mint: AccountView,
    accounts: Seq<AccountView>,
    action_id: u64,
    amount_to_convert: u64,
    permanent_delegate_pda: Seq<u8>,
    receipt_pda: Seq<u8>,
)
    requires
        accounts.len() == 11,
        accounts[8].data@ == seq![Receipt::spec_discriminator()] + (Receipt {}).spec_bytes_inner(),
    ensures
        spec_convert_context(verified_mint, accounts, action_id, amount_to_convert, permanent_delegate_pda, receipt_pda) is Err,
{
}

/// A claim is paid once: when its receipt account already holds the receipt that a claim
/// writes, the claim is refused.
pub proof fn lemma_claim_receipt_blocks_repeat(
    verified_mint: AccountView,
    accounts: Seq<AccountView>,
    args: ClaimDistributionArgs,
    receipt_pda: Seq<u8>,
    escrow_ata: Seq<u8>,
    permanent_delegate_pda: Seq<u8>,
)
    requires
        accounts.len() == 10,
        accounts[5].data@ == seq![Receipt::spec_discriminator()] + (Receipt {}).spec_bytes_inner(),
    ensures
        spec_claim_distribution(verified_mint, accounts, args, receipt_pda, escrow_ata, permanent_delegate_pda) is Err,
{
}

} // verus!
