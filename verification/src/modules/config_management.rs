//! Decisions of the verification config instructions: creating, updating and trimming a
//! config, and the extra account metas the transfer hook reads.
use vstd::prelude::*;
use crate::bytes::{Pubkey, key_eq, key_views};
use crate::constants::{PROGRAM_ID, TOKEN_2022_PROGRAM_ID, SYSTEM_PROGRAM_ID, TRANSFER_HOOK_PROGRAM_ID, SEED_VERIFICATION_CONFIG};
use crate::error::ProgramError;
use crate::instructions::verification_config::{
    no_zero_key, InitializeVerificationConfigArgs, UpdateVerificationConfigArgs, TrimVerificationConfigArgs,
};
use crate::modules::account_checks::{
    AccountView, verify_mint_keys_match, verify_owner, verify_signer, verify_writable, verify_system_program,
    verify_transfer_hook_program, verify_pda_keys_match,
};
use crate::modules::verification::{VerificationModule, TrimPlan, spec_overwrite_programs};
use crate::state::verification::{VerificationConfig, spec_config_fields};
use crate::utils::spec_checked_create_program_address;

verus! {

/// The discriminant of the transfer instruction, whose config the transfer hook mirrors.
pub const TRANSFER_DISCRIMINATOR: u8 = 12;

/// The config account holds the config of the mint's instruction `discriminator`, at the
/// address derived from its seeds (else invalid account data), with the errors of reading
/// it. Gives the config's discriminant, CPI mode, bump and programs.
pub open spec fn spec_load_config(config: AccountView, mint: Seq<u8>, discriminator: u8) -> Result<(u8, bool, u8, Seq<Seq<u8>>), ProgramError> {
    match spec_config_fields(config.data@) {
        Err(e) => Err(e),
        Ok(f) => match spec_checked_create_program_address(
            seq![SEED_VERIFICATION_CONFIG@, mint, seq![f.0], seq![f.2]],
            PROGRAM_ID@,
        ) {
            Err(e) => Err(e),
            Ok(a) => if a != config.key@ || f.0 != discriminator {
                Err(ProgramError::InvalidAccountData)
            } else {
                Ok(f)
            },
        },
    }
}

/// Reads the config of the mint's instruction `discriminator` and checks its address.
fn load_config(config: &AccountView, mint: &Pubkey, discriminator: u8) -> (r: Result<VerificationConfig, ProgramError>)
    ensures
        match r {
            Ok(c) => spec_load_config(*config, mint@, discriminator) == Ok::<(u8, bool, u8, Seq<Seq<u8>>), ProgramError>(c.fields()),
            Err(e) => spec_load_config(*config, mint@, discriminator) == Err::<(u8, bool, u8, Seq<Seq<u8>>), ProgramError>(e),
        },
{
    let existing = VerificationConfig::from_account_info(config)?;
    let expected = existing.derive_pda(mint)?;
    if !key_eq(&config.key, &expected) {
        return Err(ProgramError::InvalidAccountData);
    }
    if config.data.len() == 0 {
        return Err(ProgramError::UninitializedAccount);
    }
    if existing.instruction_discriminator != discriminator {
        return Err(ProgramError::InvalidAccountData);
    }
    Ok(existing)
}

/// What creating a config does.
pub struct ConfigInitPlan {
    /// The config to store
    pub config: VerificationConfig,
    /// The size of the config account
    pub size: usize,
    /// The transfer hook's extra account metas are created too
    pub sync_transfer_hook: bool,
}

/// The checks of creating a config, in order: the accounts are payer, mint, config and
/// system program (extra accounts follow for the transfer hook); the config account must
/// be at the address derived for the mint and instruction (else invalid account data) and
/// must not exist yet.
pub open spec fn spec_initialize_config_checks(
    verified_mint: AccountView,
    accounts: Seq<AccountView>,
    config_pda: Seq<u8>,
) -> Result<(), ProgramError> {
    if accounts.len() < 4 {
        Err(ProgramError::NotEnoughAccountKeys)
    } else if accounts[1].key@ != verified_mint.key@ {
        Err(ProgramError::InvalidAccountData)
    } else if !accounts[0].is_signer {
        Err(ProgramError::MissingRequiredSignature)
    } else if !accounts[0].is_writable {
        Err(ProgramError::Immutable)
    } else if accounts[1].owner@ != TOKEN_2022_PROGRAM_ID@ {
        Err(ProgramError::InvalidAccountOwner)
    } else if accounts[3].key@ != SYSTEM_PROGRAM_ID@ {
        Err(ProgramError::IncorrectProgramId)
    } else if accounts[2].key@ != config_pda {
        Err(ProgramError::InvalidAccountData)
    } else if accounts[2].data@.len() > 0 {
        Err(ProgramError::AccountAlreadyInitialized)
    } else {
        Ok(())
    }
}

/// The outcome of creating a config: the account checks of `spec_initialize_config_checks`,
/// then the arguments, which may register at most ten programs and no zero address (else
/// an invalid argument).
pub open spec fn spec_initialize_config_outcome(
    verified_mint: AccountView,
    accounts: Seq<AccountView>,
    config_pda: Seq<u8>,
    args: InitializeVerificationConfigArgs,
) -> Result<(), ProgramError> {
    match spec_initialize_config_checks(verified_mint, accounts, config_pda) {
        Err(e) => Err(e),
        Ok(()) => if args.valid() {
            Ok(())
        } else {
            Err(ProgramError::InvalidArgument)
        },
    }
}

/// What updating a config does.
pub struct ConfigUpdatePlan {
    /// The updated config
    pub config: VerificationConfig,
    /// The size the updated config takes
    pub new_size: usize,
    /// The size of the config account now
    pub current_size: usize,
    /// The size the account grows to, funded by the payer, when the updated config takes
    /// more than the account holds; the account never shrinks on an update
    pub grow_to: Option<usize>,
    /// The transfer hook's extra account metas are updated too
    pub sync_transfer_hook: bool,
}

/// The size a config account has after an update: the larger of its size and the size of
/// the updated config.
pub open spec fn spec_size_after_update(current_size: int, new_size: int) -> int {
    if new_size > current_size { new_size } else { current_size }
}

/// The checks of updating a config, in order: the accounts are payer, mint, config and
/// system program (extra accounts follow for the transfer hook); gives the loaded config.
pub open spec fn spec_update_config_checks(
    verified_mint: AccountView,
    accounts: Seq<AccountView>,
    discriminator: u8,
) -> Result<(u8, bool, u8, Seq<Seq<u8>>), ProgramError> {
    if accounts.len() < 4 {
        Err(ProgramError::NotEnoughAccountKeys)
    } else if accounts[1].key@ != verified_mint.key@ {
        Err(ProgramError::InvalidAccountData)
    } else if accounts[2].owner@ != PROGRAM_ID@ {
        Err(ProgramError::InvalidAccountOwner)
    } else if !accounts[0].is_signer {
        Err(ProgramError::MissingRequiredSignature)
    } else if !accounts[0].is_writable {
        Err(ProgramError::Immutable)
    } else if accounts[1].owner@ != TOKEN_2022_PROGRAM_ID@ {
        Err(ProgramError::InvalidAccountOwner)
    } else if accounts[3].key@ != SYSTEM_PROGRAM_ID@ {
        Err(ProgramError::IncorrectProgramId)
    } else {
        spec_load_config(accounts[2], accounts[1].key@, discriminator)
    }
}

/// The config an update makes: after the account checks, the arguments must keep the
/// offset and the programs they write within the first ten slots and hold no zero address
/// (else an invalid argument); the config gets the new CPI mode, and the new programs
/// written from the offset on; a resulting zero program is invalid account data.
pub open spec fn spec_update_config_outcome(
    verified_mint: AccountView,
    accounts: Seq<AccountView>,
    args: UpdateVerificationConfigArgs,
) -> Result<(u8, bool, u8, Seq<Seq<u8>>), ProgramError> {
    match spec_update_config_checks(verified_mint, accounts, args.instruction_discriminator) {
        Err(e) => Err(e),
        Ok(f) => if !args.valid() {
            Err(ProgramError::InvalidArgument)
        } else {
            let programs = spec_overwrite_programs(f.3, args.offset as int, key_views(args.program_addresses@));
            if no_zero_key(programs) {
                Ok((f.0, args.cpi_mode, f.2, programs))
            } else {
                Err(ProgramError::InvalidAccountData)
            }
        },
    }
}

/// What trimming a config does to the account.
#[derive(Clone, Copy, Debug, PartialEq, Eq, Structural)]
pub enum TrimAction {
    /// Nothing changes.
    Unchanged,
    /// The shorter config is written into the account as it is.
    Rewrite,
    /// The account shrinks to the shorter config and the freed rent goes to the recipient.
    Shrink,
    /// The account is closed and its lamports go to the recipient.
    Close,
}

/// What trimming a config does.
pub struct ConfigTrimPlan {
    /// What happens to the account
    pub action: TrimAction,
    /// The config after trimming
    pub config: VerificationConfig,
    /// The size the trimmed config takes
    pub new_size: usize,
    /// The size of the config account now
    pub current_size: usize,
    /// The transfer hook's extra account metas are updated too
    pub sync_transfer_hook: bool,
}

/// The checks of trimming a config, in order: the accounts are mint, config, recipient and
/// system program (extra accounts follow for the transfer hook); gives the loaded config.
pub open spec fn spec_trim_config_checks(
    verified_mint: AccountView,
    accounts: Seq<AccountView>,
    discriminator: u8,
) -> Result<(u8, bool, u8, Seq<Seq<u8>>), ProgramError> {
    if accounts.len() < 4 {
        Err(ProgramError::NotEnoughAccountKeys)
    } else if accounts[0].key@ != verified_mint.key@ {
        Err(ProgramError::InvalidAccountData)
    } else if accounts[1].owner@ != PROGRAM_ID@ || accounts[0].owner@ != TOKEN_2022_PROGRAM_ID@ {
        Err(ProgramError::InvalidAccountOwner)
    } else if accounts[3].key@ != SYSTEM_PROGRAM_ID@ {
        Err(ProgramError::IncorrectProgramId)
    } else if !accounts[2].is_writable {
        Err(ProgramError::Immutable)
    } else {
        spec_load_config(accounts[1], accounts[0].key@, discriminator)
    }
}

/// What a trim does and the config it leaves: a size above the program count is an
/// invalid argument; closing keeps no program; a smaller size keeps the first programs and
/// shrinks the account when the shorter config takes less than the account holds, else
/// rewrites it; the same size changes nothing. The loaded config's instruction, CPI mode
/// and bump stay as they are.
pub open spec fn spec_trim_config_outcome(
    verified_mint: AccountView,
    accounts: Seq<AccountView>,
    args: TrimVerificationConfigArgs,
) -> Result<(TrimAction, (u8, bool, u8, Seq<Seq<u8>>)), ProgramError> {
    match spec_trim_config_checks(verified_mint, accounts, args.instruction_discriminator) {
        Err(e) => Err(e),
        Ok(f) => if args.size > f.3.len() {
            Err(ProgramError::InvalidArgument)
        } else if args.close {
            Ok((TrimAction::Close, (f.0, f.1, f.2, Seq::empty())))
        } else if args.size < f.3.len() {
            if 8 + 32 * args.size < accounts[1].data@.len() {
                Ok((TrimAction::Shrink, (f.0, f.1, f.2, f.3.subrange(0, args.size as int))))
            } else {
                Ok((TrimAction::Rewrite, (f.0, f.1, f.2, f.3.subrange(0, args.size as int))))
            }
        } else {
            Ok((TrimAction::Unchanged, f))
        },
    }
}

/// How the extra account metas account is funded.
#[derive(Clone, Copy, Debug, PartialEq, Eq, Structural)]
pub enum MetasRent {
    /// A new list: the payer funds the rent of its whole size.
    Full,
    /// A longer list: the payer funds the rent of the extra size.
    TopUp,
    /// The account already holds enough.
    Nothing,
}

/// The bytes an extra account metas account takes for `num_items` metas: the TLV header
/// (an 8-byte discriminator and a 4-byte length) saturating-added to the list, which is a
/// 4-byte count followed by the 35-byte metas; none where the list's size overflows.
pub open spec fn spec_extra_account_metas_size(num_items: nat) -> Option<usize> {
    if 35 * num_items + 4 <= usize::MAX {
        Some(if 35 * num_items + 16 <= usize::MAX { (35 * num_items + 16) as usize } else { usize::MAX })
    } else {
        None
    }
}

/// `ExtraAccountMetaList::size_of` of spl-tlv-account-resolution: the header's 12 bytes
/// (`TlvStateBorrowed::get_base_len`) saturating-added to `ListView::size_of`, which is
/// 35 bytes per meta (`ExtraAccountMeta` is `repr(C)` of a byte, 32 bytes and two one-byte
/// flags, alignment 1, so no padding) plus the 4-byte `U32` count, with checked arithmetic
/// whose overflow is an error. The claim is that result, with the error turned into `None`.
#[verifier::external_body]
fn extra_account_metas_size(num_items: usize) -> (r: Option<usize>)
    ensures
        r == spec_extra_account_metas_size(num_items as nat),
{
    spl_tlv_account_resolution::state::ExtraAccountMetaList::size_of(num_items).ok()
}

/// What writing the transfer hook's extra account metas does.
pub struct TransferHookMetasPlan {
    /// The addresses listed, in order: the config, then its programs
    pub metas: Vec<Pubkey>,
    /// The size of the account that holds the list
    pub new_account_size: usize,
    /// How the account is funded
    pub rent: MetasRent,
}

/// The checks of the transfer hook accounts, in order: the extra account metas account,
/// the transfer hook authority and the transfer hook program; the first two must be at
/// their derived addresses (else invalid seeds).
pub open spec fn spec_transfer_hook_accounts_check(
    hook_accounts: Seq<AccountView>,
    transfer_hook_pda: Seq<u8>,
    account_metas_pda: Seq<u8>,
) -> Result<(), ProgramError> {
    if hook_accounts.len() != 3 {
        Err(ProgramError::NotEnoughAccountKeys)
    } else if hook_accounts[2].key@ != TRANSFER_HOOK_PROGRAM_ID@ {
        Err(ProgramError::IncorrectProgramId)
    } else if hook_accounts[1].key@ != transfer_hook_pda || hook_accounts[0].key@ != account_metas_pda {
        Err(ProgramError::InvalidSeeds)
    } else {
        Ok(())
    }
}

impl VerificationModule {
    /// Decides the creation of a config, given the address derived for the mint and
    /// instruction and its bump (see `spec_initialize_config_outcome`).
    pub fn plan_initialize_verification_config(
        verified_mint: &AccountView,
        accounts: &[AccountView],
        args: &InitializeVerificationConfigArgs,
        config_pda: &Pubkey,
        bump: u8,
    ) -> (r: Result<ConfigInitPlan, ProgramError>)
        ensures
            match r {
                Ok(p) => {
                    &&& spec_initialize_config_outcome(*verified_mint, accounts@, config_pda@, *args) is Ok
                    &&& p.config.fields() == (args.instruction_discriminator, args.cpi_mode, bump, key_views(args.program_addresses@))
                    &&& p.size == 8 + 32 * args.program_addresses@.len()
                    &&& p.sync_transfer_hook == (args.instruction_discriminator == TRANSFER_DISCRIMINATOR)
                },
                Err(e) => spec_initialize_config_outcome(*verified_mint, accounts@, config_pda@, *args) == Err::<(), ProgramError>(e),
            },
    {
        if accounts.len() < 4 {
            return Err(ProgramError::NotEnoughAccountKeys);
        }
        let config_account = &accounts[2];
        verify_mint_keys_match(verified_mint, &accounts[1])?;
        verify_signer(&accounts[0])?;
        verify_writable(&accounts[0])?;
        verify_owner(&accounts[1], &TOKEN_2022_PROGRAM_ID)?;
        verify_system_program(&accounts[3])?;
        if !key_eq(&config_account.key, config_pda) {
            return Err(ProgramError::InvalidAccountData);
        }
        if config_account.data.len() > 0 {
            return Err(ProgramError::AccountAlreadyInitialized);
        }
        args.validate()?;
        let config = VerificationConfig::new(
            args.instruction_discriminator,
            args.cpi_mode,
            bump,
            args.program_addresses.as_slice(),
        )?;
        let size = config.serialized_size();
        Ok(ConfigInitPlan {
            config,
            size,
            sync_transfer_hook: args.instruction_discriminator == TRANSFER_DISCRIMINATOR,
        })
    }

    /// Decides the update of a config (see `spec_update_config_outcome`).
    pub fn plan_update_verification_config(
        verified_mint: &AccountView,
        accounts: &[AccountView],
        args: &UpdateVerificationConfigArgs,
    ) -> (r: Result<ConfigUpdatePlan, ProgramError>)
        ensures
            match r {
                Ok(p) => {
                    &&& spec_update_config_outcome(*verified_mint, accounts@, *args)
                        == Ok::<(u8, bool, u8, Seq<Seq<u8>>), ProgramError>(p.config.fields())
                    &&& p.new_size == 8 + 32 * p.config.programs().len()
                    &&& p.current_size == accounts@[2].data@.len()
                    &&& p.grow_to == (if p.new_size > p.current_size { Some(p.new_size) } else { None::<usize> })
                    &&& spec_size_after_update(p.current_size as int, p.new_size as int)
                        == (match p.grow_to { Some(n) => n as int, None => accounts@[2].data@.len() as int })
                    &&& p.sync_transfer_hook == (args.instruction_discriminator == TRANSFER_DISCRIMINATOR)
                },
                Err(e) => spec_update_config_outcome(*verified_mint, accounts@, *args)
                    == Err::<(u8, bool, u8, Seq<Seq<u8>>), ProgramError>(e),
            },
    {
        if accounts.len() < 4 {
            return Err(ProgramError::NotEnoughAccountKeys);
        }
        let config_account = &accounts[2];
        verify_mint_keys_match(verified_mint, &accounts[1])?;
        verify_owner(config_account, &PROGRAM_ID)?;
        verify_signer(&accounts[0])?;
        verify_writable(&accounts[0])?;
        verify_owner(&accounts[1], &TOKEN_2022_PROGRAM_ID)?;
        verify_system_program(&accounts[3])?;
        let mut config = load_config(config_account, &accounts[1].key, args.instruction_discriminator)?;
        proof {
            assert(config.programs().len() * 32 + 8 <= config_account.data@.len()) by {
                let data = config_account.data@;
                assert(data.subrange(4, data.len() as int).len() == data.len() - 4);
            }
        }
        let current_size = config_account.data.len();
        args.validate()?;
        let ghost old_len = config.verification_programs@.len();
        Self::apply_verification_config_update(&mut config, args)?;
        proof {
            assert(config.verification_programs@.len() == config.programs().len());
            assert(config.verification_programs@.len() <= old_len || config.verification_programs@.len() <= 10);
        }
        let new_size = config.serialized_size();
        let grow_to = if new_size > current_size { Some(new_size) } else { None };
        Ok(ConfigUpdatePlan {
            config,
            new_size,
            current_size,
            grow_to,
            sync_transfer_hook: args.instruction_discriminator == TRANSFER_DISCRIMINATOR,
        })
    }

    /// Decides the trim of a config (see `spec_trim_config_outcome`).
    pub fn plan_trim_verification_config(
        verified_mint: &AccountView,
        accounts: &[AccountView],
        args: &TrimVerificationConfigArgs,
    ) -> (r: Result<ConfigTrimPlan, ProgramError>)
        ensures
            match r {
                Ok(p) => {
                    &&& spec_trim_config_outcome(*verified_mint, accounts@, *args)
                        == Ok::<(TrimAction, (u8, bool, u8, Seq<Seq<u8>>)), ProgramError>((p.action, p.config.fields()))
                    &&& p.new_size == 8 + 32 * p.config.programs().len()
                    &&& p.current_size == accounts@[1].data@.len()
                    &&& p.sync_transfer_hook == ((p.action == TrimAction::Shrink || p.action == TrimAction::Close)
                        && args.instruction_discriminator == TRANSFER_DISCRIMINATOR)
                },
                Err(e) => spec_trim_config_outcome(*verified_mint, accounts@, *args)
                    == Err::<(TrimAction, (u8, bool, u8, Seq<Seq<u8>>)), ProgramError>(e),
            },
    {
        if accounts.len() < 4 {
            return Err(ProgramError::NotEnoughAccountKeys);
        }
        let config_account = &accounts[1];
        verify_mint_keys_match(verified_mint, &accounts[0])?;
        verify_owner(config_account, &PROGRAM_ID)?;
        verify_owner(&accounts[0], &TOKEN_2022_PROGRAM_ID)?;
        verify_system_program(&accounts[3])?;
        verify_writable(&accounts[2])?;
        let mut config = load_config(config_account, &accounts[0].key, args.instruction_discriminator)?;
        proof {
            assert(config.programs().len() * 32 + 8 <= config_account.data@.len()) by {
                let data = config_account.data@;
                assert(data.subrange(4, data.len() as int).len() == data.len() - 4);
            }
        }
        let current_size = config_account.data.len();
        let count = config.verification_programs.len();
        let action = match Self::plan_trim(count, args.size, args.close)? {
            TrimPlan::Close => {
                config.verification_programs = Vec::new();
                assert(config.programs() =~= Seq::<Seq<u8>>::empty());
                TrimAction::Close
            },
            TrimPlan::Unchanged => TrimAction::Unchanged,
            TrimPlan::Truncate => {
                let ghost before = config.programs();
                config.verification_programs.truncate(args.size as usize);
                assert(config.programs() =~= before.subrange(0, args.size as int));
                config.validate()?;
                if config.serialized_size() < current_size {
                    TrimAction::Shrink
                } else {
                    TrimAction::Rewrite
                }
            },
        };
        let new_size = config.serialized_size();
        let sync_transfer_hook = (action == TrimAction::Shrink || action == TrimAction::Close)
            && args.instruction_discriminator == TRANSFER_DISCRIMINATOR;
        Ok(ConfigTrimPlan { action, config, new_size, current_size, sync_transfer_hook })
    }

    /// Decides how the transfer hook's extra account metas are written: the accounts are
    /// checked against the derived addresses (see `spec_transfer_hook_accounts_check`),
    /// the list is the config followed by its programs, the account takes the size of that
    /// list (a size that overflows is invalid account data), and it is funded in full for a
    /// new list, or topped up when the new size exceeds what it holds.
    pub fn plan_transfer_hook_metas(
        hook_accounts: &[AccountView],
        transfer_hook_pda: &Pubkey,
        account_metas_pda: &Pubkey,
        config_pda: &Pubkey,
        programs: &[Pubkey],
        is_initialization: bool,
    ) -> (r: Result<TransferHookMetasPlan, ProgramError>)
        ensures
            match r {
                Ok(p) => {
                    &&& spec_transfer_hook_accounts_check(hook_accounts@, transfer_hook_pda@, account_metas_pda@) is Ok
                    &&& p.metas@ == seq![*config_pda] + programs@
                    &&& spec_extra_account_metas_size(programs@.len() + 1) == Some(p.new_account_size)
                    &&& p.rent == (if is_initialization {
                            MetasRent::Full
                        } else if p.new_account_size > hook_accounts@[0].data@.len() {
                            MetasRent::TopUp
                        } else {
                            MetasRent::Nothing
                        })
                },
                Err(e) => match spec_transfer_hook_accounts_check(hook_accounts@, transfer_hook_pda@, account_metas_pda@) {
                    Err(c) => e == c,
                    Ok(()) => e == ProgramError::InvalidAccountData && spec_extra_account_metas_size(programs@.len() + 1) is None,
                },
            },
    {
        if hook_accounts.len() != 3 {
            return Err(ProgramError::NotEnoughAccountKeys);
        }
        verify_transfer_hook_program(&hook_accounts[2])?;
        verify_pda_keys_match(transfer_hook_pda, &hook_accounts[1].key)?;
        verify_pda_keys_match(account_metas_pda, &hook_accounts[0].key)?;
        let mut metas: Vec<Pubkey> = Vec::new();
        metas.push(*config_pda);
        let mut i: usize = 0;
        while i < programs.len()
            invariant
                0 <= i <= programs@.len(),
                metas@ == seq![*config_pda] + programs@.subrange(0, i as int),
            decreases programs@.len() - i,
        {
            metas.push(programs[i]);
            assert(seq![*config_pda] + programs@.subrange(0, i + 1)
                =~= (seq![*config_pda] + programs@.subrange(0, i as int)).push(programs@[i as int]));
            i = i + 1;
        }
        assert(programs@.subrange(0, programs@.len() as int) =~= programs@);
        let new_account_size = match extra_account_metas_size(metas.len()) {
            Some(size) => size,
            None => return Err(ProgramError::InvalidAccountData),
        };
        let rent = if is_initialization {
            MetasRent::Full
        } else if new_account_size > hook_accounts[0].data.len() {
            MetasRent::TopUp
        } else {
            MetasRent::Nothing
        };
        Ok(TransferHookMetasPlan { metas, new_account_size, rent })
    }
}

} // verus!
