//! The checks that select how the configured verification programs approve an
//! instruction.
use vstd::prelude::*;
use crate::bytes::key_eq;
use crate::constants::{PROGRAM_ID, TOKEN_2022_PROGRAM_ID, INSTRUCTIONS_SYSVAR_ID, SEED_VERIFICATION_CONFIG};
use crate::error::{ProgramError, SecurityTokenError, spec_error_code};
use crate::modules::account_checks::{AccountView, verify_instructions_sysvar, verify_owner};
use crate::modules::verification::VerificationModule;
use crate::state::verification::{VerificationConfig, spec_config_fields};
use crate::utils::spec_checked_create_program_address;

verus! {

/// How the configured programs approve an instruction.
#[derive(Clone, Copy, Debug, PartialEq, Eq, Structural)]
pub enum ProgramApproval {
    /// No program is configured: the instruction is approved.
    NoPrograms,
    /// The programs are called; the instruction's own accounts are all but the last this many.
    Cpi(usize),
    /// The programs must have been called earlier in the transaction.
    Introspection,
}

/// The checks of verification by programs, in order: the accounts start with mint,
/// config and instructions sysvar; the config must exist, belong to the program and be
/// for this instruction, the mint must belong to Token-2022, and the config must be at the
/// address derived from the mint, the instruction and its bump (else the invalid-config
/// error of the program). Then no programs approve at once; in CPI mode the instruction
/// accounts after the first three must include one per program (else not enough
/// accounts); otherwise the earlier instructions are looked at.
pub open spec fn spec_program_approval(accounts: Seq<AccountView>, ix_discriminator: u8) -> Result<ProgramApproval, ProgramError> {
    if accounts.len() < 3 {
        Err(ProgramError::NotEnoughAccountKeys)
    } else if accounts[1].data@.len() == 0 {
        Err(ProgramError::UninitializedAccount)
    } else if accounts[2].key@ != INSTRUCTIONS_SYSVAR_ID@ {
        Err(ProgramError::IncorrectProgramId)
    } else if accounts[1].owner@ != PROGRAM_ID@ || accounts[0].owner@ != TOKEN_2022_PROGRAM_ID@ {
        Err(ProgramError::InvalidAccountOwner)
    } else {
        match spec_config_fields(accounts[1].data@) {
            Err(e) => Err(e),
            Ok(f) => if f.0 != ix_discriminator {
                Err(ProgramError::InvalidAccountData)
            } else {
                match spec_checked_create_program_address(
                    seq![SEED_VERIFICATION_CONFIG@, accounts[0].key@, seq![f.0], seq![f.2]],
                    PROGRAM_ID@,
                ) {
                    Err(e) => Err(e),
                    Ok(a) => if a != accounts[1].key@ {
                        Err(ProgramError::Custom(spec_error_code(SecurityTokenError::InvalidVerificationConfigPda)))
                    } else if f.3.len() == 0 {
                        Ok(ProgramApproval::NoPrograms)
                    } else if f.1 {
                        if f.3.len() > accounts.len() - 3 {
                            Err(ProgramError::NotEnoughAccountKeys)
                        } else {
                            Ok(ProgramApproval::Cpi((accounts.len() - 3 - f.3.len()) as usize))
                        }
                    } else {
                        Ok(ProgramApproval::Introspection)
                    },
                }
            },
        }
    }
}

impl VerificationModule {
    /// Checks the accounts of verification by programs and decides how the configured
    /// programs approve (see `spec_program_approval`); gives the config too.
    pub fn check_verification_by_programs(
        accounts: &[AccountView],
        ix_discriminator: u8,
    ) -> (r: Result<(VerificationConfig, ProgramApproval), ProgramError>)
        ensures
            match r {
                Ok((c, a)) => spec_program_approval(accounts@, ix_discriminator) == Ok::<ProgramApproval, ProgramError>(a)
                    && spec_config_fields(accounts@[1].data@) == Ok::<(u8, bool, u8, Seq<Seq<u8>>), ProgramError>(c.fields()),
                Err(e) => spec_program_approval(accounts@, ix_discriminator) == Err::<ProgramApproval, ProgramError>(e),
            },
    {
        if accounts.len() < 3 {
            return Err(ProgramError::NotEnoughAccountKeys);
        }
        let mint_info = &accounts[0];
        let verification_config = &accounts[1];
        if verification_config.data.len() == 0 {
            return Err(ProgramError::UninitializedAccount);
        }
        verify_instructions_sysvar(&accounts[2])?;
        verify_owner(verification_config, &PROGRAM_ID)?;
        verify_owner(mint_info, &TOKEN_2022_PROGRAM_ID)?;
        let config = VerificationConfig::from_account_info(verification_config)?;
        if config.instruction_discriminator != ix_discriminator {
            return Err(ProgramError::InvalidAccountData);
        }
        let expected = config.derive_pda(&mint_info.key)?;
        if !key_eq(&verification_config.key, &expected) {
            return Err(SecurityTokenError::InvalidVerificationConfigPda.to_program_error());
        }
        if config.verification_programs.len() == 0 {
            return Ok((config, ProgramApproval::NoPrograms));
        }
        if config.cpi_mode {
            let count = Self::cpi_mode_target_account_count(config.verification_programs.len(), accounts.len() - 3)?;
            Ok((config, ProgramApproval::Cpi(count)))
        } else {
            Ok((config, ProgramApproval::Introspection))
        }
    }
}

} // verus!
