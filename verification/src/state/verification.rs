//! Verification config accounts: which programs must approve an instruction.
use vstd::prelude::*;
use crate::bytes::{
    Pubkey, key_views, all_32_bytes, spec_key_list_bytes, spec_key_list_from_bytes, parse_key_list, push_key_list,
    lemma_key_list_roundtrip,
};
use crate::constants::{PROGRAM_ID, SEED_VERIFICATION_CONFIG};
use crate::error::ProgramError;
use crate::modules::account_checks::AccountView;
use crate::utils::{create_program_address, address_result_view, spec_checked_create_program_address, seed_views};
use crate::instructions::verification_config::{no_zero_key, contains_zero_key};
use crate::state::discriminator::{Discriminator, AccountSerialize, AccountDeserialize, SecurityTokenDiscriminators};

verus! {

/// The verification programs configured for one instruction of a mint.
pub struct VerificationConfig {
    /// Discriminant of the instruction the config guards
    pub instruction_discriminator: u8,
    /// Whether verification programs are called (CPI) rather than looked up in the transaction
    pub cpi_mode: bool,
    /// Bump seed for PDA
    pub bump: u8,
    /// The verification programs
    pub verification_programs: Vec<Pubkey>,
}

impl VerificationConfig {
    /// account discriminator (1) + instruction discriminator (1) + cpi mode (1) + bump (1)
    /// + program count (4)
    pub const MIN_LEN: usize = 8;

    /// The programs as byte sequences.
    pub open spec fn programs(self) -> Seq<Seq<u8>> {
        key_views(self.verification_programs@)
    }

    /// A config that validation accepts: no program is the zero address.
    pub open spec fn valid(self) -> bool {
        no_zero_key(self.programs())
    }

    /// Build a config.
    pub fn new(
        instruction_discriminator: u8,
        cpi_mode: bool,
        bump: u8,
        verification_program_addresses: &[Pubkey],
    ) -> (r: Result<VerificationConfig, ProgramError>)
        ensures
            r matches Ok(c) && c.instruction_discriminator == instruction_discriminator && c.cpi_mode == cpi_mode
                && c.bump == bump && c.verification_programs@ == verification_program_addresses@,
    {
        Ok(VerificationConfig {
            instruction_discriminator,
            cpi_mode,
            bump,
            verification_programs: vstd::slice::slice_to_vec(verification_program_addresses),
        })
    }

    /// Check that no program is the zero address.
    pub fn validate(&self) -> (r: Result<(), ProgramError>)
        ensures
            r == (if self.valid() { Ok(()) } else { Err(ProgramError::InvalidAccountData) }),
    {
        if contains_zero_key(self.verification_programs.as_slice()) {
            return Err(ProgramError::InvalidAccountData);
        }
        Ok(())
    }

    /// Size of the serialized account.
    pub fn serialized_size(&self) -> (r: usize)
        requires
            8 + 32 * self.verification_programs@.len() <= usize::MAX,
        ensures
            r == 8 + 32 * self.verification_programs@.len(),
    {
        8 + self.verification_programs.len() * 32
    }

    /// The address of this config for a mint, from its seeds and bump.
    pub fn derive_pda(&self, mint: &Pubkey) -> (r: Result<Pubkey, ProgramError>)
        ensures
            address_result_view(r) == spec_checked_create_program_address(
                seq![SEED_VERIFICATION_CONFIG@, mint@, seq![self.instruction_discriminator], seq![self.bump]],
                PROGRAM_ID@,
            ),
    {
        let disc = [self.instruction_discriminator];
        let bump = [self.bump];
        let s0: &[u8] = SEED_VERIFICATION_CONFIG.as_slice();
        let s1: &[u8] = mint.as_slice();
        let s2: &[u8] = disc.as_slice();
        let s3: &[u8] = bump.as_slice();
        let seeds: [&[u8]; 4] = [s0, s1, s2, s3];
        assert(seeds@ =~= seq![s0, s1, s2, s3]);
        assert(disc@ =~= seq![self.instruction_discriminator]);
        assert(bump@ =~= seq![self.bump]);
        assert(seed_views(seeds@) =~= seq![SEED_VERIFICATION_CONFIG@, mint@, seq![self.instruction_discriminator], seq![self.bump]]);
        create_program_address(seeds.as_slice(), &PROGRAM_ID)
    }
}

/// The discriminant, CPI mode, bump and programs of the config in account data: the
/// config discriminator, the three bytes and a counted list of programs with no zero
/// address; anything else is invalid account data.
pub open spec fn spec_config_fields(data: Seq<u8>) -> Result<(u8, bool, u8, Seq<Seq<u8>>), ProgramError> {
    if data.len() < 8 || data[0] != 1 {
        Err(ProgramError::InvalidAccountData)
    } else {
        match spec_key_list_from_bytes(data.subrange(4, data.len() as int)) {
            Some(keys) => if no_zero_key(keys) {
                Ok((data[1], data[2] != 0, data[3], keys))
            } else {
                Err(ProgramError::InvalidAccountData)
            },
            None => Err(ProgramError::InvalidAccountData),
        }
    }
}

impl VerificationConfig {
    /// The discriminant, CPI mode, bump and programs.
    pub open spec fn fields(self) -> (u8, bool, u8, Seq<Seq<u8>>) {
        (self.instruction_discriminator, self.cpi_mode, self.bump, self.programs())
    }

    /// Read a config from its account data.
    pub fn from_account_info(account: &AccountView) -> (r: Result<VerificationConfig, ProgramError>)
        ensures
            account.data@.len() == 0 || account.data@[0] != 1 ==> r == Err::<VerificationConfig, ProgramError>(ProgramError::InvalidAccountData),
            account.data@.len() > 0 && account.data@[0] == 1 ==> VerificationConfig::spec_parses_inner(account.data@.drop_first(), r),
            match r {
                Ok(c) => spec_config_fields(account.data@) == Ok::<(u8, bool, u8, Seq<Seq<u8>>), ProgramError>(c.fields()),
                Err(e) => spec_config_fields(account.data@) == Err::<(u8, bool, u8, Seq<Seq<u8>>), ProgramError>(e),
            },
    {
        if account.data.len() >= 4 {
            assert(account.data@.drop_first().subrange(3, account.data@.len() - 1)
                =~= account.data@.subrange(4, account.data@.len() as int));
        }
        Self::try_from_bytes(account.data.as_slice())
    }
}

impl Discriminator for VerificationConfig {
    open spec fn spec_discriminator() -> u8 {
        SecurityTokenDiscriminators::VerificationConfigDiscriminator.spec_to_u8()
    }

    fn discriminator() -> (r: u8) {
        SecurityTokenDiscriminators::VerificationConfigDiscriminator.to_u8()
    }
}

impl AccountSerialize for VerificationConfig {
    open spec fn spec_bytes_inner(&self) -> Seq<u8> {
        seq![self.instruction_discriminator, if self.cpi_mode { 1u8 } else { 0u8 }, self.bump]
            + spec_key_list_bytes(self.programs())
    }

    fn to_bytes_inner(&self) -> (r: Vec<u8>) {
        let mut data: Vec<u8> = Vec::new();
        data.push(self.instruction_discriminator);
        data.push(if self.cpi_mode { 1u8 } else { 0u8 });
        data.push(self.bump);
        push_key_list(&mut data, &self.verification_programs);
        assert(data@ =~= self.spec_bytes_inner());
        data
    }
}

impl AccountDeserialize for VerificationConfig {
    /// Discriminant, CPI flag (non-zero is true), bump and the counted program list;
    /// a short or truncated body, or a zero program address, is invalid account data.
    open spec fn spec_parses_inner(data: Seq<u8>, r: Result<VerificationConfig, ProgramError>) -> bool {
        if data.len() < 7 {
            r == Err::<VerificationConfig, ProgramError>(ProgramError::InvalidAccountData)
        } else {
            match spec_key_list_from_bytes(data.subrange(3, data.len() as int)) {
                Some(keys) => if no_zero_key(keys) {
                    r matches Ok(c) && c.instruction_discriminator == data[0] && c.cpi_mode == (data[1] != 0)
                        && c.bump == data[2] && c.programs() == keys
                } else {
                    r == Err::<VerificationConfig, ProgramError>(ProgramError::InvalidAccountData)
                },
                None => r == Err::<VerificationConfig, ProgramError>(ProgramError::InvalidAccountData),
            }
        }
    }

    fn try_from_bytes_inner(data: &[u8]) -> (r: Result<VerificationConfig, ProgramError>) {
        let len = data.len();
        if len < Self::MIN_LEN - 1 {
            return Err(ProgramError::InvalidAccountData);
        }
        let instruction_discriminator = data[0];
        let cpi_mode = data[1] != 0;
        let bump = data[2];
        let verification_programs = match parse_key_list(vstd::slice::slice_subrange(data, 3, len)) {
            Some(v) => v,
            None => return Err(ProgramError::InvalidAccountData),
        };
        let config = VerificationConfig { instruction_discriminator, cpi_mode, bump, verification_programs };
        config.validate()?;
        Ok(config)
    }
}

/// Writing a valid config (fewer than 2^32 programs) and reading the bytes back gives the
/// same fields.
pub proof fn lemma_verification_config_roundtrip(c: VerificationConfig)
    requires
        c.valid(),
        c.verification_programs@.len() <= u32::MAX,
    ensures
        VerificationConfig::spec_parses_inner(c.spec_bytes_inner(), Ok::<VerificationConfig, ProgramError>(c)),
{
    let keys = c.programs();
    assert(all_32_bytes(keys));
    lemma_key_list_roundtrip(keys, Seq::empty());
    let s = c.spec_bytes_inner();
    assert(s.subrange(3, s.len() as int) =~= spec_key_list_bytes(keys) + Seq::<u8>::empty());
}

} // verus!
