//! The instructions of the Security Token program and their discriminator bytes.
use vstd::prelude::*;
use crate::error::ProgramError;

verus! {

/// Security Token program instructions; each is identified by its discriminator byte,
/// the position in which it is listed here.
#[derive(Clone, Copy, Debug, PartialEq, Eq, Structural)]
pub enum SecurityTokenInstruction {
    /// Create a mint with its extensions.
    InitializeMint,
    /// Update the token metadata.
    UpdateMetadata,
    /// Create the verification configuration of an instruction.
    InitializeVerificationConfig,
    /// Update the verification configuration of an instruction.
    UpdateVerificationConfig,
    /// Shrink or close the verification configuration of an instruction.
    TrimVerificationConfig,
    /// Check an instruction against its verification programs.
    Verify,
    /// Mint tokens.
    Mint,
    /// Burn tokens.
    Burn,
    /// Pause the mint.
    Pause,
    /// Resume the mint.
    Resume,
    /// Freeze a token account.
    Freeze,
    /// Thaw a token account.
    Thaw,
    /// Transfer tokens.
    Transfer,
    /// Create a rate account.
    CreateRateAccount,
    /// Update a rate account.
    UpdateRateAccount,
    /// Close a rate account.
    CloseRateAccount,
    /// Split balances at a rate.
    Split,
    /// Convert tokens of one mint into another at a rate.
    Convert,
}

/// The number of instructions; discriminators are the bytes below it.
pub const INSTRUCTION_COUNT: u8 = 18;

impl SecurityTokenInstruction {
    /// The discriminator byte of the instruction.
    pub open spec fn spec_discriminant(self) -> u8 {
        match self {
            SecurityTokenInstruction::InitializeMint => 0,
            SecurityTokenInstruction::UpdateMetadata => 1,
            SecurityTokenInstruction::InitializeVerificationConfig => 2,
            SecurityTokenInstruction::UpdateVerificationConfig => 3,
            SecurityTokenInstruction::TrimVerificationConfig => 4,
            SecurityTokenInstruction::Verify => 5,
            SecurityTokenInstruction::Mint => 6,
            SecurityTokenInstruction::Burn => 7,
            SecurityTokenInstruction::Pause => 8,
            SecurityTokenInstruction::Resume => 9,
            SecurityTokenInstruction::Freeze => 10,
            SecurityTokenInstruction::Thaw => 11,
            SecurityTokenInstruction::Transfer => 12,
            SecurityTokenInstruction::CreateRateAccount => 13,
            SecurityTokenInstruction::UpdateRateAccount => 14,
            SecurityTokenInstruction::CloseRateAccount => 15,
            SecurityTokenInstruction::Split => 16,
            SecurityTokenInstruction::Convert => 17,
        }
    }

    /// The instruction whose discriminator is `value`, if any.
    pub open spec fn spec_from_discriminant(value: u8) -> Option<SecurityTokenInstruction> {
        if value == 0 {
            Some(SecurityTokenInstruction::InitializeMint)
        } else if value == 1 {
            Some(SecurityTokenInstruction::UpdateMetadata)
        } else if value == 2 {
            Some(SecurityTokenInstruction::InitializeVerificationConfig)
        } else if value == 3 {
            Some(SecurityTokenInstruction::UpdateVerificationConfig)
        } else if value == 4 {
            Some(SecurityTokenInstruction::TrimVerificationConfig)
        } else if value == 5 {
            Some(SecurityTokenInstruction::Verify)
        } else if value == 6 {
            Some(SecurityTokenInstruction::Mint)
        } else if value == 7 {
            Some(SecurityTokenInstruction::Burn)
        } else if value == 8 {
            Some(SecurityTokenInstruction::Pause)
        } else if value == 9 {
            Some(SecurityTokenInstruction::Resume)
        } else if value == 10 {
            Some(SecurityTokenInstruction::Freeze)
        } else if value == 11 {
            Some(SecurityTokenInstruction::Thaw)
        } else if value == 12 {
            Some(SecurityTokenInstruction::Transfer)
        } else if value == 13 {
            Some(SecurityTokenInstruction::CreateRateAccount)
        } else if value == 14 {
            Some(SecurityTokenInstruction::UpdateRateAccount)
        } else if value == 15 {
            Some(SecurityTokenInstruction::CloseRateAccount)
        } else if value == 16 {
            Some(SecurityTokenInstruction::Split)
        } else if value == 17 {
            Some(SecurityTokenInstruction::Convert)
        } else {
            None
        }
    }

    /// Decodes a discriminator byte; any byte that names no instruction is invalid instruction data.
    pub fn try_from(value: u8) -> (r: Result<SecurityTokenInstruction, ProgramError>)
        ensures
            r == (match Self::spec_from_discriminant(value) {
                Some(i) => Ok(i),
                None => Err(ProgramError::InvalidInstructionData),
            }),
    {
        match value {
            0 => Ok(SecurityTokenInstruction::InitializeMint),
            1 => Ok(SecurityTokenInstruction::UpdateMetadata),
            2 => Ok(SecurityTokenInstruction::InitializeVerificationConfig),
            3 => Ok(SecurityTokenInstruction::UpdateVerificationConfig),
            4 => Ok(SecurityTokenInstruction::TrimVerificationConfig),
            5 => Ok(SecurityTokenInstruction::Verify),
            6 => Ok(SecurityTokenInstruction::Mint),
            7 => Ok(SecurityTokenInstruction::Burn),
            8 => Ok(SecurityTokenInstruction::Pause),
            9 => Ok(SecurityTokenInstruction::Resume),
            10 => Ok(SecurityTokenInstruction::Freeze),
            11 => Ok(SecurityTokenInstruction::Thaw),
            12 => Ok(SecurityTokenInstruction::Transfer),
            13 => Ok(SecurityTokenInstruction::CreateRateAccount),
            14 => Ok(SecurityTokenInstruction::UpdateRateAccount),
            15 => Ok(SecurityTokenInstruction::CloseRateAccount),
            16 => Ok(SecurityTokenInstruction::Split),
            17 => Ok(SecurityTokenInstruction::Convert),
            _ => Err(ProgramError::InvalidInstructionData),
        }
    }

    /// Splits instruction data into the instruction named by its first byte and the
    /// argument bytes that follow.
    pub fn parse_instruction(instruction_data: &[u8]) -> (r: Result<(SecurityTokenInstruction, &[u8]), ProgramError>)
        ensures
            instruction_data@.len() == 0 ==> r == Err::<(SecurityTokenInstruction, &[u8]), ProgramError>(ProgramError::InvalidInstructionData),
            instruction_data@.len() > 0 ==> match Self::spec_from_discriminant(instruction_data@[0]) {
                Some(i) => r is Ok && r->Ok_0.0 == i && r->Ok_0.1@ == instruction_data@.drop_first(),
                None => r == Err::<(SecurityTokenInstruction, &[u8]), ProgramError>(ProgramError::InvalidInstructionData),
            },
    {
        if instruction_data.len() == 0 {
            return Err(ProgramError::InvalidInstructionData);
        }
        let instruction = Self::try_from(instruction_data[0])?;
        let args = vstd::slice::slice_subrange(instruction_data, 1, instruction_data.len());
        assert(args@ =~= instruction_data@.drop_first());
        Ok((instruction, args))
    }

    /// The discriminator byte of this instruction.
    pub fn discriminant(&self) -> (r: u8)
        ensures
            r == self.spec_discriminant(),
    {
        match self {
            SecurityTokenInstruction::InitializeMint => 0,
            SecurityTokenInstruction::UpdateMetadata => 1,
            SecurityTokenInstruction::InitializeVerificationConfig => 2,
            SecurityTokenInstruction::UpdateVerificationConfig => 3,
            SecurityTokenInstruction::TrimVerificationConfig => 4,
            SecurityTokenInstruction::Verify => 5,
            SecurityTokenInstruction::Mint => 6,
            SecurityTokenInstruction::Burn => 7,
            SecurityTokenInstruction::Pause => 8,
            SecurityTokenInstruction::Resume => 9,
            SecurityTokenInstruction::Freeze => 10,
            SecurityTokenInstruction::Thaw => 11,
            SecurityTokenInstruction::Transfer => 12,
            SecurityTokenInstruction::CreateRateAccount => 13,
            SecurityTokenInstruction::UpdateRateAccount => 14,
            SecurityTokenInstruction::CloseRateAccount => 15,
            SecurityTokenInstruction::Split => 16,
            SecurityTokenInstruction::Convert => 17,
        }
    }

    /// The instruction whose discriminator is `discriminant`, if any.
    pub fn from_discriminant(discriminant: u8) -> (r: Option<SecurityTokenInstruction>)
        ensures
            r == Self::spec_from_discriminant(discriminant),
    {
        match Self::try_from(discriminant) {
            Ok(i) => Some(i),
            Err(_) => None,
        }
    }
}

/// Decoding the discriminator of an instruction gives the instruction back.
pub proof fn lemma_discriminant_roundtrip(i: SecurityTokenInstruction)
    ensures
        SecurityTokenInstruction::spec_from_discriminant(i.spec_discriminant()) == Some(i),
        i.spec_discriminant() < INSTRUCTION_COUNT,
{
}

/// A byte decodes to an instruction exactly when it is below the instruction count,
/// and then the instruction's discriminator is that byte.
pub proof fn lemma_from_discriminant_exact(b: u8)
    ensures
        SecurityTokenInstruction::spec_from_discriminant(b) is Some <==> b < INSTRUCTION_COUNT,
        SecurityTokenInstruction::spec_from_discriminant(b) matches Some(i) ==> i.spec_discriminant() == b,
{
}

/// The documented discriminator bytes: each instruction is identified by its fixed byte,
/// from 0 for creating a mint to 17 for converting, and decoding that byte gives the
/// instruction.
pub proof fn lemma_documented_discriminants(i: SecurityTokenInstruction)
    ensures
        i == SecurityTokenInstruction::InitializeMint <==> i.spec_discriminant() == 0,
        i == SecurityTokenInstruction::UpdateMetadata <==> i.spec_discriminant() == 1,
        i == SecurityTokenInstruction::InitializeVerificationConfig <==> i.spec_discriminant() == 2,
        i == SecurityTokenInstruction::UpdateVerificationConfig <==> i.spec_discriminant() == 3,
        i == SecurityTokenInstruction::TrimVerificationConfig <==> i.spec_discriminant() == 4,
        i == SecurityTokenInstruction::Verify <==> i.spec_discriminant() == 5,
        i == SecurityTokenInstruction::Mint <==> i.spec_discriminant() == 6,
        i == SecurityTokenInstruction::Burn <==> i.spec_discriminant() == 7,
        i == SecurityTokenInstruction::Pause <==> i.spec_discriminant() == 8,
        i == SecurityTokenInstruction::Resume <==> i.spec_discriminant() == 9,
        i == SecurityTokenInstruction::Freeze <==> i.spec_discriminant() == 10,
        i == SecurityTokenInstruction::Thaw <==> i.spec_discriminant() == 11,
        i == SecurityTokenInstruction::Transfer <==> i.spec_discriminant() == 12,
        i == SecurityTokenInstruction::CreateRateAccount <==> i.spec_discriminant() == 13,
        i == SecurityTokenInstruction::UpdateRateAccount <==> i.spec_discriminant() == 14,
        i == SecurityTokenInstruction::CloseRateAccount <==> i.spec_discriminant() == 15,
        i == SecurityTokenInstruction::Split <==> i.spec_discriminant() == 16,
        i == SecurityTokenInstruction::Convert <==> i.spec_discriminant() == 17,
        SecurityTokenInstruction::spec_from_discriminant(i.spec_discriminant()) == Some(i),
{
}

} // verus!
