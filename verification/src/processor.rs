//! How the program dispatches an instruction: which verification it needs and how its
//! arguments start.
use vstd::prelude::*;
use crate::bytes::{from_le64, read_u64};
use crate::constants::INSTRUCTION_ACCOUNTS_OFFSET;
use crate::error::ProgramError;
use crate::instruction::SecurityTokenInstruction;

verus! {

/// The verification an instruction needs before it runs.
#[derive(Clone, Copy, Debug, PartialEq, Eq, Structural)]
pub enum VerificationProfile {
    /// No verification.
    NoVerification,
    /// Approval by the configured verification programs.
    VerificationPrograms,
    /// Approval by the configured verification programs or by the mint authority.
    VerificationProgramsOrMintAuthority,
}

/// The program's instruction dispatcher.
pub struct Processor;

impl Processor {
    /// The verification each instruction needs: none to create a mint or to verify;
    /// programs or the mint authority to manage configs and metadata; programs for the
    /// token operations.
    pub open spec fn spec_verification_profile(instruction: SecurityTokenInstruction) -> VerificationProfile {
        match instruction {
            SecurityTokenInstruction::InitializeMint | SecurityTokenInstruction::Verify => VerificationProfile::NoVerification,
            SecurityTokenInstruction::InitializeVerificationConfig
            | SecurityTokenInstruction::UpdateVerificationConfig
            | SecurityTokenInstruction::TrimVerificationConfig
            | SecurityTokenInstruction::UpdateMetadata => VerificationProfile::VerificationProgramsOrMintAuthority,
            _ => VerificationProfile::VerificationPrograms,
        }
    }

    /// The verification an instruction needs.
    pub fn instruction_verification_profile(instruction: &SecurityTokenInstruction) -> (r: VerificationProfile)
        ensures
            r == Self::spec_verification_profile(*instruction),
    {
        match instruction {
            SecurityTokenInstruction::InitializeMint | SecurityTokenInstruction::Verify => VerificationProfile::NoVerification,
            SecurityTokenInstruction::InitializeVerificationConfig
            | SecurityTokenInstruction::UpdateVerificationConfig
            | SecurityTokenInstruction::TrimVerificationConfig
            | SecurityTokenInstruction::UpdateMetadata => VerificationProfile::VerificationProgramsOrMintAuthority,
            _ => VerificationProfile::VerificationPrograms,
        }
    }

    /// Where the instruction's own accounts start after verification: verified
    /// instructions are preceded by the mint, the verification account and the sysvar or
    /// signer.
    pub fn instruction_accounts_offset(profile: VerificationProfile) -> (r: usize)
        ensures
            r == (if profile == VerificationProfile::NoVerification { 0usize } else { 3usize }),
    {
        match profile {
            VerificationProfile::NoVerification => 0,
            _ => INSTRUCTION_ACCOUNTS_OFFSET,
        }
    }

    /// The amount that starts the arguments of a mint or burn: its first eight bytes,
    /// little-endian; fewer is invalid instruction data.
    pub fn parse_amount(args_data: &[u8]) -> (r: Result<u64, ProgramError>)
        ensures
            r == (if args_data@.len() < 8 {
                Err(ProgramError::InvalidInstructionData)
            } else {
                Ok(from_le64(args_data@.subrange(0, 8)))
            }),
    {
        if args_data.len() < 8 {
            return Err(ProgramError::InvalidInstructionData);
        }
        Ok(read_u64(args_data, 0))
    }
}

/// Which verification each instruction needs: creating a mint and verifying need none;
/// creating, updating and trimming a verification config and updating metadata may be
/// approved by the configured programs or by the mint's creator through the mint
/// authority (so the creator can set up the first config); every token operation needs
/// the configured programs.
pub proof fn lemma_verification_profile_table(i: SecurityTokenInstruction)
    ensures
        Processor::spec_verification_profile(i) == VerificationProfile::NoVerification
            <==> (i == SecurityTokenInstruction::InitializeMint || i == SecurityTokenInstruction::Verify),
        Processor::spec_verification_profile(i) == VerificationProfile::VerificationProgramsOrMintAuthority
            <==> (i == SecurityTokenInstruction::InitializeVerificationConfig
                || i == SecurityTokenInstruction::UpdateVerificationConfig
                || i == SecurityTokenInstruction::TrimVerificationConfig
                || i == SecurityTokenInstruction::UpdateMetadata),
        Processor::spec_verification_profile(i) == VerificationProfile::VerificationPrograms
            <==> (i == SecurityTokenInstruction::Mint || i == SecurityTokenInstruction::Burn
                || i == SecurityTokenInstruction::Pause || i == SecurityTokenInstruction::Resume
                || i == SecurityTokenInstruction::Freeze || i == SecurityTokenInstruction::Thaw
                || i == SecurityTokenInstruction::Transfer || i == SecurityTokenInstruction::CreateRateAccount
                || i == SecurityTokenInstruction::UpdateRateAccount || i == SecurityTokenInstruction::CloseRateAccount
                || i == SecurityTokenInstruction::Split || i == SecurityTokenInstruction::Convert),
{
}

} // verus!
