//! Errors produced by the Security Token program.
use vstd::prelude::*;

verus! {

/// The error vocabulary of the Solana runtime that the program answers with.
#[derive(Clone, Copy, Debug, PartialEq, Eq, Structural)]
pub enum ProgramError {
    /// A program-specific error code.
    Custom(u32),
    /// An argument of the instruction was invalid.
    InvalidArgument,
    /// The instruction data was invalid.
    InvalidInstructionData,
    /// The data of an account was invalid.
    InvalidAccountData,
    /// The data of an account was too small.
    AccountDataTooSmall,
    /// Not enough funds.
    InsufficientFunds,
    /// A program id did not match the expected one.
    IncorrectProgramId,
    /// A required signature was missing.
    MissingRequiredSignature,
    /// The account was already initialized.
    AccountAlreadyInitialized,
    /// The account was not initialized.
    UninitializedAccount,
    /// Not enough accounts were passed.
    NotEnoughAccountKeys,
    /// A seed was too long.
    MaxSeedLengthExceeded,
    /// The seeds do not derive the expected address.
    InvalidSeeds,
    /// The account is not owned by the expected program.
    InvalidAccountOwner,
    /// An arithmetic operation overflowed.
    ArithmeticOverflow,
    /// The account is not writable.
    Immutable,
    /// The owner is not allowed.
    IllegalOwner,
}

/// Errors that are specific to the Security Token program.
#[derive(Clone, Copy, Debug, PartialEq, Eq, Structural)]
pub enum SecurityTokenError {
    /// Verification program not found
    VerificationProgramNotFound,
    /// Not enough accounts for verification
    NotEnoughAccountsForVerification,
    /// Account intersection mismatch
    AccountIntersectionMismatch,
    /// Invalid Verification Config PDA
    InvalidVerificationConfigPda,
    /// Cannot modify external metadata account
    CannotModifyExternalMetadataAccount,
    /// Internal metadata storage requires metadata to be provided
    InternalMetadataRequiresData,
    /// External metadata storage cannot accept metadata data in this instruction
    ExternalMetadataForbidsData,
}

/// The numeric code under which each program-specific error is reported.
pub open spec fn spec_error_code(e: SecurityTokenError) -> u32 {
    match e {
        SecurityTokenError::VerificationProgramNotFound => 1,
        SecurityTokenError::NotEnoughAccountsForVerification => 2,
        SecurityTokenError::AccountIntersectionMismatch => 3,
        SecurityTokenError::InvalidVerificationConfigPda => 4,
        SecurityTokenError::CannotModifyExternalMetadataAccount => 5,
        SecurityTokenError::InternalMetadataRequiresData => 6,
        SecurityTokenError::ExternalMetadataForbidsData => 7,
    }
}

impl SecurityTokenError {
    /// The numeric code of this error.
    pub fn code(&self) -> (r: u32)
        ensures
            r == spec_error_code(*self),
    {
        match self {
            SecurityTokenError::VerificationProgramNotFound => 1,
            SecurityTokenError::NotEnoughAccountsForVerification => 2,
            SecurityTokenError::AccountIntersectionMismatch => 3,
            SecurityTokenError::InvalidVerificationConfigPda => 4,
            SecurityTokenError::CannotModifyExternalMetadataAccount => 5,
            SecurityTokenError::InternalMetadataRequiresData => 6,
            SecurityTokenError::ExternalMetadataForbidsData => 7,
        }
    }

    /// The runtime error that reports this error: a custom error carrying its code.
    pub fn to_program_error(&self) -> (r: ProgramError)
        ensures
            r == ProgramError::Custom(spec_error_code(*self)),
    {
        ProgramError::Custom(self.code())
    }
}

/// Errors reported by the client of the program.
#[derive(Debug)]
pub enum SecurityTokenClientError {
    /// An error reported by the program, with its message.
    ProgramError(String),
    /// The data could not be read.
    InvalidData,
    /// The caller is not authorized.
    Unauthorized,
}

/// A result with its success value mapped by `f`.
pub open spec fn map_ok<T, U>(r: Result<T, ProgramError>, f: spec_fn(T) -> U) -> Result<U, ProgramError> {
    match r {
        Ok(v) => Ok(f(v)),
        Err(e) => Err(e),
    }
}

/// Distinct program-specific errors have distinct codes.
pub proof fn lemma_error_codes_distinct(a: SecurityTokenError, b: SecurityTokenError)
    ensures
        spec_error_code(a) == spec_error_code(b) <==> a == b,
{
}

} // verus!
