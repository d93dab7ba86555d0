//! The first byte of every account of the program names its layout.
use vstd::prelude::*;
use crate::error::ProgramError;

verus! {

/// Trait for PDA-backed account types that expose a unique discriminator byte.
///
/// Every serialized account stores its discriminator as the very first byte so that
/// deserializers can quickly detect which concrete account layout should be used.
pub trait Discriminator {
    /// The discriminator byte of the layout.
    fn discriminator() -> (r: u8)
        ensures
            r == Self::spec_discriminator(),
    ;

    /// The discriminator byte of the layout.
    spec fn spec_discriminator() -> u8;
}

/// The account layouts of the program.
#[derive(Clone, Copy, Debug, PartialEq, Eq, Structural)]
pub enum SecurityTokenDiscriminators {
    /// `MintAuthority` accounts.
    MintAuthorityDiscriminator,
    /// `VerificationConfig` accounts.
    VerificationConfigDiscriminator,
    /// `Rate` accounts.
    RateDiscriminator,
    /// `Receipt` accounts.
    ReceiptDiscriminator,
    /// `Proof` accounts.
    ProofDiscriminator,
}

impl SecurityTokenDiscriminators {
    /// The byte of each layout.
    pub open spec fn spec_to_u8(self) -> u8 {
        match self {
            SecurityTokenDiscriminators::MintAuthorityDiscriminator => 0,
            SecurityTokenDiscriminators::VerificationConfigDiscriminator => 1,
            SecurityTokenDiscriminators::RateDiscriminator => 2,
            SecurityTokenDiscriminators::ReceiptDiscriminator => 3,
            SecurityTokenDiscriminators::ProofDiscriminator => 4,
        }
    }

    /// The byte of this layout.
    pub fn to_u8(&self) -> (r: u8)
        ensures
            r == self.spec_to_u8(),
    {
        match self {
            SecurityTokenDiscriminators::MintAuthorityDiscriminator => 0,
            SecurityTokenDiscriminators::VerificationConfigDiscriminator => 1,
            SecurityTokenDiscriminators::RateDiscriminator => 2,
            SecurityTokenDiscriminators::ReceiptDiscriminator => 3,
            SecurityTokenDiscriminators::ProofDiscriminator => 4,
        }
    }

    /// The layout named by `value`. Only the two layouts that instructions name by byte
    /// (mint authority and verification config) are decoded; every other byte is invalid
    /// instruction data.
    pub open spec fn spec_try_from(value: u8) -> Result<SecurityTokenDiscriminators, ProgramError> {
        if value == 0 {
            Ok(SecurityTokenDiscriminators::MintAuthorityDiscriminator)
        } else if value == 1 {
            Ok(SecurityTokenDiscriminators::VerificationConfigDiscriminator)
        } else {
            Err(ProgramError::InvalidInstructionData)
        }
    }

    /// Decodes a layout byte.
    pub fn try_from(value: u8) -> (r: Result<SecurityTokenDiscriminators, ProgramError>)
        ensures
            r == Self::spec_try_from(value),
    {
        match value {
            0 => Ok(SecurityTokenDiscriminators::MintAuthorityDiscriminator),
            1 => Ok(SecurityTokenDiscriminators::VerificationConfigDiscriminator),
            _ => Err(ProgramError::InvalidInstructionData),
        }
    }
}

/// Decoding the byte of a mint-authority or verification-config layout gives the layout
/// back, any decoded byte is the byte of its layout, and only bytes 0 and 1 decode.
pub proof fn lemma_discriminators_roundtrip(d: SecurityTokenDiscriminators, b: u8)
    ensures
        (d is MintAuthorityDiscriminator || d is VerificationConfigDiscriminator)
            ==> SecurityTokenDiscriminators::spec_try_from(d.spec_to_u8()) == Ok::<SecurityTokenDiscriminators, ProgramError>(d),
        SecurityTokenDiscriminators::spec_try_from(b) matches Ok(e) ==> e.spec_to_u8() == b,
        SecurityTokenDiscriminators::spec_try_from(b) is Ok <==> b <= 1,
{
}

/// Types whose accounts serialize to their discriminator followed by their body.
pub trait AccountSerialize: Discriminator {
    /// The serialized body, without the discriminator byte.
    spec fn spec_bytes_inner(&self) -> Seq<u8>;

    /// Serialize the struct body without the discriminator byte.
    fn to_bytes_inner(&self) -> (r: Vec<u8>)
        ensures
            r@ == self.spec_bytes_inner(),
    ;

    /// Serialize the account: its discriminator byte followed by its body.
    fn to_bytes(&self) -> (r: Vec<u8>)
        ensures
            r@ == seq![Self::spec_discriminator()] + self.spec_bytes_inner(),
    {
        let mut data: Vec<u8> = Vec::new();
        data.push(Self::discriminator());
        let inner = self.to_bytes_inner();
        crate::bytes::push_all(&mut data, inner.as_slice());
        data
    }
}

/// Types whose accounts are read back from their discriminator followed by their body.
pub trait AccountDeserialize: Discriminator + Sized {
    /// Whether `r` is what parsing the body bytes `data` (after the discriminator) gives.
    spec fn spec_parses_inner(data: Seq<u8>, r: Result<Self, ProgramError>) -> bool;

    /// Parse the body bytes (after the discriminator).
    fn try_from_bytes_inner(data: &[u8]) -> (r: Result<Self, ProgramError>)
        ensures
            Self::spec_parses_inner(data@, r),
    ;

    /// Parse an account: its first byte must be the layout's discriminator.
    fn try_from_bytes(data: &[u8]) -> (r: Result<Self, ProgramError>)
        ensures
            data@.len() == 0 || data@[0] != Self::spec_discriminator() ==> r == Err::<Self, ProgramError>(ProgramError::InvalidAccountData),
            data@.len() > 0 && data@[0] == Self::spec_discriminator() ==> Self::spec_parses_inner(data@.drop_first(), r),
    {
        if data.len() == 0 {
            return Err(ProgramError::InvalidAccountData);
        }
        if data[0] != Self::discriminator() {
            return Err(ProgramError::InvalidAccountData);
        }
        let rest = vstd::slice::slice_subrange(data, 1, data.len());
        assert(rest@ =~= data@.drop_first());
        Self::try_from_bytes_inner(rest)
    }
}

} // verus!
