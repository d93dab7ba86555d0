//! Mint authority accounts: the program address that holds the mint authority of a token.
use vstd::prelude::*;
use crate::bytes::{Pubkey, is_zero_key, read_pubkey, push_all, is_default_key};
use crate::constants::{PROGRAM_ID, SEED_MINT_AUTHORITY};
use crate::error::ProgramError;
use crate::modules::account_checks::{AccountView, verify_owner};
use crate::state::discriminator::{Discriminator, AccountSerialize, AccountDeserialize, SecurityTokenDiscriminators};
use crate::utils::{create_program_address, address_result_view, spec_checked_create_program_address, seed_views};

verus! {

/// The mint authority of a security token mint.
#[derive(Clone, Copy, Debug, PartialEq, Eq)]
pub struct MintAuthority {
    /// The mint
    pub mint: Pubkey,
    /// The account that created the mint
    pub mint_creator: Pubkey,
    /// Bump seed for PDA
    pub bump: u8,
}

impl MintAuthority {
    /// discriminator (1) + mint (32) + creator (32) + bump (1)
    pub const LEN: usize = 66;

    /// A mint authority that validation accepts: neither address is zero.
    pub open spec fn valid(self) -> bool {
        !is_zero_key(self.mint@) && !is_zero_key(self.mint_creator@)
    }

    /// The seeds of the authority's address, bump included.
    pub open spec fn spec_seeds(self) -> Seq<Seq<u8>> {
        seq![SEED_MINT_AUTHORITY@, self.mint@, self.mint_creator@, seq![self.bump]]
    }

    /// Build and validate a mint authority.
    pub fn new(mint: Pubkey, mint_creator: Pubkey, bump: u8) -> (r: Result<MintAuthority, ProgramError>)
        ensures
            r == (if (MintAuthority { mint, mint_creator, bump }).valid() {
                Ok::<MintAuthority, ProgramError>(MintAuthority { mint, mint_creator, bump })
            } else {
                Err(ProgramError::InvalidAccountData)
            }),
    {
        let config = MintAuthority { mint, mint_creator, bump };
        config.validate()?;
        Ok(config)
    }

    /// Check that neither address is zero.
    pub fn validate(&self) -> (r: Result<(), ProgramError>)
        ensures
            r == (if self.valid() { Ok(()) } else { Err(ProgramError::InvalidAccountData) }),
    {
        if is_default_key(&self.mint) {
            return Err(ProgramError::InvalidAccountData);
        }
        if is_default_key(&self.mint_creator) {
            return Err(ProgramError::InvalidAccountData);
        }
        Ok(())
    }

    /// The bump byte as a one-byte seed.
    pub fn bump_seed(&self) -> (r: [u8; 1])
        ensures
            r@ == seq![self.bump],
    {
        let r = [self.bump];
        assert(r@ =~= seq![self.bump]);
        r
    }

    /// The program address of this authority, from its seeds and bump.
    pub fn derive_pda(&self) -> (r: Result<Pubkey, ProgramError>)
        ensures
            address_result_view(r) == spec_checked_create_program_address(self.spec_seeds(), PROGRAM_ID@),
    {
        let bump = self.bump_seed();
        let s0: &[u8] = SEED_MINT_AUTHORITY.as_slice();
        let s1: &[u8] = self.mint.as_slice();
        let s2: &[u8] = self.mint_creator.as_slice();
        let s3: &[u8] = bump.as_slice();
        let seeds: [&[u8]; 4] = [s0, s1, s2, s3];
        assert(seeds@ =~= seq![s0, s1, s2, s3]);
        assert(seed_views(seeds@) =~= self.spec_seeds());
        create_program_address(seeds.as_slice(), &PROGRAM_ID)
    }
}

/// The mint, creator and bump of the mint authority stored in account data owned by
/// `owner`, with the errors of reading it.
pub open spec fn spec_mint_authority_fields(data: Seq<u8>, owner: Seq<u8>) -> Result<(Seq<u8>, Seq<u8>, u8), ProgramError> {
    if data.len() < 66 {
        Err(ProgramError::InvalidAccountData)
    } else if owner != PROGRAM_ID@ {
        Err(ProgramError::InvalidAccountOwner)
    } else if data[0] != 0 || is_zero_key(data.subrange(1, 33)) || is_zero_key(data.subrange(33, 65)) {
        Err(ProgramError::InvalidAccountData)
    } else {
        Ok((data.subrange(1, 33), data.subrange(33, 65), data[65]))
    }
}

impl MintAuthority {
    /// Read a mint authority from the first 66 bytes of its account: fewer bytes is
    /// invalid account data, another owner than the program an invalid owner.
    pub fn from_account_info(account_info: &AccountView) -> (r: Result<MintAuthority, ProgramError>)
        ensures
            account_info.data@.len() < 66 ==> r == Err::<MintAuthority, ProgramError>(ProgramError::InvalidAccountData),
            account_info.data@.len() >= 66 && account_info.owner@ != PROGRAM_ID@
                ==> r == Err::<MintAuthority, ProgramError>(ProgramError::InvalidAccountOwner),
            account_info.data@.len() >= 66 && account_info.owner@ == PROGRAM_ID@ ==> (
                if account_info.data@[0] != 0 {
                    r == Err::<MintAuthority, ProgramError>(ProgramError::InvalidAccountData)
                } else {
                    MintAuthority::spec_parses_inner(account_info.data@.subrange(1, 66), r)
                }),
            match r {
                Ok(m) => spec_mint_authority_fields(account_info.data@, account_info.owner@)
                    == Ok::<(Seq<u8>, Seq<u8>, u8), ProgramError>((m.mint@, m.mint_creator@, m.bump)),
                Err(e) => spec_mint_authority_fields(account_info.data@, account_info.owner@)
                    == Err::<(Seq<u8>, Seq<u8>, u8), ProgramError>(e),
            },
    {
        if account_info.data.len() < Self::LEN {
            return Err(ProgramError::InvalidAccountData);
        }
        verify_owner(account_info, &PROGRAM_ID)?;
        let head = vstd::slice::slice_subrange(account_info.data.as_slice(), 0, Self::LEN);
        assert(head@.drop_first() =~= account_info.data@.subrange(1, 66));
        assert(account_info.data@.subrange(1, 66).subrange(0, 32) =~= account_info.data@.subrange(1, 33));
        assert(account_info.data@.subrange(1, 66).subrange(32, 64) =~= account_info.data@.subrange(33, 65));
        Self::try_from_bytes(head)
    }
}

impl Discriminator for MintAuthority {
    open spec fn spec_discriminator() -> u8 {
        SecurityTokenDiscriminators::MintAuthorityDiscriminator.spec_to_u8()
    }

    fn discriminator() -> (r: u8) {
        SecurityTokenDiscriminators::MintAuthorityDiscriminator.to_u8()
    }
}

impl AccountSerialize for MintAuthority {
    open spec fn spec_bytes_inner(&self) -> Seq<u8> {
        self.mint@ + self.mint_creator@ + seq![self.bump]
    }

    fn to_bytes_inner(&self) -> (r: Vec<u8>) {
        let mut data: Vec<u8> = Vec::with_capacity(Self::LEN - 1);
        push_all(&mut data, self.mint.as_slice());
        push_all(&mut data, self.mint_creator.as_slice());
        data.push(self.bump);
        assert(data@ =~= self.spec_bytes_inner());
        data
    }
}

impl AccountDeserialize for MintAuthority {
    /// The mint, the creator and the bump from the first 65 bytes (later bytes are
    /// ignored); a short body or a zero address is invalid account data.
    open spec fn spec_parses_inner(data: Seq<u8>, r: Result<MintAuthority, ProgramError>) -> bool {
        if data.len() < 65 || is_zero_key(data.subrange(0, 32)) || is_zero_key(data.subrange(32, 64)) {
            r == Err::<MintAuthority, ProgramError>(ProgramError::InvalidAccountData)
        } else {
            r matches Ok(m) && m.mint@ == data.subrange(0, 32) && m.mint_creator@ == data.subrange(32, 64)
                && m.bump == data[64]
        }
    }

    fn try_from_bytes_inner(data: &[u8]) -> (r: Result<MintAuthority, ProgramError>) {
        if data.len() < Self::LEN - 1 {
            return Err(ProgramError::InvalidAccountData);
        }
        let mint = read_pubkey(data, 0);
        let mint_creator = read_pubkey(data, 32);
        let bump = data[64];
        let config = MintAuthority { mint, mint_creator, bump };
        config.validate()?;
        Ok(config)
    }
}

/// Writing a valid mint authority and reading the bytes back gives it back.
pub proof fn lemma_mint_authority_roundtrip(m: MintAuthority)
    requires
        m.valid(),
    ensures
        MintAuthority::spec_parses_inner(m.spec_bytes_inner(), Ok::<MintAuthority, ProgramError>(m)),
{
    let s = m.spec_bytes_inner();
    assert(s.subrange(0, 32) =~= m.mint@);
    assert(s.subrange(32, 64) =~= m.mint_creator@);
}

} // verus!
