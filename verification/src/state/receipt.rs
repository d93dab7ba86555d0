//! Receipt accounts: markers that an action has been carried out.
use vstd::prelude::*;
use crate::bytes::{Pubkey, le64};
use crate::constants::{PROGRAM_ID, SEED_RECEIPT_ACCOUNT};
use crate::error::ProgramError;
use crate::modules::account_checks::{AccountView, verify_owner};
use crate::state::discriminator::{Discriminator, AccountSerialize, AccountDeserialize, SecurityTokenDiscriminators};
use crate::utils::{pda_view, seed_views, spec_try_find_program_address, try_find_program_address};

verus! {

/// A receipt holds nothing but its discriminator.
#[derive(Debug)]
pub struct Receipt {}

impl Receipt {
    /// discriminator (1)
    pub const LEN: usize = 1;

    /// Build a receipt.
    pub fn new() -> (r: Result<Receipt, ProgramError>)
        ensures
            r is Ok,
    {
        Ok(Receipt {})
    }

    /// The address and bump of the receipt of an action that concerns a whole mint.
    pub fn find_common_action_pda(mint: &Pubkey, action_id: u64) -> (r: Option<(Pubkey, u8)>)
        ensures
            pda_view(r) == spec_try_find_program_address(seq![SEED_RECEIPT_ACCOUNT@, mint@, le64(action_id)], PROGRAM_ID@),
    {
        let id = vstd::bytes::u64_to_le_bytes(action_id);
        let s0: &[u8] = SEED_RECEIPT_ACCOUNT.as_slice();
        let s1: &[u8] = mint.as_slice();
        let s2: &[u8] = id.as_slice();
        let seeds: [&[u8]; 3] = [s0, s1, s2];
        assert(seeds@ =~= seq![s0, s1, s2]);
        assert(seed_views(seeds@) =~= seq![SEED_RECEIPT_ACCOUNT@, mint@, le64(action_id)]);
        try_find_program_address(seeds.as_slice(), &PROGRAM_ID)
    }

    /// The address and bump of the receipt of a distribution claim: its seeds are the
    /// mint, the claiming token account, the action and the hash that identifies the
    /// claim's Merkle proof.
    pub fn find_claim_action_pda(
        mint: &Pubkey,
        token_account: &Pubkey,
        action_id: u64,
        proof_hash: &[u8; 32],
    ) -> (r: Option<(Pubkey, u8)>)
        ensures
            pda_view(r) == spec_try_find_program_address(
                seq![SEED_RECEIPT_ACCOUNT@, mint@, token_account@, le64(action_id), proof_hash@],
                PROGRAM_ID@,
            ),
    {
        let id = vstd::bytes::u64_to_le_bytes(action_id);
        let s0: &[u8] = SEED_RECEIPT_ACCOUNT.as_slice();
        let s1: &[u8] = mint.as_slice();
        let s2: &[u8] = token_account.as_slice();
        let s3: &[u8] = id.as_slice();
        let s4: &[u8] = proof_hash.as_slice();
        let seeds: [&[u8]; 5] = [s0, s1, s2, s3, s4];
        assert(seeds@ =~= seq![s0, s1, s2, s3, s4]);
        assert(seed_views(seeds@) =~= seq![SEED_RECEIPT_ACCOUNT@, mint@, token_account@, le64(action_id), proof_hash@]);
        try_find_program_address(seeds.as_slice(), &PROGRAM_ID)
    }
}

impl Receipt {
    /// Read a receipt from its account: exactly one byte (else invalid account data),
    /// owned by the program (else an invalid owner), the receipt discriminator (else
    /// invalid account data).
    pub fn from_account_info(account_info: &AccountView) -> (r: Result<Receipt, ProgramError>)
        ensures
            r is Ok <==> account_info.data@.len() == 1 && account_info.owner@ == PROGRAM_ID@ && account_info.data@[0] == 3,
            account_info.data@.len() != 1 ==> r == Err::<Receipt, ProgramError>(ProgramError::InvalidAccountData),
            account_info.data@.len() == 1 && account_info.owner@ != PROGRAM_ID@
                ==> r == Err::<Receipt, ProgramError>(ProgramError::InvalidAccountOwner),
            account_info.data@.len() == 1 && account_info.owner@ == PROGRAM_ID@ && account_info.data@[0] != 3
                ==> r == Err::<Receipt, ProgramError>(ProgramError::InvalidAccountData),
    {
        if account_info.data.len() != Self::LEN {
            return Err(ProgramError::InvalidAccountData);
        }
        verify_owner(account_info, &PROGRAM_ID)?;
        Self::try_from_bytes(account_info.data.as_slice())
    }
}

impl Discriminator for Receipt {
    open spec fn spec_discriminator() -> u8 {
        SecurityTokenDiscriminators::ReceiptDiscriminator.spec_to_u8()
    }

    fn discriminator() -> (r: u8) {
        SecurityTokenDiscriminators::ReceiptDiscriminator.to_u8()
    }
}

impl AccountSerialize for Receipt {
    open spec fn spec_bytes_inner(&self) -> Seq<u8> {
        Seq::empty()
    }

    fn to_bytes_inner(&self) -> (r: Vec<u8>) {
        Vec::new()
    }
}

impl AccountDeserialize for Receipt {
    /// Any body is a receipt.
    open spec fn spec_parses_inner(data: Seq<u8>, r: Result<Receipt, ProgramError>) -> bool {
        r is Ok
    }

    fn try_from_bytes_inner(data: &[u8]) -> (r: Result<Receipt, ProgramError>) {
        Ok(Receipt {})
    }
}

} // verus!
