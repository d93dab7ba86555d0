//! The program address that holds the tokens of a distribution until they are claimed.
use vstd::prelude::*;
use crate::bytes::{Pubkey, le64};
use crate::constants::{PROGRAM_ID, SEED_DISTRIBUTION_ESCROW_AUTHORITY};
use crate::merkle_tree_utils::MerkleTreeRoot;
use crate::utils::{pda_view, seed_views, spec_try_find_program_address, try_find_program_address};

verus! {

/// The authority of a distribution escrow; it holds no data.
pub struct DistributionEscrowAuthority {}

impl DistributionEscrowAuthority {
    /// The action identifier as a seed: its little-endian bytes.
    pub fn action_id_seed(action_id: u64) -> (r: [u8; 8])
        ensures
            r@ == le64(action_id),
    {
        let v = vstd::bytes::u64_to_le_bytes(action_id);
        proof {
            crate::bytes::lemma_le_roundtrips();
        }
        let r = [v[0], v[1], v[2], v[3], v[4], v[5], v[6], v[7]];
        assert(r@ =~= v@);
        r
    }

    /// The bump byte as a one-byte seed.
    pub fn bump_seed(bump: u8) -> (r: [u8; 1])
        ensures
            r@ == seq![bump],
    {
        let r = [bump];
        assert(r@ =~= seq![bump]);
        r
    }

    /// The address and bump of the escrow authority of a distribution.
    pub fn find_pda(mint: &Pubkey, action_id: u64, merkle_root: &MerkleTreeRoot) -> (r: Option<(Pubkey, u8)>)
        ensures
            pda_view(r) == spec_try_find_program_address(
                seq![SEED_DISTRIBUTION_ESCROW_AUTHORITY@, mint@, le64(action_id), merkle_root@],
                PROGRAM_ID@,
            ),
    {
        let id = Self::action_id_seed(action_id);
        let s0: &[u8] = SEED_DISTRIBUTION_ESCROW_AUTHORITY.as_slice();
        let s1: &[u8] = mint.as_slice();
        let s2: &[u8] = id.as_slice();
        let s3: &[u8] = merkle_root.as_slice();
        let seeds: [&[u8]; 4] = [s0, s1, s2, s3];
        assert(seeds@ =~= seq![s0, s1, s2, s3]);
        assert(seed_views(seeds@) =~= seq![SEED_DISTRIBUTION_ESCROW_AUTHORITY@, mint@, le64(action_id), merkle_root@]);
        try_find_program_address(seeds.as_slice(), &PROGRAM_ID)
    }
}

} // verus!
