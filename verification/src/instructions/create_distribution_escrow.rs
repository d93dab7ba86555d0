//! Arguments of the instruction that opens a distribution escrow.
use vstd::prelude::*;
use crate::bytes::{le64, from_le64, is_zero_key, read_pubkey, push_u64, push_all, is_default_key, lemma_le_roundtrips};
use crate::constants::ACTION_ID_LEN;
use crate::error::{ProgramError, map_ok};
use crate::instructions::rate_account::parse_action_id_argument;
use crate::merkle_tree_utils::{MerkleTreeRoot, MERKLE_ROOT_LEN};

verus! {

/// Arguments to create a distribution escrow for an action
#[derive(Clone, Copy, Debug, PartialEq, Eq)]
pub struct CreateDistributionEscrowArgs {
    /// Action ID of the distribution
    pub action_id: u64,
    /// Root of the Merkle tree of eligible claims
    pub merkle_root: MerkleTreeRoot,
}

impl CreateDistributionEscrowArgs {
    /// Fixed size: action_id (8 bytes) + merkle root (32 bytes)
    pub const LEN: usize = 40;

    /// The fields: action identifier and root bytes.
    pub open spec fn spec_fields(self) -> (u64, Seq<u8>) {
        (self.action_id, self.merkle_root@)
    }

    /// Arguments that parsing accepts: a non-zero action identifier and a non-zero root.
    pub open spec fn valid(self) -> bool {
        self.action_id != 0 && !is_zero_key(self.merkle_root@)
    }

    /// The serialized arguments.
    pub open spec fn spec_to_bytes(self) -> Seq<u8> {
        le64(self.action_id) + self.merkle_root@
    }

    /// The fields that exactly forty bytes encode; the action identifier and the root
    /// must be non-zero.
    pub open spec fn spec_try_from_bytes(data: Seq<u8>) -> Result<(u64, Seq<u8>), ProgramError> {
        if data.len() != 40 {
            Err(ProgramError::InvalidInstructionData)
        } else if from_le64(data.subrange(0, 8)) == 0 || is_zero_key(data.subrange(8, 40)) {
            Err(ProgramError::InvalidArgument)
        } else {
            Ok((from_le64(data.subrange(0, 8)), data.subrange(8, 40)))
        }
    }

    /// Parse the arguments.
    pub fn try_from_bytes(data: &[u8]) -> (r: Result<CreateDistributionEscrowArgs, ProgramError>)
        ensures
            map_ok(r, |a: CreateDistributionEscrowArgs| a.spec_fields()) == Self::spec_try_from_bytes(data@),
    {
        if data.len() != Self::LEN {
            return Err(ProgramError::InvalidInstructionData);
        }
        let action_id = parse_action_id_argument(vstd::slice::slice_subrange(data, 0, ACTION_ID_LEN))?;
        let merkle_root = read_pubkey(data, ACTION_ID_LEN);
        if is_default_key(&merkle_root) {
            return Err(ProgramError::InvalidArgument);
        }
        Ok(CreateDistributionEscrowArgs { action_id, merkle_root })
    }

    /// Serialize the arguments.
    pub fn to_bytes_inner(&self) -> (r: Vec<u8>)
        ensures
            r@ == self.spec_to_bytes(),
    {
        let mut data: Vec<u8> = Vec::with_capacity(ACTION_ID_LEN + MERKLE_ROOT_LEN);
        push_u64(&mut data, self.action_id);
        push_all(&mut data, self.merkle_root.as_slice());
        assert(data@ =~= self.spec_to_bytes());
        data
    }
}

/// Serializing escrow arguments and parsing the bytes gives the fields back exactly when
/// they are valid; accepted bytes are the serialization of what was read.
pub proof fn lemma_create_distribution_escrow_args_roundtrip(a: CreateDistributionEscrowArgs, data: Seq<u8>)
    ensures
        CreateDistributionEscrowArgs::spec_try_from_bytes(a.spec_to_bytes()) is Ok <==> a.valid(),
        a.valid() ==> CreateDistributionEscrowArgs::spec_try_from_bytes(a.spec_to_bytes())
            == Ok::<(u64, Seq<u8>), ProgramError>(a.spec_fields()),
        CreateDistributionEscrowArgs::spec_try_from_bytes(data) matches Ok((id, root))
            ==> id != 0 && !is_zero_key(root) && le64(id) + root == data,
{
    lemma_le_roundtrips();
    let s = a.spec_to_bytes();
    assert(s.subrange(0, 8) =~= le64(a.action_id));
    assert(s.subrange(8, 40) =~= a.merkle_root@);
    if let Ok((id, root)) = CreateDistributionEscrowArgs::spec_try_from_bytes(data) {
        assert(data.subrange(0, 8).len() == 8);
        assert(le64(id) + root =~= data);
    }
}

} // verus!
