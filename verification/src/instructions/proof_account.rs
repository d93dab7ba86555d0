//! Arguments of the instructions that create and update proof accounts.
use vstd::prelude::*;
use crate::bytes::{key_views, spec_key_list_bytes, push_key_list, all_32_bytes, le32, le64, from_le32, from_le64, is_zero_key, read_u32, push_u32, push_u64, push_all, lemma_le_roundtrips};
use crate::constants::ACTION_ID_LEN;
use crate::error::{ProgramError, map_ok};
use crate::instructions::rate_account::parse_action_id_argument;
use crate::merkle_tree_utils::{ProofData, ProofNode, MERKLE_TREE_NODE_LEN};
use crate::state::proof_account::{
    ProofDataDeserializer, ProofDataValidator, spec_proof_data_from_bytes,
    all_nodes_non_zero, lemma_proof_data_roundtrip,
};

verus! {

/// Arguments to create a proof account
#[derive(Clone, Debug)]
pub struct CreateProofArgs {
    /// Action ID the proof belongs to
    pub action_id: u64,
    /// Merkle proof nodes
    pub data: ProofData,
}

impl ProofDataValidator for CreateProofArgs {
    open spec fn spec_validation_error() -> ProgramError {
        ProgramError::InvalidAccountData
    }

    fn error() -> (e: ProgramError) {
        ProgramError::InvalidAccountData
    }
}

impl ProofDataDeserializer for CreateProofArgs {
    open spec fn spec_deserialize_error() -> ProgramError {
        ProgramError::InvalidArgument
    }

    fn error() -> (e: ProgramError) {
        ProgramError::InvalidArgument
    }
}

impl CreateProofArgs {
    /// action_id (8 bytes) + node count (4 bytes)
    pub const MIN_LEN: usize = 12;

    /// The fields, with the nodes taken as byte sequences.
    pub open spec fn spec_fields(self) -> (u64, Seq<Seq<u8>>) {
        (self.action_id, key_views(self.data@))
    }

    /// The serialized arguments.
    pub open spec fn spec_to_bytes(self) -> Seq<u8> {
        le64(self.action_id) + spec_key_list_bytes(key_views(self.data@))
    }

    /// The fields that `data` encodes: a non-zero action identifier and a non-empty
    /// proof of non-zero nodes (malformed proof bytes are an invalid argument, a zero node
    /// invalid account data); bytes after the proof are ignored.
    pub open spec fn spec_try_from_bytes(data: Seq<u8>) -> Result<(u64, Seq<Seq<u8>>), ProgramError> {
        if data.len() < 12 {
            Err(ProgramError::InvalidInstructionData)
        } else if from_le64(data.subrange(0, 8)) == 0 {
            Err(ProgramError::InvalidArgument)
        } else {
            match spec_proof_data_from_bytes(data.subrange(8, data.len() as int), ProgramError::InvalidArgument) {
                Ok(nodes) => if all_nodes_non_zero(nodes) {
                    Ok((from_le64(data.subrange(0, 8)), nodes))
                } else {
                    Err(ProgramError::InvalidAccountData)
                },
                Err(e) => Err(e),
            }
        }
    }

    /// Parse the arguments.
    pub fn try_from_bytes(data: &[u8]) -> (r: Result<CreateProofArgs, ProgramError>)
        ensures
            map_ok(r, |a: CreateProofArgs| a.spec_fields()) == Self::spec_try_from_bytes(data@),
    {
        let len = data.len();
        if len < Self::MIN_LEN {
            return Err(ProgramError::InvalidInstructionData);
        }
        let action_id = parse_action_id_argument(vstd::slice::slice_subrange(data, 0, ACTION_ID_LEN))?;
        let proof_data = Self::try_proof_data_from_bytes(vstd::slice::slice_subrange(data, ACTION_ID_LEN, len))?;
        Self::validate_proof_data(&proof_data)?;
        Ok(CreateProofArgs { action_id, data: proof_data })
    }

    /// Serialize the arguments.
    pub fn to_bytes_inner(&self) -> (r: Vec<u8>)
        ensures
            r@ == self.spec_to_bytes(),
    {
        let mut data: Vec<u8> = Vec::new();
        push_u64(&mut data, self.action_id);
        push_key_list(&mut data, &self.data);
        data
    }
}

/// Serializing proof creation arguments with a non-zero action identifier and one or
/// more non-zero nodes (fewer than 2^32) and parsing the bytes gives the fields back.
pub proof fn lemma_create_proof_args_roundtrip(a: CreateProofArgs)
    requires
        a.action_id != 0,
        1 <= a.data@.len() <= u32::MAX,
        all_nodes_non_zero(key_views(a.data@)),
    ensures
        CreateProofArgs::spec_try_from_bytes(a.spec_to_bytes()) == Ok::<(u64, Seq<Seq<u8>>), ProgramError>(a.spec_fields()),
{
    lemma_le_roundtrips();
    let nodes = key_views(a.data@);
    assert(all_32_bytes(nodes));
    lemma_proof_data_roundtrip(nodes, Seq::empty(), ProgramError::InvalidArgument);
    let s = a.spec_to_bytes();
    assert(s.subrange(0, 8) =~= le64(a.action_id));
    assert(s.subrange(8, s.len() as int) =~= spec_key_list_bytes(nodes) + Seq::<u8>::empty());
}

/// Arguments to update one node of a proof account
#[derive(Clone, Copy, Debug, PartialEq, Eq)]
pub struct UpdateProofArgs {
    /// Action ID the proof belongs to
    pub action_id: u64,
    /// The new node
    pub data: ProofNode,
    /// Position of the node to replace; the proof length appends
    pub offset: u32,
}

impl ProofDataValidator for UpdateProofArgs {
    open spec fn spec_validation_error() -> ProgramError {
        ProgramError::InvalidAccountData
    }

    fn error() -> (e: ProgramError) {
        ProgramError::InvalidAccountData
    }
}

impl ProofDataDeserializer for UpdateProofArgs {
    open spec fn spec_deserialize_error() -> ProgramError {
        ProgramError::InvalidArgument
    }

    fn error() -> (e: ProgramError) {
        ProgramError::InvalidArgument
    }
}

impl UpdateProofArgs {
    /// action_id (8 bytes) + node (32 bytes) + offset (4 bytes)
    pub const LEN: usize = 44;

    /// The fields, with the node taken as a byte sequence.
    pub open spec fn spec_fields(self) -> (u64, Seq<u8>, u32) {
        (self.action_id, self.data@, self.offset)
    }

    /// The serialized arguments.
    pub open spec fn spec_to_bytes(self) -> Seq<u8> {
        le64(self.action_id) + self.data@ + le32(self.offset)
    }

    /// The fields that exactly 44 bytes encode: a non-zero action identifier (else an
    /// invalid argument) and a non-zero node (else invalid account data).
    pub open spec fn spec_try_from_bytes(data: Seq<u8>) -> Result<(u64, Seq<u8>, u32), ProgramError> {
        if data.len() != 44 {
            Err(ProgramError::InvalidInstructionData)
        } else if from_le64(data.subrange(0, 8)) == 0 {
            Err(ProgramError::InvalidArgument)
        } else if is_zero_key(data.subrange(8, 40)) {
            Err(ProgramError::InvalidAccountData)
        } else {
            Ok((from_le64(data.subrange(0, 8)), data.subrange(8, 40), from_le32(data.subrange(40, 44))))
        }
    }

    /// Parse the arguments.
    pub fn try_from_bytes(data: &[u8]) -> (r: Result<UpdateProofArgs, ProgramError>)
        ensures
            map_ok(r, |a: UpdateProofArgs| a.spec_fields()) == Self::spec_try_from_bytes(data@),
    {
        if data.len() != Self::LEN {
            return Err(ProgramError::InvalidInstructionData);
        }
        let action_id = parse_action_id_argument(vstd::slice::slice_subrange(data, 0, ACTION_ID_LEN))?;
        let node_bytes = vstd::slice::slice_subrange(data, ACTION_ID_LEN, ACTION_ID_LEN + MERKLE_TREE_NODE_LEN);
        let proof_node = match Self::try_proof_node_from_bytes(node_bytes) {
            Ok(n) => n,
            Err(e) => return Err(e),
        };
        assert(proof_node@ =~= data@.subrange(8, 40));
        Self::validate_proof_node_data(&proof_node)?;
        let offset = read_u32(data, 40);
        Ok(UpdateProofArgs { action_id, data: proof_node, offset })
    }

    /// Serialize the arguments.
    pub fn to_bytes_inner(&self) -> (r: Vec<u8>)
        ensures
            r@ == self.spec_to_bytes(),
    {
        let mut data: Vec<u8> = Vec::with_capacity(Self::LEN);
        push_u64(&mut data, self.action_id);
        push_all(&mut data, self.data.as_slice());
        push_u32(&mut data, self.offset);
        assert(data@ =~= self.spec_to_bytes());
        data
    }
}

/// Serializing proof update arguments with a non-zero action identifier and node and
/// parsing the bytes gives the fields back; accepted bytes are the serialization of what
/// was read.
pub proof fn lemma_update_proof_args_roundtrip(a: UpdateProofArgs, data: Seq<u8>)
    ensures
        UpdateProofArgs::spec_try_from_bytes(a.spec_to_bytes()) is Ok <==> (a.action_id != 0 && !is_zero_key(a.data@)),
        a.action_id != 0 && !is_zero_key(a.data@) ==> UpdateProofArgs::spec_try_from_bytes(a.spec_to_bytes())
            == Ok::<(u64, Seq<u8>, u32), ProgramError>(a.spec_fields()),
        UpdateProofArgs::spec_try_from_bytes(data) matches Ok((id, node, off)) ==> le64(id) + node + le32(off) == data,
{
    lemma_le_roundtrips();
    let s = a.spec_to_bytes();
    assert(s.subrange(0, 8) =~= le64(a.action_id));
    assert(s.subrange(8, 40) =~= a.data@);
    assert(s.subrange(40, 44) =~= le32(a.offset));
    if let Ok((id, node, off)) = UpdateProofArgs::spec_try_from_bytes(data) {
        assert(data.subrange(0, 8).len() == 8);
        assert(data.subrange(40, 44).len() == 4);
        assert(le64(id) + node + le32(off) =~= data);
    }
}

} // verus!
