//! Arguments of the instruction that claims a share of a distribution.
use vstd::prelude::*;
use crate::bytes::{key_views, spec_key_list_bytes, push_key_list, all_32_bytes, le32, le64, from_le32, from_le64, is_zero_key, read_u32, read_u64, read_pubkey, push_u32, push_u64, push_all, lemma_le_roundtrips};
use crate::constants::ACTION_ID_LEN;
use crate::error::{ProgramError, map_ok};
use crate::instructions::rate_account::parse_action_id_argument;
use crate::merkle_tree_utils::{MerkleTreeRoot, ProofData};
use crate::state::proof_account::{
    ProofDataDeserializer, ProofDataValidator, spec_proof_data_from_bytes,
    valid_proof_nodes, lemma_proof_data_roundtrip,
};

verus! {

/// An optional proof with its nodes taken as byte sequences.
pub open spec fn optional_proof_view(p: Option<ProofData>) -> Option<Seq<Seq<u8>>> {
    match p {
        Some(v) => Some(key_views(v@)),
        None => None,
    }
}

/// The encoding of an optional proof: a flag byte (0 absent, 1 present), then the proof.
pub open spec fn spec_optional_proof_bytes(p: Option<Seq<Seq<u8>>>) -> Seq<u8> {
    match p {
        None => seq![0u8],
        Some(nodes) => seq![1u8] + spec_key_list_bytes(nodes),
    }
}

/// The optional proof that `data` (at least one byte) starts with: flag 0 is no proof
/// (later bytes are ignored), flag 1 is a proof of one to 32 non-zero nodes, other
/// flags are invalid instruction data; a malformed or invalid proof is an invalid argument.
pub open spec fn spec_parse_optional_proof(data: Seq<u8>) -> Result<Option<Seq<Seq<u8>>>, ProgramError> {
    if data[0] == 0 {
        Ok(None)
    } else if data[0] == 1 {
        match spec_proof_data_from_bytes(data.drop_first(), ProgramError::InvalidArgument) {
            Ok(nodes) => if valid_proof_nodes(nodes) {
                Ok(Some(nodes))
            } else {
                Err(ProgramError::InvalidArgument)
            },
            Err(e) => Err(e),
        }
    } else {
        Err(ProgramError::InvalidInstructionData)
    }
}

/// A valid optional proof: absent, or one to 32 non-zero nodes.
pub open spec fn valid_optional_proof(p: Option<Seq<Seq<u8>>>) -> bool {
    match p {
        None => true,
        Some(nodes) => valid_proof_nodes(nodes),
    }
}

/// Parsing the encoding of a valid optional proof, whatever follows it, gives it back.
pub proof fn lemma_optional_proof_roundtrip(p: Option<Seq<Seq<u8>>>, rest: Seq<u8>)
    requires
        valid_optional_proof(p),
        p matches Some(nodes) ==> all_32_bytes(nodes),
    ensures
        spec_parse_optional_proof(spec_optional_proof_bytes(p) + rest) == Ok::<Option<Seq<Seq<u8>>>, ProgramError>(p),
{
    if let Some(nodes) = p {
        let data = spec_optional_proof_bytes(p) + rest;
        assert(data.drop_first() =~= spec_key_list_bytes(nodes) + rest);
        lemma_proof_data_roundtrip(nodes, rest, ProgramError::InvalidArgument);
    }
}

/// Arguments to claim a distribution
#[derive(Clone, Debug)]
pub struct ClaimDistributionArgs {
    /// Action ID of the distribution
    pub action_id: u64,
    /// Amount the claimer is eligible for
    pub amount: u64,
    /// Root of the Merkle tree of eligible claims
    pub merkle_root: MerkleTreeRoot,
    /// Index of the claimer's leaf in the tree
    pub leaf_index: u32,
    /// The proof, when it is passed as an argument rather than in a proof account
    pub merkle_proof: Option<ProofData>,
}

impl ProofDataDeserializer for ClaimDistributionArgs {
    open spec fn spec_deserialize_error() -> ProgramError {
        ProgramError::InvalidArgument
    }

    fn error() -> (e: ProgramError) {
        ProgramError::InvalidArgument
    }
}

impl ProofDataValidator for ClaimDistributionArgs {
    open spec fn spec_validation_error() -> ProgramError {
        ProgramError::InvalidArgument
    }

    fn error() -> (e: ProgramError) {
        ProgramError::InvalidArgument
    }
}

impl ClaimDistributionArgs {
    /// action_id (8) + amount (8) + merkle root (32) + leaf index (4) + proof flag (1)
    pub const MIN_LEN: usize = 53;

    /// The fields, with the root and proof taken as byte sequences.
    pub open spec fn spec_fields(self) -> (u64, u64, Seq<u8>, u32, Option<Seq<Seq<u8>>>) {
        (self.action_id, self.amount, self.merkle_root@, self.leaf_index, optional_proof_view(self.merkle_proof))
    }

    /// Arguments that parsing accepts.
    pub open spec fn valid(self) -> bool {
        &&& self.action_id != 0
        &&& self.amount != 0
        &&& !is_zero_key(self.merkle_root@)
        &&& valid_optional_proof(optional_proof_view(self.merkle_proof))
    }

    /// The serialized arguments.
    pub open spec fn spec_to_bytes(self) -> Seq<u8> {
        le64(self.action_id) + le64(self.amount) + self.merkle_root@ + le32(self.leaf_index)
            + spec_optional_proof_bytes(optional_proof_view(self.merkle_proof))
    }

    /// The fields that `data` encodes.
    pub open spec fn spec_try_from_bytes(data: Seq<u8>) -> Result<(u64, u64, Seq<u8>, u32, Option<Seq<Seq<u8>>>), ProgramError> {
        if data.len() < 53 {
            Err(ProgramError::InvalidInstructionData)
        } else if from_le64(data.subrange(0, 8)) == 0 || from_le64(data.subrange(8, 16)) == 0
            || is_zero_key(data.subrange(16, 48)) {
            Err(ProgramError::InvalidArgument)
        } else {
            match spec_parse_optional_proof(data.subrange(52, data.len() as int)) {
                Ok(p) => Ok((
                    from_le64(data.subrange(0, 8)),
                    from_le64(data.subrange(8, 16)),
                    data.subrange(16, 48),
                    from_le32(data.subrange(48, 52)),
                    p,
                )),
                Err(e) => Err(e),
            }
        }
    }

    /// Parse the arguments.
    pub fn try_from_bytes(data: &[u8]) -> (r: Result<ClaimDistributionArgs, ProgramError>)
        ensures
            map_ok(r, |a: ClaimDistributionArgs| a.spec_fields()) == Self::spec_try_from_bytes(data@),
    {
        let len = data.len();
        if len < Self::MIN_LEN {
            return Err(ProgramError::InvalidInstructionData);
        }
        let action_id = parse_action_id_argument(vstd::slice::slice_subrange(data, 0, ACTION_ID_LEN))?;
        let amount = read_u64(data, 8);
        if amount == 0 {
            return Err(ProgramError::InvalidArgument);
        }
        let merkle_root = read_pubkey(data, 16);
        <Self as ProofDataValidator>::validate_non_zero_node(&merkle_root)?;
        let leaf_index = read_u32(data, 48);
        let flag = data[52];
        assert(data@.subrange(52, len as int)[0] == flag);
        let merkle_proof = if flag == 0 {
            None
        } else if flag == 1 {
            let rest = vstd::slice::slice_subrange(data, 53, len);
            assert(rest@ =~= data@.subrange(52, len as int).drop_first());
            let proof_data = Self::try_proof_data_from_bytes(rest)?;
            Self::validate_proof_data_len(&proof_data)?;
            Self::validate_proof_data(&proof_data)?;
            Some(proof_data)
        } else {
            return Err(ProgramError::InvalidInstructionData);
        };
        Ok(ClaimDistributionArgs { action_id, amount, merkle_root, leaf_index, merkle_proof })
    }

    /// Serialize the arguments.
    pub fn to_bytes_inner(&self) -> (r: Vec<u8>)
        ensures
            r@ == self.spec_to_bytes(),
    {
        let mut data: Vec<u8> = Vec::new();
        push_u64(&mut data, self.action_id);
        push_u64(&mut data, self.amount);
        push_all(&mut data, self.merkle_root.as_slice());
        push_u32(&mut data, self.leaf_index);
        match &self.merkle_proof {
            Some(proof) => {
                data.push(1u8);
                push_key_list(&mut data, proof);
            },
            None => {
                data.push(0u8);
            },
        }
        assert(data@ =~= self.spec_to_bytes());
        data
    }
}

/// Serializing claim arguments and parsing the bytes gives the fields back exactly when
/// they are valid, and an invalid argument otherwise; accepted fields are always valid.
/// (A proof of 2^32 nodes or more is left out: its count does not fit the four-byte
/// prefix.)
pub proof fn lemma_claim_distribution_args_roundtrip(a: ClaimDistributionArgs, data: Seq<u8>)
    requires
        a.merkle_proof matches Some(v) ==> v@.len() <= u32::MAX,
    ensures
        a.valid() ==> ClaimDistributionArgs::spec_try_from_bytes(a.spec_to_bytes())
            == Ok::<(u64, u64, Seq<u8>, u32, Option<Seq<Seq<u8>>>), ProgramError>(a.spec_fields()),
        !a.valid() ==> ClaimDistributionArgs::spec_try_from_bytes(a.spec_to_bytes())
            == Err::<(u64, u64, Seq<u8>, u32, Option<Seq<Seq<u8>>>), ProgramError>(ProgramError::InvalidArgument),
        ClaimDistributionArgs::spec_try_from_bytes(data) matches Ok((id, amount, root, _leaf, p))
            ==> id != 0 && amount != 0 && !is_zero_key(root) && valid_optional_proof(p),
{
    lemma_le_roundtrips();
    let s = a.spec_to_bytes();
    let p = optional_proof_view(a.merkle_proof);
    let tail = spec_optional_proof_bytes(p);
    assert(s.subrange(0, 8) =~= le64(a.action_id));
    assert(s.subrange(8, 16) =~= le64(a.amount));
    assert(s.subrange(16, 48) =~= a.merkle_root@);
    assert(s.subrange(48, 52) =~= le32(a.leaf_index));
    assert(s.subrange(52, s.len() as int) =~= tail);
    if let Some(nodes) = p {
        assert(all_32_bytes(nodes));
        assert(tail.drop_first() =~= spec_key_list_bytes(nodes) + Seq::<u8>::empty());
        if nodes.len() >= 1 {
            lemma_proof_data_roundtrip(nodes, Seq::empty(), ProgramError::InvalidArgument);
        }
    }
}

} // verus!
