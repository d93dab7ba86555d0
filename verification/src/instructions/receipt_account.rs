//! Arguments of the instruction that closes a claim receipt.
use vstd::prelude::*;
use crate::bytes::{spec_key_list_bytes, push_key_list, all_32_bytes, le64, from_le64, push_u64, lemma_le_roundtrips};
use crate::constants::ACTION_ID_LEN;
use crate::error::{ProgramError, map_ok};
use crate::instructions::rate_account::parse_action_id_argument;
use crate::instructions::claim_distribution::{
    optional_proof_view, spec_optional_proof_bytes, spec_parse_optional_proof, valid_optional_proof,
};
use crate::merkle_tree_utils::{ProofData};
use crate::state::proof_account::{
    ProofDataDeserializer, ProofDataValidator,
    lemma_proof_data_roundtrip,
};

verus! {

/// Arguments to close a claim receipt account
#[derive(Clone, Debug)]
pub struct CloseClaimReceiptArgs {
    /// Action ID of the distribution
    pub action_id: u64,
    /// The proof, when it is passed as an argument rather than in a proof account
    pub merkle_proof: Option<ProofData>,
}

impl ProofDataDeserializer for CloseClaimReceiptArgs {
    open spec fn spec_deserialize_error() -> ProgramError {
        ProgramError::InvalidArgument
    }

    fn error() -> (e: ProgramError) {
        ProgramError::InvalidArgument
    }
}

impl ProofDataValidator for CloseClaimReceiptArgs {
    open spec fn spec_validation_error() -> ProgramError {
        ProgramError::InvalidArgument
    }

    fn error() -> (e: ProgramError) {
        ProgramError::InvalidArgument
    }
}

impl CloseClaimReceiptArgs {
    /// action_id (8 bytes) + proof flag (1 byte)
    pub const MIN_LEN: usize = 9;

    /// The fields, with the proof taken as byte sequences.
    pub open spec fn spec_fields(self) -> (u64, Option<Seq<Seq<u8>>>) {
        (self.action_id, optional_proof_view(self.merkle_proof))
    }

    /// Arguments that parsing accepts.
    pub open spec fn valid(self) -> bool {
        self.action_id != 0 && valid_optional_proof(optional_proof_view(self.merkle_proof))
    }

    /// The serialized arguments.
    pub open spec fn spec_to_bytes(self) -> Seq<u8> {
        le64(self.action_id) + spec_optional_proof_bytes(optional_proof_view(self.merkle_proof))
    }

    /// The fields that `data` encodes: a non-zero action identifier and an optional proof.
    pub open spec fn spec_try_from_bytes(data: Seq<u8>) -> Result<(u64, Option<Seq<Seq<u8>>>), ProgramError> {
        if data.len() < 9 {
            Err(ProgramError::InvalidInstructionData)
        } else if from_le64(data.subrange(0, 8)) == 0 {
            Err(ProgramError::InvalidArgument)
        } else {
            match spec_parse_optional_proof(data.subrange(8, data.len() as int)) {
                Ok(p) => Ok((from_le64(data.subrange(0, 8)), p)),
                Err(e) => Err(e),
            }
        }
    }

    /// Parse the arguments.
    pub fn try_from_bytes(data: &[u8]) -> (r: Result<CloseClaimReceiptArgs, ProgramError>)
        ensures
            map_ok(r, |a: CloseClaimReceiptArgs| a.spec_fields()) == Self::spec_try_from_bytes(data@),
    {
        let len = data.len();
        if len < Self::MIN_LEN {
            return Err(ProgramError::InvalidInstructionData);
        }
        let action_id = parse_action_id_argument(vstd::slice::slice_subrange(data, 0, ACTION_ID_LEN))?;
        let flag = data[ACTION_ID_LEN];
        assert(data@.subrange(8, len as int)[0] == flag);
        let merkle_proof = if flag == 0 {
            None
        } else if flag == 1 {
            let rest = vstd::slice::slice_subrange(data, ACTION_ID_LEN + 1, len);
            assert(rest@ =~= data@.subrange(8, len as int).drop_first());
            let proof_data = Self::try_proof_data_from_bytes(rest)?;
            Self::validate_proof_data_len(&proof_data)?;
            Self::validate_proof_data(&proof_data)?;
            Some(proof_data)
        } else {
            return Err(ProgramError::InvalidInstructionData);
        };
        Ok(CloseClaimReceiptArgs { action_id, merkle_proof })
    }

    /// Serialize the arguments.
    pub fn to_bytes_inner(&self) -> (r: Vec<u8>)
        ensures
            r@ == self.spec_to_bytes(),
    {
        let mut data: Vec<u8> = Vec::new();
        push_u64(&mut data, self.action_id);
        match &self.merkle_proof {
            Some(proof) => {
                data.push(1u8);
                push_key_list(&mut data, proof);
            },
            None => {
                data.push(0u8);
            },
        }
        assert(data@ =~= self.spec_to_bytes());
        data
    }
}

/// Serializing receipt closing arguments and parsing the bytes gives the fields back
/// exactly when they are valid; accepted fields are always valid. (A proof of 2^32 nodes
/// or more is left out: its count does not fit the four-byte prefix.)
pub proof fn lemma_close_claim_receipt_args_roundtrip(a: CloseClaimReceiptArgs, data: Seq<u8>)
    requires
        a.merkle_proof matches Some(v) ==> v@.len() <= u32::MAX,
    ensures
        a.valid() ==> CloseClaimReceiptArgs::spec_try_from_bytes(a.spec_to_bytes())
            == Ok::<(u64, Option<Seq<Seq<u8>>>), ProgramError>(a.spec_fields()),
        !a.valid() ==> CloseClaimReceiptArgs::spec_try_from_bytes(a.spec_to_bytes()) is Err,
        CloseClaimReceiptArgs::spec_try_from_bytes(data) matches Ok((id, p)) ==> id != 0 && valid_optional_proof(p),
{
    lemma_le_roundtrips();
    let s = a.spec_to_bytes();
    let p = optional_proof_view(a.merkle_proof);
    let tail = spec_optional_proof_bytes(p);
    assert(s.subrange(0, 8) =~= le64(a.action_id));
    assert(s.subrange(8, s.len() as int) =~= tail);
    if let Some(nodes) = p {
        assert(all_32_bytes(nodes));
        assert(tail.drop_first() =~= spec_key_list_bytes(nodes) + Seq::<u8>::empty());
        if nodes.len() >= 1 {
            lemma_proof_data_roundtrip(nodes, Seq::empty(), ProgramError::InvalidArgument);
        }
    }
}

} // verus!
