//! Proof account state: a Merkle proof stored on chain for a later claim.
use vstd::prelude::*;
use crate::bytes::{
    key_views, all_32_bytes, is_zero_key, read_pubkey, is_default_key, spec_key_list_bytes, spec_key_list_from_bytes,
    parse_key_list, push_key_list, lemma_flatten_keys, lemma_key_list_roundtrip, lemma_le_roundtrips,
};
use crate::bytes::{Pubkey, le64, key_eq};
use crate::constants::{PROGRAM_ID, SEED_PROOF_ACCOUNT};
use crate::error::ProgramError;
use crate::modules::account_checks::{AccountView, verify_owner, verify_account_initialized, verify_pda_keys_match};
use crate::utils::{
    create_program_address, address_result_view, spec_checked_create_program_address, seed_views, pda_view,
    spec_try_find_program_address, try_find_program_address,
};
use crate::merkle_tree_utils::{ProofData, ProofNode, MerkleTreeNode, MAX_PROOF_LEVELS, MERKLE_TREE_NODE_LEN};
use crate::state::discriminator::{Discriminator, AccountSerialize, AccountDeserialize, SecurityTokenDiscriminators};

verus! {

/// No node of `nodes` is all zero.
pub open spec fn all_nodes_non_zero(nodes: Seq<Seq<u8>>) -> bool {
    forall|i: int| 0 <= i < nodes.len() ==> !is_zero_key(#[trigger] nodes[i])
}

/// A proof that validation accepts: one to 32 nodes, none of them zero.
pub open spec fn valid_proof_nodes(nodes: Seq<Seq<u8>>) -> bool {
    &&& 1 <= nodes.len() <= 32
    &&& all_nodes_non_zero(nodes)
}

/// The proof nodes that `data` starts with: a little-endian `u32` count `n`, which must
/// not be zero, followed by at least `n` 32-byte nodes; later bytes are ignored. Any
/// failure is reported as `err`.
pub open spec fn spec_proof_data_from_bytes(data: Seq<u8>, err: ProgramError) -> Result<Seq<Seq<u8>>, ProgramError> {
    match spec_key_list_from_bytes(data) {
        Some(nodes) => if nodes.len() == 0 { Err(err) } else { Ok(nodes) },
        None => Err(err),
    }
}

/// A parse result with its nodes taken as byte sequences.
pub open spec fn proof_data_result_view(r: Result<ProofData, ProgramError>) -> Result<Seq<Seq<u8>>, ProgramError> {
    match r {
        Ok(v) => Ok(key_views(v@)),
        Err(e) => Err(e),
    }
}

/// Parses proof nodes, reporting any failure as `err`.
pub fn parse_proof_data(data: &[u8], err: ProgramError) -> (r: Result<ProofData, ProgramError>)
    ensures
        proof_data_result_view(r) == spec_proof_data_from_bytes(data@, err),
{
    match parse_key_list(data) {
        Some(nodes) => if nodes.len() == 0 { Err(err) } else { Ok(nodes) },
        None => Err(err),
    }
}

/// Parsing the encoding of a non-empty list of fewer than 2^32 nodes of 32 bytes,
/// whatever follows it, gives the nodes back.
pub proof fn lemma_proof_data_roundtrip(nodes: Seq<Seq<u8>>, rest: Seq<u8>, err: ProgramError)
    requires
        all_32_bytes(nodes),
        1 <= nodes.len() <= u32::MAX,
    ensures
        spec_proof_data_from_bytes(spec_key_list_bytes(nodes) + rest, err) == Ok::<Seq<Seq<u8>>, ProgramError>(nodes),
{
    lemma_key_list_roundtrip(nodes, rest);
}

/// Parsing of Merkle proof nodes, for the types that carry them; each type names the
/// error that a malformed proof gives.
pub trait ProofDataDeserializer {
    /// The error reported for malformed proof bytes.
    spec fn spec_deserialize_error() -> ProgramError;

    /// The error reported for malformed proof bytes.
    fn error() -> (e: ProgramError)
        ensures
            e == Self::spec_deserialize_error(),
    ;

    /// Parse proof nodes: a `u32` count followed by that many 32-byte nodes.
    fn try_proof_data_from_bytes(data: &[u8]) -> (r: Result<ProofData, ProgramError>)
        ensures
            proof_data_result_view(r) == spec_proof_data_from_bytes(data@, Self::spec_deserialize_error()),
    {
        parse_proof_data(data, Self::error())
    }

    /// Deserialize a single Proof node from bytes
    fn try_proof_node_from_bytes(data: &[u8]) -> (r: Result<ProofNode, ProgramError>)
        requires
            data@.len() >= 32,
        ensures
            r matches Ok(node) && node@ == data@.subrange(0, 32),
    {
        Ok(read_pubkey(data, 0))
    }
}

/// Validation of Merkle proof nodes, for the types that carry them; each type names the
/// error that an invalid proof gives.
pub trait ProofDataValidator {
    /// The error reported for an invalid proof.
    spec fn spec_validation_error() -> ProgramError;

    /// The error reported for an invalid proof.
    fn error() -> (e: ProgramError)
        ensures
            e == Self::spec_validation_error(),
    ;

    /// Validate proof data length is within valid bounds
    fn validate_proof_data_len(data: &ProofData) -> (r: Result<(), ProgramError>)
        ensures
            r == (if 1 <= data@.len() <= 32 { Ok(()) } else { Err(Self::spec_validation_error()) }),
    {
        if data.len() == 0 {
            return Err(Self::error());
        }
        if data.len() > MAX_PROOF_LEVELS {
            return Err(Self::error());
        }
        Ok(())
    }

    /// Validate all proof nodes are non-zero
    fn validate_proof_data(proof_data: &ProofData) -> (r: Result<(), ProgramError>)
        ensures
            r == (if all_nodes_non_zero(key_views(proof_data@)) { Ok(()) } else { Err(Self::spec_validation_error()) }),
    {
        let mut i: usize = 0;
        while i < proof_data.len()
            invariant
                0 <= i <= proof_data@.len(),
                forall|j: int| 0 <= j < i ==> !is_zero_key(#[trigger] key_views(proof_data@)[j]),
            decreases proof_data@.len() - i,
        {
            let node: &[u8; 32] = &proof_data[i];
            if Self::is_zero_node(node) {
                assert(is_zero_key(key_views(proof_data@)[i as int]));
                return Err(Self::error());
            }
            i = i + 1;
        }
        Ok(())
    }

    /// Validate given proof node is non-zero
    fn validate_proof_node_data(proof_node: &ProofNode) -> (r: Result<(), ProgramError>)
        ensures
            r == (if is_zero_key(proof_node@) { Err(Self::spec_validation_error()) } else { Ok(()) }),
    {
        Self::validate_non_zero_node(proof_node)
    }

    /// Validate non-zero node
    fn validate_non_zero_node(node: &MerkleTreeNode) -> (r: Result<(), ProgramError>)
        ensures
            r == (if is_zero_key(node@) { Err(Self::spec_validation_error()) } else { Ok(()) }),
    {
        if Self::is_zero_node(node) {
            return Err(Self::error());
        }
        Ok(())
    }

    /// Whether a node is all zero.
    fn is_zero_node(node: &ProofNode) -> (r: bool)
        ensures
            r == is_zero_key(node@),
    {
        is_default_key(node)
    }
}

/// A Merkle proof kept in an account of the program.
#[derive(Debug)]
pub struct Proof {
    /// Bump seed for PDA
    pub bump: u8,
    /// Merkle proof data
    pub data: ProofData,
}

impl ProofDataValidator for Proof {
    open spec fn spec_validation_error() -> ProgramError {
        ProgramError::InvalidAccountData
    }

    fn error() -> (e: ProgramError) {
        ProgramError::InvalidAccountData
    }
}

impl ProofDataDeserializer for Proof {
    open spec fn spec_deserialize_error() -> ProgramError {
        ProgramError::InvalidAccountData
    }

    fn error() -> (e: ProgramError) {
        ProgramError::InvalidAccountData
    }
}

impl Proof {
    /// Size of the node count that precedes the nodes.
    pub const VEC_LEN_PREFIX: usize = 4;

    /// Minimum size without any data
    /// Discriminator (1 byte) + bump (1 byte) + vector length prefix (4 bytes)
    pub const MIN_LEN: usize = 6;

    /// The nodes of the proof as byte sequences.
    pub open spec fn nodes(self) -> Seq<Seq<u8>> {
        key_views(self.data@)
    }

    /// A proof that validation accepts.
    pub open spec fn valid(self) -> bool {
        valid_proof_nodes(self.nodes())
    }

    /// Calculate the actual size needed for serialization
    pub fn serialized_len(&self) -> (r: usize)
        requires
            6 + 32 * self.data@.len() <= usize::MAX,
        ensures
            r == 6 + 32 * self.data@.len(),
    {
        Self::MIN_LEN + self.data.len() * MERKLE_TREE_NODE_LEN
    }

    /// Create new Proof account
    pub fn new(data: &[ProofNode], bump: u8) -> (r: Result<Proof, ProgramError>)
        ensures
            r is Ok <==> valid_proof_nodes(key_views(data@)),
            r matches Ok(p) ==> p.bump == bump && p.data@ == data@,
            r matches Err(e) ==> e == ProgramError::InvalidAccountData,
    {
        let proof = Proof { data: vstd::slice::slice_to_vec(data), bump };
        proof.validate()?;
        Ok(proof)
    }

    /// Update proof data at given offset, or append if offset equals data length
    pub fn update_data_at_offset(&mut self, new_node: ProofNode, offset: usize) -> (r: Result<(), ProgramError>)
        ensures
            offset > old(self).data@.len() ==> r == Err::<(), ProgramError>(ProgramError::InvalidAccountData)
                && final(self).bump == old(self).bump && final(self).data@ == old(self).data@,
            offset <= old(self).data@.len() ==> {
                &&& final(self).bump == old(self).bump
                &&& final(self).data@ == (if offset == old(self).data@.len() {
                        old(self).data@.push(new_node)
                    } else {
                        old(self).data@.update(offset as int, new_node)
                    })
                &&& r == (if final(self).valid() { Ok(()) } else { Err(ProgramError::InvalidAccountData) })
            },
    {
        if offset > self.data.len() {
            return Err(ProgramError::InvalidAccountData);
        }
        if offset == self.data.len() {
            self.data.push(new_node);
        } else {
            self.data.set(offset, new_node);
        }
        self.validate()?;
        Ok(())
    }

    /// Validate the proof data
    pub fn validate(&self) -> (r: Result<(), ProgramError>)
        ensures
            r == (if self.valid() { Ok(()) } else { Err(ProgramError::InvalidAccountData) }),
    {
        <Proof as ProofDataValidator>::validate_proof_data_len(&self.data)?;
        <Proof as ProofDataValidator>::validate_proof_data(&self.data)?;
        Ok(())
    }

    /// The bump byte as a one-byte seed.
    pub fn bump_seed(&self) -> (r: [u8; 1])
        ensures
            r@ == seq![self.bump],
    {
        let r = [self.bump];
        assert(r@ =~= seq![self.bump]);
        r
    }

    /// The address of the proof of a token account for an action, from its seeds and bump.
    pub fn derive_pda(&self, token_account_address: &Pubkey, action_id: u64) -> (r: Result<Pubkey, ProgramError>)
        ensures
            address_result_view(r) == spec_checked_create_program_address(
                seq![SEED_PROOF_ACCOUNT@, token_account_address@, le64(action_id), seq![self.bump]],
                PROGRAM_ID@,
            ),
    {
        let id = vstd::bytes::u64_to_le_bytes(action_id);
        let bump = self.bump_seed();
        let s0: &[u8] = SEED_PROOF_ACCOUNT.as_slice();
        let s1: &[u8] = token_account_address.as_slice();
        let s2: &[u8] = id.as_slice();
        let s3: &[u8] = bump.as_slice();
        let seeds: [&[u8]; 4] = [s0, s1, s2, s3];
        assert(seeds@ =~= seq![s0, s1, s2, s3]);
        assert(seed_views(seeds@) =~= seq![SEED_PROOF_ACCOUNT@, token_account_address@, le64(action_id), seq![self.bump]]);
        create_program_address(seeds.as_slice(), &PROGRAM_ID)
    }

    /// The address and bump of the proof of a token account for an action.
    pub fn find_pda(token_account_address: &Pubkey, action_id: u64, program_id: &Pubkey) -> (r: Option<(Pubkey, u8)>)
        ensures
            pda_view(r) == spec_try_find_program_address(
                seq![SEED_PROOF_ACCOUNT@, token_account_address@, le64(action_id)],
                program_id@,
            ),
    {
        let id = vstd::bytes::u64_to_le_bytes(action_id);
        let s0: &[u8] = SEED_PROOF_ACCOUNT.as_slice();
        let s1: &[u8] = token_account_address.as_slice();
        let s2: &[u8] = id.as_slice();
        let seeds: [&[u8]; 3] = [s0, s1, s2];
        assert(seeds@ =~= seq![s0, s1, s2]);
        assert(seed_views(seeds@) =~= seq![SEED_PROOF_ACCOUNT@, token_account_address@, le64(action_id)]);
        try_find_program_address(seeds.as_slice(), program_id)
    }
}

/// The bump and nodes held by a proof account: at least six bytes (else invalid account
/// data), owned by the program (else an invalid owner), starting with the proof
/// discriminator, then the bump and the counted nodes.
pub open spec fn spec_proof_fields(data: Seq<u8>, owner: Seq<u8>) -> Result<(u8, Seq<Seq<u8>>), ProgramError> {
    if data.len() < 6 {
        Err(ProgramError::InvalidAccountData)
    } else if owner != PROGRAM_ID@ {
        Err(ProgramError::InvalidAccountOwner)
    } else if data[0] != 4 {
        Err(ProgramError::InvalidAccountData)
    } else {
        match spec_proof_data_from_bytes(data.subrange(2, data.len() as int), ProgramError::InvalidAccountData) {
            Ok(nodes) => Ok((data[1], nodes)),
            Err(e) => Err(e),
        }
    }
}

/// The proof nodes a claim uses: the argument when the proof slot holds the program's own
/// address, else the nodes of the proof account, which must be initialized, readable and
/// at the address derived from the token account and the action (else invalid seeds).
/// An argument together with a proof account, or neither, is invalid instruction data.
pub open spec fn spec_claim_proof(
    eligible_token_account: Seq<u8>,
    action_id: u64,
    proof_account: AccountView,
    argument: Option<Seq<Seq<u8>>>,
) -> Result<Seq<Seq<u8>>, ProgramError> {
    if proof_account.key@ == PROGRAM_ID@ {
        match argument {
            None => Err(ProgramError::InvalidInstructionData),
            Some(nodes) => Ok(nodes),
        }
    } else if argument is Some {
        Err(ProgramError::InvalidInstructionData)
    } else if proof_account.data@.len() == 0 || proof_account.lamports == 0 {
        Err(ProgramError::UninitializedAccount)
    } else {
        match spec_proof_fields(proof_account.data@, proof_account.owner@) {
            Err(e) => Err(e),
            Ok((bump, nodes)) => match spec_checked_create_program_address(
                seq![SEED_PROOF_ACCOUNT@, eligible_token_account, le64(action_id), seq![bump]],
                PROGRAM_ID@,
            ) {
                Err(e) => Err(e),
                Ok(a) => if a != proof_account.key@ { Err(ProgramError::InvalidSeeds) } else { Ok(nodes) },
            },
        }
    }
}

impl Proof {
    /// Read a proof from its account: at least six bytes (else invalid account data),
    /// owned by the program (else an invalid owner), holding a proof.
    pub fn from_account_info(account_info: &AccountView) -> (r: Result<Proof, ProgramError>)
        ensures
            account_info.data@.len() < 6 ==> r == Err::<Proof, ProgramError>(ProgramError::InvalidAccountData),
            account_info.data@.len() >= 6 && account_info.owner@ != PROGRAM_ID@
                ==> r == Err::<Proof, ProgramError>(ProgramError::InvalidAccountOwner),
            account_info.data@.len() >= 6 && account_info.owner@ == PROGRAM_ID@ ==> (
                if account_info.data@[0] != 4 {
                    r == Err::<Proof, ProgramError>(ProgramError::InvalidAccountData)
                } else {
                    Proof::spec_parses_inner(account_info.data@.drop_first(), r)
                }),
            match r {
                Ok(p) => spec_proof_fields(account_info.data@, account_info.owner@)
                    == Ok::<(u8, Seq<Seq<u8>>), ProgramError>((p.bump, p.nodes())),
                Err(e) => spec_proof_fields(account_info.data@, account_info.owner@)
                    == Err::<(u8, Seq<Seq<u8>>), ProgramError>(e),
            },
    {
        assert(account_info.data@.len() >= 6 ==> account_info.data@.drop_first().drop_first()
            =~= account_info.data@.subrange(2, account_info.data@.len() as int));
        if account_info.data.len() < Self::MIN_LEN {
            return Err(ProgramError::InvalidAccountData);
        }
        verify_owner(account_info, &PROGRAM_ID)?;
        Self::try_from_bytes(account_info.data.as_slice())
    }

    /// The proof of a claim: from the proof account when no proof argument is given (the
    /// program's own address in the proof slot means none, which is invalid instruction
    /// data), or from the argument when the slot holds the program's address (a proof
    /// account together with an argument is invalid instruction data). A proof account
    /// must be initialized, readable, and at the address derived from the token account
    /// and action (else invalid seeds).
    pub fn get_proof_data_from_instruction(
        eligible_token_account: &Pubkey,
        action_id: u64,
        proof_account: &AccountView,
        proof_data_argument: Option<ProofData>,
    ) -> (r: Result<ProofData, ProgramError>)
        ensures
            proof_data_result_view(r) == spec_claim_proof(
                eligible_token_account@,
                action_id,
                *proof_account,
                match proof_data_argument { Some(p) => Some(key_views(p@)), None => None },
            ),
    {
        let is_program = key_eq(&proof_account.key, &PROGRAM_ID);
        match proof_data_argument {
            None => {
                if is_program {
                    return Err(ProgramError::InvalidInstructionData);
                }
                verify_account_initialized(proof_account)?;
                let proof_state = Self::from_account_info(proof_account)?;
                let expected_proof_pda = proof_state.derive_pda(eligible_token_account, action_id)?;
                verify_pda_keys_match(&proof_account.key, &expected_proof_pda)?;
                Ok(proof_state.data)
            },
            Some(merkle_proof_arg) => {
                if !is_program {
                    return Err(ProgramError::InvalidInstructionData);
                }
                Ok(merkle_proof_arg)
            },
        }
    }
}

impl Discriminator for Proof {
    open spec fn spec_discriminator() -> u8 {
        SecurityTokenDiscriminators::ProofDiscriminator.spec_to_u8()
    }

    fn discriminator() -> (r: u8) {
        SecurityTokenDiscriminators::ProofDiscriminator.to_u8()
    }
}

impl AccountSerialize for Proof {
    open spec fn spec_bytes_inner(&self) -> Seq<u8> {
        seq![self.bump] + spec_key_list_bytes(self.nodes())
    }

    fn to_bytes_inner(&self) -> (r: Vec<u8>) {
        let mut data: Vec<u8> = Vec::new();
        data.push(self.bump);
        push_key_list(&mut data, &self.data);
        assert(data@ =~= seq![self.bump] + spec_key_list_bytes(self.nodes()));
        data
    }
}

impl AccountDeserialize for Proof {
    /// The bump byte, then the proof nodes; the nodes are not validated here.
    open spec fn spec_parses_inner(data: Seq<u8>, r: Result<Proof, ProgramError>) -> bool {
        if data.len() < 5 {
            r == Err::<Proof, ProgramError>(ProgramError::InvalidAccountData)
        } else {
            match spec_proof_data_from_bytes(data.drop_first(), ProgramError::InvalidAccountData) {
                Ok(nodes) => r matches Ok(p) && p.bump == data[0] && p.nodes() == nodes,
                Err(e) => r == Err::<Proof, ProgramError>(e),
            }
        }
    }

    fn try_from_bytes_inner(data: &[u8]) -> (r: Result<Proof, ProgramError>) {
        if data.len() < Self::MIN_LEN - 1 {
            return Err(ProgramError::InvalidAccountData);
        }
        let bump = data[0];
        let rest = vstd::slice::slice_subrange(data, 1, data.len());
        assert(rest@ =~= data@.drop_first());
        let proof_data = <Proof as ProofDataDeserializer>::try_proof_data_from_bytes(rest)?;
        Ok(Proof { bump, data: proof_data })
    }
}

/// Every proof account serializes to six bytes (discriminator, bump and the node count)
/// followed by 32 bytes per node; `serialized_len` gives that size wherever it fits a
/// `usize`.
pub proof fn lemma_proof_serialized_len(p: Proof)
    ensures
        (seq![Proof::spec_discriminator()] + p.spec_bytes_inner()).len() == 6 + 32 * p.data@.len(),
{
    let nodes = p.nodes();
    assert(all_32_bytes(nodes));
    lemma_flatten_keys(nodes);
    lemma_le_roundtrips();
}

/// Writing a valid proof account and reading the bytes back gives the same bump and nodes.
pub proof fn lemma_proof_account_roundtrip(p: Proof)
    requires
        p.valid(),
    ensures
        Proof::spec_parses_inner(p.spec_bytes_inner(), Ok::<Proof, ProgramError>(p)),
{
    let nodes = p.nodes();
    assert(all_32_bytes(nodes));
    lemma_proof_data_roundtrip(nodes, Seq::empty(), ProgramError::InvalidAccountData);
    let bytes = p.spec_bytes_inner();
    assert(bytes.drop_first() =~= spec_key_list_bytes(nodes) + Seq::<u8>::empty());
    lemma_flatten_keys(nodes);
}

} // verus!
