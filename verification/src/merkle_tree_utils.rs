//! Merkle proofs of distribution claims, hashed with Keccak-256.
use vstd::prelude::*;
use vstd::arithmetic::power2::pow2;
use vstd::bits::{lemma_u64_pow2_no_overflow, lemma_u64_shl_is_mul};
use crate::bytes::{Pubkey, key_views, le64, push_all, push_u64, bytes_eq};

verus! {

/// Size of a Merkle tree node in bytes.
pub const MERKLE_TREE_NODE_LEN: usize = 32;

/// Size of a Merkle tree root in bytes.
pub const MERKLE_ROOT_LEN: usize = 32;

/// Maximum number of levels (nodes) in a Merkle proof. 32 levels supports up to 2^32 (~4.3 billion) leaves.
pub const MAX_PROOF_LEVELS: usize = 32;

/// The root of a Merkle tree.
pub type MerkleTreeRoot = [u8; 32];

/// A node of a Merkle tree.
pub type MerkleTreeNode = [u8; 32];

/// A sibling hash on the path from a leaf to the root.
pub type ProofNode = MerkleTreeNode;

/// The sibling hashes from a leaf up to the root.
pub type ProofData = Vec<ProofNode>;

/// The Keccak-256 digest of `data`.
pub uninterp spec fn spec_keccak256(data: Seq<u8>) -> Seq<u8>;

/// Keccak-256 of `data`, by `solana_keccak_hasher::hashv` with `data` as its single part.
/// Trusted: the result is the digest named `spec_keccak256` of the bytes; the
/// hash function itself is not modelled.
#[verifier::external_body]
fn keccak256(data: &[u8]) -> (r: [u8; 32])
    ensures
        r@ == spec_keccak256(data@),
{
    solana_keccak_hasher::hashv(&[data]).to_bytes()
}

/// Bit `level` of a leaf index: 0 when the path goes left at that level, 1 when right.
pub open spec fn index_bit(leaf_index: u32, level: nat) -> u32 {
    (leaf_index >> (level as u32)) & 1u32
}

/// The hash reached after combining the leaf with the first `levels` proof nodes:
/// at each level the running hash is hashed with the sibling, on the left when the
/// index bit of that level is 0 and on the right otherwise.
pub open spec fn spec_proof_hash(node: Seq<u8>, proof: Seq<Seq<u8>>, leaf_index: u32, levels: nat) -> Seq<u8>
    decreases levels,
{
    if levels == 0 {
        node
    } else {
        let h = spec_proof_hash(node, proof, leaf_index, (levels - 1) as nat);
        let sibling = proof[levels - 1];
        if index_bit(leaf_index, (levels - 1) as nat) == 0 {
            spec_keccak256(h + sibling)
        } else {
            spec_keccak256(sibling + h)
        }
    }
}

/// Whether `proof` shows that `node` is the leaf at `leaf_index` of the tree with `root`:
/// a non-empty proof has at most 32 levels and an index below 2^levels, and hashing the
/// node up through the proof gives the root.
pub open spec fn spec_verify_merkle_proof(node: Seq<u8>, root: Seq<u8>, proof: Seq<Seq<u8>>, leaf_index: u32) -> bool {
    if proof.len() > 0 && (proof.len() > 32 || leaf_index >= pow2(proof.len())) {
        false
    } else {
        spec_proof_hash(node, proof, leaf_index, proof.len()) == root
    }
}

/// A proof of one to 32 levels, with a leaf index below 2^levels, verifies the leaf
/// against the root that hashing the leaf up through the proof gives; against any other
/// root it fails. An index of 2^levels or more always fails.
pub proof fn lemma_merkle_proof_verifies_its_root(node: Seq<u8>, proof: Seq<Seq<u8>>, leaf_index: u32, other_root: Seq<u8>)
    requires
        1 <= proof.len() <= 32,
    ensures
        leaf_index < pow2(proof.len()) ==> spec_verify_merkle_proof(node, spec_proof_hash(node, proof, leaf_index, proof.len()), proof, leaf_index),
        other_root != spec_proof_hash(node, proof, leaf_index, proof.len()) ==> !spec_verify_merkle_proof(node, other_root, proof, leaf_index),
        leaf_index >= pow2(proof.len()) ==> !spec_verify_merkle_proof(node, other_root, proof, leaf_index),
{
}

/// Verifies a Merkle proof for a given leaf node and root
///
/// Returns `true` if the leaf is part of the Merkle tree with the given root, `false` otherwise
pub fn verify_merkle_proof(
    node: &MerkleTreeNode,
    root: &MerkleTreeRoot,
    proof: &ProofData,
    leaf_index: u32,
) -> (r: bool)
    ensures
        r == spec_verify_merkle_proof(node@, root@, key_views(proof@), leaf_index),
{
    let levels = proof.len();
    if levels > 0 {
        if levels > MAX_PROOF_LEVELS {
            return false;
        }
        proof {
            lemma_u64_pow2_no_overflow(levels as nat);
            lemma_u64_shl_is_mul(1u64, levels as u64);
        }
        let max_leaves: u64 = 1u64 << (levels as u64);
        if (leaf_index as u64) >= max_leaves {
            return false;
        }
    }
    let ghost nodes = key_views(proof@);
    let mut hash: [u8; 32] = *node;
    let mut i: usize = 0;
    while i < levels
        invariant
            levels == proof@.len(),
            levels <= 32,
            0 <= i <= levels,
            nodes == key_views(proof@),
            hash@ == spec_proof_hash(node@, nodes, leaf_index, i as nat),
        decreases levels - i,
    {
        let sibling: &[u8; 32] = &proof[i];
        let mut buf: Vec<u8> = Vec::with_capacity(64);
        let bit: u32 = (leaf_index >> (i as u32)) & 1u32;
        if bit == 0 {
            push_all(&mut buf, hash.as_slice());
            push_all(&mut buf, sibling.as_slice());
        } else {
            push_all(&mut buf, sibling.as_slice());
            push_all(&mut buf, hash.as_slice());
        }
        assert(nodes[i as int] == sibling@);
        hash = keccak256(buf.as_slice());
        i = i + 1;
    }
    bytes_eq(hash.as_slice(), root.as_slice())
}

/// The bytes hashed into a claim leaf: the eligible token account, the mint, the
/// action identifier and the amount.
pub open spec fn spec_leaf_preimage(eligible_token_account: Seq<u8>, mint: Seq<u8>, action_id: u64, amount: u64) -> Seq<u8> {
    eligible_token_account + mint + le64(action_id) + le64(amount)
}

/// Creates a hashed leaf node from eligible claimer data
pub fn create_merkle_tree_leaf_node(
    eligible_token_account: &Pubkey,
    mint: &Pubkey,
    action_id: u64,
    amount: u64,
) -> (r: MerkleTreeNode)
    ensures
        r@ == spec_keccak256(spec_leaf_preimage(eligible_token_account@, mint@, action_id, amount)),
{
    let mut bytes: Vec<u8> = Vec::with_capacity(80);
    push_all(&mut bytes, eligible_token_account.as_slice());
    push_all(&mut bytes, mint.as_slice());
    push_u64(&mut bytes, action_id);
    push_u64(&mut bytes, amount);
    keccak256(bytes.as_slice())
}

} // verus!
