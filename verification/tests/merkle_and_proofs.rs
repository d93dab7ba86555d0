use security_token::error::ProgramError;
use security_token::merkle_tree_utils::{create_merkle_tree_leaf_node, verify_merkle_proof};
use security_token::modules::operations::OperationsModule;
use security_token::state::discriminator::{AccountDeserialize, AccountSerialize};
use security_token::state::proof_account::Proof;
use solana_keccak_hasher::hashv;

fn random_32_bytes(seed: u32) -> [u8; 32] {
    let mut out = [0u8; 32];
    let mut x: u32 = seed.wrapping_mul(2246822519).wrapping_add(374761393);
    for b in out.iter_mut() {
        x ^= x << 13;
        x ^= x >> 17;
        x ^= x << 5;
        *b = (x >> 8) as u8;
    }
    out[31] |= 0x80;
    out
}

fn random_32_bytes_vec(seed: u32, len: usize) -> Vec<[u8; 32]> {
    (0..len).map(|i| random_32_bytes(seed * 10_000 + i as u32)).collect()
}

fn h(a: &[u8; 32], b: &[u8; 32]) -> [u8; 32] {
    let parts: [&[u8]; 2] = [a, b];
    hashv(&parts).to_bytes()
}

#[test]
fn test_merkle_tree_utils_should_reject_proof_exceeding_max_levels() {
    let node = random_32_bytes(1);
    let root = random_32_bytes(2);
    let leaf_index = 0u32;
    let proof_33_levels = random_32_bytes_vec(3, 33);
    assert!(!verify_merkle_proof(&node, &root, &proof_33_levels, leaf_index), "Proof with 33 levels should be rejected");
    let proof_64_levels = random_32_bytes_vec(4, 64);
    assert!(!verify_merkle_proof(&node, &root, &proof_64_levels, leaf_index), "Proof with 64 levels should be rejected");
}

#[test]
fn test_merkle_tree_utils_should_accept_proof_at_max_levels() {
    let node = random_32_bytes(5);
    let proof_32_levels = random_32_bytes_vec(6, 32);
    let leaf_index = 0u32;
    let mut expected_root = node;
    for sibling in &proof_32_levels {
        expected_root = hashv(&[&expected_root, sibling]).to_bytes();
    }
    assert!(
        verify_merkle_proof(&node, &expected_root, &proof_32_levels, leaf_index),
        "Proof with 32 levels should be accepted"
    );
}

#[test]
fn test_merkle_tree_utils_should_create_and_verify_leaf_node() {
    let action_id = 42u64;
    let amount = 1000u64;
    let nodes = vec![
        create_merkle_tree_leaf_node(&random_32_bytes(7), &random_32_bytes(8), action_id, amount),
        create_merkle_tree_leaf_node(&random_32_bytes(9), &random_32_bytes(10), action_id, amount),
        create_merkle_tree_leaf_node(&random_32_bytes(11), &random_32_bytes(12), action_id, amount),
    ];
    let padding = [0u8; 32];
    let left = h(&nodes[0], &nodes[1]);
    let right = h(&nodes[2], &padding);
    let root = h(&left, &right);
    let leaf_index = 1u32;
    let node = nodes[leaf_index as usize];
    let proof = vec![nodes[0], right];
    let invalid_node = create_merkle_tree_leaf_node(&random_32_bytes(13), &random_32_bytes(14), action_id, amount);

    assert!(!verify_merkle_proof(&invalid_node, &root, &proof, leaf_index), "Merkle proof should be invalid for incorrect node");
    assert!(!verify_merkle_proof(&node, &root, &proof, 123u32), "Merkle proof should be invalid for incorrect leaf index");
    assert!(!verify_merkle_proof(&node, &root, &vec![invalid_node], 123u32), "Merkle proof should be invalid for incorrect proof");
    assert!(verify_merkle_proof(&node, &root, &proof, leaf_index), "Merkle proof should be valid");
}

#[test]
fn test_merkle_tree_utils_should_verify_merkle_proof() {
    let leaves = random_32_bytes_vec(15, 4);
    let l01 = h(&leaves[0], &leaves[1]);
    let l23 = h(&leaves[2], &leaves[3]);
    let root = h(&l01, &l23);
    let proofs = [
        vec![leaves[1], l23],
        vec![leaves[0], l23],
        vec![leaves[3], l01],
        vec![leaves[2], l01],
    ];
    for idx in 0..4 {
        assert!(verify_merkle_proof(&leaves[idx], &root, &proofs[idx], idx as u32), "index {}", idx);
        let other = leaves[(idx + 1) % 4];
        assert!(!verify_merkle_proof(&other, &root, &proofs[idx], idx as u32), "index {}", idx);
    }
    assert!(verify_merkle_proof(&root, &root, &vec![], 7));
}

#[test]
fn leaf_node_is_keccak_of_claim_fields() {
    let account = random_32_bytes(16);
    let mint = random_32_bytes(17);
    let leaf = create_merkle_tree_leaf_node(&account, &mint, 5, 6);
    let action = 5u64.to_le_bytes();
    let amount = 6u64.to_le_bytes();
    let parts: [&[u8]; 4] = [&account, &mint, &action, &amount];
    let expected = hashv(&parts).to_bytes();
    assert_eq!(leaf, expected);
    assert_ne!(leaf, account);
}

#[test]
fn claim_verification_checks_the_tree() {
    let account = random_32_bytes(18);
    let mint = random_32_bytes(19);
    let leaf = create_merkle_tree_leaf_node(&account, &mint, 3, 100);
    let sibling = random_32_bytes(20);
    let root = h(&leaf, &sibling);
    let proof = vec![sibling];
    assert_eq!(OperationsModule::verify_claim(&account, &mint, 3, 100, &root, &proof, 0), Ok(()));
    assert_eq!(
        OperationsModule::verify_claim(&account, &mint, 3, 101, &root, &proof, 0),
        Err(ProgramError::InvalidInstructionData)
    );
    assert_eq!(
        OperationsModule::check_escrow_payment(&mint, &mint, &mint, 99, 100),
        Err(ProgramError::InsufficientFunds)
    );
    assert_eq!(
        OperationsModule::check_escrow_payment(&mint, &account, &mint, 200, 100),
        Err(ProgramError::InvalidAccountData)
    );
    assert_eq!(OperationsModule::check_escrow_payment(&mint, &mint, &mint, 100, 100), Ok(()));
}

#[test]
fn test_proof_create() {
    for (bump, data) in [(5u8, random_32_bytes_vec(21, 3)), (u8::MAX, random_32_bytes_vec(22, 2))] {
        let proof = Proof::new(&data, bump).expect("Should create proof");
        proof.validate().expect("Proof should be valid");
    }
}

#[test]
fn test_proof_serialize_deserialize() {
    for (bump, data) in [(5u8, random_32_bytes_vec(23, 3)), (u8::MAX, random_32_bytes_vec(24, 2))] {
        let proof = Proof::new(&data, bump).expect("Should create proof");
        let serialized = proof.to_bytes();
        assert_eq!(serialized.len(), proof.serialized_len());
        let deserialized = Proof::try_from_bytes(&serialized).expect("Should deserialize proof");
        assert_eq!(deserialized.data, data);
        assert_eq!(deserialized.bump, bump);
    }
}

#[test]
fn test_proof_should_not_create_invalid_proof() {
    let with_zero = vec![[0u8; 32], random_32_bytes(25), random_32_bytes(26)];
    let empty: Vec<[u8; 32]> = vec![];
    for (bump, data, description) in [
        (5u8, with_zero, "Should not create proof with zero node"),
        (u8::MAX, empty, "Should not create proof with empty data"),
    ] {
        let proof_error = Proof::new(&data, bump).expect_err(description);
        assert_eq!(proof_error, ProgramError::InvalidAccountData);
    }
}

#[test]
fn test_proof_update_at_offset() {
    let bump = 10u8;
    let proof_data = random_32_bytes_vec(27, 2);
    let mut proof = Proof::new(&proof_data, bump).expect("Should create proof");
    proof.validate().expect("Proof should be valid");
    let new_node = random_32_bytes(28);
    let offset = 0usize;
    proof.update_data_at_offset(new_node, offset).expect("Should update node at offset 0");
    assert_eq!(proof.data[offset], new_node);
    assert_eq!(proof.data[1], proof_data[1]);
    assert_eq!(proof.data.len(), 2);
}

#[test]
fn test_proof_should_not_create_proof_with_too_many_levels() {
    let bump = 5u8;
    let proof_33_levels = random_32_bytes_vec(29, 33);
    let proof_error = Proof::new(&proof_33_levels, bump).expect_err("Proof with 33 levels should fail validation");
    assert_eq!(proof_error, ProgramError::InvalidAccountData);
    let proof_32_levels = random_32_bytes_vec(30, 32);
    let result = Proof::new(&proof_32_levels, bump);
    assert!(result.is_ok(), "Proof with 32 levels should pass validation");
}

#[test]
fn test_proof_append_new_node() {
    let bump = 10u8;
    let proof_data = random_32_bytes_vec(31, 2);
    let mut proof = Proof::new(&proof_data, bump).expect("Should create proof");
    proof.validate().expect("Proof should be valid");
    let append_node = random_32_bytes(32);
    let append_offset = proof.data.len();
    proof.update_data_at_offset(append_node, append_offset).expect("Should append new node");
    assert_eq!(proof.data[append_offset], append_node);
    assert_eq!(proof.data.len(), 3);
}

#[test]
fn proof_update_beyond_end_and_to_zero() {
    let mut proof = Proof::new(&random_32_bytes_vec(33, 2), 1).unwrap();
    assert_eq!(proof.update_data_at_offset(random_32_bytes(34), 3), Err(ProgramError::InvalidAccountData));
    assert_eq!(proof.data.len(), 2);
    assert_eq!(proof.update_data_at_offset([0u8; 32], 1), Err(ProgramError::InvalidAccountData));
    assert_eq!(proof.data[1], [0u8; 32]);
}
