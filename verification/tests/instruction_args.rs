use security_token::bytes::Pubkey;
use security_token::error::ProgramError;
use security_token::instruction::SecurityTokenInstruction;
use security_token::instructions::claim_distribution::ClaimDistributionArgs;
use security_token::instructions::convert::ConvertArgs;
use security_token::instructions::create_distribution_escrow::CreateDistributionEscrowArgs;
use security_token::instructions::proof_account::{CreateProofArgs, UpdateProofArgs};
use security_token::instructions::rate_account::{
    CloseRateArgs, CreateRateArgs, RateArgs, UpdateRateArgs, parse_action_id_argument, serialize_action_and_rate,
};
use security_token::instructions::receipt_account::CloseClaimReceiptArgs;
use security_token::instructions::split::SplitArgs;
use security_token::instructions::verification_config::{
    InitializeVerificationConfigArgs, TrimVerificationConfigArgs, UpdateVerificationConfigArgs,
};
use security_token::instructions::verify::VerifyArgs;

/// Deterministic stand-in for random bytes: distinct seeds give distinct non-zero values.
fn bytes32(seed: u32) -> [u8; 32] {
    let mut out = [0u8; 32];
    let mut x: u32 = seed.wrapping_mul(2654435761).wrapping_add(12345);
    for b in out.iter_mut() {
        x ^= x << 13;
        x ^= x >> 17;
        x ^= x << 5;
        *b = (x & 0xff) as u8;
    }
    out[0] |= 1;
    out
}

fn nodes(seed: u32, n: usize) -> Vec<[u8; 32]> {
    (0..n).map(|i| bytes32(seed * 1000 + i as u32)).collect()
}

#[test]
fn test_try_from_bytes_fails_on_too_short_buffer() {
    let short = vec![0u8; CreateProofArgs::MIN_LEN - 1];
    assert!(CreateProofArgs::try_from_bytes(&short).is_err());
}

#[test]
fn test_update_proof_fails_on_too_short_buffer() {
    let short = vec![0u8; UpdateProofArgs::LEN - 1];
    assert!(UpdateProofArgs::try_from_bytes(&short).is_err());
}

#[test]
fn test_create_split_args_invalid_deserialization() {
    let action_id = 0u64;
    let source_args = SplitArgs { action_id };
    let bytes = source_args.to_bytes_inner();
    assert!(SplitArgs::try_from_bytes(&bytes).is_err(), "Zero action_id should be invalid");
}

#[test]
fn test_create_split_args_to_bytes() {
    for action_id in [42u64, 1u64, u64::MAX] {
        let source_args = SplitArgs { action_id };
        let bytes = source_args.to_bytes_inner();
        let deserialized = SplitArgs::try_from_bytes(&bytes).expect("Should deserialize SplitArgs");
        assert_eq!(source_args.action_id, deserialized.action_id);
    }
}

#[test]
fn split_args_bytes_are_little_endian() {
    let bytes = SplitArgs { action_id: 0x0102030405060708 }.to_bytes_inner();
    assert_eq!(bytes, vec![8, 7, 6, 5, 4, 3, 2, 1]);
    assert_eq!(SplitArgs::try_from_bytes(&bytes[..7]), Err(ProgramError::InvalidInstructionData));
}

#[test]
fn test_create_convert_args_to_bytes() {
    for (action_id, amount_to_convert) in [(42u64, 1000u64), (1, 1), (u64::MAX, u64::MAX)] {
        let source_args = ConvertArgs { action_id, amount_to_convert };
        let bytes = source_args.to_bytes_inner();
        let deserialized = ConvertArgs::try_from_bytes(&bytes).expect("Should deserialize ConvertArgs");
        assert_eq!(source_args.action_id, deserialized.action_id);
        assert_eq!(source_args.amount_to_convert, deserialized.amount_to_convert);
    }
}

#[test]
fn test_create_convert_args_validation() {
    for (action_id, amount_to_convert, description) in [
        (0u64, 100u64, "Zero action_id should be invalid"),
        (1u64, 0u64, "Zero amount_to_convert should be invalid"),
    ] {
        let source_args = ConvertArgs { action_id, amount_to_convert };
        assert!(ConvertArgs::try_from_bytes(&source_args.to_bytes_inner()).is_err(), "{}", description);
    }
}

#[test]
fn test_create_distribution_escrow_args_to_bytes() {
    for (action_id, seed) in [(42u64, 1u32), (1, 2), (u64::MAX, 3)] {
        let source_args = CreateDistributionEscrowArgs { action_id, merkle_root: bytes32(seed) };
        let bytes = source_args.to_bytes_inner();
        let deserialized = CreateDistributionEscrowArgs::try_from_bytes(&bytes)
            .expect("Should deserialize CreateDistributionEscrowArgs");
        assert_eq!(source_args.action_id, deserialized.action_id);
        assert_eq!(source_args.merkle_root, deserialized.merkle_root);
    }
}

#[test]
fn test_create_distribution_escrow_args_validation() {
    for (action_id, merkle_root, description) in [
        (0u64, bytes32(4), "Zero action_id should be invalid"),
        (1u64, [0u8; 32], "Empty merkle root should be invalid"),
    ] {
        let source_args = CreateDistributionEscrowArgs { action_id, merkle_root };
        assert!(
            CreateDistributionEscrowArgs::try_from_bytes(&source_args.to_bytes_inner()).is_err(),
            "{}",
            description
        );
    }
}

#[test]
fn test_claim_distribution_args_to_bytes() {
    let cases: Vec<(u64, u64, [u8; 32], u32, Option<Vec<[u8; 32]>>)> = vec![
        (42, 1000, bytes32(10), 0, None),
        (u64::MAX, u64::MAX, bytes32(11), 1, Some(nodes(12, 3))),
    ];
    for (action_id, amount, merkle_root, leaf_index, merkle_proof) in cases {
        let source_args = ClaimDistributionArgs { action_id, amount, merkle_root, leaf_index, merkle_proof };
        let bytes = source_args.to_bytes_inner();
        let deserialized =
            ClaimDistributionArgs::try_from_bytes(&bytes).expect("Should deserialize ClaimDistributionArgs");
        assert_eq!(source_args.action_id, deserialized.action_id);
        assert_eq!(source_args.amount, deserialized.amount);
        assert_eq!(source_args.merkle_root, deserialized.merkle_root);
        assert_eq!(source_args.merkle_proof, deserialized.merkle_proof);
    }
}

#[test]
fn test_claim_distribution_args_invalid_deserialization() {
    let cases: Vec<(u64, u64, [u8; 32], u32, Option<Vec<[u8; 32]>>, &str)> = vec![
        (0, 1000, bytes32(20), 0, None, "Zero action_id should be invalid"),
        (42, 0, bytes32(21), 0, None, "Zero amount should be invalid"),
        (42, 1, [0u8; 32], 0, None, "Zero merkle root should be invalid"),
        (42, 1, bytes32(22), 0, Some(vec![[0u8; 32]]), "Zero proof node should be invalid"),
        (42, 1, bytes32(23), 0, Some(nodes(24, 33)), "Proof exceeding MAX_PROOF_LEVELS should be invalid"),
    ];
    for (action_id, amount, merkle_root, leaf_index, merkle_proof, description) in cases {
        let source_args = ClaimDistributionArgs { action_id, amount, merkle_root, leaf_index, merkle_proof };
        let bytes = source_args.to_bytes_inner();
        assert!(ClaimDistributionArgs::try_from_bytes(&bytes).is_err(), "{}", description);
    }
}

#[test]
fn claim_distribution_rejects_unknown_proof_flag() {
    let source_args = ClaimDistributionArgs {
        action_id: 7,
        amount: 9,
        merkle_root: bytes32(30),
        leaf_index: 3,
        merkle_proof: None,
    };
    let mut bytes = source_args.to_bytes_inner();
    assert_eq!(bytes.len(), ClaimDistributionArgs::MIN_LEN);
    bytes[52] = 2;
    assert_eq!(ClaimDistributionArgs::try_from_bytes(&bytes).err(), Some(ProgramError::InvalidInstructionData));
    assert_eq!(
        ClaimDistributionArgs::try_from_bytes(&bytes[..52]).err(),
        Some(ProgramError::InvalidInstructionData)
    );
}

#[test]
fn test_create_proof_args_to_bytes_inner_try_from_bytes() {
    for (action_id, data) in [(5u64, nodes(40, 3)), (u64::MAX, nodes(41, 2))] {
        let source_args = CreateProofArgs { action_id, data };
        let bytes = source_args.to_bytes_inner();
        let deserialized = CreateProofArgs::try_from_bytes(&bytes).expect("Should deserialize proof arguments");
        assert_eq!(source_args.action_id, deserialized.action_id);
        assert_eq!(source_args.data, deserialized.data);
    }
}

#[test]
fn test_create_proof_args_validation() {
    let cases: Vec<(u64, Vec<[u8; 32]>, &str, ProgramError)> = vec![
        (0, nodes(42, 3), "ProofArgs with zero action_id should be invalid", ProgramError::InvalidArgument),
        (
            5,
            vec![[0u8; 32], bytes32(43), bytes32(44)],
            "ProofArgs proof_data with zero node should be invalid",
            ProgramError::InvalidAccountData,
        ),
        (u64::MAX, vec![], "ProofArgs with empty data should be invalid", ProgramError::InvalidArgument),
    ];
    for (action_id, data, description, expected) in cases {
        let source_args = CreateProofArgs { action_id, data };
        let bytes = source_args.to_bytes_inner();
        assert_eq!(CreateProofArgs::try_from_bytes(&bytes).err(), Some(expected), "{}", description);
    }
}

#[test]
fn test_update_proof_args_to_bytes_inner_try_from_bytes() {
    for (action_id, seed, offset) in [(5u64, 50u32, 10u32), (u64::MAX, 51, u32::MAX), (1, 52, 0)] {
        let source_args = UpdateProofArgs { action_id, data: bytes32(seed), offset };
        let bytes = source_args.to_bytes_inner();
        let deserialized = UpdateProofArgs::try_from_bytes(&bytes).expect("Should deserialize UpdateProofArgs");
        assert_eq!(source_args.action_id, deserialized.action_id);
        assert_eq!(source_args.data, deserialized.data);
        assert_eq!(source_args.offset, deserialized.offset);
    }
}

#[test]
fn test_update_proof_args_validation() {
    for (action_id, node, offset, description, expected) in [
        (0u64, bytes32(53), 10u32, "UpdateProofArgs with zero action_id should be invalid", ProgramError::InvalidArgument),
        (42u64, [0u8; 32], 10u32, "UpdateProofArgs with zero proof node should be invalid", ProgramError::InvalidAccountData),
    ] {
        let source_args = UpdateProofArgs { action_id, data: node, offset };
        let bytes = source_args.to_bytes_inner();
        assert_eq!(UpdateProofArgs::try_from_bytes(&bytes).err(), Some(expected), "{}", description);
    }
}

#[test]
fn test_close_claim_receipt_args_roundtrip() {
    for proof in [None, Some(nodes(60, 4))] {
        let source_args = CloseClaimReceiptArgs { action_id: 77, merkle_proof: proof };
        let bytes = source_args.to_bytes_inner();
        let parsed = CloseClaimReceiptArgs::try_from_bytes(&bytes).expect("Should deserialize");
        assert_eq!(parsed.action_id, 77);
        assert_eq!(parsed.merkle_proof, source_args.merkle_proof);
    }
    let empty = CloseClaimReceiptArgs { action_id: 77, merkle_proof: Some(vec![]) };
    assert_eq!(
        CloseClaimReceiptArgs::try_from_bytes(&empty.to_bytes_inner()).err(),
        Some(ProgramError::InvalidArgument)
    );
}

#[test]
fn rate_args_roundtrip_and_errors() {
    let rate = RateArgs { rounding: 1, numerator: 3, denominator: 2 };
    assert_eq!(rate.to_bytes_inner(), vec![1, 3, 2]);
    assert_eq!(RateArgs::try_from_bytes(&rate.to_bytes_inner()), Ok(rate));
    assert_eq!(RateArgs::try_from_bytes(&[2, 3, 2]), Err(ProgramError::InvalidArgument));
    assert_eq!(RateArgs::try_from_bytes(&[0, 0, 2]), Err(ProgramError::InvalidArgument));
    assert_eq!(RateArgs::try_from_bytes(&[0, 1]), Err(ProgramError::InvalidInstructionData));

    let create = CreateRateArgs { action_id: 5, rate };
    assert_eq!(CreateRateArgs::try_from_bytes(&create.to_bytes_inner()), Ok(create));

    let update = UpdateRateArgs { action_id: 9, rate };
    let bytes = update.to_bytes_inner();
    assert_eq!(bytes, serialize_action_and_rate(9, &rate));
    assert_eq!(UpdateRateArgs::try_from_bytes(&bytes), Ok(update));
    assert_eq!(UpdateRateArgs::try_from_bytes(&bytes[..10]), Err(ProgramError::InvalidInstructionData));

    assert_eq!(CloseRateArgs::try_from_bytes(&9u64.to_le_bytes()), Ok(CloseRateArgs { action_id: 9 }));
    assert_eq!(parse_action_id_argument(&0u64.to_le_bytes()), Err(ProgramError::InvalidArgument));
}

#[test]
fn test_initialize_verification_config_args_to_bytes_inner_try_from_bytes() {
    let program1 = bytes32(70);
    let program2 = bytes32(71);
    let program_addresses = vec![program1, program2];
    let source_args = InitializeVerificationConfigArgs::new(
        SecurityTokenInstruction::UpdateMetadata.discriminant(),
        false,
        &program_addresses,
    )
    .unwrap();

    let inner_bytes = source_args.to_bytes_inner();
    let deserialized = InitializeVerificationConfigArgs::try_from_bytes(&inner_bytes).unwrap();

    assert_eq!(source_args.instruction_discriminator, deserialized.instruction_discriminator);
    assert_eq!(source_args.cpi_mode, deserialized.cpi_mode);
    assert_eq!(source_args.program_count(), deserialized.program_count());

    let original_addresses = source_args.program_addresses();
    let deserialized_addresses = deserialized.program_addresses();
    assert_eq!(original_addresses, deserialized_addresses);
    assert_eq!(program_addresses, deserialized_addresses);
}

#[test]
fn test_initialize_verification_config_programs_limit() {
    for (num_programs, should_succeed) in [(10usize, true), (9, true), (11, false)] {
        let programs: Vec<Pubkey> = (0..num_programs).map(|i| bytes32(80 + i as u32)).collect();
        let args =
            InitializeVerificationConfigArgs::new(SecurityTokenInstruction::Mint.discriminant(), false, &programs)
                .unwrap();
        assert_eq!(args.validate().is_ok(), should_succeed);
    }
}

#[test]
fn test_update_verification_config_programs_limit() {
    for (offset, num_programs, should_succeed) in
        [(11u8, 10usize, false), (10, 1, false), (9, 1, true), (8, 2, true), (9, 2, false)]
    {
        let programs: Vec<Pubkey> = (0..num_programs).map(|i| bytes32(100 + i as u32)).collect();
        let args = UpdateVerificationConfigArgs::new(
            SecurityTokenInstruction::Mint.discriminant(),
            false,
            &programs,
            offset,
        )
        .unwrap();
        assert_eq!(
            args.validate().is_ok(),
            should_succeed,
            "offset={} with {} programs",
            offset,
            num_programs
        );
    }
}

#[test]
fn test_initialize_verification_config_rejects_default_pubkey() {
    let program1 = bytes32(120);
    let default_pubkey = Pubkey::default();
    let program2 = bytes32(121);
    let program_addresses = vec![program1, default_pubkey, program2];
    let args = InitializeVerificationConfigArgs::new(
        SecurityTokenInstruction::Mint.discriminant(),
        false,
        &program_addresses,
    )
    .unwrap();
    let result = args.validate();
    assert!(matches!(result, Err(ProgramError::InvalidArgument)));
}

#[test]
fn test_update_verification_config_rejects_default_pubkey() {
    let program1 = bytes32(122);
    let default_pubkey = Pubkey::default();
    let program_addresses = vec![program1, default_pubkey];
    let args = UpdateVerificationConfigArgs::new(
        SecurityTokenInstruction::Transfer.discriminant(),
        false,
        &program_addresses,
        0,
    )
    .unwrap();
    let result = args.validate();
    assert!(matches!(result, Err(ProgramError::InvalidArgument)));
}

#[test]
fn update_verification_config_args_roundtrip() {
    let programs = vec![bytes32(130), bytes32(131), bytes32(132)];
    let args = UpdateVerificationConfigArgs::new(4, true, &programs, 2).unwrap();
    let bytes = args.to_bytes_inner();
    assert_eq!(&bytes[..7], &[4, 1, 2, 3, 0, 0, 0]);
    let parsed = UpdateVerificationConfigArgs::try_from_bytes(&bytes).unwrap();
    assert_eq!(parsed.instruction_discriminator, 4);
    assert!(parsed.cpi_mode);
    assert_eq!(parsed.offset(), 2);
    assert_eq!(parsed.program_addresses(), programs.as_slice());
    assert!(UpdateVerificationConfigArgs::try_from_bytes(&bytes[..bytes.len() - 1]).is_err());
}

#[test]
fn trim_verification_config_args_roundtrip() {
    let args = TrimVerificationConfigArgs::new(3, 2, true).unwrap();
    assert_eq!(args.to_bytes_inner(), vec![3, 2, 1]);
    assert_eq!(TrimVerificationConfigArgs::try_from_bytes(&[3, 2, 7]), Ok(args));
    assert_eq!(TrimVerificationConfigArgs::try_from_bytes(&[3, 2]), Err(ProgramError::InvalidInstructionData));
}

#[test]
fn verify_args_parse() {
    let mut data = vec![6u8, 3, 0, 0, 0, 9, 8, 7, 99];
    let args = VerifyArgs::try_from_bytes(&data).unwrap();
    assert_eq!(args.ix, 6);
    assert_eq!(args.instruction_data, vec![9, 8, 7]);
    data[0] = 18;
    assert!(VerifyArgs::try_from_bytes(&data).is_err());
    let too_long = vec![6u8, 0x01, 0x28, 0, 0];
    assert_eq!(VerifyArgs::try_from_bytes(&too_long).err(), Some(ProgramError::InvalidInstructionData));
    let short = vec![6u8, 4, 0, 0, 0, 1, 2, 3];
    assert!(VerifyArgs::try_from_bytes(&short).is_err());
}
