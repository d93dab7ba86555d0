use security_token::constants::{PROGRAM_ID, SECURITY_TOKEN_ID, TOKEN_2022_PROGRAM_ID};
use security_token::error::{ProgramError, SecurityTokenError};
use security_token::instructions::verification_config::UpdateVerificationConfigArgs;
use security_token::modules::account_checks::{
    verify_account_initialized, verify_account_not_initialized, verify_owner, verify_pda_keys_match, verify_signer,
    verify_system_program, verify_writable, AccountView,
};
use security_token::modules::operations::{OperationsModule, SplitPlan};
use security_token::modules::utils::validate_account_verification;
use security_token::modules::verification::{
    IntrospectedInstruction, TrimPlan, VerificationModule, VerificationStrategy,
};
use security_token::processor::{Processor, VerificationProfile};
use security_token::instruction::SecurityTokenInstruction;
use security_token::state::discriminator::{AccountDeserialize, AccountSerialize};
use security_token::state::mint_authority::MintAuthority;
use security_token::state::rate::{Rate, Rounding};
use security_token::state::receipt::Receipt;
use security_token::state::verification::VerificationConfig;
use security_token::state::verification_status::{SecurityTokenMint, VerificationStatus};

fn pubkey(byte: u8) -> [u8; 32] {
    [byte; 32]
}

fn accounts(bytes: &[u8]) -> Vec<[u8; 32]> {
    bytes.iter().map(|&b| pubkey(b)).collect()
}

fn view(key: u8, owner: [u8; 32], data: Vec<u8>) -> AccountView {
    AccountView { key: pubkey(key), owner, lamports: 1, data, is_signer: false, is_writable: false }
}

#[test]
fn test_program_id() {
    let _program_id = SECURITY_TOKEN_ID;
    assert_eq!(SECURITY_TOKEN_ID, PROGRAM_ID);
}

#[test]
fn test_empty_verification_programs() {
    let verification_programs: Vec<Vec<[u8; 32]>> = vec![];
    let security_token = accounts(&[1, 2]);
    let result = validate_account_verification(&verification_programs, &security_token);
    assert!(result.is_ok(), "Should be valid when no verification programs");
}

#[test]
fn test_cross_set_verification_cases() {
    let cases: Vec<(Vec<Vec<[u8; 32]>>, Vec<[u8; 32]>, bool, &str)> = vec![
        (vec![accounts(&[1, 2, 3]), accounts(&[1, 2])], accounts(&[]), true, "no account to verify"),
        (vec![], accounts(&[1, 2, 3]), true, "no verification programs to verify against"),
        (vec![accounts(&[1, 2, 3]), accounts(&[1, 2])], accounts(&[1]), true, "acc1 verified by all programs"),
        (vec![accounts(&[1, 2, 3]), accounts(&[1, 2])], accounts(&[1, 2]), true, "acc1,2 verified by all programs"),
        (vec![accounts(&[1, 2, 3, 4]), accounts(&[1, 2, 5])], accounts(&[1, 2]), true, "acc1,2 verified by all programs"),
        (vec![accounts(&[1, 2]), accounts(&[1])], accounts(&[1, 2]), false, "acc2 is not verified by the second program"),
        (vec![accounts(&[1, 2]), accounts(&[2, 1])], accounts(&[1, 2]), false, "acc2 appears after acc1 in the second verification program"),
        (vec![accounts(&[3, 1, 2]), accounts(&[1, 2])], accounts(&[1, 2]), false, "not verified by the first program due to additional account at the start"),
    ];
    for (verification_programs, security_token_accounts, expected_valid, description) in cases {
        let result = validate_account_verification(&verification_programs, &security_token_accounts);
        assert_eq!(result.is_ok(), expected_valid, "{}", description);
        if !expected_valid {
            assert_eq!(result, Err(ProgramError::Custom(3)));
        }
    }
}

fn ins(loaded: bool, program: u8, data: &[u8], accts: &[u8]) -> IntrospectedInstruction {
    IntrospectedInstruction { loaded, program_id: pubkey(program), data: data.to_vec(), accounts: accounts(accts) }
}

#[test]
fn introspection_matches_each_program_once() {
    let programs = accounts(&[7, 8]);
    let target = vec![6u8, 1, 2];
    let instructions = vec![ins(true, 7, &target, &[1, 2, 9]), ins(true, 8, &target, &[1, 2])];
    assert_eq!(
        VerificationModule::execute_introspection_verification(&programs, &instructions, &accounts(&[1, 2]), &target),
        Ok(())
    );
    let wrong_data = vec![ins(true, 7, &target, &[1, 2]), ins(true, 8, &[6, 1], &[1, 2])];
    assert_eq!(
        VerificationModule::execute_introspection_verification(&programs, &wrong_data, &accounts(&[1, 2]), &target),
        Err(SecurityTokenError::VerificationProgramNotFound.to_program_error())
    );
    let twice = accounts(&[7, 7]);
    let one_call = vec![ins(true, 7, &target, &[1])];
    assert_eq!(
        VerificationModule::execute_introspection_verification(&twice, &one_call, &accounts(&[1]), &target),
        Err(ProgramError::Custom(1))
    );
    let unreadable = vec![ins(false, 7, &target, &[1]), ins(true, 8, &target, &[1])];
    assert_eq!(
        VerificationModule::execute_introspection_verification(&programs, &unreadable, &accounts(&[1]), &target),
        Err(ProgramError::Custom(1))
    );
    let mismatch = vec![ins(true, 7, &target, &[2, 1]), ins(true, 8, &target, &[1, 2])];
    assert_eq!(
        VerificationModule::execute_introspection_verification(&programs, &mismatch, &accounts(&[1, 2]), &target),
        Err(ProgramError::Custom(3))
    );
}

#[test]
fn account_checks() {
    let mut a = view(1, PROGRAM_ID, vec![]);
    assert_eq!(verify_signer(&a), Err(ProgramError::MissingRequiredSignature));
    assert_eq!(verify_writable(&a), Err(ProgramError::Immutable));
    a.is_signer = true;
    a.is_writable = true;
    assert_eq!(verify_signer(&a), Ok(()));
    assert_eq!(verify_writable(&a), Ok(()));
    assert_eq!(verify_owner(&a, &PROGRAM_ID), Ok(()));
    assert_eq!(verify_owner(&a, &TOKEN_2022_PROGRAM_ID), Err(ProgramError::InvalidAccountOwner));
    assert_eq!(verify_system_program(&a), Err(ProgramError::IncorrectProgramId));
    assert_eq!(verify_account_not_initialized(&a), Err(ProgramError::AccountAlreadyInitialized));
    assert_eq!(verify_account_initialized(&a), Err(ProgramError::UninitializedAccount));
    a.data = vec![1];
    assert_eq!(verify_account_initialized(&a), Ok(()));
    assert_eq!(verify_pda_keys_match(&pubkey(1), &pubkey(2)), Err(ProgramError::InvalidSeeds));
}

#[test]
fn rate_account_roundtrip_and_arithmetic() {
    let rate = Rate::new(Rounding::Down, 3, 2, 254).unwrap();
    let bytes = rate.to_bytes();
    assert_eq!(bytes, vec![2, 1, 3, 2, 254]);
    let account = view(1, PROGRAM_ID, bytes.clone());
    assert_eq!(Rate::from_account_info(&account), Ok(rate));
    let foreign = view(1, TOKEN_2022_PROGRAM_ID, bytes);
    assert_eq!(Rate::from_account_info(&foreign), Err(ProgramError::InvalidAccountOwner));
    assert_eq!(rate.calculate(5), Ok(7));
    let up = Rate::new(Rounding::Up, 3, 2, 1).unwrap();
    assert_eq!(up.calculate(5), Ok(8));
    assert_eq!(up.convert_from_to_amount(5, 2, 4), Ok(750));
    assert_eq!(up.convert_from_to_amount(5, 4, 2), Ok(1));
    assert_eq!(Rate::new(Rounding::Up, 0, 2, 1), Err(ProgramError::InvalidAccountData));
}

#[test]
fn split_and_convert_plans() {
    let double = Rate::new(Rounding::Down, 2, 1, 0).unwrap();
    assert_eq!(OperationsModule::plan_split(&double, 10), Ok(SplitPlan::Mint(10)));
    let half = Rate::new(Rounding::Up, 1, 2, 0).unwrap();
    assert_eq!(OperationsModule::plan_split(&half, 9), Ok(SplitPlan::Burn(4)));
    let same = Rate::new(Rounding::Down, 3, 3, 0).unwrap();
    assert_eq!(OperationsModule::plan_split(&same, 9), Ok(SplitPlan::Unchanged));
    assert_eq!(OperationsModule::plan_split(&same, 0), Err(ProgramError::InsufficientFunds));
    assert_eq!(OperationsModule::plan_convert(&double, 5, 4, 0, 0), Err(ProgramError::InsufficientFunds));
    assert_eq!(OperationsModule::plan_convert(&double, 5, 5, 0, 0), Ok(10));
    let tiny = Rate::new(Rounding::Down, 1, 255, 0).unwrap();
    assert_eq!(OperationsModule::plan_convert(&tiny, 5, 5, 0, 0), Err(ProgramError::InvalidInstructionData));
}

#[test]
fn mint_authority_layout() {
    assert_eq!(MintAuthority::new([0u8; 32], pubkey(2), 1).err(), Some(ProgramError::InvalidAccountData));
    let authority = MintAuthority::new(pubkey(1), pubkey(2), 250).unwrap();
    let bytes = authority.to_bytes();
    assert_eq!(bytes.len(), MintAuthority::LEN);
    assert_eq!(bytes[0], 0);
    assert_eq!(bytes[65], 250);
    let parsed = MintAuthority::try_from_bytes(&bytes).unwrap();
    assert_eq!(parsed, authority);
    let account = view(9, PROGRAM_ID, bytes);
    assert_eq!(MintAuthority::from_account_info(&account).unwrap(), authority);
    assert_eq!(MintAuthority::from_account_info(&view(9, PROGRAM_ID, vec![0; 65])).err(), Some(ProgramError::InvalidAccountData));
}

#[test]
fn verification_config_layout_and_updates() {
    let mut config = VerificationConfig::new(6, false, 200, &accounts(&[7, 8])).unwrap();
    let bytes = config.to_bytes();
    assert_eq!(bytes.len(), config.serialized_size());
    assert_eq!(&bytes[..8], &[1, 6, 0, 200, 2, 0, 0, 0]);
    let parsed = VerificationConfig::try_from_bytes(&bytes).unwrap();
    assert_eq!(parsed.verification_programs, accounts(&[7, 8]));
    let args = UpdateVerificationConfigArgs::new(6, true, &accounts(&[9]), 3).unwrap();
    assert_eq!(VerificationModule::apply_verification_config_update(&mut config, &args), Err(ProgramError::InvalidAccountData));
    assert_eq!(config.verification_programs.len(), 4);
    assert_eq!(config.verification_programs[2], [0u8; 32]);
    assert!(config.cpi_mode);
    let args = UpdateVerificationConfigArgs::new(6, false, &accounts(&[3, 4]), 1).unwrap();
    assert_eq!(VerificationModule::apply_verification_config_update(&mut config, &args), Ok(()));
    assert_eq!(config.verification_programs, accounts(&[7, 3, 4, 9]));
    assert_eq!(VerificationModule::plan_trim(4, 5, false), Err(ProgramError::InvalidArgument));
    assert_eq!(VerificationModule::plan_trim(4, 2, true), Ok(TrimPlan::Close));
    assert_eq!(VerificationModule::plan_trim(4, 2, false), Ok(TrimPlan::Truncate));
    assert_eq!(VerificationModule::plan_trim(4, 4, false), Ok(TrimPlan::Unchanged));
    let mut zero_in_list = bytes.clone();
    zero_in_list[8..40].copy_from_slice(&[0u8; 32]);
    assert!(VerificationConfig::try_from_bytes(&zero_in_list).is_err());
}

#[test]
fn strategies_and_profiles() {
    assert_eq!(VerificationModule::verification_strategy(&[1, 5]), Ok(VerificationStrategy::Programs));
    assert_eq!(VerificationModule::verification_strategy(&[0]), Ok(VerificationStrategy::MintAuthority));
    assert_eq!(VerificationModule::verification_strategy(&[2]), Err(ProgramError::InvalidInstructionData));
    assert_eq!(VerificationModule::verification_strategy(&[3, 0]), Err(ProgramError::InvalidInstructionData));
    assert_eq!(VerificationModule::verification_strategy(&[]), Err(ProgramError::InvalidAccountData));
    assert_eq!(VerificationModule::verification_strategy(&[9]), Err(ProgramError::InvalidInstructionData));
    assert_eq!(VerificationModule::cpi_mode_target_account_count(3, 2), Err(ProgramError::NotEnoughAccountKeys));
    assert_eq!(VerificationModule::cpi_mode_target_account_count(2, 5), Ok(3));
    assert_eq!(
        Processor::instruction_verification_profile(&SecurityTokenInstruction::InitializeMint),
        VerificationProfile::NoVerification
    );
    assert_eq!(
        Processor::instruction_verification_profile(&SecurityTokenInstruction::UpdateMetadata),
        VerificationProfile::VerificationProgramsOrMintAuthority
    );
    assert_eq!(
        Processor::instruction_verification_profile(&SecurityTokenInstruction::Burn),
        VerificationProfile::VerificationPrograms
    );
    assert_eq!(Processor::parse_amount(&[1, 0, 0, 0, 0, 0, 0, 0, 9]), Ok(1));
    assert_eq!(Processor::parse_amount(&[1, 0]), Err(ProgramError::InvalidInstructionData));
}

#[test]
fn receipts_and_defaults() {
    assert!(Receipt::from_account_info(&view(1, PROGRAM_ID, vec![3])).is_ok());
    assert_eq!(Receipt::from_account_info(&view(1, PROGRAM_ID, vec![4])).err(), Some(ProgramError::InvalidAccountData));
    assert_eq!(Receipt::from_account_info(&view(1, PROGRAM_ID, vec![3, 0])).err(), Some(ProgramError::InvalidAccountData));
    let status = VerificationStatus::default();
    assert_eq!(status.kyc_timestamp, 0);
    let mint = SecurityTokenMint::default();
    assert_eq!(mint.security_authority, [0u8; 32]);
}

#[test]
fn error_codes() {
    assert_eq!(SecurityTokenError::VerificationProgramNotFound.code(), 1);
    assert_eq!(SecurityTokenError::ExternalMetadataForbidsData.to_program_error(), ProgramError::Custom(7));
}
