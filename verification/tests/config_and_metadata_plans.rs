use security_token::constants::{
    INSTRUCTIONS_SYSVAR_ID, PROGRAM_ID, RENT_SYSVAR_ID, SYSTEM_PROGRAM_ID, TOKEN_2022_PROGRAM_ID,
    TRANSFER_HOOK_PROGRAM_ID,
};
use security_token::error::{ProgramError, SecurityTokenError};
use security_token::instructions::initialize_mint::{InitializeMintArgs, MetadataPointerArgs, TokenMetadataArgs};
use security_token::instructions::update_metadata::UpdateMetadataArgs;
use security_token::instructions::verification_config::{
    InitializeVerificationConfigArgs, TrimVerificationConfigArgs, UpdateVerificationConfigArgs,
};
use security_token::modules::account_checks::AccountView;
use security_token::modules::config_management::{MetasRent, TrimAction};
use security_token::modules::metadata_update::UpdateMetadataPlan;
use security_token::modules::program_verification::ProgramApproval;
use security_token::modules::verification::{VerificationModule, VerificationStrategy};
use security_token::state::discriminator::AccountSerialize;
use security_token::state::mint_authority::MintAuthority;
use security_token::state::verification::VerificationConfig;
use security_token::token22_extensions::ExtensionType;
use security_token::utils::{find_mint_authority_pda, find_verification_config_pda};

fn key(b: u8) -> [u8; 32] {
    [b; 32]
}

fn account(key: [u8; 32], owner: [u8; 32], lamports: u64, data: Vec<u8>, is_signer: bool, is_writable: bool) -> AccountView {
    AccountView { key, owner, lamports, data, is_signer, is_writable }
}

fn program(id: [u8; 32]) -> AccountView {
    account(id, key(0), 1, vec![], false, false)
}

fn mint_account(mint: [u8; 32]) -> AccountView {
    account(mint, TOKEN_2022_PROGRAM_ID, 1, vec![0u8; 82], false, true)
}

fn payer() -> AccountView {
    account(key(2), key(0), 100, vec![], true, true)
}

fn config_account(mint: [u8; 32], discriminator: u8, cpi_mode: bool, programs: Vec<[u8; 32]>) -> AccountView {
    let (addr, bump) = find_verification_config_pda(&mint, discriminator, &PROGRAM_ID).unwrap();
    let config = VerificationConfig { instruction_discriminator: discriminator, cpi_mode, bump, verification_programs: programs };
    account(addr, PROGRAM_ID, 1, config.to_bytes(), false, true)
}

#[test]
fn initialize_config_plan() {
    let mint = key(5);
    let accounts = vec![payer(), mint_account(mint), account(key(40), key(0), 0, vec![], false, true), program(SYSTEM_PROGRAM_ID)];
    let args = InitializeVerificationConfigArgs { instruction_discriminator: 12, cpi_mode: true, program_addresses: vec![key(1), key(2)] };
    let plan = VerificationModule::plan_initialize_verification_config(&mint_account(mint), &accounts, &args, &key(40), 254).unwrap();
    assert_eq!(plan.config.verification_programs, vec![key(1), key(2)]);
    assert_eq!(plan.config.bump, 254);
    assert!(plan.config.cpi_mode);
    assert_eq!(plan.size, 72);
    assert!(plan.sync_transfer_hook);
    assert_eq!(
        VerificationModule::plan_initialize_verification_config(&mint_account(mint), &accounts, &args, &key(41), 254).err(),
        Some(ProgramError::InvalidAccountData)
    );
    let taken = vec![payer(), mint_account(mint), account(key(40), PROGRAM_ID, 1, vec![1], false, true), program(SYSTEM_PROGRAM_ID)];
    assert_eq!(
        VerificationModule::plan_initialize_verification_config(&mint_account(mint), &taken, &args, &key(40), 254).err(),
        Some(ProgramError::AccountAlreadyInitialized)
    );
    // At most ten programs may be registered, none of them the zero address.
    let eleven = InitializeVerificationConfigArgs { instruction_discriminator: 12, cpi_mode: true, program_addresses: vec![key(1); 11] };
    assert_eq!(
        VerificationModule::plan_initialize_verification_config(&mint_account(mint), &accounts, &eleven, &key(40), 254).err(),
        Some(ProgramError::InvalidArgument)
    );
    let ten = InitializeVerificationConfigArgs { instruction_discriminator: 12, cpi_mode: true, program_addresses: vec![key(1); 10] };
    assert_eq!(VerificationModule::plan_initialize_verification_config(&mint_account(mint), &accounts, &ten, &key(40), 254).unwrap().size, 328);
    let zero = InitializeVerificationConfigArgs { instruction_discriminator: 12, cpi_mode: true, program_addresses: vec![key(1), key(0)] };
    assert_eq!(
        VerificationModule::plan_initialize_verification_config(&mint_account(mint), &accounts, &zero, &key(40), 254).err(),
        Some(ProgramError::InvalidArgument)
    );
    // The account checks come first.
    assert_eq!(
        VerificationModule::plan_initialize_verification_config(&mint_account(mint), &taken, &eleven, &key(40), 254).err(),
        Some(ProgramError::AccountAlreadyInitialized)
    );
}

#[test]
fn update_config_plan() {
    let mint = key(5);
    let accounts = vec![payer(), mint_account(mint), config_account(mint, 7, false, vec![key(1)]), program(SYSTEM_PROGRAM_ID)];
    let args = UpdateVerificationConfigArgs { instruction_discriminator: 7, cpi_mode: true, offset: 1, program_addresses: vec![key(2)] };
    let plan = VerificationModule::plan_update_verification_config(&mint_account(mint), &accounts, &args).unwrap();
    assert_eq!(plan.config.verification_programs, vec![key(1), key(2)]);
    assert!(plan.config.cpi_mode);
    assert_eq!(plan.new_size, 72);
    assert_eq!(plan.current_size, 40);
    assert_eq!(plan.grow_to, Some(72));
    assert!(!plan.sync_transfer_hook);
    // Replacing a program keeps the size: the account does not grow.
    let replace = UpdateVerificationConfigArgs { instruction_discriminator: 7, cpi_mode: false, offset: 0, program_addresses: vec![key(3)] };
    let plan = VerificationModule::plan_update_verification_config(&mint_account(mint), &accounts, &replace).unwrap();
    assert_eq!(plan.config.verification_programs, vec![key(3)]);
    assert_eq!((plan.new_size, plan.current_size, plan.grow_to), (40, 40, None));
    // Writing past the end leaves zero addresses in between, which validation refuses.
    let gap = UpdateVerificationConfigArgs { instruction_discriminator: 7, cpi_mode: true, offset: 3, program_addresses: vec![key(2)] };
    assert_eq!(
        VerificationModule::plan_update_verification_config(&mint_account(mint), &accounts, &gap).err(),
        Some(ProgramError::InvalidAccountData)
    );
    let other = UpdateVerificationConfigArgs { instruction_discriminator: 8, cpi_mode: true, offset: 0, program_addresses: vec![] };
    assert_eq!(
        VerificationModule::plan_update_verification_config(&mint_account(mint), &accounts, &other).err(),
        Some(ProgramError::InvalidAccountData)
    );
    let mut unsigned = vec![payer(), mint_account(mint), config_account(mint, 7, false, vec![key(1)]), program(SYSTEM_PROGRAM_ID)];
    unsigned[0].is_signer = false;
    assert_eq!(
        VerificationModule::plan_update_verification_config(&mint_account(mint), &unsigned, &args).err(),
        Some(ProgramError::MissingRequiredSignature)
    );
    // An update may not write past the tenth slot.
    let past = UpdateVerificationConfigArgs { instruction_discriminator: 7, cpi_mode: true, offset: 9, program_addresses: vec![key(2), key(3)] };
    assert_eq!(
        VerificationModule::plan_update_verification_config(&mint_account(mint), &accounts, &past).err(),
        Some(ProgramError::InvalidArgument)
    );
}

#[test]
fn trim_config_plan() {
    let mint = key(5);
    let accounts = || vec![
        mint_account(mint),
        config_account(mint, 12, false, vec![key(1), key(2), key(3)]),
        account(key(9), key(0), 0, vec![], false, true),
        program(SYSTEM_PROGRAM_ID),
    ];
    let trim = |size: u8, close: bool| TrimVerificationConfigArgs { instruction_discriminator: 12, size, close };
    let plan = VerificationModule::plan_trim_verification_config(&mint_account(mint), &accounts(), &trim(1, false)).unwrap();
    assert_eq!(plan.action, TrimAction::Shrink);
    assert_eq!(plan.config.verification_programs, vec![key(1)]);
    let (_, bump) = find_verification_config_pda(&mint, 12, &PROGRAM_ID).unwrap();
    assert_eq!((plan.config.instruction_discriminator, plan.config.cpi_mode, plan.config.bump), (12, false, bump));
    assert_eq!((plan.new_size, plan.current_size), (40, 104));
    assert!(plan.sync_transfer_hook);
    let plan = VerificationModule::plan_trim_verification_config(&mint_account(mint), &accounts(), &trim(3, false)).unwrap();
    assert_eq!(plan.action, TrimAction::Unchanged);
    assert!(!plan.sync_transfer_hook);
    let plan = VerificationModule::plan_trim_verification_config(&mint_account(mint), &accounts(), &trim(0, true)).unwrap();
    assert_eq!(plan.action, TrimAction::Close);
    assert!(plan.sync_transfer_hook);
    // Closing leaves the transfer hook no program to list.
    assert!(plan.config.verification_programs.is_empty());
    assert_eq!((plan.config.instruction_discriminator, plan.config.bump), (12, bump));
    assert_eq!(
        VerificationModule::plan_trim_verification_config(&mint_account(mint), &accounts(), &trim(4, false)).err(),
        Some(ProgramError::InvalidArgument)
    );
    // A config account cut short of its program list does not read.
    let mut cut = accounts();
    cut[1].data.truncate(72);
    assert_eq!(
        VerificationModule::plan_trim_verification_config(&mint_account(mint), &cut, &trim(1, false)).err(),
        Some(ProgramError::InvalidAccountData)
    );
}

#[test]
fn transfer_hook_metas_plan() {
    let hook_accounts = vec![
        account(key(50), key(0), 1, vec![0u8; 100], false, true),
        account(key(51), key(0), 0, vec![], false, false),
        program(TRANSFER_HOOK_PROGRAM_ID),
    ];
    let plan = VerificationModule::plan_transfer_hook_metas(&hook_accounts, &key(51), &key(50), &key(60), &[key(1), key(2)], true).unwrap();
    assert_eq!(plan.metas, vec![key(60), key(1), key(2)]);
    // The TLV header (12 bytes), the list's count (4 bytes) and three 35-byte metas.
    assert_eq!(plan.new_account_size, 121);
    assert_eq!(plan.rent, MetasRent::Full);
    let plan = VerificationModule::plan_transfer_hook_metas(&hook_accounts, &key(51), &key(50), &key(60), &[key(1), key(2)], false).unwrap();
    assert_eq!(plan.rent, MetasRent::TopUp);
    let plan = VerificationModule::plan_transfer_hook_metas(&hook_accounts, &key(51), &key(50), &key(60), &[], false).unwrap();
    assert_eq!(plan.metas, vec![key(60)]);
    assert_eq!(plan.new_account_size, 51);
    assert_eq!(plan.rent, MetasRent::Nothing);
    assert_eq!(
        VerificationModule::plan_transfer_hook_metas(&hook_accounts, &key(52), &key(50), &key(60), &[], false).err(),
        Some(ProgramError::InvalidSeeds)
    );
    assert_eq!(
        VerificationModule::plan_transfer_hook_metas(&hook_accounts[..2], &key(51), &key(50), &key(60), &[], false).err(),
        Some(ProgramError::NotEnoughAccountKeys)
    );
}

#[test]
fn verification_by_programs_checks() {
    let mint = key(5);
    let with = |cpi: bool, programs: Vec<[u8; 32]>, extra: usize| {
        let mut v = vec![mint_account(mint), config_account(mint, 4, cpi, programs), program(INSTRUCTIONS_SYSVAR_ID)];
        for i in 0..extra {
            v.push(account(key(100 + i as u8), key(0), 0, vec![], false, false));
        }
        v
    };
    let (_, approval) = VerificationModule::check_verification_by_programs(&with(true, vec![key(1), key(2)], 5), 4).unwrap();
    assert_eq!(approval, ProgramApproval::Cpi(3));
    assert_eq!(
        VerificationModule::check_verification_by_programs(&with(true, vec![key(1), key(2)], 1), 4).err(),
        Some(ProgramError::NotEnoughAccountKeys)
    );
    let (_, approval) = VerificationModule::check_verification_by_programs(&with(false, vec![key(1)], 0), 4).unwrap();
    assert_eq!(approval, ProgramApproval::Introspection);
    let (config, approval) = VerificationModule::check_verification_by_programs(&with(false, vec![], 0), 4).unwrap();
    assert_eq!(approval, ProgramApproval::NoPrograms);
    assert_eq!(config.instruction_discriminator, 4);
    assert_eq!(
        VerificationModule::check_verification_by_programs(&with(false, vec![], 0), 5).err(),
        Some(ProgramError::InvalidAccountData)
    );
    let mut moved = with(false, vec![], 0);
    moved[1].key = key(77);
    assert_eq!(
        VerificationModule::check_verification_by_programs(&moved, 4).err(),
        Some(SecurityTokenError::InvalidVerificationConfigPda.to_program_error())
    );
    let mut no_sysvar = with(false, vec![], 0);
    no_sysvar[2] = program(RENT_SYSVAR_ID);
    assert_eq!(
        VerificationModule::check_verification_by_programs(&no_sysvar, 4).err(),
        Some(ProgramError::IncorrectProgramId)
    );
}

fn encode_str(out: &mut Vec<u8>, s: &str) {
    out.extend_from_slice(&(s.len() as u32).to_le_bytes());
    out.extend_from_slice(s.as_bytes());
}

fn pairs_bytes(pairs: &[(&str, &str)]) -> Vec<u8> {
    let mut out = Vec::new();
    for (k, v) in pairs {
        encode_str(&mut out, k);
        encode_str(&mut out, v);
    }
    out
}

/// Mint data with a metadata pointer to `pointer` and token metadata with the given pairs.
fn mint_with_metadata(mint: [u8; 32], pointer: [u8; 32], pairs: &[(&str, &str)]) -> Vec<u8> {
    let mut data = vec![0u8; 165];
    data.push(1);
    data.extend_from_slice(&18u16.to_le_bytes());
    data.extend_from_slice(&64u16.to_le_bytes());
    data.extend_from_slice(&key(8));
    data.extend_from_slice(&pointer);
    let mut meta = Vec::new();
    meta.extend_from_slice(&key(8));
    meta.extend_from_slice(&mint);
    encode_str(&mut meta, "Old");
    encode_str(&mut meta, "O");
    encode_str(&mut meta, "x");
    meta.extend_from_slice(&(pairs.len() as u32).to_le_bytes());
    meta.extend_from_slice(&pairs_bytes(pairs));
    data.extend_from_slice(&19u16.to_le_bytes());
    data.extend_from_slice(&(meta.len() as u16).to_le_bytes());
    data.extend_from_slice(&meta);
    data
}

fn metadata_args(name: &str, pairs: &[(&str, &str)]) -> UpdateMetadataArgs {
    UpdateMetadataArgs::new(TokenMetadataArgs {
        update_authority: key(8),
        mint: key(5),
        name: name.to_string(),
        symbol: "N".to_string(),
        uri: "u".to_string(),
        additional_metadata: pairs_bytes(pairs),
    })
}

fn update_accounts(mint_data: Vec<u8>) -> Vec<AccountView> {
    let mint = key(5);
    let authority = MintAuthority { mint, mint_creator: key(11), bump: 3 };
    vec![
        account(key(10), PROGRAM_ID, 1, authority.to_bytes(), false, false),
        payer(),
        account(mint, TOKEN_2022_PROGRAM_ID, 1, mint_data, false, true),
        program(TOKEN_2022_PROGRAM_ID),
        program(SYSTEM_PROGRAM_ID),
    ]
}

#[test]
fn update_metadata_plan() {
    let mint = key(5);
    let verified = mint_account(mint);
    let accounts = update_accounts(mint_with_metadata(mint, mint, &[("a", "1"), ("b", "2")]));
    let args = metadata_args("Newer", &[("b", "3"), ("c", "4")]);
    let plan: UpdateMetadataPlan = VerificationModule::plan_update_metadata(&verified, &accounts, &args).unwrap();
    assert_eq!(plan.mint_authority, MintAuthority { mint, mint_creator: key(11), bump: 3 });
    // The new entry takes 111 bytes, the current one 109.
    assert_eq!(plan.additional_space, 2);
    assert_eq!(plan.keys_to_remove, vec!["a".to_string()]);
    assert_eq!(
        plan.fields_to_set,
        vec![("b".to_string(), "3".to_string()), ("c".to_string(), "4".to_string())]
    );
    let smaller = metadata_args("N", &[]);
    let plan = VerificationModule::plan_update_metadata(&verified, &accounts, &smaller).unwrap();
    assert_eq!(plan.additional_space, 0);
    assert_eq!(plan.keys_to_remove, vec!["a".to_string(), "b".to_string()]);
    assert!(plan.fields_to_set.is_empty());

    let external = update_accounts(mint_with_metadata(mint, key(9), &[]));
    assert_eq!(
        VerificationModule::plan_update_metadata(&verified, &external, &args).err(),
        Some(ProgramError::NotEnoughAccountKeys)
    );
    let no_pointer = update_accounts(vec![0u8; 166]);
    assert_eq!(
        VerificationModule::plan_update_metadata(&verified, &no_pointer, &args).err(),
        Some(ProgramError::InvalidAccountData)
    );
    let short = update_accounts(vec![0u8; 100]);
    assert!(VerificationModule::try_plan_update_metadata(&verified, &short, &args).is_none());
    let mut wrong_authority = update_accounts(mint_with_metadata(mint, mint, &[]));
    wrong_authority[0] = account(key(10), PROGRAM_ID, 1, MintAuthority { mint: key(6), mint_creator: key(11), bump: 3 }.to_bytes(), false, false);
    assert_eq!(
        VerificationModule::plan_update_metadata(&verified, &wrong_authority, &args).err(),
        Some(ProgramError::InvalidAccountData)
    );
}

fn init_accounts(mint_authority_lamports: u64) -> Vec<AccountView> {
    vec![
        account(key(5), key(0), 0, vec![], true, true),
        account(key(20), key(0), mint_authority_lamports, vec![], false, true),
        account(key(6), key(0), 100, vec![], true, true),
        program(TOKEN_2022_PROGRAM_ID),
        program(SYSTEM_PROGRAM_ID),
        program(RENT_SYSVAR_ID),
    ]
}

#[test]
fn initialize_mint_plan() {
    let args = InitializeMintArgs::new(6, key(6), key(7), None, None, None);
    let plan = VerificationModule::plan_initialize_mint(&init_accounts(0), &args, &key(7), &key(20), 9).unwrap();
    assert_eq!(
        plan.extensions,
        vec![ExtensionType::PermanentDelegate, ExtensionType::TransferHook, ExtensionType::Pausable]
    );
    assert_eq!(plan.mint_size, 307);
    assert_eq!(plan.total_size, 307);
    assert_eq!(plan.metadata_pointer, None);
    assert_eq!(plan.mint_authority, MintAuthority { mint: key(5), mint_creator: key(6), bump: 9 });
    assert_eq!(plan.metadata_account, None);

    let metadata = TokenMetadataArgs {
        update_authority: key(8),
        mint: key(5),
        name: "Token".to_string(),
        symbol: "TKN".to_string(),
        uri: "https://x".to_string(),
        additional_metadata: pairs_bytes(&[("k", "v")]),
    };
    let pointer = MetadataPointerArgs { authority: key(8), metadata_address: key(5) };
    let args = InitializeMintArgs::new(6, key(6), key(7), Some(pointer), Some(metadata), None);
    let plan = VerificationModule::plan_initialize_mint(&init_accounts(0), &args, &key(7), &key(20), 9).unwrap();
    assert_eq!(plan.mint_size, 375);
    // 4 + 32 + 32 + (4 + 5) + (4 + 3) + (4 + 9) + 4 + (4 + 1 + 4 + 1)
    assert_eq!(plan.total_size, 375 + 111);
    assert_eq!(plan.metadata_pointer, Some((key(8), key(5))));
    assert_eq!(plan.metadata_account, Some(0));
    assert_eq!(plan.metadata_fields, vec![("k".to_string(), "v".to_string())]);

    assert_eq!(
        VerificationModule::plan_initialize_mint(&init_accounts(0), &args, &key(9), &key(20), 9).err(),
        Some(ProgramError::InvalidSeeds)
    );
    assert_eq!(
        VerificationModule::plan_initialize_mint(&init_accounts(5), &args, &key(7), &key(20), 9).err(),
        Some(ProgramError::AccountAlreadyInitialized)
    );
    assert_eq!(
        VerificationModule::plan_initialize_mint(&init_accounts(0)[..5], &args, &key(7), &key(20), 9).err(),
        Some(ProgramError::NotEnoughAccountKeys)
    );
}

#[test]
fn verification_by_mint_authority() {
    let mint = key(5);
    let creator = key(6);
    let (addr, bump) = find_mint_authority_pda(&mint, &creator, &PROGRAM_ID).unwrap();
    let authority = |bump: u8| {
        account(addr, PROGRAM_ID, 1, MintAuthority { mint, mint_creator: creator, bump }.to_bytes(), false, false)
    };
    let signer = account(creator, key(0), 1, vec![], true, false);
    assert_eq!(VerificationModule::verify_by_mint_authority(&mint_account(mint), &authority(bump), &signer), Ok(()));
    let unsigned = account(creator, key(0), 1, vec![], false, false);
    assert_eq!(
        VerificationModule::verify_by_mint_authority(&mint_account(mint), &authority(bump), &unsigned),
        Err(ProgramError::MissingRequiredSignature)
    );
    let stranger = account(key(7), key(0), 1, vec![], true, false);
    assert_eq!(
        VerificationModule::verify_by_mint_authority(&mint_account(mint), &authority(bump), &stranger),
        Err(ProgramError::MissingRequiredSignature)
    );
    assert_eq!(
        VerificationModule::verify_by_mint_authority(&mint_account(key(9)), &authority(bump), &signer),
        Err(ProgramError::InvalidAccountData)
    );
    // A stored bump that does not derive the account's address.
    let wrong_bump = VerificationModule::verify_by_mint_authority(&mint_account(mint), &authority(bump.wrapping_sub(1)), &signer);
    assert_eq!(wrong_bump, Err(ProgramError::InvalidSeeds));

    // Choosing by the verification account: a mint authority approves here.
    let by_authority = vec![mint_account(mint), authority(bump), account(creator, key(0), 1, vec![], true, false)];
    assert_eq!(VerificationModule::check_verification_by_strategy(&by_authority), Ok(VerificationStrategy::MintAuthority));
    let refused = vec![mint_account(mint), authority(bump), account(creator, key(0), 1, vec![], false, false)];
    assert_eq!(
        VerificationModule::check_verification_by_strategy(&refused),
        Err(ProgramError::MissingRequiredSignature)
    );
    // A verification config leaves the approval to its programs.
    let by_programs = vec![mint_account(mint), config_account(mint, 4, false, vec![key(1)]), account(creator, key(0), 1, vec![], true, false)];
    assert_eq!(VerificationModule::check_verification_by_strategy(&by_programs), Ok(VerificationStrategy::Programs));
    let empty = vec![mint_account(mint), account(key(8), PROGRAM_ID, 1, vec![], false, false), account(creator, key(0), 1, vec![], true, false)];
    assert_eq!(VerificationModule::check_verification_by_strategy(&empty), Err(ProgramError::InvalidAccountData));
    let unknown = vec![mint_account(mint), account(key(8), PROGRAM_ID, 1, vec![2], false, false), account(creator, key(0), 1, vec![], true, false)];
    assert_eq!(VerificationModule::check_verification_by_strategy(&unknown), Err(ProgramError::InvalidInstructionData));
    assert_eq!(
        VerificationModule::check_verification_by_strategy(&by_authority[..2]),
        Err(ProgramError::NotEnoughAccountKeys)
    );
}
