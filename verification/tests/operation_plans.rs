use security_token::constants::{
    ASSOCIATED_TOKEN_PROGRAM_ID, PROGRAM_ID, SYSTEM_PROGRAM_ID, TOKEN_2022_PROGRAM_ID, TRANSFER_HOOK_PROGRAM_ID,
};
use security_token::error::ProgramError;
use security_token::modules::account_checks::AccountView;
use security_token::instructions::claim_distribution::ClaimDistributionArgs;
use security_token::merkle_tree_utils::create_merkle_tree_leaf_node;
use security_token::modules::operation_checks::{mint_decimals, token_account_state, ClaimTransfer};
use security_token::modules::operations::{OperationsModule, SplitPlan};
use security_token::state::discriminator::AccountSerialize;
use security_token::state::mint_authority::MintAuthority;
use security_token::state::program_account::{merged_lamports, moved_lamports, rent_adjustment, RentAdjustment};
use security_token::state::proof_account::Proof;
use security_token::state::rate::{Rate, Rounding};
use security_token::state::receipt::Receipt;
use security_token::utils::find_rate_pda;

fn key(b: u8) -> [u8; 32] {
    [b; 32]
}

fn account(key: [u8; 32], owner: [u8; 32], lamports: u64, data: Vec<u8>, is_signer: bool, is_writable: bool) -> AccountView {
    AccountView { key, owner, lamports, data, is_signer, is_writable }
}

fn program(id: [u8; 32]) -> AccountView {
    account(id, key(0), 1, vec![], false, false)
}

fn mint_data(decimals: u8) -> Vec<u8> {
    let mut d = vec![0u8; 82];
    d[44] = decimals;
    d
}

fn token_data(mint: [u8; 32], amount: u64) -> Vec<u8> {
    let mut d = vec![0u8; 165];
    d[0..32].copy_from_slice(&mint);
    d[64..72].copy_from_slice(&amount.to_le_bytes());
    d
}

fn mint_account(mint: [u8; 32], decimals: u8) -> AccountView {
    account(mint, TOKEN_2022_PROGRAM_ID, 1, mint_data(decimals), false, true)
}

fn token_account(k: u8, mint: [u8; 32], amount: u64) -> AccountView {
    account(key(k), TOKEN_2022_PROGRAM_ID, 1, token_data(mint, amount), false, true)
}

fn authority_account(mint: [u8; 32], creator: [u8; 32], bump: u8) -> AccountView {
    let data = MintAuthority { mint, mint_creator: creator, bump }.to_bytes();
    account(key(10), PROGRAM_ID, 1, data, false, true)
}

fn rate_account(action_id: u64, from: [u8; 32], to: [u8; 32], rounding: Rounding, numerator: u8, denominator: u8) -> (AccountView, Rate) {
    let (addr, bump) = find_rate_pda(action_id, &from, &to, &PROGRAM_ID).unwrap();
    let rate = Rate { rounding, numerator, denominator, bump };
    (account(addr, PROGRAM_ID, 1, rate.to_bytes(), false, true), rate)
}

fn payer() -> AccountView {
    account(key(2), key(0), 100, vec![], true, true)
}

fn new_account(k: u8) -> AccountView {
    account(key(k), key(0), 0, vec![], false, true)
}

#[test]
fn token_state_readers() {
    assert_eq!(mint_decimals(&mint_account(key(5), 9)), Ok(9));
    let short = account(key(5), TOKEN_2022_PROGRAM_ID, 1, vec![0u8; 81], false, false);
    assert_eq!(mint_decimals(&short), Err(ProgramError::InvalidAccountData));
    let foreign = account(key(5), key(1), 1, mint_data(9), false, false);
    assert_eq!(mint_decimals(&foreign), Err(ProgramError::InvalidAccountOwner));
    assert_eq!(token_account_state(&token_account(4, key(5), 1234)), Ok((key(5), 1234)));
    let foreign_token = account(key(4), key(1), 1, token_data(key(5), 1), false, false);
    assert_eq!(token_account_state(&foreign_token), Err(ProgramError::InvalidAccountData));
}

fn split_accounts(action_id: u64, amount: u64) -> (Vec<AccountView>, Rate) {
    let mint = key(5);
    let (rate_acc, rate) = rate_account(action_id, mint, mint, Rounding::Down, 2, 1);
    let accounts = vec![
        authority_account(mint, key(11), 7),
        account(key(21), key(0), 0, vec![], false, false),
        payer(),
        mint_account(mint, 6),
        token_account(4, mint, amount),
        rate_acc,
        account(key(22), key(0), 0, vec![], false, true),
        program(TOKEN_2022_PROGRAM_ID),
        program(SYSTEM_PROGRAM_ID),
    ];
    (accounts, rate)
}

#[test]
fn split_checks_and_plan() {
    let verified = mint_account(key(5), 6);
    let (accounts, rate) = split_accounts(3, 100);
    let ctx = OperationsModule::check_split(&verified, &accounts, 3, &key(21), &key(22)).unwrap();
    assert_eq!(ctx.rate, rate);
    assert_eq!(ctx.decimals, 6);
    assert_eq!(ctx.mint_authority, MintAuthority { mint: key(5), mint_creator: key(11), bump: 7 });
    assert_eq!(ctx.current_amount, 100);
    assert_eq!(OperationsModule::plan_split(&ctx.rate, ctx.current_amount), Ok(SplitPlan::Mint(100)));

    let (accounts, _) = split_accounts(3, 100);
    assert_eq!(
        OperationsModule::check_split(&verified, &accounts[..8], 3, &key(21), &key(22)).err(),
        Some(ProgramError::NotEnoughAccountKeys)
    );
    let (mut accounts, _) = split_accounts(3, 100);
    accounts[2].is_signer = false;
    assert_eq!(
        OperationsModule::check_split(&verified, &accounts, 3, &key(21), &key(22)).err(),
        Some(ProgramError::MissingRequiredSignature)
    );
    let (mut accounts, _) = split_accounts(3, 100);
    accounts[6].lamports = 1;
    assert_eq!(
        OperationsModule::check_split(&verified, &accounts, 3, &key(21), &key(22)).err(),
        Some(ProgramError::AccountAlreadyInitialized)
    );
    // After a split its receipt holds the receipt discriminator: a second split fails.
    let (mut accounts, _) = split_accounts(3, 100);
    accounts[6].data = Receipt::new().unwrap().to_bytes();
    assert_eq!(
        OperationsModule::check_split(&verified, &accounts, 3, &key(21), &key(22)).err(),
        Some(ProgramError::AccountAlreadyInitialized)
    );
    let (accounts, _) = split_accounts(3, 100);
    assert_eq!(
        OperationsModule::check_split(&verified, &accounts, 3, &key(29), &key(22)).err(),
        Some(ProgramError::InvalidSeeds)
    );
    // The rate was derived for another action.
    let (accounts, _) = split_accounts(3, 100);
    assert_eq!(
        OperationsModule::check_split(&verified, &accounts, 4, &key(21), &key(22)).err(),
        Some(ProgramError::InvalidSeeds)
    );
    let (mut accounts, _) = split_accounts(3, 100);
    accounts[4] = token_account(4, key(6), 100);
    assert_eq!(
        OperationsModule::check_split(&verified, &accounts, 3, &key(21), &key(22)).err(),
        Some(ProgramError::InvalidInstructionData)
    );
    let other = mint_account(key(6), 6);
    let (accounts, _) = split_accounts(3, 100);
    assert_eq!(
        OperationsModule::check_split(&other, &accounts, 3, &key(21), &key(22)).err(),
        Some(ProgramError::InvalidAccountData)
    );
}

fn convert_accounts(amount: u64) -> Vec<AccountView> {
    let from = key(5);
    let to = key(6);
    let (rate_acc, _) = rate_account(8, from, to, Rounding::Down, 1, 2);
    vec![
        authority_account(to, key(11), 7),
        account(key(21), key(0), 0, vec![], false, false),
        payer(),
        mint_account(from, 2),
        mint_account(to, 4),
        token_account(31, from, amount),
        token_account(32, to, 0),
        rate_acc,
        account(key(22), key(0), 0, vec![], false, true),
        program(TOKEN_2022_PROGRAM_ID),
        program(SYSTEM_PROGRAM_ID),
    ]
}

#[test]
fn convert_checks_and_plan() {
    let verified = mint_account(key(6), 4);
    let accounts = convert_accounts(1000);
    let ctx = OperationsModule::check_convert(&verified, &accounts, 8, 500, &key(21), &key(22)).unwrap();
    assert_eq!((ctx.decimals_from, ctx.decimals_to, ctx.current_amount), (2, 4, 1000));
    assert_eq!(ctx.mint_authority.mint, key(6));
    // 500 at rate 1/2, two more decimals: 500 * 1 * 100 / 2.
    assert_eq!(
        OperationsModule::plan_convert(&ctx.rate, 500, ctx.current_amount, ctx.decimals_from, ctx.decimals_to),
        Ok(25000)
    );
    let accounts = convert_accounts(100);
    assert_eq!(
        OperationsModule::check_convert(&verified, &accounts, 8, 500, &key(21), &key(22)).err(),
        Some(ProgramError::InsufficientFunds)
    );
    let mut accounts = convert_accounts(1000);
    accounts[6] = token_account(32, key(5), 0);
    assert_eq!(
        OperationsModule::check_convert(&verified, &accounts, 8, 500, &key(21), &key(22)).err(),
        Some(ProgramError::InvalidInstructionData)
    );
    let mut accounts = convert_accounts(1000);
    accounts[0] = authority_account(key(5), key(11), 7);
    assert_eq!(
        OperationsModule::check_convert(&verified, &accounts, 8, 500, &key(21), &key(22)).err(),
        Some(ProgramError::InvalidInstructionData)
    );
}

fn claim_accounts(escrow: [u8; 32], proof_account: [u8; 32]) -> Vec<AccountView> {
    let mint = key(5);
    vec![
        account(key(21), key(0), 0, vec![], false, false),
        payer(),
        mint_account(mint, 3),
        token_account(4, mint, 0),
        account(escrow, TOKEN_2022_PROGRAM_ID, 1, token_data(mint, 50), false, true),
        account(key(22), key(0), 0, vec![], false, true),
        account(proof_account, key(0), 0, vec![], false, false),
        program(TRANSFER_HOOK_PROGRAM_ID),
        program(TOKEN_2022_PROGRAM_ID),
        program(SYSTEM_PROGRAM_ID),
    ]
}

#[test]
fn claim_checks() {
    let verified = mint_account(key(5), 3);
    let accounts = claim_accounts(PROGRAM_ID, PROGRAM_ID);
    let ctx = OperationsModule::check_claim(&verified, &accounts, 1, Some(vec![key(9)])).unwrap();
    assert!(ctx.external_settlement);
    assert_eq!(ctx.proof, vec![key(9)]);
    // No proof at all.
    let accounts = claim_accounts(PROGRAM_ID, PROGRAM_ID);
    assert_eq!(
        OperationsModule::check_claim(&verified, &accounts, 1, None).err(),
        Some(ProgramError::InvalidInstructionData)
    );
    // A proof account and a proof argument together.
    let accounts = claim_accounts(key(30), key(40));
    assert_eq!(
        OperationsModule::check_claim(&verified, &accounts, 1, Some(vec![key(9)])).err(),
        Some(ProgramError::InvalidInstructionData)
    );
    // A proof account that does not exist.
    let accounts = claim_accounts(key(30), key(40));
    assert_eq!(
        OperationsModule::check_claim(&verified, &accounts, 1, None).err(),
        Some(ProgramError::UninitializedAccount)
    );
    let mut accounts = claim_accounts(key(30), PROGRAM_ID);
    accounts[4].is_writable = false;
    assert_eq!(
        OperationsModule::check_claim(&verified, &accounts, 1, Some(vec![key(9)])).err(),
        Some(ProgramError::Immutable)
    );
    let mut accounts = claim_accounts(PROGRAM_ID, PROGRAM_ID);
    accounts[4].is_writable = false;
    assert!(OperationsModule::check_claim(&verified, &accounts, 1, Some(vec![key(9)])).is_ok());

    let accounts = claim_accounts(key(30), PROGRAM_ID);
    assert_eq!(OperationsModule::check_claim_payment(&accounts, 40, &key(30), &key(21)), Ok(3));
    assert_eq!(
        OperationsModule::check_claim_payment(&accounts, 60, &key(30), &key(21)),
        Err(ProgramError::InsufficientFunds)
    );
    assert_eq!(OperationsModule::check_claim_payment(&accounts, 40, &key(31), &key(21)), Err(ProgramError::InvalidSeeds));
    let mut accounts = claim_accounts(key(30), PROGRAM_ID);
    accounts[3] = token_account(4, key(6), 0);
    assert_eq!(
        OperationsModule::check_claim_payment(&accounts, 40, &key(30), &key(21)),
        Err(ProgramError::InvalidAccountData)
    );
}

fn claim_args(amount: u64, root: [u8; 32], proof: Option<Vec<[u8; 32]>>) -> ClaimDistributionArgs {
    ClaimDistributionArgs { action_id: 1, amount, merkle_root: root, leaf_index: 0, merkle_proof: proof }
}

fn claim_root(amount: u64) -> [u8; 32] {
    let leaf = create_merkle_tree_leaf_node(&key(4), &key(5), 1, amount);
    let parts: [&[u8]; 2] = [&leaf, &key(9)];
    solana_keccak_hasher::hashv(&parts).to_bytes()
}

#[test]
fn claim_distribution_plan() {
    let verified = mint_account(key(5), 3);
    let accounts = claim_accounts(key(30), PROGRAM_ID);
    let args = claim_args(40, claim_root(40), Some(vec![key(9)]));
    let plan = OperationsModule::plan_claim_distribution(&verified, &accounts, &args, &key(22), &key(30), &key(21)).unwrap();
    assert_eq!(plan.proof, vec![key(9)]);
    assert_eq!(plan.transfer, Some(ClaimTransfer { amount: 40, decimals: 3 }));
    assert_eq!(plan.receipt_data, vec![3u8]);
    // Settled outside the program: nothing moves, the receipt is still issued.
    let accounts = claim_accounts(PROGRAM_ID, PROGRAM_ID);
    let plan = OperationsModule::plan_claim_distribution(&verified, &accounts, &args, &key(22), &key(30), &key(21)).unwrap();
    assert_eq!(plan.transfer, None);
    assert_eq!(plan.receipt_data, vec![3u8]);
    // The receipt must be at the address derived for the claim.
    let accounts = claim_accounts(key(30), PROGRAM_ID);
    assert_eq!(
        OperationsModule::plan_claim_distribution(&verified, &accounts, &args, &key(23), &key(30), &key(21)).err(),
        Some(ProgramError::InvalidSeeds)
    );
    // A leaf that the root does not hold.
    let wrong = claim_args(41, claim_root(40), Some(vec![key(9)]));
    assert_eq!(
        OperationsModule::plan_claim_distribution(&verified, &accounts, &wrong, &key(22), &key(30), &key(21)).err(),
        Some(ProgramError::InvalidInstructionData)
    );
    // The escrow holds 50 tokens.
    let too_much = claim_args(60, claim_root(60), Some(vec![key(9)]));
    assert_eq!(
        OperationsModule::plan_claim_distribution(&verified, &accounts, &too_much, &key(22), &key(30), &key(21)).err(),
        Some(ProgramError::InsufficientFunds)
    );
    // Without settlement outside, the escrow must be the distribution's.
    assert_eq!(
        OperationsModule::plan_claim_distribution(&verified, &accounts, &args, &key(22), &key(31), &key(21)).err(),
        Some(ProgramError::InvalidSeeds)
    );
    // No proof at all.
    assert_eq!(
        OperationsModule::plan_claim_distribution(&verified, &accounts, &claim_args(40, claim_root(40), None), &key(22), &key(30), &key(21)).err(),
        Some(ProgramError::InvalidInstructionData)
    );
}

#[test]
fn mint_burn_freeze_pause_transfer_checks() {
    let mint = key(5);
    let verified = mint_account(mint, 6);
    let mint_accounts = vec![
        authority_account(mint, key(11), 7),
        mint_account(mint, 6),
        token_account(4, mint, 0),
        program(TOKEN_2022_PROGRAM_ID),
    ];
    let (decimals, authority) = OperationsModule::check_mint(&verified, &mint_accounts).unwrap();
    assert_eq!(decimals, 6);
    assert_eq!(authority.mint_creator, key(11));
    let wrong_authority = vec![
        authority_account(key(6), key(11), 7),
        mint_account(mint, 6),
        token_account(4, mint, 0),
        program(TOKEN_2022_PROGRAM_ID),
    ];
    assert_eq!(OperationsModule::check_mint(&verified, &wrong_authority).err(), Some(ProgramError::InvalidAccountData));

    let burn_accounts = vec![
        account(key(21), key(0), 0, vec![], false, false),
        mint_account(mint, 6),
        token_account(4, mint, 10),
        program(TOKEN_2022_PROGRAM_ID),
    ];
    assert_eq!(OperationsModule::check_burn(&verified, &burn_accounts, &key(21)), Ok(6));
    assert_eq!(OperationsModule::check_burn(&verified, &burn_accounts, &key(22)), Err(ProgramError::InvalidSeeds));
    assert_eq!(OperationsModule::check_freeze(&verified, &burn_accounts, &key(21)), Ok(()));
    let mut read_only_mint = vec![
        account(key(21), key(0), 0, vec![], false, false),
        mint_account(mint, 6),
        token_account(4, mint, 10),
        program(TOKEN_2022_PROGRAM_ID),
    ];
    read_only_mint[1].is_writable = false;
    assert_eq!(OperationsModule::check_burn(&verified, &read_only_mint, &key(21)), Err(ProgramError::Immutable));
    assert_eq!(OperationsModule::check_freeze(&verified, &read_only_mint, &key(21)), Ok(()));

    let pause_accounts = vec![
        account(key(23), key(0), 0, vec![], false, false),
        mint_account(mint, 6),
        program(TOKEN_2022_PROGRAM_ID),
    ];
    assert_eq!(OperationsModule::check_pause(&verified, &pause_accounts, &key(23)), Ok(()));
    assert_eq!(OperationsModule::check_pause(&verified, &pause_accounts[..2], &key(23)), Err(ProgramError::NotEnoughAccountKeys));

    let transfer_accounts = vec![
        account(key(21), key(0), 0, vec![], false, false),
        mint_account(mint, 6),
        token_account(4, mint, 10),
        token_account(5, mint, 0),
        program(TRANSFER_HOOK_PROGRAM_ID),
        program(TOKEN_2022_PROGRAM_ID),
    ];
    assert_eq!(OperationsModule::check_transfer(&verified, &transfer_accounts, &key(21)), Ok(6));
    let no_hook = vec![
        account(key(21), key(0), 0, vec![], false, false),
        mint_account(mint, 6),
        token_account(4, mint, 10),
        token_account(5, mint, 0),
        program(SYSTEM_PROGRAM_ID),
        program(TOKEN_2022_PROGRAM_ID),
    ];
    assert_eq!(OperationsModule::check_transfer(&verified, &no_hook, &key(21)), Err(ProgramError::IncorrectProgramId));
}

#[test]
fn rate_account_checks() {
    let from = key(5);
    let to = key(6);
    let verified = mint_account(to, 0);
    let create = vec![payer(), new_account(30), mint_account(from, 0), mint_account(to, 0), program(SYSTEM_PROGRAM_ID)];
    assert_eq!(
        OperationsModule::check_create_rate(&verified, &create, 3, 4, 1, &key(30), 250),
        Ok(Rate { rounding: Rounding::Down, numerator: 3, denominator: 4, bump: 250 })
    );
    assert_eq!(
        OperationsModule::check_create_rate(&verified, &create, 3, 4, 2, &key(30), 250),
        Err(ProgramError::InvalidAccountData)
    );
    assert_eq!(
        OperationsModule::check_create_rate(&verified, &create, 0, 4, 0, &key(30), 250),
        Err(ProgramError::InvalidAccountData)
    );
    assert_eq!(
        OperationsModule::check_create_rate(&verified, &create, 3, 4, 0, &key(31), 250),
        Err(ProgramError::InvalidSeeds)
    );

    let (rate_acc, rate) = rate_account(9, from, to, Rounding::Up, 1, 1);
    let update = vec![rate_acc, mint_account(from, 0), mint_account(to, 0)];
    assert_eq!(
        OperationsModule::check_update_rate(&verified, &update, 9, 5, 7, 1),
        Ok(Rate { rounding: Rounding::Down, numerator: 5, denominator: 7, bump: rate.bump })
    );
    assert_eq!(OperationsModule::check_update_rate(&verified, &update, 10, 5, 7, 1), Err(ProgramError::InvalidSeeds));

    let (rate_acc, _) = rate_account(9, from, to, Rounding::Up, 1, 1);
    let close = vec![rate_acc, account(key(40), key(0), 0, vec![], false, true), mint_account(from, 0), mint_account(to, 0)];
    assert_eq!(OperationsModule::check_close_rate(&verified, &close, 9), Ok(()));
    let (mut rate_acc, _) = rate_account(9, from, to, Rounding::Up, 1, 1);
    rate_acc.owner = key(1);
    let foreign = vec![rate_acc, account(key(40), key(0), 0, vec![], false, true), mint_account(from, 0), mint_account(to, 0)];
    assert_eq!(OperationsModule::check_close_rate(&verified, &foreign, 9), Err(ProgramError::InvalidAccountOwner));
}

#[test]
fn proof_account_checks() {
    let mint = key(5);
    let verified = mint_account(mint, 0);
    let create = vec![payer(), mint_account(mint, 0), new_account(30), token_account(4, mint, 0), program(SYSTEM_PROGRAM_ID)];
    let proof = OperationsModule::check_create_proof(&verified, &create, &[key(1), key(2)], &key(30), 9).unwrap();
    assert_eq!(proof.bump, 9);
    assert_eq!(proof.data, vec![key(1), key(2)]);
    assert_eq!(
        OperationsModule::check_create_proof(&verified, &create, &[key(1), key(0)], &key(30), 9).err(),
        Some(ProgramError::InvalidAccountData)
    );
    let wrong_token = vec![payer(), mint_account(mint, 0), new_account(30), token_account(4, key(6), 0), program(SYSTEM_PROGRAM_ID)];
    assert_eq!(
        OperationsModule::check_create_proof(&verified, &wrong_token, &[key(1)], &key(30), 9).err(),
        Some(ProgramError::InvalidInstructionData)
    );

    let (addr, bump) = Proof::find_pda(&key(4), 2, &PROGRAM_ID).unwrap();
    let stored = Proof { data: vec![key(1), key(2)], bump };
    let proof_acc = account(addr, PROGRAM_ID, 1, stored.to_bytes(), false, true);
    let update = vec![payer(), mint_account(mint, 0), proof_acc, token_account(4, mint, 0), program(SYSTEM_PROGRAM_ID)];
    let plan = OperationsModule::check_update_proof(&verified, &update, 2, key(3), 2).unwrap();
    assert_eq!(plan.proof.data, vec![key(1), key(2), key(3)]);
    assert_eq!(plan.new_len, 6 + 3 * 32);
    assert_eq!(plan.current_len, 6 + 2 * 32);
    let plan = OperationsModule::check_update_proof(&verified, &update, 2, key(7), 0).unwrap();
    assert_eq!(plan.proof.data, vec![key(7), key(2)]);
    assert_eq!(plan.new_len, plan.current_len);
    assert_eq!(
        OperationsModule::check_update_proof(&verified, &update, 2, key(7), 3).err(),
        Some(ProgramError::InvalidAccountData)
    );
    assert_eq!(
        OperationsModule::check_update_proof(&verified, &update, 5, key(7), 0).err(),
        Some(ProgramError::InvalidSeeds)
    );
}

#[test]
fn escrow_and_receipt_checks() {
    let mint = key(5);
    let verified = mint_account(mint, 0);
    let escrow = vec![
        account(key(20), key(0), 0, vec![], false, false),
        payer(),
        new_account(30),
        mint_account(mint, 0),
        program(TOKEN_2022_PROGRAM_ID),
        program(ASSOCIATED_TOKEN_PROGRAM_ID),
        program(SYSTEM_PROGRAM_ID),
    ];
    assert_eq!(OperationsModule::check_create_distribution_escrow(&verified, &escrow, &key(20), &key(30)), Ok(()));
    assert_eq!(
        OperationsModule::check_create_distribution_escrow(&verified, &escrow, &key(20), &key(31)),
        Err(ProgramError::InvalidSeeds)
    );

    let receipt = account(key(40), PROGRAM_ID, 1, vec![3], false, true);
    let close = vec![receipt, account(key(41), key(0), 0, vec![], false, true), mint_account(mint, 0)];
    assert_eq!(OperationsModule::check_close_action_receipt(&verified, &close, &key(40)), Ok(()));
    assert_eq!(OperationsModule::check_close_action_receipt(&verified, &close, &key(42)), Err(ProgramError::InvalidSeeds));
    let not_receipt = vec![
        account(key(40), PROGRAM_ID, 1, vec![2], false, true),
        account(key(41), key(0), 0, vec![], false, true),
        mint_account(mint, 0),
    ];
    assert_eq!(
        OperationsModule::check_close_action_receipt(&verified, &not_receipt, &key(40)),
        Err(ProgramError::InvalidAccountData)
    );

    let claim_close = vec![
        account(key(40), PROGRAM_ID, 1, vec![3], false, true),
        account(key(41), key(0), 0, vec![], false, true),
        mint_account(mint, 0),
        token_account(4, mint, 0),
        program(PROGRAM_ID),
    ];
    assert_eq!(
        OperationsModule::check_close_claim_receipt(&verified, &claim_close, 1, Some(vec![key(8)])),
        Ok(vec![key(8)])
    );
    assert_eq!(
        OperationsModule::check_close_claim_receipt(&verified, &claim_close, 1, None),
        Err(ProgramError::InvalidInstructionData)
    );
}

#[test]
fn program_account_balances() {
    assert_eq!(rent_adjustment(100, 150), RentAdjustment::Fund(50));
    assert_eq!(rent_adjustment(150, 100), RentAdjustment::Refund(50));
    assert_eq!(rent_adjustment(100, 100), RentAdjustment::Keep);
    assert_eq!(merged_lamports(5, 7, ProgramError::ArithmeticOverflow), Ok(12));
    assert_eq!(merged_lamports(u64::MAX, 1, ProgramError::ArithmeticOverflow), Err(ProgramError::ArithmeticOverflow));
    assert_eq!(moved_lamports(10, 5, 4, ProgramError::InsufficientFunds), Ok((6, 9)));
    assert_eq!(moved_lamports(3, 5, 4, ProgramError::InsufficientFunds), Err(ProgramError::InsufficientFunds));
    assert_eq!(moved_lamports(10, u64::MAX, 1, ProgramError::InsufficientFunds), Err(ProgramError::InsufficientFunds));
}
