use security_token::constants::{
    ASSOCIATED_TOKEN_PROGRAM_ID, PROGRAM_ID, SEED_EXTRA_ACCOUNT_METAS, SEED_RATE_ACCOUNT, TOKEN_2022_PROGRAM_ID,
    TRANSFER_HOOK_PROGRAM_ID, SEED_RECEIPT_ACCOUNT,
};
use security_token::state::rate::{Rate, Rounding};
use security_token::state::receipt::Receipt;
use security_token::utils::{find_associated_token_address, find_extra_account_metas_pda, find_rate_pda};
use solana_pubkey::Pubkey;

fn key(b: u8) -> [u8; 32] {
    [b; 32]
}

fn reference(seeds: &[&[u8]], program: [u8; 32]) -> ([u8; 32], u8) {
    let (address, bump) = Pubkey::find_program_address(seeds, &Pubkey::new_from_array(program));
    (address.to_bytes(), bump)
}

#[test]
fn derived_addresses_match_the_runtime_search() {
    let mint = key(5);
    assert_eq!(
        find_extra_account_metas_pda(&mint),
        Some(reference(&[&SEED_EXTRA_ACCOUNT_METAS, &mint], TRANSFER_HOOK_PROGRAM_ID))
    );
    let wallet = key(6);
    assert_eq!(
        find_associated_token_address(&wallet, &mint, &TOKEN_2022_PROGRAM_ID),
        Some(reference(&[&wallet, &TOKEN_2022_PROGRAM_ID, &mint], ASSOCIATED_TOKEN_PROGRAM_ID))
    );
    let action = 7u64.to_le_bytes();
    let found = find_rate_pda(7, &mint, &key(8), &PROGRAM_ID).unwrap();
    assert_eq!(found, reference(&[&SEED_RATE_ACCOUNT, &action, &mint, &key(8)], PROGRAM_ID));
    assert_ne!(found.0, mint);
    let proof_hash = key(11);
    let claim = Receipt::find_claim_action_pda(&mint, &key(9), 7, &proof_hash);
    assert_eq!(claim, Some(reference(&[&SEED_RECEIPT_ACCOUNT, &mint, &key(9), &action, &proof_hash], PROGRAM_ID)));
    assert_eq!(
        Receipt::find_common_action_pda(&mint, 7),
        Some(reference(&[&SEED_RECEIPT_ACCOUNT, &mint, &action], PROGRAM_ID))
    );
}

#[test]
fn stored_bump_derives_the_found_address() {
    let (address, bump) = find_rate_pda(3, &key(1), &key(2), &PROGRAM_ID).unwrap();
    let rate = Rate { rounding: Rounding::Down, numerator: 1, denominator: 1, bump };
    assert_eq!(rate.derive_pda(3, &key(1), &key(2)), Ok(address));
}
