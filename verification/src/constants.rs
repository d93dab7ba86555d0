//! Seeds, program addresses and sizes shared by the program.
use vstd::prelude::*;
use crate::bytes::Pubkey;

verus! {

/// Seed for mint authority PDA: `mint.authority`.
pub const SEED_MINT_AUTHORITY: [u8; 14] = [109, 105, 110, 116, 46, 97, 117, 116, 104, 111, 114, 105, 116, 121];

/// Seed for pause authority PDA: `mint.pause_authority`.
pub const SEED_PAUSE_AUTHORITY: [u8; 20] = [109, 105, 110, 116, 46, 112, 97, 117, 115, 101, 95, 97, 117, 116, 104, 111, 114, 105, 116, 121];

/// Seed for freeze authority PDA: `mint.freeze_authority`.
pub const SEED_FREEZE_AUTHORITY: [u8; 21] = [109, 105, 110, 116, 46, 102, 114, 101, 101, 122, 101, 95, 97, 117, 116, 104, 111, 114, 105, 116, 121];

/// Seed for transfer hook PDA: `mint.transfer_hook`.
pub const SEED_TRANSFER_HOOK: [u8; 18] = [109, 105, 110, 116, 46, 116, 114, 97, 110, 115, 102, 101, 114, 95, 104, 111, 111, 107];

/// Seed for permanent delegate PDA: `mint.permanent_delegate`.
pub const SEED_PERMANENT_DELEGATE: [u8; 23] = [109, 105, 110, 116, 46, 112, 101, 114, 109, 97, 110, 101, 110, 116, 95, 100, 101, 108, 101, 103, 97, 116, 101];

/// Seed for account delegate PDA: `account.delegate`.
pub const SEED_ACCOUNT_DELEGATE: [u8; 16] = [97, 99, 99, 111, 117, 110, 116, 46, 100, 101, 108, 101, 103, 97, 116, 101];

/// Seed for verification config: `verification_config`.
pub const SEED_VERIFICATION_CONFIG: [u8; 19] = [118, 101, 114, 105, 102, 105, 99, 97, 116, 105, 111, 110, 95, 99, 111, 110, 102, 105, 103];

/// Seed for rate account PDA: `rate`.
pub const SEED_RATE_ACCOUNT: [u8; 4] = [114, 97, 116, 101];

/// Seed for receipt account PDA: `receipt`.
pub const SEED_RECEIPT_ACCOUNT: [u8; 7] = [114, 101, 99, 101, 105, 112, 116];

/// Seed for extra account metas: `extra-account-metas`.
pub const SEED_EXTRA_ACCOUNT_METAS: [u8; 19] = [101, 120, 116, 114, 97, 45, 97, 99, 99, 111, 117, 110, 116, 45, 109, 101, 116, 97, 115];

/// Seed for proof account PDA: `proof`.
pub const SEED_PROOF_ACCOUNT: [u8; 5] = [112, 114, 111, 111, 102];

/// Seed for distribution escrow authority PDA: `distribution_escrow_authority`.
pub const SEED_DISTRIBUTION_ESCROW_AUTHORITY: [u8; 29] = [100, 105, 115, 116, 114, 105, 98, 117, 116, 105, 111, 110, 95, 101, 115, 99, 114, 111, 119, 95, 97, 117, 116, 104, 111, 114, 105, 116, 121];

/// The address of the Security Token program (SSTS8Qk2bW3aVaBEsY1Ras95YdbaaYQQx21JWHxvjap).
pub const PROGRAM_ID: Pubkey = [6, 132, 77, 153, 238, 21, 209, 137, 85, 207, 40, 49, 102, 94, 210, 188, 75, 95, 60, 37, 226, 232, 132, 157, 175, 118, 37, 173, 138, 127, 8, 9];

/// The address of the Security Token program, under the name clients use.
pub const SECURITY_TOKEN_ID: Pubkey = PROGRAM_ID;

/// Transfer hook program ID for security token transfers (HookXqLKgPaNrHBJ9Jui7oQZz93vMbtA88JjsLa8bmfL).
pub const TRANSFER_HOOK_PROGRAM_ID: Pubkey = [249, 184, 145, 173, 47, 27, 34, 117, 65, 148, 34, 170, 71, 237, 48, 93, 240, 227, 87, 19, 189, 207, 93, 217, 151, 79, 116, 178, 197, 128, 84, 255];

/// The Token-2022 program (TokenzQdBNbLqP5VEhdkAS6EPFLC1PHnBqCXEpPxuEb).
pub const TOKEN_2022_PROGRAM_ID: Pubkey = [6, 221, 246, 225, 238, 117, 143, 222, 24, 66, 93, 188, 228, 108, 205, 218, 182, 26, 252, 77, 131, 185, 13, 39, 254, 189, 249, 40, 216, 161, 139, 252];

/// The system program (11111111111111111111111111111111).
pub const SYSTEM_PROGRAM_ID: Pubkey = [0, 0, 0, 0, 0, 0, 0, 0, 0, 0, 0, 0, 0, 0, 0, 0, 0, 0, 0, 0, 0, 0, 0, 0, 0, 0, 0, 0, 0, 0, 0, 0];

/// The instructions sysvar (Sysvar1nstructions1111111111111111111111111).
pub const INSTRUCTIONS_SYSVAR_ID: Pubkey = [6, 167, 213, 23, 24, 123, 209, 102, 53, 218, 212, 4, 85, 253, 194, 192, 193, 36, 198, 143, 33, 86, 117, 165, 219, 186, 203, 95, 8, 0, 0, 0];

/// The rent sysvar (SysvarRent111111111111111111111111111111111).
pub const RENT_SYSVAR_ID: Pubkey = [6, 167, 213, 23, 25, 44, 92, 81, 33, 140, 201, 76, 61, 74, 241, 127, 88, 218, 238, 8, 155, 161, 253, 68, 227, 219, 217, 138, 0, 0, 0, 0];

/// The associated token account program (ATokenGPvbdGVxr1b2hvZbsiqW5xWH25efTNsLJA8knL).
pub const ASSOCIATED_TOKEN_PROGRAM_ID: Pubkey = [140, 151, 37, 143, 78, 36, 137, 241, 187, 61, 16, 41, 20, 142, 13, 131, 11, 90, 19, 153, 218, 255, 16, 132, 4, 142, 123, 216, 219, 233, 248, 89];

/// Offset to skip verification overhead accounts (mint, verification_config/mint_authority, instructions_sysvar/signer)
pub const INSTRUCTION_ACCOUNTS_OFFSET: usize = 3;

/// Size of action_id field (u64 type = 8 bytes)
pub const ACTION_ID_LEN: usize = 8;

/// Maximum number of verification programs that can be registered per instruction
pub const MAX_VERIFICATION_PROGRAMS: usize = 10;

} // verus!
