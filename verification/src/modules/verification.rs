//! Decisions of the verification module: which strategy verifies an instruction, whether
//! the verification programs ran before it, and how configs change.
use vstd::prelude::*;
use crate::bytes::{Pubkey, key_views, zeros, is_zero_key, key_eq, bytes_eq, lemma_key_ext};
use crate::error::{ProgramError, SecurityTokenError, spec_error_code};
use crate::modules::utils::{spec_accounts_verified, validate_account_verification, is_prefix_of};
use crate::state::discriminator::SecurityTokenDiscriminators;
use crate::state::verification::VerificationConfig;
use crate::instructions::verification_config::{UpdateVerificationConfigArgs};
use crate::instructions::initialize_mint::InitializeMintArgs;
use crate::modules::account_checks::{AccountView, verify_signer, verify_owner};
use crate::state::mint_authority::MintAuthority;
use crate::state::discriminator::AccountDeserialize;
use crate::constants::{PROGRAM_ID, TOKEN_2022_PROGRAM_ID};
use crate::token22_extensions::ExtensionType;
use crate::utils::{
    spec_checked_create_program_address, calculate_mint_size_with_extensions,
    calculate_metadata_tlv_size, spec_extensions_size, spec_parse_additional_metadata, spec_metadata_tlv_size,
    parse_additional_metadata, text_pairs_view,
};
use crate::constants::{SYSTEM_PROGRAM_ID, RENT_SYSVAR_ID};
use crate::modules::account_checks::{
    verify_writable, verify_token22_program, verify_system_program, verify_rent_sysvar, verify_account_not_initialized,
};
use crate::instructions::initialize_mint::TokenMetadataArgs;
use vstd::utf8::encode_utf8;

verus! {

/// An instruction of the transaction that precedes the one being verified, as the
/// instructions sysvar shows it.
pub struct IntrospectedInstruction {
    /// Whether the instruction could be read from the sysvar
    pub loaded: bool,
    /// The program the instruction calls
    pub program_id: Pubkey,
    /// The instruction data
    pub data: Vec<u8>,
    /// The addresses of the instruction's accounts, in order
    pub accounts: Vec<Pubkey>,
}

/// The first configured program from index `k` on that is `program_id` and has not been
/// matched yet.
pub open spec fn spec_first_open(programs: Seq<Pubkey>, state: Seq<Option<Seq<Pubkey>>>, program_id: Pubkey, k: int) -> Option<int>
    decreases programs.len() - k,
{
    if k < 0 || k >= programs.len() {
        None
    } else if programs[k] == program_id && state[k] is None {
        Some(k)
    } else {
        spec_first_open(programs, state, program_id, k + 1)
    }
}

/// Matching one earlier instruction: a readable instruction of a configured program that
/// has not been matched yet, with exactly the target data, records its accounts for the
/// first such program.
pub open spec fn spec_match_step(
    programs: Seq<Pubkey>,
    state: Seq<Option<Seq<Pubkey>>>,
    ins: IntrospectedInstruction,
    target: Seq<u8>,
) -> Seq<Option<Seq<Pubkey>>> {
    if !ins.loaded {
        state
    } else {
        match spec_first_open(programs, state, ins.program_id, 0) {
            None => state,
            Some(k) => if ins.data@ == target { state.update(k, Some(ins.accounts@)) } else { state },
        }
    }
}

/// The matches after scanning the earlier instructions from the last one back to index `from`.
pub open spec fn spec_match_scan(
    programs: Seq<Pubkey>,
    instructions: Seq<IntrospectedInstruction>,
    target: Seq<u8>,
    from: int,
) -> Seq<Option<Seq<Pubkey>>>
    decreases instructions.len() - from,
{
    if from < 0 || from >= instructions.len() {
        Seq::new(programs.len(), |i: int| None)
    } else {
        spec_match_step(programs, spec_match_scan(programs, instructions, target, from + 1), instructions[from], target)
    }
}

/// The result of verifying an instruction against its configured programs by looking at
/// the earlier instructions: every program must be matched by its own earlier instruction
/// with the same data (else `VerificationProgramNotFound`), and the accounts each of them
/// saw must start with the instruction's accounts (else `AccountIntersectionMismatch`).
pub open spec fn spec_introspection_result(
    programs: Seq<Pubkey>,
    instructions: Seq<IntrospectedInstruction>,
    instruction_accounts: Seq<Pubkey>,
    target: Seq<u8>,
) -> Result<(), ProgramError> {
    let state = spec_match_scan(programs, instructions, target, 0);
    if exists|k: int| 0 <= k < programs.len() && #[trigger] state[k] is None {
        Err(ProgramError::Custom(spec_error_code(SecurityTokenError::VerificationProgramNotFound)))
    } else if spec_accounts_verified(state.map_values(|o: Option<Seq<Pubkey>>| o->Some_0), instruction_accounts) {
        Ok(())
    } else {
        Err(ProgramError::Custom(spec_error_code(SecurityTokenError::AccountIntersectionMismatch)))
    }
}

/// The matches as plain values.
pub open spec fn matches_view(v: Seq<Option<Vec<Pubkey>>>) -> Seq<Option<Seq<Pubkey>>> {
    v.map_values(|o: Option<Vec<Pubkey>>| match o { Some(a) => Some(a@), None => None })
}

/// Finds the first configured program that is `program_id` and not matched yet.
fn first_open(programs: &Vec<Pubkey>, collected: &Vec<Option<Vec<Pubkey>>>, program_id: &Pubkey) -> (r: Option<usize>)
    requires
        collected@.len() == programs@.len(),
    ensures
        spec_first_open(programs@, matches_view(collected@), *program_id, 0) == match r { Some(k) => Some(k as int), None => None },
        r matches Some(k) ==> k < programs@.len(),
{
    let ghost state = matches_view(collected@);
    let mut k: usize = 0;
    while k < programs.len()
        invariant
            collected@.len() == programs@.len(),
            state == matches_view(collected@),
            0 <= k <= programs@.len(),
            spec_first_open(programs@, state, *program_id, 0) == spec_first_open(programs@, state, *program_id, k as int),
        decreases programs@.len() - k,
    {
        if key_eq(&programs[k], program_id) && collected[k].is_none() {
            proof {
                lemma_key_ext(programs@[k as int], *program_id);
            }
            return Some(k);
        }
        proof {
            if programs@[k as int] == *program_id {
                assert(programs@[k as int]@ == (*program_id)@);
            }
        }
        k = k + 1;
    }
    None
}

/// Some earlier instruction, at index `from` or later, is a readable call of `program_id`
/// with exactly the target data and the given accounts.
pub open spec fn spec_called_with(
    instructions: Seq<IntrospectedInstruction>,
    from: int,
    program_id: Pubkey,
    target: Seq<u8>,
    accounts: Seq<Pubkey>,
) -> bool {
    exists|j: int| from <= j < instructions.len() && {
        &&& #[trigger] instructions[j].loaded
        &&& instructions[j].program_id == program_id
        &&& instructions[j].data@ == target
        &&& instructions[j].accounts@ == accounts
    }
}

/// The program found for an instruction is that instruction's program and is not matched yet.
proof fn lemma_first_open(programs: Seq<Pubkey>, state: Seq<Option<Seq<Pubkey>>>, program_id: Pubkey, k: int)
    requires
        state.len() == programs.len(),
    ensures
        spec_first_open(programs, state, program_id, k) matches Some(i) ==> {
            &&& 0 <= i < programs.len()
            &&& programs[i] == program_id
            &&& state[i] is None
        },
    decreases programs.len() - k,
{
    if 0 <= k < programs.len() {
        lemma_first_open(programs, state, program_id, k + 1);
    }
}

/// Every match recorded while scanning back to `from` comes from an earlier readable
/// instruction of that program with the target data.
proof fn lemma_match_scan_sound(programs: Seq<Pubkey>, instructions: Seq<IntrospectedInstruction>, target: Seq<u8>, from: int)
    requires
        0 <= from <= instructions.len(),
    ensures
        spec_match_scan(programs, instructions, target, from).len() == programs.len(),
        forall|k: int| 0 <= k < programs.len() ==>
            (#[trigger] spec_match_scan(programs, instructions, target, from)[k] matches Some(a)
                ==> spec_called_with(instructions, from, programs[k], target, a)),
    decreases instructions.len() - from,
{
    if from < instructions.len() {
        lemma_match_scan_sound(programs, instructions, target, from + 1);
        let prev = spec_match_scan(programs, instructions, target, from + 1);
        let ins = instructions[from];
        lemma_first_open(programs, prev, ins.program_id, 0);
        let cur = spec_match_scan(programs, instructions, target, from);
        assert forall|k: int| 0 <= k < programs.len() implies
            (#[trigger] cur[k] matches Some(a) ==> spec_called_with(instructions, from, programs[k], target, a)) by {
            if let Some(a) = cur[k] {
                if prev[k] is Some {
                    assert(prev[k] == cur[k]);
                    let j = choose|j: int| from + 1 <= j < instructions.len() && {
                        &&& #[trigger] instructions[j].loaded
                        &&& instructions[j].program_id == programs[k]
                        &&& instructions[j].data@ == target
                        &&& instructions[j].accounts@ == a
                    };
                    assert(instructions[j].loaded);
                } else {
                    assert(instructions[from].loaded);
                }
            }
        }
    }
}

/// A configured program that no earlier instruction called with the target data leaves
/// its match empty.
proof fn lemma_missing_program(
    programs: Seq<Pubkey>,
    instructions: Seq<IntrospectedInstruction>,
    instruction_accounts: Seq<Pubkey>,
    target: Seq<u8>,
    k: int,
)
    requires
        0 <= k < programs.len(),
        forall|a: Seq<Pubkey>| !#[trigger] spec_called_with(instructions, 0, programs[k], target, a),
    ensures
        spec_introspection_result(programs, instructions, instruction_accounts, target)
            == Err::<(), ProgramError>(ProgramError::Custom(spec_error_code(SecurityTokenError::VerificationProgramNotFound))),
{
    lemma_match_scan_sound(programs, instructions, target, 0);
    let state = spec_match_scan(programs, instructions, target, 0);
    if state[k] is Some {
        assert(spec_called_with(instructions, 0, programs[k], target, state[k]->Some_0));
    }
    assert(state[k] is None);
}

/// Verification by looking at earlier instructions succeeds only when the configured
/// program at `k` (like every other) was called by an earlier instruction with exactly the
/// target data and with accounts that start with the instruction's accounts; when no
/// earlier instruction called it with that data, verification fails with
/// `VerificationProgramNotFound`.
pub proof fn lemma_introspection_sound(
    programs: Seq<Pubkey>,
    instructions: Seq<IntrospectedInstruction>,
    instruction_accounts: Seq<Pubkey>,
    target: Seq<u8>,
    k: int,
)
    requires
        0 <= k < programs.len(),
    ensures
        spec_introspection_result(programs, instructions, instruction_accounts, target) is Ok ==>
            exists|a: Seq<Pubkey>| a.len() > 0 && is_prefix_of(instruction_accounts, a)
                && #[trigger] spec_called_with(instructions, 0, programs[k], target, a),
        (forall|a: Seq<Pubkey>| !#[trigger] spec_called_with(instructions, 0, programs[k], target, a))
            ==> spec_introspection_result(programs, instructions, instruction_accounts, target)
                == Err::<(), ProgramError>(ProgramError::Custom(spec_error_code(SecurityTokenError::VerificationProgramNotFound))),
{
    lemma_match_scan_sound(programs, instructions, target, 0);
    let state = spec_match_scan(programs, instructions, target, 0);
    let accs = state.map_values(|o: Option<Seq<Pubkey>>| o->Some_0);
    if spec_introspection_result(programs, instructions, instruction_accounts, target) is Ok {
        assert(state[k] is Some);
        let a = state[k]->Some_0;
        assert(accs[k] == a);
        assert(spec_called_with(instructions, 0, programs[k], target, a));
        assert(a.len() > 0 && is_prefix_of(instruction_accounts, a));
    }
    if forall|a: Seq<Pubkey>| !#[trigger] spec_called_with(instructions, 0, programs[k], target, a) {
        lemma_missing_program(programs, instructions, instruction_accounts, target, k);
    }
}

/// How an instruction is verified, by the layout of the account in the verification slot.
#[derive(Clone, Copy, Debug, PartialEq, Eq, Structural)]
pub enum VerificationStrategy {
    /// A verification config: the configured programs must approve.
    Programs,
    /// The mint authority: its creator must sign.
    MintAuthority,
}

/// The strategy named by the first byte of the verification account's data: a missing
/// byte is invalid account data, a verification-config byte means the configured programs,
/// a mint-authority byte means the mint's creator, and any other byte is invalid
/// instruction data.
pub open spec fn spec_verification_strategy(config_data: Seq<u8>) -> Result<VerificationStrategy, ProgramError> {
    if config_data.len() == 0 {
        Err(ProgramError::InvalidAccountData)
    } else if config_data[0] == 1 {
        Ok(VerificationStrategy::Programs)
    } else if config_data[0] == 0 {
        Ok(VerificationStrategy::MintAuthority)
    } else {
        Err(ProgramError::InvalidInstructionData)
    }
}

/// How an instruction that either verification may approve is verified: the accounts are
/// mint, verification account and instructions sysvar or signer (else not enough account
/// keys); a verification config leaves the approval to its programs, and a mint authority
/// must approve it here (see `spec_mint_authority_verification`).
pub open spec fn spec_verification_by_strategy(accounts: Seq<AccountView>) -> Result<VerificationStrategy, ProgramError> {
    if accounts.len() < 3 {
        Err(ProgramError::NotEnoughAccountKeys)
    } else {
        match spec_verification_strategy(accounts[1].data@) {
            Err(e) => Err(e),
            Ok(VerificationStrategy::Programs) => Ok(VerificationStrategy::Programs),
            Ok(VerificationStrategy::MintAuthority) => match spec_mint_authority_verification(accounts[0], accounts[1], accounts[2]) {
                Err(e) => Err(e),
                Ok(()) => Ok(VerificationStrategy::MintAuthority),
            },
        }
    }
}

/// The program list after writing `new` from position `offset` on: the list grows to
/// hold them, new slots in between are zero addresses, and later programs stay.
pub open spec fn spec_overwrite_programs(old: Seq<Seq<u8>>, offset: int, new: Seq<Seq<u8>>) -> Seq<Seq<u8>> {
    let len = if offset + new.len() > old.len() { offset + new.len() } else { old.len() as int };
    Seq::new(len as nat, |i: int|
        if offset <= i < offset + new.len() {
            new[i - offset]
        } else if i < old.len() {
            old[i]
        } else {
            zeros(32)
        })
}

/// The all-zero address.
fn zero_key() -> (r: Pubkey)
    ensures
        r@ == zeros(32),
{
    let r = [0u8; 32];
    assert(r@ =~= zeros(32)) by {
        assert forall|i: int| 0 <= i < 32 implies r@[i] == 0u8 by {
            vstd::array::lemma_array_index(r, i);
        }
    }
    r
}

/// What trimming a config does.
#[derive(Clone, Copy, Debug, PartialEq, Eq, Structural)]
pub enum TrimPlan {
    /// Close the config account.
    Close,
    /// Keep only the first programs.
    Truncate,
    /// Leave the config as it is.
    Unchanged,
}

/// The extensions a new security token mint gets: the permanent delegate, the transfer
/// hook and pausability always, a metadata pointer when metadata or a pointer is given,
/// and the scaled UI amount when it is given.
pub open spec fn spec_mint_extensions(with_metadata_pointer: bool, with_scaled_ui_amount: bool) -> Seq<ExtensionType> {
    seq![ExtensionType::PermanentDelegate, ExtensionType::TransferHook, ExtensionType::Pausable]
        + (if with_metadata_pointer { seq![ExtensionType::MetadataPointer] } else { Seq::empty() })
        + (if with_scaled_ui_amount { seq![ExtensionType::ScaledUiAmount] } else { Seq::empty() })
}

/// The extensions that creation arguments ask for (see `spec_mint_extensions`).
pub open spec fn spec_extensions_for_args(args: InitializeMintArgs) -> Seq<ExtensionType> {
    spec_mint_extensions(
        args.ix_metadata is Some || args.ix_metadata_pointer is Some,
        args.ix_scaled_ui_amount is Some,
    )
}

/// The checks on the accounts of mint creation, in order: the six accounts (mint, mint
/// authority, creator, token program, system program, rent sysvar), the creator and the
/// mint signing and writable, the three programs, and the freeze authority being the
/// program address derived for the mint.
pub open spec fn spec_initialize_mint_account_checks(accounts: Seq<AccountView>, args: InitializeMintArgs, freeze_authority_pda: Pubkey) -> Result<(), ProgramError> {
    if accounts.len() != 6 {
        Err(ProgramError::NotEnoughAccountKeys)
    } else if !accounts[2].is_signer || !accounts[0].is_signer {
        Err(ProgramError::MissingRequiredSignature)
    } else if !accounts[2].is_writable || !accounts[0].is_writable {
        Err(ProgramError::Immutable)
    } else if accounts[3].key@ != TOKEN_2022_PROGRAM_ID@ || accounts[4].key@ != SYSTEM_PROGRAM_ID@
        || accounts[5].key@ != RENT_SYSVAR_ID@ {
        Err(ProgramError::IncorrectProgramId)
    } else if args.ix_mint.freeze_authority@ != freeze_authority_pda@ {
        Err(ProgramError::InvalidSeeds)
    } else {
        Ok(())
    }
}

/// The size of the token metadata a new mint will hold, or the error of its additional metadata.
pub open spec fn spec_new_metadata_size(metadata: Option<TokenMetadataArgs>) -> Result<nat, ProgramError> {
    match metadata {
        None => Ok(0),
        Some(m) => match spec_parse_additional_metadata(m.additional_metadata@, 0) {
            Ok(pairs) => Ok(spec_metadata_tlv_size(m.name@, m.symbol@, m.uri@, pairs)),
            Err(e) => Err(e),
        },
    }
}

/// The address of the account that will hold the metadata of a new mint: the pointer's
/// address, or the mint itself when only metadata is given.
pub open spec fn spec_metadata_address(args: InitializeMintArgs, mint: Pubkey) -> Pubkey {
    match args.ix_metadata_pointer {
        Some(p) => p.metadata_address,
        None => mint,
    }
}

/// The first account whose address is `key`.
pub open spec fn spec_find_account(accounts: Seq<AccountView>, key: Pubkey, from: int) -> Option<int>
    decreases accounts.len() - from,
{
    if from < 0 || from >= accounts.len() {
        None
    } else if accounts[from].key == key {
        Some(from)
    } else {
        spec_find_account(accounts, key, from + 1)
    }
}

/// Everything that mint creation decides, in the order it decides it: the account checks,
/// the metadata size, the mint authority account being the derived address and not yet
/// in use, a valid mint authority, the account that holds the metadata being among the
/// accounts, and well-formed additional metadata.
pub open spec fn spec_initialize_mint_outcome(
    accounts: Seq<AccountView>,
    args: InitializeMintArgs,
    freeze_authority_pda: Pubkey,
    mint_authority_pda: Pubkey,
    mint_authority_bump: u8,
) -> Result<(), ProgramError> {
    match spec_initialize_mint_account_checks(accounts, args, freeze_authority_pda) {
        Err(e) => Err(e),
        Ok(()) => match spec_new_metadata_size(args.ix_metadata) {
            Err(e) => Err(e),
            Ok(_) => if accounts[1].key@ != mint_authority_pda@ {
                Err(ProgramError::InvalidSeeds)
            } else if accounts[1].data@.len() != 0 || accounts[1].lamports > 0 {
                Err(ProgramError::AccountAlreadyInitialized)
            } else if !(MintAuthority { mint: accounts[0].key, mint_creator: accounts[2].key, bump: mint_authority_bump }).valid() {
                Err(ProgramError::InvalidAccountData)
            } else {
                match args.ix_metadata {
                    None => Ok(()),
                    Some(m) => {
                        let address = spec_metadata_address(args, accounts[0].key);
                        if address != accounts[0].key && spec_find_account(accounts, address, 0) is None {
                            Err(ProgramError::InvalidAccountData)
                        } else {
                            match spec_parse_additional_metadata(m.additional_metadata@, 0) {
                                Ok(_) => Ok(()),
                                Err(e) => Err(e),
                            }
                        }
                    },
                }
            },
        },
    }
}

/// What creating a mint will do.
pub struct InitializeMintPlan {
    /// The extensions the mint gets
    pub extensions: Vec<ExtensionType>,
    /// The space of the mint account
    pub mint_size: usize,
    /// The size the mint account's rent is computed for (mint and metadata)
    pub total_size: usize,
    /// Authority and address of the metadata pointer, if any
    pub metadata_pointer: Option<(Pubkey, Pubkey)>,
    /// The mint authority record to store
    pub mint_authority: MintAuthority,
    /// The index, among the accounts, of the account that holds the metadata, if any
    pub metadata_account: Option<usize>,
    /// The additional metadata fields to set
    pub metadata_fields: Vec<(String, String)>,
}

/// Finds the first account whose address is `key`.
fn find_account(accounts: &[AccountView], key: &Pubkey) -> (r: Option<usize>)
    ensures
        spec_find_account(accounts@, *key, 0) == match r { Some(i) => Some(i as int), None => None },
        r matches Some(i) ==> i < accounts@.len() && accounts@[i as int].key == *key,
{
    let mut i: usize = 0;
    while i < accounts.len()
        invariant
            0 <= i <= accounts@.len(),
            spec_find_account(accounts@, *key, 0) == spec_find_account(accounts@, *key, i as int),
        decreases accounts@.len() - i,
    {
        if key_eq(&accounts[i].key, key) {
            proof {
                lemma_key_ext(accounts@[i as int].key, *key);
            }
            return Some(i);
        }
        proof {
            if accounts@[i as int].key == *key {
                assert(accounts@[i as int].key@ == (*key)@);
            }
        }
        i = i + 1;
    }
    None
}

/// Verification by the mint authority, in order: the candidate must sign; the authority
/// account must belong to the program and the mint to Token-2022; the authority account
/// must hold a mint authority (else invalid account data) of this mint (else invalid
/// account data) created by this candidate (else a missing signature), and sit at the
/// address its seeds and bump derive (else invalid seeds).
pub open spec fn spec_mint_authority_verification(
    mint_info: AccountView,
    mint_authority: AccountView,
    candidate: AccountView,
) -> Result<(), ProgramError> {
    let data = mint_authority.data@;
    if !candidate.is_signer {
        Err(ProgramError::MissingRequiredSignature)
    } else if mint_authority.owner@ != PROGRAM_ID@ || mint_info.owner@ != TOKEN_2022_PROGRAM_ID@ {
        Err(ProgramError::InvalidAccountOwner)
    } else if data.len() < 66 || data[0] != 0 || is_zero_key(data.subrange(1, 33)) || is_zero_key(data.subrange(33, 65)) {
        Err(ProgramError::InvalidAccountData)
    } else if data.subrange(1, 33) != mint_info.key@ {
        Err(ProgramError::InvalidAccountData)
    } else if data.subrange(33, 65) != candidate.key@ {
        Err(ProgramError::MissingRequiredSignature)
    } else {
        match spec_checked_create_program_address(
            seq![crate::constants::SEED_MINT_AUTHORITY@, mint_info.key@, candidate.key@, seq![data[65]]],
            PROGRAM_ID@,
        ) {
            Err(e) => Err(e),
            Ok(a) => if a != mint_authority.key@ { Err(ProgramError::InvalidSeeds) } else { Ok(()) },
        }
    }
}

/// The checks and decisions that verify instructions and manage verification configs.
pub struct VerificationModule;

impl VerificationModule {
    /// Verifies an instruction against its configured programs by looking at the earlier
    /// instructions of the transaction (scanned from the latest back).
    pub fn execute_introspection_verification(
        programs: &Vec<Pubkey>,
        instructions: &Vec<IntrospectedInstruction>,
        instruction_accounts: &[Pubkey],
        target_instruction_data: &[u8],
    ) -> (r: Result<(), ProgramError>)
        ensures
            r == spec_introspection_result(programs@, instructions@, instruction_accounts@, target_instruction_data@),
    {
        let n = programs.len();
        let mut collected: Vec<Option<Vec<Pubkey>>> = Vec::new();
        let mut j: usize = 0;
        while j < n
            invariant
                n == programs@.len(),
                0 <= j <= n,
                collected@.len() == j,
                forall|i: int| 0 <= i < j ==> #[trigger] collected@[i] is None,
            decreases n - j,
        {
            collected.push(None);
            j = j + 1;
        }
        assert(matches_view(collected@) =~= spec_match_scan(programs@, instructions@, target_instruction_data@, instructions@.len() as int));
        let mut idx: usize = instructions.len();
        while idx > 0
            invariant
                n == programs@.len(),
                collected@.len() == n,
                0 <= idx <= instructions@.len(),
                matches_view(collected@) == spec_match_scan(programs@, instructions@, target_instruction_data@, idx as int),
            decreases idx,
        {
            idx = idx - 1;
            let ins = &instructions[idx];
            if ins.loaded {
                match first_open(programs, &collected, &ins.program_id) {
                    Some(k) => {
                        if bytes_eq(ins.data.as_slice(), target_instruction_data) {
                            let accounts = vstd::slice::slice_to_vec(ins.accounts.as_slice());
                            let ghost before = collected@;
                            collected.set(k, Some(accounts));
                            assert(matches_view(collected@) =~= matches_view(before).update(k as int, Some(ins.accounts@)));
                        }
                    },
                    None => {},
                }
            }
        }
        let ghost state = matches_view(collected@);
        let mut all: Vec<Vec<Pubkey>> = Vec::new();
        let mut k: usize = 0;
        while k < n
            invariant
                n == programs@.len(),
                collected@.len() == n,
                state == matches_view(collected@),
                state == spec_match_scan(programs@, instructions@, target_instruction_data@, 0),
                0 <= k <= n,
                all@.len() == k,
                forall|i: int| 0 <= i < k ==> #[trigger] state[i] is Some && all@[i]@ == state[i]->Some_0,
            decreases n - k,
        {
            match &collected[k] {
                Some(accounts) => {
                    all.push(vstd::slice::slice_to_vec(accounts.as_slice()));
                },
                None => {
                    assert(state[k as int] is None);
                    return Err(SecurityTokenError::VerificationProgramNotFound.to_program_error());
                },
            }
            k = k + 1;
        }
        assert(all@.map_values(|v: Vec<Pubkey>| v@) =~= state.map_values(|o: Option<Seq<Pubkey>>| o->Some_0));
        if n == 0 {
            return Ok(());
        }
        validate_account_verification(all.as_slice(), instruction_accounts)
    }
    /// In CPI mode the verification programs are the last accounts of the instruction; the
    /// accounts before them are the instruction's own. Too few accounts is
    /// `NotEnoughAccountKeys`.
    pub fn cpi_mode_target_account_count(verification_programs_count: usize, instruction_accounts_count: usize) -> (r: Result<usize, ProgramError>)
        ensures
            r == (if verification_programs_count > instruction_accounts_count {
                Err(ProgramError::NotEnoughAccountKeys)
            } else {
                Ok((instruction_accounts_count - verification_programs_count) as usize)
            }),
    {
        if verification_programs_count > instruction_accounts_count {
            return Err(ProgramError::NotEnoughAccountKeys);
        }
        Ok(instruction_accounts_count - verification_programs_count)
    }
    /// Chooses how an instruction is verified.
    pub fn verification_strategy(config_data: &[u8]) -> (r: Result<VerificationStrategy, ProgramError>)
        ensures
            r == spec_verification_strategy(config_data@),
    {
        if config_data.len() == 0 {
            return Err(ProgramError::InvalidAccountData);
        }
        match SecurityTokenDiscriminators::try_from(config_data[0])? {
            SecurityTokenDiscriminators::VerificationConfigDiscriminator => Ok(VerificationStrategy::Programs),
            SecurityTokenDiscriminators::MintAuthorityDiscriminator => Ok(VerificationStrategy::MintAuthority),
            _ => Err(ProgramError::InvalidAccountData),
        }
    }
    /// Chooses how an instruction is verified and, for a mint authority, verifies it (see
    /// `spec_verification_by_strategy`): `Programs` leaves the approval to the configured
    /// programs, `MintAuthority` means the mint's creator has approved.
    pub fn check_verification_by_strategy(accounts: &[AccountView]) -> (r: Result<VerificationStrategy, ProgramError>)
        ensures
            r == spec_verification_by_strategy(accounts@),
    {
        if accounts.len() < 3 {
            return Err(ProgramError::NotEnoughAccountKeys);
        }
        match Self::verification_strategy(accounts[1].data.as_slice())? {
            VerificationStrategy::Programs => Ok(VerificationStrategy::Programs),
            VerificationStrategy::MintAuthority => {
                Self::verify_by_mint_authority(&accounts[0], &accounts[1], &accounts[2])?;
                Ok(VerificationStrategy::MintAuthority)
            },
        }
    }
    /// Verifies an instruction by its mint authority (see `spec_mint_authority_verification`).
    pub fn verify_by_mint_authority(
        mint_info: &AccountView,
        mint_authority: &AccountView,
        candidate_authority: &AccountView,
    ) -> (r: Result<(), ProgramError>)
        ensures
            r == spec_mint_authority_verification(*mint_info, *mint_authority, *candidate_authority),
    {
        verify_signer(candidate_authority)?;
        verify_owner(mint_authority, &PROGRAM_ID)?;
        verify_owner(mint_info, &TOKEN_2022_PROGRAM_ID)?;
        let data = mint_authority.data.as_slice();
        if data.len() < MintAuthority::LEN {
            return Err(ProgramError::InvalidAccountData);
        }
        assert(data@.drop_first().subrange(0, 32) =~= data@.subrange(1, 33));
        assert(data@.drop_first().subrange(32, 64) =~= data@.subrange(33, 65));
        let state = MintAuthority::try_from_bytes(data)?;
        if !key_eq(&state.mint, &mint_info.key) {
            return Err(ProgramError::InvalidAccountData);
        }
        if !key_eq(&state.mint_creator, &candidate_authority.key) {
            return Err(ProgramError::MissingRequiredSignature);
        }
        let expected_pda = state.derive_pda()?;
        if !key_eq(&mint_authority.key, &expected_pda) {
            return Err(ProgramError::InvalidSeeds);
        }
        Ok(())
    }
    /// Writes an update into a config: its CPI mode, and its programs from its offset on;
    /// the updated config must hold no zero address (else invalid account data).
    pub fn apply_verification_config_update(config: &mut VerificationConfig, args: &UpdateVerificationConfigArgs) -> (r: Result<(), ProgramError>)
        requires
            args.offset + args.program_addresses@.len() <= usize::MAX,
        ensures
            final(config).instruction_discriminator == old(config).instruction_discriminator,
            final(config).bump == old(config).bump,
            final(config).cpi_mode == args.cpi_mode,
            final(config).programs() == spec_overwrite_programs(old(config).programs(), args.offset as int, key_views(args.program_addresses@)),
            r == (if final(config).valid() { Ok(()) } else { Err(ProgramError::InvalidAccountData) }),
    {
        config.cpi_mode = args.cpi_mode;
        let offset = args.offset as usize;
        let n = args.program_addresses.len();
        let ghost old_programs = config.programs();
        let ghost new_programs = key_views(args.program_addresses@);
        let ghost expected = spec_overwrite_programs(old_programs, offset as int, new_programs);
        let old_len = config.verification_programs.len();
        let target = offset + n;
        while config.verification_programs.len() < target
            invariant
                config.instruction_discriminator == old(config).instruction_discriminator,
                config.bump == old(config).bump,
                config.cpi_mode == args.cpi_mode,
                old_len == old_programs.len(),
                config.verification_programs@.len() <= if target > old_len { target } else { old_len },
                config.verification_programs@.len() >= old_len,
                forall|i: int| 0 <= i < old_len ==> #[trigger] config.programs()[i] == old_programs[i],
                forall|i: int| old_len <= i < config.verification_programs@.len() ==> #[trigger] config.programs()[i] == zeros(32),
            decreases target - config.verification_programs@.len(),
        {
            let z = zero_key();
            let ghost prev = config.programs();
            config.verification_programs.push(z);
            assert(config.programs() =~= prev.push(z@));
            assert forall|i: int| 0 <= i < old_len implies #[trigger] config.programs()[i] == old_programs[i] by {
                assert(prev[i] == old_programs[i]);
            }
            assert forall|i: int| old_len <= i < config.verification_programs@.len() implies #[trigger] config.programs()[i] == zeros(32) by {
                if i < prev.len() {
                    assert(prev[i] == zeros(32));
                }
            }
        }
        let mut i: usize = 0;
        while i < n
            invariant
                config.instruction_discriminator == old(config).instruction_discriminator,
                config.bump == old(config).bump,
                config.cpi_mode == args.cpi_mode,
                n == args.program_addresses@.len(),
                new_programs == key_views(args.program_addresses@),
                target == offset + n,
                old_len == old_programs.len(),
                config.verification_programs@.len() == if target > old_len { target } else { old_len },
                0 <= i <= n,
                forall|j: int| 0 <= j < config.verification_programs@.len() ==> #[trigger] config.programs()[j] == if offset <= j < offset + i {
                    new_programs[j - offset]
                } else if j < old_len {
                    old_programs[j]
                } else {
                    zeros(32)
                },
            decreases n - i,
        {
            let ghost prev = config.programs();
            config.verification_programs.set(offset + i, args.program_addresses[i]);
            assert(config.programs() =~= prev.update(offset + i, args.program_addresses@[i as int]@));
            assert forall|j: int| 0 <= j < config.verification_programs@.len() implies #[trigger] config.programs()[j] == if offset <= j < offset + i + 1 {
                new_programs[j - offset]
            } else if j < old_len {
                old_programs[j]
            } else {
                zeros(32)
            } by {
                if j != offset + i {
                    assert(prev[j] == config.programs()[j]);
                }
            }
            i = i + 1;
        }
        assert(config.programs() =~= expected);
        config.validate()
    }
    /// Decides a trim: a size above the current program count is an invalid argument;
    /// otherwise closing wins, then a smaller size truncates, and the same size changes nothing.
    pub fn plan_trim(current_program_count: usize, size: u8, close: bool) -> (r: Result<TrimPlan, ProgramError>)
        ensures
            r == (if size > current_program_count {
                Err(ProgramError::InvalidArgument)
            } else if close {
                Ok(TrimPlan::Close)
            } else if size < current_program_count {
                Ok(TrimPlan::Truncate)
            } else {
                Ok(TrimPlan::Unchanged)
            }),
    {
        let new_size = size as usize;
        if new_size > current_program_count {
            return Err(ProgramError::InvalidArgument);
        }
        if close {
            Ok(TrimPlan::Close)
        } else if new_size < current_program_count {
            Ok(TrimPlan::Truncate)
        } else {
            Ok(TrimPlan::Unchanged)
        }
    }
    /// The extensions a new security token mint gets for its creation arguments.
    pub fn mint_extensions(args: &InitializeMintArgs) -> (r: Vec<ExtensionType>)
        ensures
            r@ == spec_extensions_for_args(*args),
    {
        let mut exts: Vec<ExtensionType> = Vec::new();
        exts.push(ExtensionType::PermanentDelegate);
        exts.push(ExtensionType::TransferHook);
        exts.push(ExtensionType::Pausable);
        if args.ix_metadata.is_some() || args.ix_metadata_pointer.is_some() {
            exts.push(ExtensionType::MetadataPointer);
        }
        if args.ix_scaled_ui_amount.is_some() {
            exts.push(ExtensionType::ScaledUiAmount);
        }
        assert(exts@ =~= spec_mint_extensions(
            args.ix_metadata is Some || args.ix_metadata_pointer is Some,
            args.ix_scaled_ui_amount is Some,
        ));
        exts
    }
    /// The metadata pointer a new mint gets: the one given, or else, when only metadata is
    /// given, the creator as authority and the mint itself as metadata account; none when
    /// neither is given.
    pub fn metadata_pointer_target(args: &InitializeMintArgs, creator: &Pubkey, mint: &Pubkey) -> (r: Option<(Pubkey, Pubkey)>)
        ensures
            r == match args.ix_metadata_pointer {
                Some(p) => Some((p.authority, p.metadata_address)),
                None => if args.ix_metadata is Some { Some((*creator, *mint)) } else { None },
            },
    {
        match &args.ix_metadata_pointer {
            Some(p) => Some((p.authority, p.metadata_address)),
            None => if args.ix_metadata.is_some() { Some((*creator, *mint)) } else { None },
        }
    }

    /// Decides a mint creation, given the program addresses derived for the mint (freeze
    /// authority, mint authority and its bump): the checks of
    /// `spec_initialize_mint_outcome`, then the extensions, sizes, metadata pointer, mint
    /// authority record, metadata account and fields to set.
    pub fn plan_initialize_mint(
        accounts: &[AccountView],
        args: &InitializeMintArgs,
        freeze_authority_pda: &Pubkey,
        mint_authority_pda: &Pubkey,
        mint_authority_bump: u8,
    ) -> (r: Result<InitializeMintPlan, ProgramError>)
        requires
            args.ix_metadata matches Some(m) ==> 88 + encode_utf8(m.name@).len() + encode_utf8(m.symbol@).len()
                + encode_utf8(m.uri@).len() + m.additional_metadata@.len() + 512 <= usize::MAX,
        ensures
            r is Ok <==> spec_initialize_mint_outcome(accounts@, *args, *freeze_authority_pda, *mint_authority_pda, mint_authority_bump) is Ok,
            r matches Err(e) ==> spec_initialize_mint_outcome(accounts@, *args, *freeze_authority_pda, *mint_authority_pda, mint_authority_bump)
                == Err::<(), ProgramError>(e),
            r matches Ok(p) ==> {
                &&& p.extensions@ == spec_extensions_for_args(*args)
                &&& p.mint_size == 166 + spec_extensions_size(p.extensions@)
                &&& spec_new_metadata_size(args.ix_metadata) == Ok::<nat, ProgramError>((p.total_size - p.mint_size) as nat)
                &&& p.metadata_pointer == match args.ix_metadata_pointer {
                        Some(ptr) => Some((ptr.authority, ptr.metadata_address)),
                        None => if args.ix_metadata is Some { Some((accounts@[2].key, accounts@[0].key)) } else { None },
                    }
                &&& p.mint_authority == (MintAuthority { mint: accounts@[0].key, mint_creator: accounts@[2].key, bump: mint_authority_bump })
                &&& match args.ix_metadata {
                        None => p.metadata_account is None && p.metadata_fields@.len() == 0,
                        Some(m) => {
                            &&& p.metadata_account matches Some(i) && i < accounts@.len()
                                && accounts@[i as int].key == spec_metadata_address(*args, accounts@[0].key)
                            &&& spec_parse_additional_metadata(m.additional_metadata@, 0)
                                == Ok::<Seq<(Seq<char>, Seq<char>)>, ProgramError>(text_pairs_view(p.metadata_fields@))
                        },
                    }
            },
    {
        if accounts.len() != 6 {
            return Err(ProgramError::NotEnoughAccountKeys);
        }
        let mint_info = &accounts[0];
        let mint_authority_account = &accounts[1];
        let creator_info = &accounts[2];
        verify_signer(creator_info)?;
        verify_signer(mint_info)?;
        verify_writable(creator_info)?;
        verify_writable(mint_info)?;
        verify_token22_program(&accounts[3])?;
        verify_system_program(&accounts[4])?;
        verify_rent_sysvar(&accounts[5])?;
        if !key_eq(&args.ix_mint.freeze_authority, freeze_authority_pda) {
            return Err(ProgramError::InvalidSeeds);
        }
        let extensions = Self::mint_extensions(args);
        proof {
            assert(crate::utils::supported_mint_extensions(extensions@));
        }
        let mint_size = calculate_mint_size_with_extensions(extensions.as_slice());
        let metadata_size: usize = match &args.ix_metadata {
            Some(metadata) => calculate_metadata_tlv_size(metadata)?,
            None => 0,
        };
        let total_size = mint_size + metadata_size;
        let metadata_pointer = Self::metadata_pointer_target(args, &creator_info.key, &mint_info.key);
        if !key_eq(&mint_authority_account.key, mint_authority_pda) {
            return Err(ProgramError::InvalidSeeds);
        }
        verify_account_not_initialized(mint_authority_account)?;
        let mint_authority = MintAuthority::new(mint_info.key, creator_info.key, mint_authority_bump)?;
        let (metadata_account, metadata_fields) = match &args.ix_metadata {
            None => {
                let empty: Vec<(String, String)> = Vec::new();
                (None, empty)
            },
            Some(metadata) => {
                let address = match &args.ix_metadata_pointer {
                    Some(p) => p.metadata_address,
                    None => mint_info.key,
                };
                let index = if key_eq(&address, &mint_info.key) {
                    proof {
                        lemma_key_ext(address, mint_info.key);
                    }
                    0
                } else {
                    match find_account(accounts, &address) {
                        Some(i) => i,
                        None => return Err(ProgramError::InvalidAccountData),
                    }
                };
                let fields = parse_additional_metadata(metadata.additional_metadata.as_slice())?;
                (Some(index), fields)
            },
        };
        Ok(InitializeMintPlan {
            extensions,
            mint_size,
            total_size,
            metadata_pointer,
            mint_authority,
            metadata_account,
            metadata_fields,
        })
    }
}

/// A new security token mint gets exactly the extensions its creation asks for: the
/// permanent delegate, the transfer hook and pausability always; a metadata pointer
/// exactly when metadata or a pointer is requested; the scaled UI amount exactly when it
/// is requested; no other extension, and none twice.
pub proof fn lemma_mint_extensions_exact(with_metadata_pointer: bool, with_scaled_ui_amount: bool, e: ExtensionType)
    ensures
        spec_mint_extensions(with_metadata_pointer, with_scaled_ui_amount).contains(e) <==> (
            e == ExtensionType::PermanentDelegate || e == ExtensionType::TransferHook || e == ExtensionType::Pausable
            || (with_metadata_pointer && e == ExtensionType::MetadataPointer)
            || (with_scaled_ui_amount && e == ExtensionType::ScaledUiAmount)),
        spec_mint_extensions(with_metadata_pointer, with_scaled_ui_amount).no_duplicates(),
{
    lemma_mint_extensions_list(with_metadata_pointer, with_scaled_ui_amount, e);
}

/// The extensions of a mint follow its creation arguments: the scaled UI amount is there
/// exactly when the arguments carry one, the metadata pointer exactly when they carry
/// metadata or a pointer, and the three security extensions always.
pub proof fn lemma_extensions_follow_args(args: InitializeMintArgs, e: ExtensionType)
    ensures
        spec_extensions_for_args(args).contains(e) <==> (
            e == ExtensionType::PermanentDelegate || e == ExtensionType::TransferHook || e == ExtensionType::Pausable
            || ((args.ix_metadata is Some || args.ix_metadata_pointer is Some) && e == ExtensionType::MetadataPointer)
            || (args.ix_scaled_ui_amount is Some && e == ExtensionType::ScaledUiAmount)),
        spec_extensions_for_args(args).no_duplicates(),
{
    lemma_mint_extensions_list(args.ix_metadata is Some || args.ix_metadata_pointer is Some, args.ix_scaled_ui_amount is Some, e);
}

proof fn lemma_mint_extensions_list(with_metadata_pointer: bool, with_scaled_ui_amount: bool, e: ExtensionType)
    ensures
        spec_mint_extensions(with_metadata_pointer, with_scaled_ui_amount).contains(e) <==> (
            e == ExtensionType::PermanentDelegate || e == ExtensionType::TransferHook || e == ExtensionType::Pausable
            || (with_metadata_pointer && e == ExtensionType::MetadataPointer)
            || (with_scaled_ui_amount && e == ExtensionType::ScaledUiAmount)),
        spec_mint_extensions(with_metadata_pointer, with_scaled_ui_amount).no_duplicates(),
{
    let s = spec_mint_extensions(with_metadata_pointer, with_scaled_ui_amount);
    if with_metadata_pointer && with_scaled_ui_amount {
        assert(s =~= seq![ExtensionType::PermanentDelegate, ExtensionType::TransferHook, ExtensionType::Pausable,
            ExtensionType::MetadataPointer, ExtensionType::ScaledUiAmount]);
    } else if with_metadata_pointer {
        assert(s =~= seq![ExtensionType::PermanentDelegate, ExtensionType::TransferHook, ExtensionType::Pausable,
            ExtensionType::MetadataPointer]);
    } else if with_scaled_ui_amount {
        assert(s =~= seq![ExtensionType::PermanentDelegate, ExtensionType::TransferHook, ExtensionType::Pausable,
            ExtensionType::ScaledUiAmount]);
    } else {
        assert(s =~= seq![ExtensionType::PermanentDelegate, ExtensionType::TransferHook, ExtensionType::Pausable]);
    }
    if s.contains(e) {
        let k = choose|k: int| 0 <= k < s.len() && s[k] == e;
        assert(s[k] == e);
    }
    if e == ExtensionType::PermanentDelegate { assert(s[0] == e); }
    if e == ExtensionType::TransferHook { assert(s[1] == e); }
    if e == ExtensionType::Pausable { assert(s[2] == e); }
    if with_metadata_pointer && e == ExtensionType::MetadataPointer { assert(s[3] == e); }
    if with_scaled_ui_amount && e == ExtensionType::ScaledUiAmount { assert(s[s.len() - 1] == e); }
}

} // verus!
