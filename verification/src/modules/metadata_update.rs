//! Decisions of a token metadata update: the checks, the rent for the extra space, and
//! which additional metadata keys are removed and which fields are set.
use vstd::prelude::*;
use vstd::utf8::encode_utf8;
use crate::bytes::{key_eq, lemma_key_ext};
use crate::constants::{TOKEN_2022_PROGRAM_ID, SYSTEM_PROGRAM_ID};
use crate::error::ProgramError;
use crate::instructions::update_metadata::UpdateMetadataArgs;
use crate::modules::account_checks::{
    AccountView, verify_mint_keys_match, verify_token22_program, verify_system_program, verify_signer,
};
use crate::modules::verification::{VerificationModule, spec_new_metadata_size};
use crate::state::mint_authority::{MintAuthority, spec_mint_authority_fields};
use crate::token22_extensions::{
    BaseState, ExtensionType, FixedSizeExtension, spec_extension_range, scan_extension_range, lemma_extension_range_bounds,
    get_extension_from_bytes, get_extension_data_bytes_for_variable_pack,
};
use crate::token22_extensions::metadata::{TokenMetadata, spec_token_metadata_of_account, pairs_view};
use crate::token22_extensions::metadata_pointer::MetadataPointer;
use crate::utils::{calculate_metadata_tlv_size, parse_additional_metadata, spec_parse_additional_metadata, text_pairs_view};

verus! {

/// At most this many existing additional metadata keys are considered for removal.
pub const MAX_EXISTING_METADATA_KEYS: usize = 16;

/// Existing keys longer than this many bytes are never removed.
pub const MAX_REMOVABLE_KEY_LEN: usize = 64;

/// The checks on the accounts of a metadata update, in order: the five accounts (mint
/// authority, payer, mint, token program, system program), the mint being the verified
/// one, the two programs, the payer signing, and the mint authority account holding the
/// authority of this mint.
pub open spec fn spec_update_metadata_account_checks(verified_mint: AccountView, accounts: Seq<AccountView>) -> Result<(), ProgramError> {
    if accounts.len() != 5 {
        Err(ProgramError::NotEnoughAccountKeys)
    } else if accounts[2].key@ != verified_mint.key@ {
        Err(ProgramError::InvalidAccountData)
    } else if accounts[3].key@ != TOKEN_2022_PROGRAM_ID@ || accounts[4].key@ != SYSTEM_PROGRAM_ID@ {
        Err(ProgramError::IncorrectProgramId)
    } else if !accounts[1].is_signer {
        Err(ProgramError::MissingRequiredSignature)
    } else {
        match spec_mint_authority_fields(accounts[0].data@, accounts[0].owner@) {
            Err(e) => Err(e),
            Ok(f) => if f.0 != accounts[2].key@ { Err(ProgramError::InvalidAccountData) } else { Ok(()) },
        }
    }
}

/// The data range of the metadata pointer in mint data.
pub open spec fn spec_metadata_pointer_range(data: Seq<u8>) -> Option<Option<(int, int)>> {
    spec_extension_range(data, BaseState::Mint, ExtensionType::MetadataPointer.spec_code(), Some(64))
}

/// The data range of the token metadata in mint data.
pub open spec fn spec_token_metadata_range(data: Seq<u8>) -> Option<Option<(int, int)>> {
    spec_extension_range(data, BaseState::Mint, ExtensionType::TokenMetadata.spec_code(), None)
}

/// Everything a metadata update decides, in the order it decides it: the account checks,
/// a metadata pointer in the mint, the metadata living in the mint itself, and new
/// metadata whose additional fields are well-formed. `None` where reading the mint's
/// extensions would run past the end of its data.
pub open spec fn spec_update_metadata_outcome(
    verified_mint: AccountView,
    accounts: Seq<AccountView>,
    args: UpdateMetadataArgs,
) -> Option<Result<(), ProgramError>> {
    match spec_update_metadata_account_checks(verified_mint, accounts) {
        Err(e) => Some(Err(e)),
        Ok(()) => {
            let data = accounts[2].data@;
            match spec_metadata_pointer_range(data) {
                None => None,
                Some(None) => Some(Err(ProgramError::InvalidAccountData)),
                Some(Some((s, _))) => if data.subrange(s + 32, s + 64) != accounts[2].key@ {
                    Some(Err(ProgramError::NotEnoughAccountKeys))
                } else {
                    match spec_new_metadata_size(Some(args.metadata)) {
                        Err(e) => Some(Err(e)),
                        Ok(_) => if spec_token_metadata_range(data) is None { None } else { Some(Ok(())) },
                    }
                },
            }
        },
    }
}

/// The size the mint's token metadata takes now, its entry header included; zero when it
/// has none.
pub open spec fn spec_current_metadata_size(data: Seq<u8>) -> nat {
    match spec_token_metadata_range(data) {
        Some(Some((s, e))) => (e - s + 4) as nat,
        _ => 0,
    }
}

/// The pair fits the limits of additional metadata: a key of at most 256 bytes and a
/// value of at most 1024.
pub open spec fn spec_pair_within_limits(p: (Seq<char>, Seq<char>)) -> bool {
    encode_utf8(p.0).len() <= 256 && encode_utf8(p.1).len() <= 1024
}

/// The first 16 keys of at most 64 bytes, in order.
pub open spec fn spec_first_short_keys(pairs: Seq<(Seq<char>, Seq<char>)>) -> Seq<Seq<char>>
    decreases pairs.len(),
{
    if pairs.len() == 0 {
        Seq::empty()
    } else {
        let keys = spec_first_short_keys(pairs.drop_last());
        if keys.len() < 16 && encode_utf8(pairs.last().0).len() <= 64 {
            keys.push(pairs.last().0)
        } else {
            keys
        }
    }
}

/// The existing keys a metadata update may remove: the first 16 keys of at most 64 bytes
/// of the mint's metadata; none when the metadata cannot be read or one of its pairs is
/// beyond the limits of additional metadata.
pub open spec fn spec_existing_metadata_keys(data: Seq<u8>) -> Seq<Seq<char>> {
    match spec_token_metadata_of_account(data) {
        Ok(m) => if forall|i: int| 0 <= i < m.additional_metadata.len()
            ==> #[trigger] spec_pair_within_limits(m.additional_metadata[i]) {
            spec_first_short_keys(m.additional_metadata)
        } else {
            Seq::empty()
        },
        Err(_) => Seq::empty(),
    }
}

/// Some pair has the key `k`.
pub open spec fn spec_has_key(pairs: Seq<(Seq<char>, Seq<char>)>, k: Seq<char>) -> bool {
    exists|i: int| 0 <= i < pairs.len() && #[trigger] pairs[i].0 == k
}

/// The keys that no new pair has, in order.
pub open spec fn spec_keys_to_remove(existing: Seq<Seq<char>>, new_pairs: Seq<(Seq<char>, Seq<char>)>) -> Seq<Seq<char>>
    decreases existing.len(),
{
    if existing.len() == 0 {
        Seq::empty()
    } else {
        let rest = spec_keys_to_remove(existing.drop_last(), new_pairs);
        if spec_has_key(new_pairs, existing.last()) { rest } else { rest.push(existing.last()) }
    }
}

/// A metadata update removes exactly the considered existing keys that the new metadata
/// does not set: a key is removed if and only if it is among the existing keys and no new
/// pair has it.
pub proof fn lemma_keys_to_remove_exact(existing: Seq<Seq<char>>, new_pairs: Seq<(Seq<char>, Seq<char>)>, k: Seq<char>)
    ensures
        spec_keys_to_remove(existing, new_pairs).contains(k) <==> existing.contains(k) && !spec_has_key(new_pairs, k),
    decreases existing.len(),
{
    if existing.len() > 0 {
        let rest = existing.drop_last();
        lemma_keys_to_remove_exact(rest, new_pairs, k);
        assert(existing =~= rest.push(existing.last()));
        if existing.contains(k) && k != existing.last() {
            let i = choose|i: int| 0 <= i < existing.len() && existing[i] == k;
            assert(rest[i] == k);
        }
        if rest.contains(k) {
            let i = choose|i: int| 0 <= i < rest.len() && rest[i] == k;
            assert(existing[i] == k);
        }
        if spec_keys_to_remove(rest, new_pairs).contains(k) || k == existing.last() {
            if !spec_has_key(new_pairs, existing.last()) {
                let out = spec_keys_to_remove(rest, new_pairs);
                if k == existing.last() {
                    assert(out.push(k)[out.len() as int] == k);
                } else {
                    let j = choose|j: int| 0 <= j < out.len() && out[j] == k;
                    assert(out.push(existing.last())[j] == k);
                }
            }
        }
        if spec_keys_to_remove(existing, new_pairs).contains(k) && !spec_has_key(new_pairs, existing.last()) {
            let out = spec_keys_to_remove(rest, new_pairs);
            let j = choose|j: int| 0 <= j < out.len() + 1 && out.push(existing.last())[j] == k;
            if j < out.len() {
                assert(out[j] == k);
            }
        }
    }
}

/// What a metadata update does, as plain values.
pub struct UpdateMetadataPlanView {
    /// Mint, creator and bump of the mint authority that signs
    pub mint_authority: (Seq<u8>, Seq<u8>, u8),
    /// Bytes of extra space to pay rent for
    pub additional_space: nat,
    /// Existing additional metadata keys to remove
    pub keys_to_remove: Seq<Seq<char>>,
    /// Additional metadata fields to set
    pub fields_to_set: Seq<(Seq<char>, Seq<char>)>,
}

/// What a metadata update that passes its checks does: the mint authority signs, the
/// payer funds the space the new metadata takes beyond the current one, the existing keys
/// that the new metadata lacks are removed, and the new fields are set.
pub open spec fn spec_update_metadata_plan(accounts: Seq<AccountView>, args: UpdateMetadataArgs) -> UpdateMetadataPlanView {
    let data = accounts[2].data@;
    let new_size = spec_new_metadata_size(Some(args.metadata))->Ok_0;
    let current = spec_current_metadata_size(data);
    let new_pairs = spec_parse_additional_metadata(args.metadata.additional_metadata@, 0)->Ok_0;
    UpdateMetadataPlanView {
        mint_authority: spec_mint_authority_fields(accounts[0].data@, accounts[0].owner@)->Ok_0,
        additional_space: if new_size > current { (new_size - current) as nat } else { 0 },
        keys_to_remove: spec_keys_to_remove(spec_existing_metadata_keys(data), new_pairs),
        fields_to_set: new_pairs,
    }
}

/// What a metadata update does: the name, symbol and URI are always set from the
/// arguments; the rest is here.
pub struct UpdateMetadataPlan {
    /// The mint authority, whose address signs the updates
    pub mint_authority: MintAuthority,
    /// Bytes of extra space the payer funds rent for (none when zero)
    pub additional_space: usize,
    /// Existing additional metadata keys to remove
    pub keys_to_remove: Vec<String>,
    /// Additional metadata fields to set, in order
    pub fields_to_set: Vec<(String, String)>,
}

/// The texts of strings.
pub open spec fn texts_view(v: Seq<String>) -> Seq<Seq<char>> {
    v.map_values(|s: String| s@)
}

impl View for UpdateMetadataPlan {
    type V = UpdateMetadataPlanView;

    open spec fn view(&self) -> UpdateMetadataPlanView {
        UpdateMetadataPlanView {
            mint_authority: (self.mint_authority.mint@, self.mint_authority.mint_creator@, self.mint_authority.bump),
            additional_space: self.additional_space as nat,
            keys_to_remove: texts_view(self.keys_to_remove@),
            fields_to_set: text_pairs_view(self.fields_to_set@),
        }
    }
}

/// The account checks of a metadata update, giving the mint authority.
fn check_update_metadata_accounts(verified_mint: &AccountView, accounts: &[AccountView]) -> (r: Result<MintAuthority, ProgramError>)
    ensures
        match r {
            Ok(m) => spec_update_metadata_account_checks(*verified_mint, accounts@) is Ok
                && spec_mint_authority_fields(accounts@[0].data@, accounts@[0].owner@)
                    == Ok::<(Seq<u8>, Seq<u8>, u8), ProgramError>((m.mint@, m.mint_creator@, m.bump)),
            Err(e) => spec_update_metadata_account_checks(*verified_mint, accounts@) == Err::<(), ProgramError>(e),
        },
{
    if accounts.len() != 5 {
        return Err(ProgramError::NotEnoughAccountKeys);
    }
    verify_mint_keys_match(verified_mint, &accounts[2])?;
    verify_token22_program(&accounts[3])?;
    verify_system_program(&accounts[4])?;
    verify_signer(&accounts[1])?;
    let mint_authority = MintAuthority::from_account_info(&accounts[0])?;
    if !key_eq(&mint_authority.mint, &accounts[2].key) {
        return Err(ProgramError::InvalidAccountData);
    }
    Ok(mint_authority)
}

/// The first 16 keys of at most 64 bytes of the pairs; none when a pair is beyond the
/// limits of additional metadata.
fn existing_keys(pairs: &Vec<(String, String)>) -> (r: Vec<String>)
    ensures
        texts_view(r@) == (if forall|i: int| 0 <= i < pairs@.len()
            ==> #[trigger] spec_pair_within_limits(pairs_view(pairs@)[i]) {
            spec_first_short_keys(pairs_view(pairs@))
        } else {
            Seq::<Seq<char>>::empty()
        }),
{
    let ghost all = pairs_view(pairs@);
    let mut i: usize = 0;
    while i < pairs.len()
        invariant
            0 <= i <= pairs@.len(),
            all == pairs_view(pairs@),
            forall|j: int| 0 <= j < i ==> #[trigger] spec_pair_within_limits(all[j]),
        decreases pairs@.len() - i,
    {
        assert(all[i as int] == (pairs@[i as int].0@, pairs@[i as int].1@));
        if pairs[i].0.as_str().as_bytes().len() > 256 || pairs[i].1.as_str().as_bytes().len() > 1024 {
            assert(!spec_pair_within_limits(all[i as int]));
            let empty: Vec<String> = Vec::new();
            assert(texts_view(empty@) =~= Seq::<Seq<char>>::empty());
            return empty;
        }
        i = i + 1;
    }
    let mut keys: Vec<String> = Vec::new();
    let mut k: usize = 0;
    assert(all.subrange(0, 0) =~= Seq::<(Seq<char>, Seq<char>)>::empty());
    assert(texts_view(keys@) =~= Seq::<Seq<char>>::empty());
    while k < pairs.len()
        invariant
            0 <= k <= pairs@.len(),
            all == pairs_view(pairs@),
            texts_view(keys@) == spec_first_short_keys(all.subrange(0, k as int)),
        decreases pairs@.len() - k,
    {
        assert(all.subrange(0, k + 1).drop_last() =~= all.subrange(0, k as int));
        assert(all[k as int] == (pairs@[k as int].0@, pairs@[k as int].1@));
        if keys.len() < MAX_EXISTING_METADATA_KEYS && pairs[k].0.as_str().as_bytes().len() <= MAX_REMOVABLE_KEY_LEN {
            let ghost before = keys@;
            keys.push(pairs[k].0.clone());
            assert(texts_view(keys@) =~= texts_view(before).push(all[k as int].0));
        }
        k = k + 1;
    }
    assert(all.subrange(0, pairs@.len() as int) =~= all);
    keys
}

/// Whether some pair has the key `key`.
fn has_key(pairs: &Vec<(String, String)>, key: &String) -> (r: bool)
    ensures
        r == spec_has_key(text_pairs_view(pairs@), key@),
{
    let ghost all = text_pairs_view(pairs@);
    let mut i: usize = 0;
    while i < pairs.len()
        invariant
            0 <= i <= pairs@.len(),
            all == text_pairs_view(pairs@),
            forall|j: int| 0 <= j < i ==> all[j].0 != key@,
        decreases pairs@.len() - i,
    {
        if pairs[i].0 == *key {
            assert(all[i as int].0 == key@);
            return true;
        }
        i = i + 1;
    }
    false
}

/// The existing keys that no new pair has, in order.
fn keys_to_remove(existing: &Vec<String>, new_pairs: &Vec<(String, String)>) -> (r: Vec<String>)
    ensures
        texts_view(r@) == spec_keys_to_remove(texts_view(existing@), text_pairs_view(new_pairs@)),
{
    let ghost ex = texts_view(existing@);
    let mut out: Vec<String> = Vec::new();
    let mut i: usize = 0;
    assert(texts_view(out@) =~= Seq::<Seq<char>>::empty());
    assert(ex.subrange(0, 0) =~= Seq::<Seq<char>>::empty());
    while i < existing.len()
        invariant
            0 <= i <= existing@.len(),
            ex == texts_view(existing@),
            texts_view(out@) == spec_keys_to_remove(ex.subrange(0, i as int), text_pairs_view(new_pairs@)),
        decreases existing@.len() - i,
    {
        assert(ex.subrange(0, i + 1).drop_last() =~= ex.subrange(0, i as int));
        if !has_key(new_pairs, &existing[i]) {
            let ghost before = out@;
            out.push(existing[i].clone());
            assert(texts_view(out@) =~= texts_view(before).push(ex[i as int]));
        }
        i = i + 1;
    }
    assert(ex.subrange(0, existing@.len() as int) =~= ex);
    out
}

impl VerificationModule {
    /// Decides a metadata update, or gives `None` where reading the mint's extensions
    /// would run past the end of its data: the checks of `spec_update_metadata_outcome`,
    /// then what `spec_update_metadata_plan` says is done.
    pub fn try_plan_update_metadata(
        verified_mint: &AccountView,
        accounts: &[AccountView],
        args: &UpdateMetadataArgs,
    ) -> (r: Option<Result<UpdateMetadataPlan, ProgramError>>)
        requires
            88 + encode_utf8(args.metadata.name@).len() + encode_utf8(args.metadata.symbol@).len()
                + encode_utf8(args.metadata.uri@).len() + args.metadata.additional_metadata@.len() <= usize::MAX,
        ensures
            r is None <==> spec_update_metadata_outcome(*verified_mint, accounts@, *args) is None,
            r matches Some(Err(e)) ==> spec_update_metadata_outcome(*verified_mint, accounts@, *args)
                == Some(Err::<(), ProgramError>(e)),
            r matches Some(Ok(p)) ==> spec_update_metadata_outcome(*verified_mint, accounts@, *args)
                == Some(Ok::<(), ProgramError>(())) && p@ == spec_update_metadata_plan(accounts@, *args),
    {
        let mint_authority = match check_update_metadata_accounts(verified_mint, accounts) {
            Ok(m) => m,
            Err(e) => return Some(Err(e)),
        };
        let mint_info = &accounts[2];
        let data = mint_info.data.as_slice();
        let pointer_code = ExtensionType::extension_type_code(ExtensionType::MetadataPointer);
        let pointer_range = match scan_extension_range(data, BaseState::Mint, pointer_code, Some(64)) {
            Some(found) => found,
            None => return None,
        };
        proof {
            lemma_extension_range_bounds(data@, BaseState::Mint, pointer_code, Some(64));
        }
        let metadata_address = match get_extension_from_bytes::<MetadataPointer>(data) {
            Some(pointer) => {
                let ghost range = pointer_range->Some_0;
                assert(pointer.spec_ext_bytes().subrange(32, 64) =~= pointer.metadata_address@);
                assert(data@.subrange(range.0 as int, range.1 as int).subrange(32, 64)
                    =~= data@.subrange(range.0 + 32, range.0 + 64));
                pointer.metadata_address
            },
            None => return Some(Err(ProgramError::InvalidAccountData)),
        };
        if !key_eq(&metadata_address, &mint_info.key) {
            return Some(Err(ProgramError::NotEnoughAccountKeys));
        }
        let new_metadata_size = match calculate_metadata_tlv_size(&args.metadata) {
            Ok(n) => n,
            Err(e) => return Some(Err(e)),
        };
        let metadata_code = ExtensionType::extension_type_code(ExtensionType::TokenMetadata);
        if scan_extension_range(data, BaseState::Mint, metadata_code, None).is_none() {
            return None;
        }
        proof {
            lemma_extension_range_bounds(data@, BaseState::Mint, metadata_code, None);
        }
        let current_metadata_size: usize = match get_extension_data_bytes_for_variable_pack::<TokenMetadata>(data) {
            Some(metadata_bytes) => metadata_bytes.len() + 4,
            None => 0,
        };
        let additional_space: usize = if new_metadata_size > current_metadata_size {
            new_metadata_size - current_metadata_size
        } else {
            0
        };
        let fields_to_set = match parse_additional_metadata(args.metadata.additional_metadata.as_slice()) {
            Ok(fields) => fields,
            Err(e) => return Some(Err(e)),
        };
        let existing: Vec<String> = match TokenMetadata::from_account_info(mint_info) {
            Ok(metadata) => existing_keys(&metadata.additional_metadata),
            Err(_) => Vec::new(),
        };
        let keys_to_remove = keys_to_remove(&existing, &fields_to_set);
        proof {
            lemma_key_ext(metadata_address, mint_info.key);
            assert(texts_view(existing@) == spec_existing_metadata_keys(data@));
        }
        Some(Ok(UpdateMetadataPlan { mint_authority, additional_space, keys_to_remove, fields_to_set }))
    }

    /// Decides a metadata update on a mint whose extensions can be read: the checks of
    /// `spec_update_metadata_outcome`, then what `spec_update_metadata_plan` says is done.
    pub fn plan_update_metadata(
        verified_mint: &AccountView,
        accounts: &[AccountView],
        args: &UpdateMetadataArgs,
    ) -> (r: Result<UpdateMetadataPlan, ProgramError>)
        requires
            spec_update_metadata_outcome(*verified_mint, accounts@, *args) is Some,
            88 + encode_utf8(args.metadata.name@).len() + encode_utf8(args.metadata.symbol@).len()
                + encode_utf8(args.metadata.uri@).len() + args.metadata.additional_metadata@.len() <= usize::MAX,
        ensures
            r is Ok <==> spec_update_metadata_outcome(*verified_mint, accounts@, *args) == Some(Ok::<(), ProgramError>(())),
            r matches Err(e) ==> spec_update_metadata_outcome(*verified_mint, accounts@, *args)
                == Some(Err::<(), ProgramError>(e)),
            r matches Ok(p) ==> p@ == spec_update_metadata_plan(accounts@, *args),
    {
        match Self::try_plan_update_metadata(verified_mint, accounts, args) {
            Some(r) => r,
            None => Err(ProgramError::InvalidAccountData),
        }
    }
}

} // verus!
