//! Program addresses derived from seeds, and helpers for token metadata and mint sizes.
use vstd::prelude::*;
use crate::bytes::{Pubkey, le64};
use crate::constants::{
    SEED_VERIFICATION_CONFIG, SEED_MINT_AUTHORITY, SEED_PAUSE_AUTHORITY, SEED_FREEZE_AUTHORITY, SEED_TRANSFER_HOOK,
    SEED_PERMANENT_DELEGATE, SEED_ACCOUNT_DELEGATE, SEED_RATE_ACCOUNT, SEED_EXTRA_ACCOUNT_METAS,
    TRANSFER_HOOK_PROGRAM_ID, ASSOCIATED_TOKEN_PROGRAM_ID,
};
use crate::error::{ProgramError, map_ok};
use crate::bytes::{read_u32, decode_utf8_string};
use crate::instructions::initialize_mint::{TokenMetadataArgs, u32_at};
use crate::token22_extensions::ExtensionType;
use vstd::utf8::{valid_utf8, decode_utf8, encode_utf8};

verus! {

/// Most seeds that an address can be derived from.
pub const MAX_SEEDS: usize = 16;

/// Longest seed, in bytes.
pub const MAX_SEED_LEN: usize = 32;

/// The bytes of each seed.
pub open spec fn seed_views(seeds: Seq<&[u8]>) -> Seq<Seq<u8>> {
    seeds.map_values(|s: &[u8]| s@)
}

/// Too many seeds, or a seed that is too long.
pub open spec fn seeds_too_long(seeds: Seq<Seq<u8>>) -> bool {
    seeds.len() > 16 || exists|i: int| 0 <= i < seeds.len() && #[trigger] seeds[i].len() > 32
}

/// The program address derived from `seeds` for `program_id`, or `None` when the
/// derived hash is a point of the curve (and so has a private key).
pub uninterp spec fn spec_create_program_address(seeds: Seq<Seq<u8>>, program_id: Seq<u8>) -> Option<Seq<u8>>;

/// The program address and bump that the bump search finds for `seeds` and `program_id`.
pub uninterp spec fn spec_try_find_program_address(seeds: Seq<Seq<u8>>, program_id: Seq<u8>) -> Option<(Seq<u8>, u8)>;

/// Checking the seed limits, then deriving: too many or too long seeds are
/// `MaxSeedLengthExceeded`, and a derivation on the curve is `InvalidSeeds`.
pub open spec fn spec_checked_create_program_address(seeds: Seq<Seq<u8>>, program_id: Seq<u8>) -> Result<Seq<u8>, ProgramError> {
    if seeds_too_long(seeds) {
        Err(ProgramError::MaxSeedLengthExceeded)
    } else {
        match spec_create_program_address(seeds, program_id) {
            Some(a) => Ok(a),
            None => Err(ProgramError::InvalidSeeds),
        }
    }
}

/// An address result with the address taken as bytes.
pub open spec fn address_result_view(r: Result<Pubkey, ProgramError>) -> Result<Seq<u8>, ProgramError> {
    match r {
        Ok(a) => Ok(a@),
        Err(e) => Err(e),
    }
}

/// An address and bump with the address taken as bytes.
pub open spec fn pda_view(r: Option<(Pubkey, u8)>) -> Option<(Seq<u8>, u8)> {
    match r {
        Some((a, b)) => Some((a@, b)),
        None => None,
    }
}

/// `solana_pubkey::Pubkey::create_program_address`: checks the seed limits (at most 16
/// seeds of at most 32 bytes), then derives the address from the seeds and the program.
/// Trusted: too many or too long seeds give `MaxSeedLengthExceeded`; otherwise the result
/// is the derivation named `spec_create_program_address`, whose "on the curve" case is
/// `InvalidSeeds`. The hash and the curve test themselves are not modelled.
#[verifier::external_body]
pub(crate) fn create_program_address(seeds: &[&[u8]], program_id: &Pubkey) -> (r: Result<Pubkey, ProgramError>)
    ensures
        address_result_view(r) == spec_checked_create_program_address(seed_views(seeds@), program_id@),
{
    let program = solana_pubkey::Pubkey::new_from_array(*program_id);
    match solana_pubkey::Pubkey::create_program_address(seeds, &program) {
        Ok(address) => Ok(address.to_bytes()),
        Err(solana_pubkey::PubkeyError::MaxSeedLengthExceeded) => Err(ProgramError::MaxSeedLengthExceeded),
        Err(solana_pubkey::PubkeyError::InvalidSeeds) => Err(ProgramError::InvalidSeeds),
        Err(solana_pubkey::PubkeyError::IllegalOwner) => Err(ProgramError::IllegalOwner),
    }
}

/// `solana_pubkey::Pubkey::try_find_program_address`: tries the bumps 255 down to 1
/// appended to the seeds and returns the first that derives an address.
/// Trusted: the result is the search named `spec_try_find_program_address`; with 16 or
/// more seeds there is none, and a found address is what `create_program_address`
/// derives from the seeds followed by the bump.
#[verifier::external_body]
pub(crate) fn try_find_program_address(seeds: &[&[u8]], program_id: &Pubkey) -> (r: Option<(Pubkey, u8)>)
    ensures
        pda_view(r) == spec_try_find_program_address(seed_views(seeds@), program_id@),
        seeds@.len() >= 16 ==> r is None,
        r matches Some((a, b)) ==> spec_create_program_address(seed_views(seeds@).push(seq![b]), program_id@) == Some(a@)
            && !seeds_too_long(seed_views(seeds@).push(seq![b])),
{
    let program = solana_pubkey::Pubkey::new_from_array(*program_id);
    match solana_pubkey::Pubkey::try_find_program_address(seeds, &program) {
        Some((address, bump)) => Some((address.to_bytes(), bump)),
        None => None,
    }
}

/// The address and bump of the verification config of one instruction of a mint.
pub fn find_verification_config_pda(mint: &Pubkey, instruction_discriminator: u8, program_id: &Pubkey) -> (r: Option<(Pubkey, u8)>)
    ensures
        pda_view(r) == spec_try_find_program_address(
            seq![SEED_VERIFICATION_CONFIG@, mint@, seq![instruction_discriminator]],
            program_id@,
        ),
{
    let disc = [instruction_discriminator];
    let s0: &[u8] = SEED_VERIFICATION_CONFIG.as_slice();
    let s1: &[u8] = mint.as_slice();
    let s2: &[u8] = disc.as_slice();
    let seeds: [&[u8]; 3] = [s0, s1, s2];
    assert(seeds@ =~= seq![s0, s1, s2]);
    assert(disc@ =~= seq![instruction_discriminator]);
    assert(seed_views(seeds@) =~= seq![SEED_VERIFICATION_CONFIG@, mint@, seq![instruction_discriminator]]);
    try_find_program_address(seeds.as_slice(), program_id)
}

/// The address and bump of the mint authority of a mint and its creator.
pub fn find_mint_authority_pda(mint: &Pubkey, creator: &Pubkey, program_id: &Pubkey) -> (r: Option<(Pubkey, u8)>)
    ensures
        pda_view(r) == spec_try_find_program_address(seq![SEED_MINT_AUTHORITY@, mint@, creator@], program_id@),
{
    let s0: &[u8] = SEED_MINT_AUTHORITY.as_slice();
    let s1: &[u8] = mint.as_slice();
    let s2: &[u8] = creator.as_slice();
    let seeds: [&[u8]; 3] = [s0, s1, s2];
    assert(seeds@ =~= seq![s0, s1, s2]);
    assert(seed_views(seeds@) =~= seq![SEED_MINT_AUTHORITY@, mint@, creator@]);
    try_find_program_address(seeds.as_slice(), program_id)
}

/// The address and bump of the pause authority of a mint.
pub fn find_pause_authority_pda(mint: &Pubkey, program_id: &Pubkey) -> (r: Option<(Pubkey, u8)>)
    ensures
        pda_view(r) == spec_try_find_program_address(seq![SEED_PAUSE_AUTHORITY@, mint@], program_id@),
{
    let s0: &[u8] = SEED_PAUSE_AUTHORITY.as_slice();
    let s1: &[u8] = mint.as_slice();
    let seeds: [&[u8]; 2] = [s0, s1];
    assert(seeds@ =~= seq![s0, s1]);
    assert(seed_views(seeds@) =~= seq![SEED_PAUSE_AUTHORITY@, mint@]);
    try_find_program_address(seeds.as_slice(), program_id)
}

/// The address and bump of the freeze authority of a mint.
pub fn find_freeze_authority_pda(mint: &Pubkey, program_id: &Pubkey) -> (r: Option<(Pubkey, u8)>)
    ensures
        pda_view(r) == spec_try_find_program_address(seq![SEED_FREEZE_AUTHORITY@, mint@], program_id@),
{
    let s0: &[u8] = SEED_FREEZE_AUTHORITY.as_slice();
    let s1: &[u8] = mint.as_slice();
    let seeds: [&[u8]; 2] = [s0, s1];
    assert(seeds@ =~= seq![s0, s1]);
    assert(seed_views(seeds@) =~= seq![SEED_FREEZE_AUTHORITY@, mint@]);
    try_find_program_address(seeds.as_slice(), program_id)
}

/// The address and bump of the transfer hook authority of a mint.
pub fn find_transfer_hook_pda(mint: &Pubkey, program_id: &Pubkey) -> (r: Option<(Pubkey, u8)>)
    ensures
        pda_view(r) == spec_try_find_program_address(seq![SEED_TRANSFER_HOOK@, mint@], program_id@),
{
    let s0: &[u8] = SEED_TRANSFER_HOOK.as_slice();
    let s1: &[u8] = mint.as_slice();
    let seeds: [&[u8]; 2] = [s0, s1];
    assert(seeds@ =~= seq![s0, s1]);
    assert(seed_views(seeds@) =~= seq![SEED_TRANSFER_HOOK@, mint@]);
    try_find_program_address(seeds.as_slice(), program_id)
}

/// The address and bump of the permanent delegate of a mint.
pub fn find_permanent_delegate_pda(mint: &Pubkey, program_id: &Pubkey) -> (r: Option<(Pubkey, u8)>)
    ensures
        pda_view(r) == spec_try_find_program_address(seq![SEED_PERMANENT_DELEGATE@, mint@], program_id@),
{
    let s0: &[u8] = SEED_PERMANENT_DELEGATE.as_slice();
    let s1: &[u8] = mint.as_slice();
    let seeds: [&[u8]; 2] = [s0, s1];
    assert(seeds@ =~= seq![s0, s1]);
    assert(seed_views(seeds@) =~= seq![SEED_PERMANENT_DELEGATE@, mint@]);
    try_find_program_address(seeds.as_slice(), program_id)
}

/// The address and bump of the delegate of a token account.
pub fn find_account_delegate_pda(account: &Pubkey, program_id: &Pubkey) -> (r: Option<(Pubkey, u8)>)
    ensures
        pda_view(r) == spec_try_find_program_address(seq![SEED_ACCOUNT_DELEGATE@, account@], program_id@),
{
    let s0: &[u8] = SEED_ACCOUNT_DELEGATE.as_slice();
    let s1: &[u8] = account.as_slice();
    let seeds: [&[u8]; 2] = [s0, s1];
    assert(seeds@ =~= seq![s0, s1]);
    assert(seed_views(seeds@) =~= seq![SEED_ACCOUNT_DELEGATE@, account@]);
    try_find_program_address(seeds.as_slice(), program_id)
}

/// The address and bump of the rate of an action between two mints.
pub fn find_rate_pda(action_id: u64, mint_from: &Pubkey, mint_to: &Pubkey, program_id: &Pubkey) -> (r: Option<(Pubkey, u8)>)
    ensures
        pda_view(r) == spec_try_find_program_address(seq![SEED_RATE_ACCOUNT@, le64(action_id), mint_from@, mint_to@], program_id@),
{
    let id = vstd::bytes::u64_to_le_bytes(action_id);
    let s0: &[u8] = SEED_RATE_ACCOUNT.as_slice();
    let s1: &[u8] = id.as_slice();
    let s2: &[u8] = mint_from.as_slice();
    let s3: &[u8] = mint_to.as_slice();
    let seeds: [&[u8]; 4] = [s0, s1, s2, s3];
    assert(seeds@ =~= seq![s0, s1, s2, s3]);
    assert(seed_views(seeds@) =~= seq![SEED_RATE_ACCOUNT@, le64(action_id), mint_from@, mint_to@]);
    try_find_program_address(seeds.as_slice(), program_id)
}

/// The address and bump of the transfer hook's extra account metas list of a mint, under
/// the transfer hook program.
pub fn find_extra_account_metas_pda(mint: &Pubkey) -> (r: Option<(Pubkey, u8)>)
    ensures
        pda_view(r) == spec_try_find_program_address(seq![SEED_EXTRA_ACCOUNT_METAS@, mint@], TRANSFER_HOOK_PROGRAM_ID@),
{
    let s0: &[u8] = SEED_EXTRA_ACCOUNT_METAS.as_slice();
    let s1: &[u8] = mint.as_slice();
    let seeds: [&[u8]; 2] = [s0, s1];
    assert(seeds@ =~= seq![s0, s1]);
    assert(seed_views(seeds@) =~= seq![SEED_EXTRA_ACCOUNT_METAS@, mint@]);
    try_find_program_address(seeds.as_slice(), &TRANSFER_HOOK_PROGRAM_ID)
}

/// The address and bump of the associated token account of `wallet` for `mint` under
/// `token_program`, under the associated token program.
pub fn find_associated_token_address(wallet: &Pubkey, mint: &Pubkey, token_program: &Pubkey) -> (r: Option<(Pubkey, u8)>)
    ensures
        pda_view(r) == spec_try_find_program_address(seq![wallet@, token_program@, mint@], ASSOCIATED_TOKEN_PROGRAM_ID@),
{
    let s0: &[u8] = wallet.as_slice();
    let s1: &[u8] = token_program.as_slice();
    let s2: &[u8] = mint.as_slice();
    let seeds: [&[u8]; 3] = [s0, s1, s2];
    assert(seeds@ =~= seq![s0, s1, s2]);
    assert(seed_views(seeds@) =~= seq![wallet@, token_program@, mint@]);
    try_find_program_address(seeds.as_slice(), &ASSOCIATED_TOKEN_PROGRAM_ID)
}

/// Longest key of additional metadata, in bytes.
pub const MAX_METADATA_KEY_LEN: usize = 256;

/// Longest value of additional metadata, in bytes.
pub const MAX_METADATA_VALUE_LEN: usize = 1024;

/// Bytes of `data` that are left from `off` on, as a measure.
pub open spec fn left_from(data: Seq<u8>, off: int) -> nat {
    if off < data.len() { (data.len() - off) as nat } else { 0 }
}

/// The key/value pairs encoded in `data` from `off` on: each is a `u32` key length, the
/// key, a `u32` value length and the value, both UTF-8. A key longer than 256 bytes, a
/// value longer than 1024 bytes, or text that is not UTF-8 is invalid instruction data;
/// a pair cut short by the end of the data ends the list silently.
pub open spec fn spec_parse_additional_metadata(data: Seq<u8>, off: int) -> Result<Seq<(Seq<char>, Seq<char>)>, ProgramError>
    decreases left_from(data, off),
{
    if off < 0 || off >= data.len() || off + 4 > data.len() {
        Ok(Seq::empty())
    } else {
        let klen = u32_at(data, off);
        let k0 = off + 4;
        if klen > 256 {
            Err(ProgramError::InvalidInstructionData)
        } else if k0 + klen > data.len() {
            Ok(Seq::empty())
        } else if !valid_utf8(data.subrange(k0, k0 + klen)) {
            Err(ProgramError::InvalidInstructionData)
        } else if k0 + klen + 4 > data.len() {
            Ok(Seq::empty())
        } else {
            let vlen = u32_at(data, k0 + klen);
            let v0 = k0 + klen + 4;
            if vlen > 1024 {
                Err(ProgramError::InvalidInstructionData)
            } else if v0 + vlen > data.len() {
                Ok(Seq::empty())
            } else if !valid_utf8(data.subrange(v0, v0 + vlen)) {
                Err(ProgramError::InvalidInstructionData)
            } else {
                let pair = (decode_utf8(data.subrange(k0, k0 + klen)), decode_utf8(data.subrange(v0, v0 + vlen)));
                match spec_parse_additional_metadata(data, v0 + vlen) {
                    Ok(rest) => Ok(seq![pair] + rest),
                    Err(e) => Err(e),
                }
            }
        }
    }
}

/// The key/value pairs taken as texts.
pub open spec fn text_pairs_view(v: Seq<(String, String)>) -> Seq<(Seq<char>, Seq<char>)> {
    v.map_values(|p: (String, String)| (p.0@, p.1@))
}

/// Parses additional metadata into its key/value pairs.
pub fn parse_additional_metadata(data: &[u8]) -> (r: Result<Vec<(String, String)>, ProgramError>)
    ensures
        map_ok(r, |v: Vec<(String, String)>| text_pairs_view(v@)) == spec_parse_additional_metadata(data@, 0),
{
    let len = data.len();
    let mut pairs: Vec<(String, String)> = Vec::new();
    let mut offset: usize = 0;
    while offset < len
        invariant
            len == data@.len(),
            offset <= len,
            spec_parse_additional_metadata(data@, 0) == match spec_parse_additional_metadata(data@, offset as int) {
                Ok(rest) => Ok(text_pairs_view(pairs@) + rest),
                Err(e) => Err::<Seq<(Seq<char>, Seq<char>)>, ProgramError>(e),
            },
        decreases len - offset,
    {
        assert(text_pairs_view(pairs@) + Seq::<(Seq<char>, Seq<char>)>::empty() =~= text_pairs_view(pairs@));
        if len - offset < 4 {
            return Ok(pairs);
        }
        let key_len = read_u32(data, offset) as usize;
        let k0 = offset + 4;
        if key_len > MAX_METADATA_KEY_LEN {
            return Err(ProgramError::InvalidInstructionData);
        }
        if len - k0 < key_len {
            return Ok(pairs);
        }
        let key = match decode_utf8_string(vstd::slice::slice_subrange(data, k0, k0 + key_len)) {
            Some(k) => k,
            None => return Err(ProgramError::InvalidInstructionData),
        };
        let k1 = k0 + key_len;
        if len - k1 < 4 {
            return Ok(pairs);
        }
        let value_len = read_u32(data, k1) as usize;
        let v0 = k1 + 4;
        if value_len > MAX_METADATA_VALUE_LEN {
            return Err(ProgramError::InvalidInstructionData);
        }
        if len - v0 < value_len {
            return Ok(pairs);
        }
        let value = match decode_utf8_string(vstd::slice::slice_subrange(data, v0, v0 + value_len)) {
            Some(v) => v,
            None => return Err(ProgramError::InvalidInstructionData),
        };
        let ghost before = pairs@;
        let ghost pair = (key@, value@);
        let ghost next = spec_parse_additional_metadata(data@, (v0 + value_len) as int);
        pairs.push((key, value));
        assert(text_pairs_view(pairs@) =~= text_pairs_view(before).push(pair));
        proof {
            if let Ok(rest) = next {
                assert(text_pairs_view(before) + (seq![pair] + rest) =~= text_pairs_view(pairs@) + rest);
            }
        }
        offset = v0 + value_len;
    }
    assert(text_pairs_view(pairs@) + Seq::<(Seq<char>, Seq<char>)>::empty() =~= text_pairs_view(pairs@));
    Ok(pairs)
}

/// Size of the data of each extension a new mint can carry; `None` for the others.
pub open spec fn spec_extension_data_size(t: ExtensionType) -> Option<nat> {
    match t {
        ExtensionType::PermanentDelegate => Some(32),
        ExtensionType::TransferHook => Some(64),
        ExtensionType::Pausable => Some(33),
        ExtensionType::MetadataPointer => Some(64),
        ExtensionType::ScaledUiAmount => Some(56),
        _ => None,
    }
}

/// The total size of the extension entries: each a four-byte header and its data.
pub open spec fn spec_extensions_size(exts: Seq<ExtensionType>) -> nat
    decreases exts.len(),
{
    if exts.len() == 0 {
        0
    } else {
        spec_extensions_size(exts.drop_last()) + 4 + match spec_extension_data_size(exts.last()) {
            Some(n) => n,
            None => 0,
        }
    }
}

/// Every extension of the list is one a new mint can carry.
pub open spec fn supported_mint_extensions(exts: Seq<ExtensionType>) -> bool {
    forall|i: int| 0 <= i < exts.len() ==> #[trigger] spec_extension_data_size(exts[i]) is Some
}

/// Each extension entry takes at most 68 bytes.
proof fn lemma_extensions_size_bound(exts: Seq<ExtensionType>)
    ensures
        spec_extensions_size(exts) <= 68 * exts.len(),
    decreases exts.len(),
{
    if exts.len() > 0 {
        lemma_extensions_size_bound(exts.drop_last());
    }
}

/// Size of a mint account with the given extensions: the base mint, the padding, the
/// account type byte and one entry per extension.
pub fn calculate_mint_size_with_extensions(extensions: &[ExtensionType]) -> (r: usize)
    requires
        supported_mint_extensions(extensions@),
        166 + 68 * extensions@.len() <= usize::MAX,
    ensures
        r == 166 + spec_extensions_size(extensions@),
        r <= 166 + 68 * extensions@.len(),
{
    let mut total: usize = 0;
    let mut i: usize = 0;
    while i < extensions.len()
        invariant
            0 <= i <= extensions@.len(),
            supported_mint_extensions(extensions@),
            166 + 68 * extensions@.len() <= usize::MAX,
            total == spec_extensions_size(extensions@.subrange(0, i as int)),
        decreases extensions@.len() - i,
    {
        proof {
            lemma_extensions_size_bound(extensions@.subrange(0, i as int));
            assert(extensions@.subrange(0, i + 1).drop_last() =~= extensions@.subrange(0, i as int));
            assert(spec_extension_data_size(extensions@[i as int]) is Some);
        }
        let data_size: usize = match extensions[i] {
            ExtensionType::PermanentDelegate => 32,
            ExtensionType::TransferHook => 64,
            ExtensionType::Pausable => 33,
            ExtensionType::MetadataPointer => 64,
            ExtensionType::ScaledUiAmount => 56,
            _ => 0,
        };
        total = total + 4 + data_size;
        i = i + 1;
    }
    assert(extensions@.subrange(0, extensions@.len() as int) =~= extensions@);
    proof {
        lemma_extensions_size_bound(extensions@);
    }
    166 + total
}

/// The bytes that additional metadata pairs take in the metadata extension: per pair a
/// four-byte key length, the key, a four-byte value length and the value.
pub open spec fn spec_pairs_size(pairs: Seq<(Seq<char>, Seq<char>)>) -> nat
    decreases pairs.len(),
{
    if pairs.len() == 0 {
        0
    } else {
        4 + encode_utf8(pairs[0].0).len() + 4 + encode_utf8(pairs[0].1).len() + spec_pairs_size(pairs.drop_first())
    }
}

/// The pairs read from additional metadata take no more bytes than they were read from.
proof fn lemma_pairs_size_bound(data: Seq<u8>, off: int)
    ensures
        spec_parse_additional_metadata(data, off) matches Ok(ps) ==> spec_pairs_size(ps) <= left_from(data, off),
    decreases left_from(data, off),
{
    broadcast use vstd::utf8::decode_utf8_encode_utf8;
    if off >= 0 && off + 4 <= data.len() {
        let klen = u32_at(data, off);
        let k0 = off + 4;
        if klen <= 256 && k0 + klen + 4 <= data.len() {
            let vlen = u32_at(data, k0 + klen);
            let v0 = k0 + klen + 4;
            if vlen <= 1024 && v0 + vlen <= data.len() {
                lemma_pairs_size_bound(data, v0 + vlen);
                if let Ok(ps) = spec_parse_additional_metadata(data, off) {
                    let rest = spec_parse_additional_metadata(data, v0 + vlen)->Ok_0;
                    assert(ps.drop_first() =~= rest);
                    assert(encode_utf8(ps[0].0) == data.subrange(k0, k0 + klen));
                    assert(encode_utf8(ps[0].1) == data.subrange(v0, v0 + vlen));
                }
            }
        }
    }
}

/// The size of the token metadata extension entry for `m` with the given pairs: a
/// four-byte header, two addresses, the three length-prefixed strings, and the pair
/// count followed by the pairs.
pub open spec fn spec_metadata_tlv_size(name: Seq<char>, symbol: Seq<char>, uri: Seq<char>, pairs: Seq<(Seq<char>, Seq<char>)>) -> nat {
    4 + 32 + 32 + 4 + encode_utf8(name).len() + 4 + encode_utf8(symbol).len() + 4 + encode_utf8(uri).len()
        + 4 + spec_pairs_size(pairs)
}

/// Size of the token metadata extension entry that `metadata` will take once its
/// additional metadata is parsed into pairs.
pub fn calculate_metadata_tlv_size(metadata: &TokenMetadataArgs) -> (r: Result<usize, ProgramError>)
    requires
        88 + encode_utf8(metadata.name@).len() + encode_utf8(metadata.symbol@).len() + encode_utf8(metadata.uri@).len()
            + metadata.additional_metadata@.len() <= usize::MAX,
    ensures
        match spec_parse_additional_metadata(metadata.additional_metadata@, 0) {
            Ok(pairs) => r matches Ok(n) && n == spec_metadata_tlv_size(metadata.name@, metadata.symbol@, metadata.uri@, pairs),
            Err(e) => r == Err::<usize, ProgramError>(e),
        },
        r matches Ok(n) ==> n <= 88 + encode_utf8(metadata.name@).len() + encode_utf8(metadata.symbol@).len()
            + encode_utf8(metadata.uri@).len() + metadata.additional_metadata@.len(),
{
    let pairs = parse_additional_metadata(metadata.additional_metadata.as_slice())?;
    let ghost add = metadata.additional_metadata@;
    let ghost all = text_pairs_view(pairs@);
    proof {
        lemma_pairs_size_bound(add, 0);
    }
    let mut additional_metadata_size: usize = 0;
    let mut i: usize = 0;
    assert(all.subrange(0, all.len() as int) =~= all);
    while i < pairs.len()
        invariant
            0 <= i <= pairs@.len(),
            all == text_pairs_view(pairs@),
            additional_metadata_size + spec_pairs_size(all.subrange(i as int, all.len() as int)) == spec_pairs_size(all),
            spec_pairs_size(all) <= add.len(),
            add.len() <= usize::MAX,
        decreases pairs@.len() - i,
    {
        let key_len = pairs[i].0.as_str().len();
        let value_len = pairs[i].1.as_str().len();
        assert(all.subrange(i as int, all.len() as int).drop_first() =~= all.subrange(i + 1, all.len() as int));
        additional_metadata_size = additional_metadata_size + 4 + key_len + 4 + value_len;
        i = i + 1;
    }
    assert(all.subrange(i as int, all.len() as int) =~= Seq::<(Seq<char>, Seq<char>)>::empty());
    let name_len = metadata.name.as_str().len();
    let symbol_len = metadata.symbol.as_str().len();
    let uri_len = metadata.uri.as_str().len();
    Ok(4 + 32 + 32 + 4 + name_len + 4 + symbol_len + 4 + uri_len + 4 + additional_metadata_size)
}

} // verus!
