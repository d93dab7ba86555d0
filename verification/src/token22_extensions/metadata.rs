//! The token metadata extension: name, symbol, URI and extra key/value pairs of a mint.
use vstd::prelude::*;
use vstd::utf8::{valid_utf8, decode_utf8};
use crate::bytes::{Pubkey, read_u32, read_pubkey, decode_utf8_string};
use crate::error::{ProgramError, map_ok};
use crate::instructions::initialize_mint::{u32_at, spec_borsh_str, push_borsh_str};
use crate::token22_extensions::{
    BaseState, Extension, ExtensionType, spec_extension_range, get_extension_data_bytes_for_variable_pack,
};
use crate::modules::account_checks::AccountView;

verus! {

/// The length-prefixed UTF-8 string whose four length bytes start at `off`: its end
/// offset and text, or `None` when bytes are missing or not UTF-8.
pub open spec fn spec_str_at(data: Seq<u8>, off: int) -> Option<(int, Seq<char>)> {
    if off < 0 || off + 4 > data.len() {
        None
    } else {
        let end = off + 4 + u32_at(data, off);
        if end > data.len() || !valid_utf8(data.subrange(off + 4, end)) {
            None
        } else {
            Some((end, decode_utf8(data.subrange(off + 4, end))))
        }
    }
}

/// Reads the length-prefixed UTF-8 string at `off`.
fn str_at(data: &[u8], off: usize) -> (r: Option<(usize, String)>)
    ensures
        match r {
            Some((end, text)) => spec_str_at(data@, off as int) == Some((end as int, text@)),
            None => spec_str_at(data@, off as int) is None,
        },
{
    let len = data.len();
    if off > len || len - off < 4 {
        return None;
    }
    let n = read_u32(data, off) as usize;
    if len - (off + 4) < n {
        return None;
    }
    let end = off + 4 + n;
    match decode_utf8_string(vstd::slice::slice_subrange(data, off + 4, end)) {
        Some(text) => Some((end, text)),
        None => None,
    }
}

/// The first `n` key/value string pairs from `off` on, and the offset after them.
pub open spec fn spec_pairs_at(data: Seq<u8>, off: int, n: nat) -> Option<(int, Seq<(Seq<char>, Seq<char>)>)>
    decreases n,
{
    if n == 0 {
        Some((off, Seq::empty()))
    } else {
        match spec_pairs_at(data, off, (n - 1) as nat) {
            None => None,
            Some((o1, pairs)) => match spec_str_at(data, o1) {
                None => None,
                Some((o2, key)) => match spec_str_at(data, o2) {
                    None => None,
                    Some((o3, value)) => Some((o3, pairs.push((key, value)))),
                },
            },
        }
    }
}

/// Token metadata as plain values.
pub struct TokenMetadataView {
    /// Update authority bytes
    pub update_authority: Seq<u8>,
    /// Mint bytes
    pub mint: Seq<u8>,
    /// Name
    pub name: Seq<char>,
    /// Symbol
    pub symbol: Seq<char>,
    /// URI
    pub uri: Seq<char>,
    /// Additional key/value pairs
    pub additional_metadata: Seq<(Seq<char>, Seq<char>)>,
}

/// The key/value pairs taken as texts.
pub open spec fn pairs_view(v: Seq<(String, String)>) -> Seq<(Seq<char>, Seq<char>)> {
    v.map_values(|p: (String, String)| (p.0@, p.1@))
}

/// Token metadata stored in a mint's token metadata extension
pub struct TokenMetadata {
    /// Authority that can update the metadata (all zero when there is none)
    pub update_authority: Pubkey,
    /// The mint the metadata describes
    pub mint: Pubkey,
    /// Name of the token
    pub name: String,
    /// Symbol of the token
    pub symbol: String,
    /// URI of the token's off-chain metadata
    pub uri: String,
    /// Additional key/value pairs
    pub additional_metadata: Vec<(String, String)>,
}

impl View for TokenMetadata {
    type V = TokenMetadataView;

    open spec fn view(&self) -> TokenMetadataView {
        TokenMetadataView {
            update_authority: self.update_authority@,
            mint: self.mint@,
            name: self.name@,
            symbol: self.symbol@,
            uri: self.uri@,
            additional_metadata: pairs_view(self.additional_metadata@),
        }
    }
}

/// The token metadata that the extension data `data` starts with: two addresses, the
/// name, symbol and URI as length-prefixed UTF-8 strings, then a `u32` count of key/value
/// string pairs; later bytes are ignored. Missing bytes or text that is not UTF-8 are
/// invalid account data.
pub open spec fn spec_token_metadata_from_bytes(data: Seq<u8>) -> Result<TokenMetadataView, ProgramError> {
    if data.len() < 64 {
        Err(ProgramError::InvalidAccountData)
    } else {
        match spec_str_at(data, 64) {
            None => Err(ProgramError::InvalidAccountData),
            Some((e1, name)) => match spec_str_at(data, e1) {
                None => Err(ProgramError::InvalidAccountData),
                Some((e2, symbol)) => match spec_str_at(data, e2) {
                    None => Err(ProgramError::InvalidAccountData),
                    Some((e3, uri)) => if e3 + 4 > data.len() {
                        Err(ProgramError::InvalidAccountData)
                    } else {
                        match spec_pairs_at(data, e3 + 4, u32_at(data, e3) as nat) {
                            None => Err(ProgramError::InvalidAccountData),
                            Some((_, pairs)) => Ok(TokenMetadataView {
                                update_authority: data.subrange(0, 32),
                                mint: data.subrange(32, 64),
                                name,
                                symbol,
                                uri,
                                additional_metadata: pairs,
                            }),
                        }
                    },
                },
            },
        }
    }
}

impl TokenMetadata {
    /// Parse token metadata from the data of its extension.
    pub fn from_bytes(data: &[u8]) -> (r: Result<TokenMetadata, ProgramError>)
        ensures
            map_ok(r, |m: TokenMetadata| m@) == spec_token_metadata_from_bytes(data@),
    {
        let len = data.len();
        if len < 64 {
            return Err(ProgramError::InvalidAccountData);
        }
        let update_authority = read_pubkey(data, 0);
        let mint = read_pubkey(data, 32);
        let (e1, name) = match str_at(data, 64) {
            Some(p) => p,
            None => return Err(ProgramError::InvalidAccountData),
        };
        let (e2, symbol) = match str_at(data, e1) {
            Some(p) => p,
            None => return Err(ProgramError::InvalidAccountData),
        };
        let (e3, uri) = match str_at(data, e2) {
            Some(p) => p,
            None => return Err(ProgramError::InvalidAccountData),
        };
        if len - e3 < 4 {
            return Err(ProgramError::InvalidAccountData);
        }
        let count = read_u32(data, e3);
        let mut pairs: Vec<(String, String)> = Vec::new();
        let mut off: usize = e3 + 4;
        let mut i: u32 = 0;
        while i < count
            invariant
                len == data@.len(),
                len >= 64,
                update_authority@ == data@.subrange(0, 32),
                mint@ == data@.subrange(32, 64),
                spec_str_at(data@, 64) == Some((e1 as int, name@)),
                spec_str_at(data@, e1 as int) == Some((e2 as int, symbol@)),
                spec_str_at(data@, e2 as int) == Some((e3 as int, uri@)),
                e3 + 4 <= len,
                count == u32_at(data@, e3 as int),
                0 <= i <= count,
                spec_pairs_at(data@, e3 + 4, i as nat) == Some((off as int, pairs_view(pairs@))),
            decreases count - i,
        {
            let (o2, key) = match str_at(data, off) {
                Some(p) => p,
                None => {
                    assert(spec_pairs_at(data@, e3 + 4, (i + 1) as nat) is None);
                    proof { lemma_pairs_none_extends(data@, e3 + 4, (i + 1) as nat, count as nat); }
                    return Err(ProgramError::InvalidAccountData);
                },
            };
            let (o3, value) = match str_at(data, o2) {
                Some(p) => p,
                None => {
                    assert(spec_pairs_at(data@, e3 + 4, (i + 1) as nat) is None);
                    proof { lemma_pairs_none_extends(data@, e3 + 4, (i + 1) as nat, count as nat); }
                    return Err(ProgramError::InvalidAccountData);
                },
            };
            let ghost before = pairs@;
            pairs.push((key, value));
            assert(pairs_view(pairs@) =~= pairs_view(before).push((key@, value@)));
            off = o3;
            i = i + 1;
        }
        Ok(TokenMetadata { update_authority, mint, name, symbol, uri, additional_metadata: pairs })
    }
}

/// Once reading the pairs fails, reading more of them fails too.
proof fn lemma_pairs_none_extends(data: Seq<u8>, off: int, m: nat, n: nat)
    requires
        spec_pairs_at(data, off, m) is None,
        m <= n,
    ensures
        spec_pairs_at(data, off, n) is None,
    decreases n - m,
{
    if m < n {
        lemma_pairs_none_extends(data, off, m, (n - 1) as nat);
    }
}

impl Extension for TokenMetadata {
    open spec fn spec_type() -> ExtensionType {
        ExtensionType::TokenMetadata
    }

    open spec fn spec_base_state() -> BaseState {
        BaseState::Mint
    }

    fn extension_type() -> (r: ExtensionType) {
        ExtensionType::TokenMetadata
    }

    fn base_state() -> (r: BaseState) {
        BaseState::Mint
    }
}

/// The token metadata held in the metadata extension of mint account data: no such
/// extension is invalid account data.
pub open spec fn spec_token_metadata_of_account(data: Seq<u8>) -> Result<TokenMetadataView, ProgramError> {
    match spec_extension_range(data, BaseState::Mint, ExtensionType::TokenMetadata.spec_code(), None) {
        Some(Some((s, e))) => spec_token_metadata_from_bytes(data.subrange(s, e)),
        _ => Err(ProgramError::InvalidAccountData),
    }
}

impl TokenMetadata {
    /// Read the token metadata of a mint account from its metadata extension.
    pub fn from_account_info(account: &AccountView) -> (r: Result<TokenMetadata, ProgramError>)
        requires
            spec_extension_range(account.data@, BaseState::Mint, ExtensionType::TokenMetadata.spec_code(), None) is Some,
        ensures
            map_ok(r, |m: TokenMetadata| m@) == spec_token_metadata_of_account(account.data@),
    {
        match get_extension_data_bytes_for_variable_pack::<TokenMetadata>(account.data.as_slice()) {
            Some(bytes) => TokenMetadata::from_bytes(bytes),
            None => Err(ProgramError::InvalidAccountData),
        }
    }
}


/// The first eight bytes of the token metadata interface instruction that initializes
/// token metadata.
pub const INITIALIZE_TOKEN_METADATA_DISCRIMINATOR: [u8; 8] = [210, 225, 30, 162, 88, 184, 77, 141];

/// The first eight bytes of the token metadata interface instruction that updates a field.
pub const UPDATE_FIELD_DISCRIMINATOR: [u8; 8] = [221, 233, 49, 45, 181, 202, 220, 200];

/// The first eight bytes of the token metadata interface instruction that removes a key.
pub const REMOVE_KEY_DISCRIMINATOR: [u8; 8] = [234, 18, 32, 56, 89, 141, 37, 181];

/// A field of token metadata.
pub enum Field {
    /// The name
    Name,
    /// The symbol
    Symbol,
    /// The URI
    Uri,
    /// An additional key
    Key(String),
}

/// The Borsh bytes of a field: its variant index, and the key of an additional field.
pub open spec fn spec_field_bytes(f: Field) -> Seq<u8> {
    match f {
        Field::Name => seq![0u8],
        Field::Symbol => seq![1u8],
        Field::Uri => seq![2u8],
        Field::Key(k) => seq![3u8] + spec_borsh_str(k@),
    }
}

/// The instruction data that initializes token metadata: the instruction's eight bytes,
/// then the name, symbol and URI as Borsh strings.
pub fn initialize_token_metadata_instruction_data(name: &String, symbol: &String, uri: &String) -> (r: Vec<u8>)
    ensures
        r@ == INITIALIZE_TOKEN_METADATA_DISCRIMINATOR@ + spec_borsh_str(name@) + spec_borsh_str(symbol@) + spec_borsh_str(uri@),
{
    let mut data: Vec<u8> = Vec::new();
    crate::bytes::push_all(&mut data, INITIALIZE_TOKEN_METADATA_DISCRIMINATOR.as_slice());
    push_borsh_str(&mut data, name);
    push_borsh_str(&mut data, symbol);
    push_borsh_str(&mut data, uri);
    data
}

/// The instruction data that sets a field of token metadata: the instruction's eight
/// bytes, the field, then the value as a Borsh string.
pub fn update_field_instruction_data(field: &Field, value: &String) -> (r: Vec<u8>)
    ensures
        r@ == UPDATE_FIELD_DISCRIMINATOR@ + spec_field_bytes(*field) + spec_borsh_str(value@),
{
    let mut data: Vec<u8> = Vec::new();
    crate::bytes::push_all(&mut data, UPDATE_FIELD_DISCRIMINATOR.as_slice());
    match field {
        Field::Name => data.push(0u8),
        Field::Symbol => data.push(1u8),
        Field::Uri => data.push(2u8),
        Field::Key(k) => {
            data.push(3u8);
            push_borsh_str(&mut data, k);
        },
    }
    push_borsh_str(&mut data, value);
    data
}

/// The instruction data that removes an additional key of token metadata: the
/// instruction's eight bytes, the idempotent flag, then the key as a Borsh string.
pub fn remove_key_instruction_data(idempotent: bool, key: &String) -> (r: Vec<u8>)
    ensures
        r@ == REMOVE_KEY_DISCRIMINATOR@ + seq![if idempotent { 1u8 } else { 0u8 }] + spec_borsh_str(key@),
{
    let mut data: Vec<u8> = Vec::new();
    crate::bytes::push_all(&mut data, REMOVE_KEY_DISCRIMINATOR.as_slice());
    data.push(if idempotent { 1u8 } else { 0u8 });
    push_borsh_str(&mut data, key);
    data
}

} // verus!
