//! Arguments of the instruction that creates a security token mint with its extensions.
use vstd::prelude::*;
use vstd::utf8::{valid_utf8, decode_utf8, encode_utf8};
use crate::bytes::{
    Pubkey, le32, le_i64, from_le32, from_le_i64, read_u32, read_i64, read_pubkey, read_bytes8, copy_range,
    push_all, push_u32, push_i64, decode_utf8_string, lemma_le_roundtrips,
};
use crate::error::{ProgramError, map_ok};

verus! {

/// The little-endian `u32` at `off`, as an integer.
pub open spec fn u32_at(data: Seq<u8>, off: int) -> int {
    from_le32(data.subrange(off, off + 4)) as int
}

/// Reading a Borsh string whose four length bytes start at `off`: its end offset and
/// text, or invalid instruction data when the bytes are missing or not UTF-8.
pub open spec fn spec_read_borsh_str(data: Seq<u8>, off: int) -> Result<(int, Seq<char>), ProgramError> {
    let end = off + 4 + u32_at(data, off);
    if data.len() < end {
        Err(ProgramError::InvalidInstructionData)
    } else if !valid_utf8(data.subrange(off + 4, end)) {
        Err(ProgramError::InvalidInstructionData)
    } else {
        Ok((end, decode_utf8(data.subrange(off + 4, end))))
    }
}

/// The Borsh encoding of a text: its UTF-8 byte length as a little-endian `u32`
/// (truncated), then the bytes.
pub open spec fn spec_borsh_str(text: Seq<char>) -> Seq<u8> {
    le32(encode_utf8(text).len() as u32) + encode_utf8(text)
}

/// Reads a Borsh string whose length bytes start at `off`.
fn read_borsh_str(data: &[u8], off: usize) -> (r: Result<(usize, String), ProgramError>)
    requires
        off + 4 <= data@.len(),
    ensures
        map_ok(r, |p: (usize, String)| (p.0 as int, p.1@)) == spec_read_borsh_str(data@, off as int),
{
    let len = data.len();
    let n = read_u32(data, off) as usize;
    if len - (off + 4) < n {
        return Err(ProgramError::InvalidInstructionData);
    }
    let end = off + 4 + n;
    match decode_utf8_string(vstd::slice::slice_subrange(data, off + 4, end)) {
        Some(text) => Ok((end, text)),
        None => Err(ProgramError::InvalidInstructionData),
    }
}

/// Appends the Borsh encoding of a text.
pub(crate) fn push_borsh_str(out: &mut Vec<u8>, text: &String)
    ensures
        final(out)@ == old(out)@ + spec_borsh_str(text@),
{
    let bytes = text.as_str().as_bytes();
    #[verifier::truncate]
    let n = bytes.len() as u32;
    push_u32(out, n);
    push_all(out, bytes);
}

/// Token metadata as plain values.
pub struct TokenMetadataArgsView {
    /// Update authority bytes
    pub update_authority: Seq<u8>,
    /// Mint bytes
    pub mint: Seq<u8>,
    /// Name
    pub name: Seq<char>,
    /// Symbol
    pub symbol: Seq<char>,
    /// URI
    pub uri: Seq<char>,
    /// Additional metadata, as encoded key/value pairs
    pub additional_metadata: Seq<u8>,
}

/// Token metadata given when a mint is created
#[derive(Clone, Debug)]
pub struct TokenMetadataArgs {
    /// Authority that can update the metadata
    pub update_authority: Pubkey,
    /// The mint the metadata describes
    pub mint: Pubkey,
    /// Name of the token
    pub name: String,
    /// Symbol of the token
    pub symbol: String,
    /// URI of the token's off-chain metadata
    pub uri: String,
    /// Additional metadata, as length-prefixed key/value pairs
    pub additional_metadata: Vec<u8>,
}

impl View for TokenMetadataArgs {
    type V = TokenMetadataArgsView;

    open spec fn view(&self) -> TokenMetadataArgsView {
        TokenMetadataArgsView {
            update_authority: self.update_authority@,
            mint: self.mint@,
            name: self.name@,
            symbol: self.symbol@,
            uri: self.uri@,
            additional_metadata: self.additional_metadata@,
        }
    }
}

/// Whether reading token metadata from `data` would index past its end: a string that
/// was read leaves fewer than four bytes for the length of the next one.
pub open spec fn spec_metadata_args_overruns(data: Seq<u8>) -> bool {
    data.len() >= 80 && match spec_read_borsh_str(data, 64) {
        Ok((e1, _)) => e1 + 4 > data.len() || match spec_read_borsh_str(data, e1) {
            Ok((e2, _)) => e2 + 4 > data.len() || match spec_read_borsh_str(data, e2) {
                Ok((e3, _)) => e3 + 4 > data.len(),
                Err(_) => false,
            },
            Err(_) => false,
        },
        Err(_) => false,
    }
}

/// The token metadata that `data` starts with, and the number of bytes it takes: two
/// addresses, three Borsh strings (name, symbol, URI) and Borsh bytes of additional
/// metadata. Fewer than 80 bytes is `AccountDataTooSmall`; a missing or non-UTF-8 part
/// is invalid instruction data.
pub open spec fn spec_metadata_args_from_bytes(data: Seq<u8>) -> Result<(TokenMetadataArgsView, int), ProgramError> {
    if data.len() < 80 {
        Err(ProgramError::AccountDataTooSmall)
    } else {
        match spec_read_borsh_str(data, 64) {
            Err(e) => Err(e),
            Ok((e1, name)) => match spec_read_borsh_str(data, e1) {
                Err(e) => Err(e),
                Ok((e2, symbol)) => match spec_read_borsh_str(data, e2) {
                    Err(e) => Err(e),
                    Ok((e3, uri)) => {
                        let n4 = u32_at(data, e3);
                        let end = e3 + 4 + n4;
                        if n4 > 0 && data.len() < end {
                            Err(ProgramError::InvalidInstructionData)
                        } else {
                            Ok((TokenMetadataArgsView {
                                update_authority: data.subrange(0, 32),
                                mint: data.subrange(32, 64),
                                name,
                                symbol,
                                uri,
                                additional_metadata: if n4 > 0 { data.subrange(e3 + 4, end) } else { Seq::empty() },
                            }, end))
                        }
                    },
                },
            },
        }
    }
}

/// The Borsh encoding of token metadata.
pub open spec fn spec_metadata_args_bytes(m: TokenMetadataArgsView) -> Seq<u8> {
    m.update_authority + m.mint + spec_borsh_str(m.name) + spec_borsh_str(m.symbol) + spec_borsh_str(m.uri)
        + le32(m.additional_metadata.len() as u32) + m.additional_metadata
}

impl TokenMetadataArgs {
    /// Two addresses and four length prefixes.
    pub const MIN_LEN: usize = 80;

    /// Whether `try_from_bytes` can read `data` without indexing past its end.
    pub fn in_bounds(data: &[u8]) -> (r: bool)
        ensures
            r == !spec_metadata_args_overruns(data@),
    {
        let len = data.len();
        if len < Self::MIN_LEN {
            return true;
        }
        let e1 = match read_borsh_str(data, 64) {
            Ok((e, _)) => e,
            Err(_) => return true,
        };
        if len - e1 < 4 {
            return false;
        }
        let e2 = match read_borsh_str(data, e1) {
            Ok((e, _)) => e,
            Err(_) => return true,
        };
        if len - e2 < 4 {
            return false;
        }
        let e3 = match read_borsh_str(data, e2) {
            Ok((e, _)) => e,
            Err(_) => return true,
        };
        len - e3 >= 4
    }

    /// Parse token metadata; also returns the number of bytes it took.
    pub fn try_from_bytes(data: &[u8]) -> (r: Result<(TokenMetadataArgs, usize), ProgramError>)
        requires
            !spec_metadata_args_overruns(data@),
        ensures
            map_ok(r, |p: (TokenMetadataArgs, usize)| (p.0@, p.1 as int)) == spec_metadata_args_from_bytes(data@),
    {
        let len = data.len();
        if len < Self::MIN_LEN {
            return Err(ProgramError::AccountDataTooSmall);
        }
        let update_authority = read_pubkey(data, 0);
        let mint = read_pubkey(data, 32);
        let (e1, name) = read_borsh_str(data, 64)?;
        let (e2, symbol) = read_borsh_str(data, e1)?;
        let (e3, uri) = read_borsh_str(data, e2)?;
        let n4 = read_u32(data, e3) as usize;
        let additional_metadata = if n4 > 0 {
            if len - (e3 + 4) < n4 {
                return Err(ProgramError::InvalidInstructionData);
            }
            copy_range(data, e3 + 4, n4)
        } else {
            Vec::new()
        };
        assert(additional_metadata@ =~= (if n4 > 0 { data@.subrange(e3 + 4, e3 + 4 + n4) } else { Seq::empty() }));
        Ok((TokenMetadataArgs { update_authority, mint, name, symbol, uri, additional_metadata }, e3 + 4 + n4))
    }

    /// Serialize the metadata in Borsh layout.
    pub fn to_bytes(&self) -> (r: Vec<u8>)
        ensures
            r@ == spec_metadata_args_bytes(self@),
    {
        let mut buf: Vec<u8> = Vec::new();
        push_all(&mut buf, self.update_authority.as_slice());
        push_all(&mut buf, self.mint.as_slice());
        push_borsh_str(&mut buf, &self.name);
        push_borsh_str(&mut buf, &self.symbol);
        push_borsh_str(&mut buf, &self.uri);
        #[verifier::truncate]
        let n = self.additional_metadata.len() as u32;
        push_u32(&mut buf, n);
        push_all(&mut buf, self.additional_metadata.as_slice());
        assert(buf@ =~= spec_metadata_args_bytes(self@));
        buf
    }
}

/// Token metadata whose parts all fit a four-byte length prefix.
pub open spec fn metadata_args_encodable(m: TokenMetadataArgsView) -> bool {
    &&& m.update_authority.len() == 32
    &&& m.mint.len() == 32
    &&& encode_utf8(m.name).len() <= u32::MAX
    &&& encode_utf8(m.symbol).len() <= u32::MAX
    &&& encode_utf8(m.uri).len() <= u32::MAX
    &&& m.additional_metadata.len() <= u32::MAX
}

/// Reading a Borsh string from its encoding, whatever surrounds it, gives the text and
/// the offset just after it.
proof fn lemma_borsh_str_roundtrip(pre: Seq<u8>, text: Seq<char>, post: Seq<u8>)
    requires
        encode_utf8(text).len() <= u32::MAX,
    ensures
        spec_read_borsh_str(pre + spec_borsh_str(text) + post, pre.len() as int)
            == Ok::<(int, Seq<char>), ProgramError>(((pre.len() + 4 + encode_utf8(text).len()) as int, text)),
{
    broadcast use vstd::utf8::encode_utf8_valid_utf8, vstd::utf8::encode_utf8_decode_utf8;
    lemma_le_roundtrips();
    let data = pre + spec_borsh_str(text) + post;
    let n = encode_utf8(text).len();
    let off = pre.len() as int;
    assert(data.subrange(off, off + 4) =~= le32(n as u32));
    assert(data.subrange(off + 4, off + 4 + n) =~= encode_utf8(text));
}

/// Serializing encodable token metadata and reading it back, whatever follows, gives the
/// metadata and its length, and the reading stays within the bytes.
pub proof fn lemma_metadata_args_roundtrip(m: TokenMetadataArgsView, rest: Seq<u8>)
    requires
        metadata_args_encodable(m),
    ensures
        !spec_metadata_args_overruns(spec_metadata_args_bytes(m) + rest),
        spec_metadata_args_from_bytes(spec_metadata_args_bytes(m) + rest)
            == Ok::<(TokenMetadataArgsView, int), ProgramError>((m, spec_metadata_args_bytes(m).len() as int)),
{
    lemma_le_roundtrips();
    let data = spec_metadata_args_bytes(m) + rest;
    let keys = m.update_authority + m.mint;
    let bn = spec_borsh_str(m.name);
    let bs = spec_borsh_str(m.symbol);
    let bu = spec_borsh_str(m.uri);
    let tail = le32(m.additional_metadata.len() as u32) + m.additional_metadata;
    assert(data =~= keys + bn + (bs + bu + tail + rest));
    lemma_borsh_str_roundtrip(keys, m.name, bs + bu + tail + rest);
    assert(data =~= (keys + bn) + bs + (bu + tail + rest));
    lemma_borsh_str_roundtrip(keys + bn, m.symbol, bu + tail + rest);
    assert(data =~= (keys + bn + bs) + bu + (tail + rest));
    lemma_borsh_str_roundtrip(keys + bn + bs, m.uri, tail + rest);
    let e3 = (keys + bn + bs + bu).len() as int;
    let n4 = m.additional_metadata.len();
    assert(data.subrange(e3, e3 + 4) =~= le32(n4 as u32));
    assert(data.subrange(e3 + 4, e3 + 4 + n4) =~= m.additional_metadata);
    assert(data.subrange(0, 32) =~= m.update_authority);
    assert(data.subrange(32, 64) =~= m.mint);
    if n4 == 0 {
        assert(m.additional_metadata =~= Seq::<u8>::empty());
    }
}

/// Scaled UI amount configuration as plain values.
pub struct ScaledUiAmountConfigArgsView {
    /// Authority bytes
    pub authority: Seq<u8>,
    /// Multiplier bytes
    pub multiplier: Seq<u8>,
    /// When the new multiplier takes effect
    pub new_multiplier_effective_timestamp: i64,
    /// New multiplier bytes
    pub new_multiplier: Seq<u8>,
}

/// Scaled UI amount extension configuration given when a mint is created
#[derive(Clone, Copy, Debug)]
pub struct ScaledUiAmountConfigArgs {
    /// Authority that can change the multiplier
    pub authority: Pubkey,
    /// Current multiplier, as the bytes of a little-endian float
    pub multiplier: [u8; 8],
    /// Unix timestamp at which the new multiplier takes effect
    pub new_multiplier_effective_timestamp: i64,
    /// New multiplier, as the bytes of a little-endian float
    pub new_multiplier: [u8; 8],
}

impl View for ScaledUiAmountConfigArgs {
    type V = ScaledUiAmountConfigArgsView;

    open spec fn view(&self) -> ScaledUiAmountConfigArgsView {
        ScaledUiAmountConfigArgsView {
            authority: self.authority@,
            multiplier: self.multiplier@,
            new_multiplier_effective_timestamp: self.new_multiplier_effective_timestamp,
            new_multiplier: self.new_multiplier@,
        }
    }
}

/// The encoding of a scaled UI amount configuration.
pub open spec fn spec_scaled_ui_bytes(c: ScaledUiAmountConfigArgsView) -> Seq<u8> {
    c.authority + c.multiplier + le_i64(c.new_multiplier_effective_timestamp) + c.new_multiplier
}

/// The scaled UI amount configuration in the first 56 bytes of `data` (later bytes are
/// ignored); fewer is invalid instruction data.
pub open spec fn spec_scaled_ui_from_bytes(data: Seq<u8>) -> Result<ScaledUiAmountConfigArgsView, ProgramError> {
    if data.len() < 56 {
        Err(ProgramError::InvalidInstructionData)
    } else {
        Ok(ScaledUiAmountConfigArgsView {
            authority: data.subrange(0, 32),
            multiplier: data.subrange(32, 40),
            new_multiplier_effective_timestamp: from_le_i64(data.subrange(40, 48)),
            new_multiplier: data.subrange(48, 56),
        })
    }
}

impl ScaledUiAmountConfigArgs {
    /// authority (32) + multiplier (8) + timestamp (8) + new multiplier (8)
    pub const LEN: usize = 56;

    /// Parse the configuration.
    pub fn try_from_bytes(data: &[u8]) -> (r: Result<ScaledUiAmountConfigArgs, ProgramError>)
        ensures
            map_ok(r, |c: ScaledUiAmountConfigArgs| c@) == spec_scaled_ui_from_bytes(data@),
    {
        if data.len() < Self::LEN {
            return Err(ProgramError::InvalidInstructionData);
        }
        let authority = read_pubkey(data, 0);
        let multiplier = read_bytes8(data, 32);
        let new_multiplier_effective_timestamp = read_i64(data, 40);
        let new_multiplier = read_bytes8(data, 48);
        Ok(ScaledUiAmountConfigArgs { authority, multiplier, new_multiplier_effective_timestamp, new_multiplier })
    }

    /// Serialize the configuration.
    pub fn to_bytes(&self) -> (r: Vec<u8>)
        ensures
            r@ == spec_scaled_ui_bytes(self@),
    {
        let mut buf: Vec<u8> = Vec::with_capacity(Self::LEN);
        push_all(&mut buf, self.authority.as_slice());
        push_all(&mut buf, self.multiplier.as_slice());
        push_i64(&mut buf, self.new_multiplier_effective_timestamp);
        push_all(&mut buf, self.new_multiplier.as_slice());
        assert(buf@ =~= spec_scaled_ui_bytes(self@));
        buf
    }
}

/// Metadata pointer configuration as plain values.
pub struct MetadataPointerArgsView {
    /// Authority bytes
    pub authority: Seq<u8>,
    /// Metadata address bytes
    pub metadata_address: Seq<u8>,
}

/// Metadata pointer extension configuration given when a mint is created
#[derive(Clone, Copy, Debug)]
pub struct MetadataPointerArgs {
    /// Authority that can change the pointer
    pub authority: Pubkey,
    /// Account that holds the metadata
    pub metadata_address: Pubkey,
}

impl View for MetadataPointerArgs {
    type V = MetadataPointerArgsView;

    open spec fn view(&self) -> MetadataPointerArgsView {
        MetadataPointerArgsView { authority: self.authority@, metadata_address: self.metadata_address@ }
    }
}

/// The metadata pointer in the first 64 bytes of `data` (later bytes are ignored); fewer
/// is invalid instruction data.
pub open spec fn spec_metadata_pointer_from_bytes(data: Seq<u8>) -> Result<MetadataPointerArgsView, ProgramError> {
    if data.len() < 64 {
        Err(ProgramError::InvalidInstructionData)
    } else {
        Ok(MetadataPointerArgsView { authority: data.subrange(0, 32), metadata_address: data.subrange(32, 64) })
    }
}

impl MetadataPointerArgs {
    /// authority (32) + metadata address (32)
    pub const LEN: usize = 64;

    /// Parse the configuration.
    pub fn try_from_bytes(data: &[u8]) -> (r: Result<MetadataPointerArgs, ProgramError>)
        ensures
            map_ok(r, |c: MetadataPointerArgs| c@) == spec_metadata_pointer_from_bytes(data@),
    {
        if data.len() < Self::LEN {
            return Err(ProgramError::InvalidInstructionData);
        }
        let authority = read_pubkey(data, 0);
        let metadata_address = read_pubkey(data, 32);
        Ok(MetadataPointerArgs { authority, metadata_address })
    }

    /// Serialize the configuration.
    pub fn to_bytes(&self) -> (r: Vec<u8>)
        ensures
            r@ == self@.authority + self@.metadata_address,
    {
        let mut buf: Vec<u8> = Vec::with_capacity(Self::LEN);
        push_all(&mut buf, self.authority.as_slice());
        push_all(&mut buf, self.metadata_address.as_slice());
        buf
    }
}

/// Basic mint arguments as plain values.
pub struct MintArgsView {
    /// Decimals
    pub decimals: u8,
    /// Mint authority bytes
    pub mint_authority: Seq<u8>,
    /// Freeze authority bytes
    pub freeze_authority: Seq<u8>,
}

/// Basic arguments of a new mint
#[derive(Clone, Copy, Debug)]
pub struct MintArgs {
    /// Number of decimals of the token
    pub decimals: u8,
    /// Mint authority
    pub mint_authority: Pubkey,
    /// Freeze authority
    pub freeze_authority: Pubkey,
}

impl View for MintArgs {
    type V = MintArgsView;

    open spec fn view(&self) -> MintArgsView {
        MintArgsView { decimals: self.decimals, mint_authority: self.mint_authority@, freeze_authority: self.freeze_authority@ }
    }
}

/// The basic mint arguments in the first 65 bytes of `data` (later bytes are ignored);
/// fewer is invalid instruction data.
pub open spec fn spec_mint_args_from_bytes(data: Seq<u8>) -> Result<MintArgsView, ProgramError> {
    if data.len() < 65 {
        Err(ProgramError::InvalidInstructionData)
    } else {
        Ok(MintArgsView { decimals: data[0], mint_authority: data.subrange(1, 33), freeze_authority: data.subrange(33, 65) })
    }
}

impl MintArgs {
    /// decimals (1) + mint authority (32) + freeze authority (32)
    pub const LEN: usize = 65;

    /// Serialize the arguments.
    pub fn to_bytes_inner(&self) -> (r: Vec<u8>)
        ensures
            r@ == seq![self.decimals] + self.mint_authority@ + self.freeze_authority@,
    {
        let mut buf: Vec<u8> = Vec::new();
        buf.push(self.decimals);
        push_all(&mut buf, self.mint_authority.as_slice());
        push_all(&mut buf, self.freeze_authority.as_slice());
        buf
    }

    /// Parse the arguments.
    pub fn try_from_bytes(data: &[u8]) -> (r: Result<MintArgs, ProgramError>)
        ensures
            map_ok(r, |m: MintArgs| m@) == spec_mint_args_from_bytes(data@),
    {
        if data.len() < Self::LEN {
            return Err(ProgramError::InvalidInstructionData);
        }
        let decimals = data[0];
        let mint_authority = read_pubkey(data, 1);
        let freeze_authority = read_pubkey(data, 33);
        Ok(MintArgs { decimals, mint_authority, freeze_authority })
    }
}

/// Mint creation arguments as plain values.
pub struct InitializeMintArgsView {
    /// Basic mint arguments
    pub ix_mint: MintArgsView,
    /// Metadata pointer, if any
    pub ix_metadata_pointer: Option<MetadataPointerArgsView>,
    /// Token metadata, if any
    pub ix_metadata: Option<TokenMetadataArgsView>,
    /// Scaled UI amount configuration, if any
    pub ix_scaled_ui_amount: Option<ScaledUiAmountConfigArgsView>,
}

/// Arguments to create a security token mint
#[derive(Clone, Debug)]
pub struct InitializeMintArgs {
    /// Basic mint arguments
    pub ix_mint: MintArgs,
    /// Metadata pointer extension, if any
    pub ix_metadata_pointer: Option<MetadataPointerArgs>,
    /// Token metadata, if any
    pub ix_metadata: Option<TokenMetadataArgs>,
    /// Scaled UI amount extension, if any
    pub ix_scaled_ui_amount: Option<ScaledUiAmountConfigArgs>,
}

/// An optional value taken by its view.
pub open spec fn option_view<T: View>(o: Option<T>) -> Option<T::V> {
    match o {
        Some(v) => Some(v@),
        None => None,
    }
}

impl View for InitializeMintArgs {
    type V = InitializeMintArgsView;

    open spec fn view(&self) -> InitializeMintArgsView {
        InitializeMintArgsView {
            ix_mint: self.ix_mint@,
            ix_metadata_pointer: option_view(self.ix_metadata_pointer),
            ix_metadata: option_view(self.ix_metadata),
            ix_scaled_ui_amount: option_view(self.ix_scaled_ui_amount),
        }
    }
}

/// An optional part: a flag byte (1 present, 0 absent) and the part.
pub open spec fn spec_flagged(part: Option<Seq<u8>>) -> Seq<u8> {
    match part {
        Some(b) => seq![1u8] + b,
        None => seq![0u8],
    }
}

/// The encoding of mint creation arguments: the basic arguments, then each extension
/// behind its flag byte.
pub open spec fn spec_initialize_mint_bytes(a: InitializeMintArgsView) -> Seq<u8> {
    seq![a.ix_mint.decimals] + a.ix_mint.mint_authority + a.ix_mint.freeze_authority
        + spec_flagged(match a.ix_metadata_pointer { Some(p) => Some(p.authority + p.metadata_address), None => None })
        + spec_flagged(match a.ix_metadata { Some(m) => Some(spec_metadata_args_bytes(m)), None => None })
        + spec_flagged(match a.ix_scaled_ui_amount { Some(c) => Some(spec_scaled_ui_bytes(c)), None => None })
}

/// Whether reading mint creation arguments from `data` would index past its end: only
/// token metadata announced by its flag can overrun.
pub open spec fn spec_initialize_mint_overruns(data: Seq<u8>) -> bool {
    data.len() > 65 && {
        let mp_ok = data[65] != 1 || data.len() >= 130;
        let off = if data[65] == 1 { 130int } else { 66int };
        mp_ok && data.len() > off && data[off] == 1
            && spec_metadata_args_overruns(data.subrange(off + 1, data.len() as int))
    }
}

/// The mint creation arguments that `data` encodes. After the basic arguments, each
/// extension is present when its flag byte is 1 (a missing flag means absent): the
/// metadata pointer, the token metadata and the scaled UI amount configuration, in this
/// order; any other flag means absent. A scaled UI flag that ends the data means absent.
pub open spec fn spec_initialize_mint_from_bytes(data: Seq<u8>) -> Result<InitializeMintArgsView, ProgramError> {
    match spec_mint_args_from_bytes(data) {
        Err(e) => Err(e),
        Ok(ix_mint) => if data.len() <= 65 {
            Ok(InitializeMintArgsView { ix_mint, ix_metadata_pointer: None, ix_metadata: None, ix_scaled_ui_amount: None })
        } else {
            let mp = if data[65] == 1 {
                match spec_metadata_pointer_from_bytes(data.subrange(66, data.len() as int)) {
                    Ok(p) => Ok(Some(p)),
                    Err(e) => Err(e),
                }
            } else {
                Ok(None)
            };
            let off1 = if data[65] == 1 { 130int } else { 66int };
            match mp {
                Err(e) => Err(e),
                Ok(ix_metadata_pointer) => if data.len() <= off1 {
                    Ok(InitializeMintArgsView { ix_mint, ix_metadata_pointer, ix_metadata: None, ix_scaled_ui_amount: None })
                } else {
                    let md = if data[off1] == 1 {
                        match spec_metadata_args_from_bytes(data.subrange(off1 + 1, data.len() as int)) {
                            Ok((m, used)) => Ok((Some(m), off1 + 1 + used)),
                            Err(e) => Err(e),
                        }
                    } else {
                        Ok((None, off1 + 1))
                    };
                    match md {
                        Err(e) => Err(e),
                        Ok((ix_metadata, off2)) => {
                            let flag = if data.len() > off2 { data[off2] } else { 0u8 };
                            if flag == 0 || data.len() <= off2 + 1 {
                                Ok(InitializeMintArgsView { ix_mint, ix_metadata_pointer, ix_metadata, ix_scaled_ui_amount: None })
                            } else if flag == 1 {
                                match spec_scaled_ui_from_bytes(data.subrange(off2 + 1, data.len() as int)) {
                                    Ok(c) => Ok(InitializeMintArgsView {
                                        ix_mint,
                                        ix_metadata_pointer,
                                        ix_metadata,
                                        ix_scaled_ui_amount: Some(c),
                                    }),
                                    Err(e) => Err(e),
                                }
                            } else {
                                Ok(InitializeMintArgsView { ix_mint, ix_metadata_pointer, ix_metadata, ix_scaled_ui_amount: None })
                            }
                        },
                    }
                },
            }
        },
    }
}

/// Mint creation arguments that validation accepts: at most 20 decimals, metadata only
/// with a metadata pointer, and metadata with a non-empty name and symbol.
pub open spec fn spec_initialize_mint_valid(a: InitializeMintArgsView) -> bool {
    &&& a.ix_mint.decimals <= 20
    &&& (a.ix_metadata is Some ==> a.ix_metadata_pointer is Some)
    &&& (a.ix_metadata matches Some(m) ==> m.name.len() > 0 && m.symbol.len() > 0)
}

impl InitializeMintArgs {
    /// Build the arguments.
    pub fn new(
        decimals: u8,
        mint_authority: Pubkey,
        freeze_authority: Pubkey,
        metadata_pointer: Option<MetadataPointerArgs>,
        metadata: Option<TokenMetadataArgs>,
        scaled_ui_amount: Option<ScaledUiAmountConfigArgs>,
    ) -> (r: InitializeMintArgs)
        ensures
            r.ix_mint == (MintArgs { decimals, mint_authority, freeze_authority }),
            r.ix_metadata_pointer == metadata_pointer,
            r.ix_metadata == metadata,
            r.ix_scaled_ui_amount == scaled_ui_amount,
    {
        InitializeMintArgs {
            ix_mint: MintArgs { decimals, mint_authority, freeze_authority },
            ix_metadata_pointer: metadata_pointer,
            ix_metadata: metadata,
            ix_scaled_ui_amount: scaled_ui_amount,
        }
    }

    /// Whether `try_from_bytes` can read `data` without indexing past its end.
    pub fn in_bounds(data: &[u8]) -> (r: bool)
        ensures
            r == !spec_initialize_mint_overruns(data@),
    {
        let len = data.len();
        if len <= MintArgs::LEN {
            return true;
        }
        let has_mp = data[65];
        if has_mp == 1 && len < 130 {
            return true;
        }
        let off: usize = if has_mp == 1 { 130 } else { 66 };
        if len <= off || data[off] != 1 {
            return true;
        }
        TokenMetadataArgs::in_bounds(vstd::slice::slice_subrange(data, off + 1, len))
    }

    /// Serialize the arguments.
    pub fn to_bytes_inner(&self) -> (r: Vec<u8>)
        ensures
            r@ == spec_initialize_mint_bytes(self@),
    {
        let mut buf: Vec<u8> = Vec::new();
        let mint = self.ix_mint.to_bytes_inner();
        push_all(&mut buf, mint.as_slice());
        match &self.ix_metadata_pointer {
            Some(p) => {
                buf.push(1u8);
                let b = p.to_bytes();
                push_all(&mut buf, b.as_slice());
            },
            None => {
                buf.push(0u8);
            },
        }
        match &self.ix_metadata {
            Some(m) => {
                buf.push(1u8);
                let b = m.to_bytes();
                push_all(&mut buf, b.as_slice());
            },
            None => {
                buf.push(0u8);
            },
        }
        match &self.ix_scaled_ui_amount {
            Some(c) => {
                buf.push(1u8);
                let b = c.to_bytes();
                push_all(&mut buf, b.as_slice());
            },
            None => {
                buf.push(0u8);
            },
        }
        assert(buf@ =~= spec_initialize_mint_bytes(self@));
        buf
    }

    /// Parse the arguments.
    pub fn try_from_bytes(data: &[u8]) -> (r: Result<InitializeMintArgs, ProgramError>)
        requires
            !spec_initialize_mint_overruns(data@),
        ensures
            map_ok(r, |a: InitializeMintArgs| a@) == spec_initialize_mint_from_bytes(data@),
    {
        let len = data.len();
        let ix_mint = MintArgs::try_from_bytes(data)?;
        let mut offset: usize = MintArgs::LEN;
        if len <= offset {
            return Ok(InitializeMintArgs { ix_mint, ix_metadata_pointer: None, ix_metadata: None, ix_scaled_ui_amount: None });
        }
        let has_metadata_pointer = data[offset];
        offset = offset + 1;
        let ix_metadata_pointer = if has_metadata_pointer == 1 {
            let p = MetadataPointerArgs::try_from_bytes(vstd::slice::slice_subrange(data, offset, len))?;
            offset = offset + MetadataPointerArgs::LEN;
            Some(p)
        } else {
            None
        };
        if len <= offset {
            return Ok(InitializeMintArgs { ix_mint, ix_metadata_pointer, ix_metadata: None, ix_scaled_ui_amount: None });
        }
        let has_metadata = data[offset];
        offset = offset + 1;
        let ix_metadata = if has_metadata == 1 {
            let rest = vstd::slice::slice_subrange(data, offset, len);
            let (meta, consumed) = TokenMetadataArgs::try_from_bytes(rest)?;
            offset = offset + consumed;
            Some(meta)
        } else {
            None
        };
        let has_scaled_ui_amount = if len > offset { data[offset] } else { 0u8 };
        if has_scaled_ui_amount == 0 || len - offset <= 1 {
            return Ok(InitializeMintArgs { ix_mint, ix_metadata_pointer, ix_metadata, ix_scaled_ui_amount: None });
        }
        offset = offset + 1;
        let ix_scaled_ui_amount = if has_scaled_ui_amount == 1 {
            Some(ScaledUiAmountConfigArgs::try_from_bytes(vstd::slice::slice_subrange(data, offset, len))?)
        } else {
            None
        };
        Ok(InitializeMintArgs { ix_mint, ix_metadata_pointer, ix_metadata, ix_scaled_ui_amount })
    }

    /// Check the decimals and the metadata.
    pub fn validate(&self) -> (r: Result<(), ProgramError>)
        ensures
            r == (if spec_initialize_mint_valid(self@) { Ok(()) } else { Err(ProgramError::InvalidArgument) }),
    {
        if self.ix_mint.decimals > 20 {
            return Err(ProgramError::InvalidArgument);
        }
        if self.ix_metadata.is_some() && self.ix_metadata_pointer.is_none() {
            return Err(ProgramError::InvalidArgument);
        }
        match &self.ix_metadata {
            Some(metadata) => {
                if metadata.name.as_str().is_empty() {
                    return Err(ProgramError::InvalidArgument);
                }
                if metadata.symbol.as_str().is_empty() {
                    return Err(ProgramError::InvalidArgument);
                }
            },
            None => {},
        }
        Ok(())
    }
}

/// Mint creation arguments whose parts have their sizes and fit their length prefixes.
pub open spec fn initialize_mint_encodable(a: InitializeMintArgsView) -> bool {
    &&& a.ix_mint.mint_authority.len() == 32
    &&& a.ix_mint.freeze_authority.len() == 32
    &&& (a.ix_metadata_pointer matches Some(p) ==> p.authority.len() == 32 && p.metadata_address.len() == 32)
    &&& (a.ix_metadata matches Some(m) ==> metadata_args_encodable(m))
    &&& (a.ix_scaled_ui_amount matches Some(c) ==> c.authority.len() == 32 && c.multiplier.len() == 8
        && c.new_multiplier.len() == 8)
}

/// Serializing mint creation arguments and reading them back gives them back, and the
/// reading stays within the bytes.
#[verifier::spinoff_prover]
#[verifier::rlimit(60)]
pub proof fn lemma_initialize_mint_args_roundtrip(a: InitializeMintArgsView)
    requires
        initialize_mint_encodable(a),
    ensures
        !spec_initialize_mint_overruns(spec_initialize_mint_bytes(a)),
        spec_initialize_mint_from_bytes(spec_initialize_mint_bytes(a)) == Ok::<InitializeMintArgsView, ProgramError>(a),
{
    lemma_le_roundtrips();
    let data = spec_initialize_mint_bytes(a);
    let head = seq![a.ix_mint.decimals] + a.ix_mint.mint_authority + a.ix_mint.freeze_authority;
    let fp = spec_flagged(match a.ix_metadata_pointer { Some(p) => Some(p.authority + p.metadata_address), None => None });
    let fm = spec_flagged(match a.ix_metadata { Some(m) => Some(spec_metadata_args_bytes(m)), None => None });
    let fs = spec_flagged(match a.ix_scaled_ui_amount { Some(c) => Some(spec_scaled_ui_bytes(c)), None => None });
    assert(data =~= head + fp + fm + fs);
    assert(data.subrange(0, 65) =~= head);
    assert(head.subrange(1, 33) =~= a.ix_mint.mint_authority);
    assert(head.subrange(33, 65) =~= a.ix_mint.freeze_authority);
    assert(data.subrange(1, 33) =~= a.ix_mint.mint_authority);
    assert(data.subrange(33, 65) =~= a.ix_mint.freeze_authority);
    let off1 = (head + fp).len() as int;
    if let Some(p) = a.ix_metadata_pointer {
        assert(data.subrange(66, data.len() as int).subrange(0, 32) =~= p.authority);
        assert(data.subrange(66, data.len() as int).subrange(32, 64) =~= p.metadata_address);
    }
    assert(data[65] == fp[0]);
    assert(off1 == if data[65] == 1 { 130int } else { 66int });
    assert(data.subrange(off1 + 1, data.len() as int) =~= fm.drop_first() + fs) by {
        assert(data =~= (head + fp) + fm + fs);
    }
    assert(data[off1] == fm[0]);
    let off2 = (head + fp + fm).len() as int;
    if let Some(m) = a.ix_metadata {
        assert(fm.drop_first() =~= spec_metadata_args_bytes(m));
        lemma_metadata_args_roundtrip(m, fs);
    }
    assert(data[off2] == fs[0]) by {
        assert(data =~= (head + fp + fm) + fs);
    }
    if let Some(c) = a.ix_scaled_ui_amount {
        let rest = data.subrange(off2 + 1, data.len() as int);
        assert(rest =~= spec_scaled_ui_bytes(c)) by {
            assert(data =~= (head + fp + fm) + fs);
        }
        assert(rest.subrange(0, 32) =~= c.authority);
        assert(rest.subrange(32, 40) =~= c.multiplier);
        assert(rest.subrange(40, 48) =~= le_i64(c.new_multiplier_effective_timestamp));
        assert(rest.subrange(48, 56) =~= c.new_multiplier);
    }
}

} // verus!
