//! Token-2022 extensions: their types, and finding one in the data of a mint or token account.
use vstd::prelude::*;
use crate::bytes::{from_le16, le16, read_u16, lemma_le_roundtrips, Pubkey, zeros, push_all};

pub mod metadata;
pub mod metadata_pointer;
pub mod pausable;
pub mod permanent_delegate;
pub mod scaled_ui_amount;
pub mod transfer_hook;

verus! {

/// Padding between the base mint and the account type byte, so that mints and token
/// accounts put their extensions at the same offset.
pub const EXTENSIONS_PADDING: usize = 83;

/// Size of the account type byte that precedes the extensions.
pub const EXTENSION_START_OFFSET: usize = 1;

/// Size of an extension's type field.
pub const EXTENSION_TYPE_LEN: usize = 2;

/// Size of an extension's length field.
pub const EXTENSION_LENGTH_LEN: usize = 2;

/// Size of a base mint.
pub const MINT_BASE_LEN: usize = 82;

/// Size of a base token account.
pub const TOKEN_ACCOUNT_BASE_LEN: usize = 165;

/// The Token-2022 extension types, by their code.
#[derive(Clone, Copy, Debug, PartialEq, Eq, Structural)]
pub enum ExtensionType {
    /// Extension type 0
    Uninitialized,
    /// Extension type 1
    TransferFeeConfig,
    /// Extension type 2
    TransferFeeAmount,
    /// Extension type 3
    MintCloseAuthority,
    /// Extension type 4
    ConfidentialTransferMint,
    /// Extension type 5
    ConfidentialTransferAccount,
    /// Extension type 6
    DefaultAccountState,
    /// Extension type 7
    ImmutableOwner,
    /// Extension type 8
    MemoTransfer,
    /// Extension type 9
    NonTransferable,
    /// Extension type 10
    InterestBearingConfig,
    /// Extension type 11
    CpiGuard,
    /// Extension type 12
    PermanentDelegate,
    /// Extension type 13
    NonTransferableAccount,
    /// Extension type 14
    TransferHook,
    /// Extension type 15
    TransferHookAccount,
    /// Extension type 16
    ConfidentialTransferFeeConfig,
    /// Extension type 17
    ConfidentialTransferFeeAmount,
    /// Extension type 18
    MetadataPointer,
    /// Extension type 19
    TokenMetadata,
    /// Extension type 20
    GroupPointer,
    /// Extension type 21
    TokenGroup,
    /// Extension type 22
    GroupMemberPointer,
    /// Extension type 23
    TokenGroupMember,
    /// Extension type 24
    ConfidentialMintBurn,
    /// Extension type 25
    ScaledUiAmount,
    /// Extension type 26
    Pausable,
    /// Extension type 27
    PausableAccount,
}

/// The extension type of a code, if the code names one.
pub open spec fn spec_extension_type_from_u16(v: u16) -> Option<ExtensionType> {
    if v == 0 {
        Some(ExtensionType::Uninitialized)
    } else if v == 1 {
        Some(ExtensionType::TransferFeeConfig)
    } else if v == 2 {
        Some(ExtensionType::TransferFeeAmount)
    } else if v == 3 {
        Some(ExtensionType::MintCloseAuthority)
    } else if v == 4 {
        Some(ExtensionType::ConfidentialTransferMint)
    } else if v == 5 {
        Some(ExtensionType::ConfidentialTransferAccount)
    } else if v == 6 {
        Some(ExtensionType::DefaultAccountState)
    } else if v == 7 {
        Some(ExtensionType::ImmutableOwner)
    } else if v == 8 {
        Some(ExtensionType::MemoTransfer)
    } else if v == 9 {
        Some(ExtensionType::NonTransferable)
    } else if v == 10 {
        Some(ExtensionType::InterestBearingConfig)
    } else if v == 11 {
        Some(ExtensionType::CpiGuard)
    } else if v == 12 {
        Some(ExtensionType::PermanentDelegate)
    } else if v == 13 {
        Some(ExtensionType::NonTransferableAccount)
    } else if v == 14 {
        Some(ExtensionType::TransferHook)
    } else if v == 15 {
        Some(ExtensionType::TransferHookAccount)
    } else if v == 16 {
        Some(ExtensionType::ConfidentialTransferFeeConfig)
    } else if v == 17 {
        Some(ExtensionType::ConfidentialTransferFeeAmount)
    } else if v == 18 {
        Some(ExtensionType::MetadataPointer)
    } else if v == 19 {
        Some(ExtensionType::TokenMetadata)
    } else if v == 20 {
        Some(ExtensionType::GroupPointer)
    } else if v == 21 {
        Some(ExtensionType::TokenGroup)
    } else if v == 22 {
        Some(ExtensionType::GroupMemberPointer)
    } else if v == 23 {
        Some(ExtensionType::TokenGroupMember)
    } else if v == 24 {
        Some(ExtensionType::ConfidentialMintBurn)
    } else if v == 25 {
        Some(ExtensionType::ScaledUiAmount)
    } else if v == 26 {
        Some(ExtensionType::Pausable)
    } else if v == 27 {
        Some(ExtensionType::PausableAccount)
    } else {
        None
    }
}

impl ExtensionType {
    /// The code of the extension type.
    pub open spec fn spec_code(self) -> u16 {
        match self {
            ExtensionType::Uninitialized => 0,
            ExtensionType::TransferFeeConfig => 1,
            ExtensionType::TransferFeeAmount => 2,
            ExtensionType::MintCloseAuthority => 3,
            ExtensionType::ConfidentialTransferMint => 4,
            ExtensionType::ConfidentialTransferAccount => 5,
            ExtensionType::DefaultAccountState => 6,
            ExtensionType::ImmutableOwner => 7,
            ExtensionType::MemoTransfer => 8,
            ExtensionType::NonTransferable => 9,
            ExtensionType::InterestBearingConfig => 10,
            ExtensionType::CpiGuard => 11,
            ExtensionType::PermanentDelegate => 12,
            ExtensionType::NonTransferableAccount => 13,
            ExtensionType::TransferHook => 14,
            ExtensionType::TransferHookAccount => 15,
            ExtensionType::ConfidentialTransferFeeConfig => 16,
            ExtensionType::ConfidentialTransferFeeAmount => 17,
            ExtensionType::MetadataPointer => 18,
            ExtensionType::TokenMetadata => 19,
            ExtensionType::GroupPointer => 20,
            ExtensionType::TokenGroup => 21,
            ExtensionType::GroupMemberPointer => 22,
            ExtensionType::TokenGroupMember => 23,
            ExtensionType::ConfidentialMintBurn => 24,
            ExtensionType::ScaledUiAmount => 25,
            ExtensionType::Pausable => 26,
            ExtensionType::PausableAccount => 27,
        }
    }

    /// The extension type whose code is encoded, little-endian, in `val`.
    pub fn from_bytes(val: [u8; 2]) -> (r: Option<ExtensionType>)
        ensures
            r == spec_extension_type_from_u16(from_le16(val@)),
    {
        let v = read_u16(val.as_slice(), 0);
        assert(val@.subrange(0, 2) =~= val@);
        match v {
            0 => Some(ExtensionType::Uninitialized),
            1 => Some(ExtensionType::TransferFeeConfig),
            2 => Some(ExtensionType::TransferFeeAmount),
            3 => Some(ExtensionType::MintCloseAuthority),
            4 => Some(ExtensionType::ConfidentialTransferMint),
            5 => Some(ExtensionType::ConfidentialTransferAccount),
            6 => Some(ExtensionType::DefaultAccountState),
            7 => Some(ExtensionType::ImmutableOwner),
            8 => Some(ExtensionType::MemoTransfer),
            9 => Some(ExtensionType::NonTransferable),
            10 => Some(ExtensionType::InterestBearingConfig),
            11 => Some(ExtensionType::CpiGuard),
            12 => Some(ExtensionType::PermanentDelegate),
            13 => Some(ExtensionType::NonTransferableAccount),
            14 => Some(ExtensionType::TransferHook),
            15 => Some(ExtensionType::TransferHookAccount),
            16 => Some(ExtensionType::ConfidentialTransferFeeConfig),
            17 => Some(ExtensionType::ConfidentialTransferFeeAmount),
            18 => Some(ExtensionType::MetadataPointer),
            19 => Some(ExtensionType::TokenMetadata),
            20 => Some(ExtensionType::GroupPointer),
            21 => Some(ExtensionType::TokenGroup),
            22 => Some(ExtensionType::GroupMemberPointer),
            23 => Some(ExtensionType::TokenGroupMember),
            24 => Some(ExtensionType::ConfidentialMintBurn),
            25 => Some(ExtensionType::ScaledUiAmount),
            26 => Some(ExtensionType::Pausable),
            27 => Some(ExtensionType::PausableAccount),
            _ => None,
        }
    }

    /// The little-endian encoding of the code.
    pub fn to_bytes(&self) -> (r: [u8; 2])
        ensures
            r@ == le16(self.spec_code()),
    {
        let code: u16 = match self {
            ExtensionType::Uninitialized => 0,
            ExtensionType::TransferFeeConfig => 1,
            ExtensionType::TransferFeeAmount => 2,
            ExtensionType::MintCloseAuthority => 3,
            ExtensionType::ConfidentialTransferMint => 4,
            ExtensionType::ConfidentialTransferAccount => 5,
            ExtensionType::DefaultAccountState => 6,
            ExtensionType::ImmutableOwner => 7,
            ExtensionType::MemoTransfer => 8,
            ExtensionType::NonTransferable => 9,
            ExtensionType::InterestBearingConfig => 10,
            ExtensionType::CpiGuard => 11,
            ExtensionType::PermanentDelegate => 12,
            ExtensionType::NonTransferableAccount => 13,
            ExtensionType::TransferHook => 14,
            ExtensionType::TransferHookAccount => 15,
            ExtensionType::ConfidentialTransferFeeConfig => 16,
            ExtensionType::ConfidentialTransferFeeAmount => 17,
            ExtensionType::MetadataPointer => 18,
            ExtensionType::TokenMetadata => 19,
            ExtensionType::GroupPointer => 20,
            ExtensionType::TokenGroup => 21,
            ExtensionType::GroupMemberPointer => 22,
            ExtensionType::TokenGroupMember => 23,
            ExtensionType::ConfidentialMintBurn => 24,
            ExtensionType::ScaledUiAmount => 25,
            ExtensionType::Pausable => 26,
            ExtensionType::PausableAccount => 27,
        };
        let v = vstd::bytes::u16_to_le_bytes(code);
        proof {
            lemma_le_roundtrips();
        }
        let r = [v[0], v[1]];
        assert(r@ =~= v@);
        r
    }
}

/// Encoding an extension type and decoding the bytes gives it back; a decoded type
/// has the decoded code.
pub proof fn lemma_extension_type_roundtrip(t: ExtensionType, v: u16)
    ensures
        spec_extension_type_from_u16(t.spec_code()) == Some(t),
        spec_extension_type_from_u16(v) matches Some(u) ==> u.spec_code() == v,
        spec_extension_type_from_u16(v) is Some <==> v <= 27,
{
}

/// The base layout that an extension extends.
#[derive(Clone, Copy, Debug, PartialEq, Eq, Structural)]
pub enum BaseState {
    /// A mint.
    Mint,
    /// A token account.
    TokenAccount,
}

/// Where the extensions of an account of the base layout start.
pub open spec fn spec_extensions_offset(base: BaseState) -> int {
    match base {
        BaseState::Mint => 166int,
        BaseState::TokenAccount => 166int,
    }
}

/// Where the extensions of an account of the base layout start.
pub fn extensions_offset(base: BaseState) -> (r: usize)
    ensures
        r == spec_extensions_offset(base),
{
    match base {
        BaseState::Mint => MINT_BASE_LEN + EXTENSIONS_PADDING + EXTENSION_START_OFFSET,
        BaseState::TokenAccount => TOKEN_ACCOUNT_BASE_LEN + EXTENSION_START_OFFSET,
    }
}

/// A Token-2022 extension: its type and the base layout it extends.
pub trait Extension: Sized {
    /// The extension's type.
    spec fn spec_type() -> ExtensionType;

    /// The base layout the extension extends.
    spec fn spec_base_state() -> BaseState;

    /// The extension's type.
    fn extension_type() -> (r: ExtensionType)
        ensures
            r == Self::spec_type(),
    ;

    /// The base layout the extension extends.
    fn base_state() -> (r: BaseState)
        ensures
            r == Self::spec_base_state(),
    ;
}

/// A Token-2022 extension whose data has a fixed size and layout.
pub trait FixedSizeExtension: Extension {
    /// The size of the extension's data.
    spec fn spec_len() -> nat;

    /// The extension's data bytes.
    spec fn spec_ext_bytes(&self) -> Seq<u8>;

    /// The size of the extension's data.
    fn len() -> (r: usize)
        ensures
            r == Self::spec_len(),
    ;

    /// The extension held in its data bytes.
    fn from_ext_bytes(data: &[u8]) -> (r: Self)
        requires
            data@.len() == Self::spec_len(),
        ensures
            r.spec_ext_bytes() == data@,
    ;
}

/// Bytes of `e` that are left from `start` on, as a measure.
pub open spec fn remaining_from(e: Seq<u8>, start: int) -> nat {
    if start < e.len() { (e.len() - start) as nat } else { 0 }
}

/// Scanning the extension entries of `e` from `start` for the type `code`: each entry is
/// a two-byte type, a two-byte length and that many data bytes. The scan stops with no
/// result at the end of the bytes or at an unknown type; an entry of type `code` (and, when
/// `fixed_len` is given, of that length) gives the range of its data. `None` is a scan
/// that would read past the end of `e`.
pub open spec fn spec_find_extension(e: Seq<u8>, start: int, code: u16, fixed_len: Option<nat>) -> Option<Option<(int, int)>>
    decreases remaining_from(e, start),
{
    if start < 0 || start >= e.len() {
        Some(None)
    } else if start + 2 > e.len() {
        None
    } else if spec_extension_type_from_u16(from_le16(e.subrange(start, start + 2))) is None {
        Some(None)
    } else if start + 4 > e.len() {
        None
    } else {
        let ty = from_le16(e.subrange(start, start + 2));
        let l = from_le16(e.subrange(start + 2, start + 4)) as int;
        let found = ty == code && match fixed_len { Some(n) => l == n, None => true };
        if found {
            if start + 4 + l > e.len() {
                None
            } else {
                Some(Some((start + 4, start + 4 + l)))
            }
        } else {
            spec_find_extension(e, start + 4 + l, code, fixed_len)
        }
    }
}

/// The data range, within the whole account data, of the first extension entry of type
/// `code` (of length `fixed_len` when given); `None` inside when there is none, `None`
/// outside when the account data is shorter than its base or the scan would overrun.
pub open spec fn spec_extension_range(acc: Seq<u8>, base: BaseState, code: u16, fixed_len: Option<nat>) -> Option<Option<(int, int)>> {
    let off = spec_extensions_offset(base);
    if acc.len() < off {
        None
    } else {
        match spec_find_extension(acc.subrange(off, acc.len() as int), 0, code, fixed_len) {
            Some(Some((s, e))) => Some(Some((off + s, off + e))),
            Some(None) => Some(None),
            None => None,
        }
    }
}

/// A found data range lies within the scanned bytes and has the requested length.
pub proof fn lemma_find_extension_bounds(e: Seq<u8>, start: int, code: u16, fixed_len: Option<nat>)
    ensures
        spec_find_extension(e, start, code, fixed_len) matches Some(Some((s, t))) ==> {
            &&& 0 <= s <= t <= e.len()
            &&& (start >= 0 ==> start + 4 <= s)
            &&& (fixed_len matches Some(n) ==> t - s == n)
        },
    decreases remaining_from(e, start),
{
    if start >= 0 && start + 4 <= e.len() {
        let l = from_le16(e.subrange(start + 2, start + 4)) as int;
        lemma_find_extension_bounds(e, start + 4 + l, code, fixed_len);
    }
}

/// A found data range lies within the account data and has the requested length.
pub proof fn lemma_extension_range_bounds(acc: Seq<u8>, base: BaseState, code: u16, fixed_len: Option<nat>)
    ensures
        spec_extension_range(acc, base, code, fixed_len) matches Some(Some((s, t))) ==> {
            &&& 4 <= s <= t <= acc.len()
            &&& (fixed_len matches Some(n) ==> t - s == n)
        },
{
    let off = spec_extensions_offset(base);
    if acc.len() >= off {
        lemma_find_extension_bounds(acc.subrange(off, acc.len() as int), 0, code, fixed_len);
    }
}

/// Scans account data for an extension entry: the data range of the first entry of type
/// `code` (of length `fixed_len` when given), `Some(None)` when there is none, and `None`
/// when the data is shorter than its base or the scan would read past its end.
pub fn scan_extension_range(acc: &[u8], base: BaseState, code: u16, fixed_len: Option<usize>) -> (r: Option<Option<(usize, usize)>>)
    ensures
        spec_extension_range(acc@, base, code, match fixed_len { Some(n) => Some(n as nat), None => None })
            == match r {
                Some(Some((s, e))) => Some(Some((s as int, e as int))),
                Some(None) => Some(None),
                None => None,
            },
{
    let ghost fl = match fixed_len { Some(n) => Some(n as nat), None => None };
    let off = extensions_offset(base);
    let total = acc.len();
    if total < off {
        return None;
    }
    let ext = vstd::slice::slice_subrange(acc, off, total);
    let end = ext.len();
    let mut start: usize = 0;
    while start < end
        invariant
            end == ext@.len(),
            ext@ == acc@.subrange(off as int, total as int),
            total == acc@.len(),
            off == spec_extensions_offset(base),
            off <= total,
            fl == match fixed_len { Some(n) => Some(n as nat), None => None },
            spec_find_extension(ext@, 0, code, fl) == spec_find_extension(ext@, start as int, code, fl),
        decreases end - start,
    {
        if end - start < 2 {
            return None;
        }
        let type_bytes: [u8; 2] = [ext[start], ext[start + 1]];
        assert(type_bytes@ =~= ext@.subrange(start as int, start + 2));
        if ExtensionType::from_bytes(type_bytes).is_none() {
            return Some(None);
        }
        if end - start < 4 {
            return None;
        }
        let ty = read_u16(ext, start);
        let l = read_u16(ext, start + 2) as usize;
        let found = ty == code && match fixed_len { Some(n) => l == n, None => true };
        if found {
            if end - (start + 4) < l {
                return None;
            }
            return Some(Some((off + start + 4, off + start + 4 + l)));
        }
        if end - (start + 4) < l {
            assert(spec_find_extension(ext@, start + 4 + l, code, fl) == Some(None::<(int, int)>));
            return Some(None);
        }
        start = start + 4 + l;
    }
    Some(None)
}

/// Finds the data range of an extension entry in account data.
pub fn find_extension_range(acc: &[u8], base: BaseState, code: u16, fixed_len: Option<usize>) -> (r: Option<(usize, usize)>)
    requires
        spec_extension_range(acc@, base, code, match fixed_len { Some(n) => Some(n as nat), None => None }) is Some,
    ensures
        spec_extension_range(acc@, base, code, match fixed_len { Some(n) => Some(n as nat), None => None })
            == Some(match r { Some((s, e)) => Some((s as int, e as int)), None => None }),
{
    match scan_extension_range(acc, base, code, fixed_len) {
        Some(found) => found,
        None => None,
    }
}

/// The first fixed-size extension `T` in account data.
pub fn get_extension_from_bytes<T: FixedSizeExtension>(acc_data_bytes: &[u8]) -> (r: Option<T>)
    requires
        spec_extension_range(acc_data_bytes@, T::spec_base_state(), T::spec_type().spec_code(), Some(T::spec_len())) is Some,
    ensures
        match spec_extension_range(acc_data_bytes@, T::spec_base_state(), T::spec_type().spec_code(), Some(T::spec_len())) {
            Some(Some((s, e))) => r matches Some(x) && x.spec_ext_bytes() == acc_data_bytes@.subrange(s, e),
            _ => r is None,
        },
{
    let n = T::len();
    let code = ExtensionType::extension_type_code(T::extension_type());
    proof {
        lemma_extension_range_bounds(acc_data_bytes@, T::spec_base_state(), code, Some(n as nat));
    }
    match find_extension_range(acc_data_bytes, T::base_state(), code, Some(n)) {
        Some((s, e)) => Some(T::from_ext_bytes(vstd::slice::slice_subrange(acc_data_bytes, s, e))),
        None => None,
    }
}

/// The data bytes of the first extension entry of the type of `T`, whatever its length
/// (for extensions of variable size).
pub fn get_extension_data_bytes_for_variable_pack<T: Extension>(acc_data_bytes: &[u8]) -> (r: Option<&[u8]>)
    requires
        spec_extension_range(acc_data_bytes@, T::spec_base_state(), T::spec_type().spec_code(), None) is Some,
    ensures
        match spec_extension_range(acc_data_bytes@, T::spec_base_state(), T::spec_type().spec_code(), None) {
            Some(Some((s, e))) => r matches Some(b) && b@ == acc_data_bytes@.subrange(s, e),
            _ => r is None,
        },
{
    let code = ExtensionType::extension_type_code(T::extension_type());
    proof {
        lemma_extension_range_bounds(acc_data_bytes@, T::spec_base_state(), code, None);
    }
    match find_extension_range(acc_data_bytes, T::base_state(), code, None) {
        Some((s, e)) => Some(vstd::slice::slice_subrange(acc_data_bytes, s, e)),
        None => None,
    }
}

impl ExtensionType {
    /// The code of an extension type.
    pub fn extension_type_code(t: ExtensionType) -> (r: u16)
        ensures
            r == t.spec_code(),
    {
        match t {
            ExtensionType::Uninitialized => 0,
            ExtensionType::TransferFeeConfig => 1,
            ExtensionType::TransferFeeAmount => 2,
            ExtensionType::MintCloseAuthority => 3,
            ExtensionType::ConfidentialTransferMint => 4,
            ExtensionType::ConfidentialTransferAccount => 5,
            ExtensionType::DefaultAccountState => 6,
            ExtensionType::ImmutableOwner => 7,
            ExtensionType::MemoTransfer => 8,
            ExtensionType::NonTransferable => 9,
            ExtensionType::InterestBearingConfig => 10,
            ExtensionType::CpiGuard => 11,
            ExtensionType::PermanentDelegate => 12,
            ExtensionType::NonTransferableAccount => 13,
            ExtensionType::TransferHook => 14,
            ExtensionType::TransferHookAccount => 15,
            ExtensionType::ConfidentialTransferFeeConfig => 16,
            ExtensionType::ConfidentialTransferFeeAmount => 17,
            ExtensionType::MetadataPointer => 18,
            ExtensionType::TokenMetadata => 19,
            ExtensionType::GroupPointer => 20,
            ExtensionType::TokenGroup => 21,
            ExtensionType::GroupMemberPointer => 22,
            ExtensionType::TokenGroupMember => 23,
            ExtensionType::ConfidentialMintBurn => 24,
            ExtensionType::ScaledUiAmount => 25,
            ExtensionType::Pausable => 26,
            ExtensionType::PausableAccount => 27,
        }
    }
}


/// The bytes an optional address takes in extension instructions: the address, or 32
/// zero bytes for none.
pub open spec fn spec_optional_key_bytes(k: Option<Pubkey>) -> Seq<u8> {
    match k {
        Some(a) => a@,
        None => zeros(32),
    }
}

/// Appends an optional address: the address, or 32 zero bytes for none.
pub fn push_optional_key(out: &mut Vec<u8>, k: &Option<Pubkey>)
    ensures
        final(out)@ == old(out)@ + spec_optional_key_bytes(*k),
{
    match k {
        Some(a) => push_all(out, a.as_slice()),
        None => {
            let z = [0u8; 32];
            assert(z@ =~= zeros(32)) by {
                assert forall|i: int| 0 <= i < 32 implies z@[i] == 0u8 by {
                    vstd::array::lemma_array_index(z, i);
                }
            }
            push_all(out, z.as_slice());
        },
    }
}

} // verus!
