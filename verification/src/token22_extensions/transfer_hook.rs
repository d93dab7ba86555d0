//! The transfer hook extension: a program called on every transfer of the mint.
use vstd::prelude::*;
use crate::bytes::read_pubkey;
use crate::bytes::{Pubkey, le32, push_u32};
use crate::token22_extensions::{
    BaseState, Extension, ExtensionType, FixedSizeExtension, spec_optional_key_bytes, push_optional_key,
};

verus! {

/// Transfer hook extension data
#[derive(Clone, Copy, Debug, PartialEq, Eq)]
pub struct TransferHook {
    /// Authority that can update the program ID
    pub authority: [u8; 32],
    /// Program ID to call on transfer
    pub program_id: [u8; 32],
}

impl Extension for TransferHook {
    open spec fn spec_type() -> ExtensionType {
        ExtensionType::TransferHook
    }

    open spec fn spec_base_state() -> BaseState {
        BaseState::Mint
    }

    fn extension_type() -> (r: ExtensionType) {
        ExtensionType::TransferHook
    }

    fn base_state() -> (r: BaseState) {
        BaseState::Mint
    }
}

impl FixedSizeExtension for TransferHook {
    open spec fn spec_len() -> nat {
        64
    }

    open spec fn spec_ext_bytes(&self) -> Seq<u8> {
        self.authority@ + self.program_id@
    }

    fn len() -> (r: usize) {
        64
    }

    fn from_ext_bytes(data: &[u8]) -> (r: TransferHook) {
        let r = TransferHook { authority: read_pubkey(data, 0), program_id: read_pubkey(data, 32) };
        assert(r.spec_ext_bytes() =~= data@);
        r
    }
}


/// The Token-2022 instruction data that initializes the transfer hook extension:
/// instruction 36, sub-instruction 0, the authority and the hook program (zero for none).
pub fn initialize_transfer_hook_instruction_data(authority: &Option<Pubkey>, program_id: &Option<Pubkey>) -> (r: Vec<u8>)
    ensures
        r@ == seq![36u8, 0u8] + spec_optional_key_bytes(*authority) + spec_optional_key_bytes(*program_id),
{
    let mut data: Vec<u8> = Vec::with_capacity(66);
    data.push(36u8);
    data.push(0u8);
    push_optional_key(&mut data, authority);
    push_optional_key(&mut data, program_id);
    assert(data@ =~= seq![36u8, 0u8] + spec_optional_key_bytes(*authority) + spec_optional_key_bytes(*program_id));
    data
}

/// The first eight bytes of the transfer hook interface instruction that creates the
/// extra account metas list.
pub const INITIALIZE_EXTRA_ACCOUNT_META_LIST_DISCRIMINATOR: [u8; 8] = [0x2b, 0x22, 0x0d, 0x31, 0xa7, 0x58, 0xeb, 0xeb];

/// The first eight bytes of the transfer hook interface instruction that replaces the
/// extra account metas list.
pub const UPDATE_EXTRA_ACCOUNT_META_LIST_DISCRIMINATOR: [u8; 8] = [0x9d, 0x69, 0x2a, 0x92, 0x66, 0x55, 0xf1, 0xae];

/// An extra account meta for a fixed address that neither signs nor is written: the
/// plain-address discriminator 0, the address, and two false flags.
pub open spec fn spec_extra_account_meta_bytes(address: Seq<u8>) -> Seq<u8> {
    seq![0u8] + address + seq![0u8, 0u8]
}

/// The bytes of a list of such metas, one after the other.
pub open spec fn spec_extra_account_metas_bytes(addresses: Seq<Pubkey>) -> Seq<u8>
    decreases addresses.len(),
{
    if addresses.len() == 0 {
        Seq::empty()
    } else {
        spec_extra_account_metas_bytes(addresses.drop_last()) + spec_extra_account_meta_bytes(addresses.last()@)
    }
}

/// The transfer hook interface instruction data that creates (`initialize`) or replaces
/// the extra account metas list with fixed read-only addresses: the instruction's eight
/// bytes, the `u32` count, then 35 bytes per meta.
pub fn extra_account_metas_instruction_data(initialize: bool, addresses: &[Pubkey]) -> (r: Vec<u8>)
    requires
        addresses@.len() <= u32::MAX,
    ensures
        r@ == (if initialize { INITIALIZE_EXTRA_ACCOUNT_META_LIST_DISCRIMINATOR@ } else { UPDATE_EXTRA_ACCOUNT_META_LIST_DISCRIMINATOR@ })
            + le32(addresses@.len() as u32) + spec_extra_account_metas_bytes(addresses@),
{
    let mut data: Vec<u8> = Vec::new();
    if initialize {
        crate::bytes::push_all(&mut data, INITIALIZE_EXTRA_ACCOUNT_META_LIST_DISCRIMINATOR.as_slice());
    } else {
        crate::bytes::push_all(&mut data, UPDATE_EXTRA_ACCOUNT_META_LIST_DISCRIMINATOR.as_slice());
    }
    push_u32(&mut data, addresses.len() as u32);
    let ghost head = data@;
    let mut i: usize = 0;
    assert(addresses@.subrange(0, 0) =~= Seq::<Pubkey>::empty());
    while i < addresses.len()
        invariant
            0 <= i <= addresses@.len(),
            data@ == head + spec_extra_account_metas_bytes(addresses@.subrange(0, i as int)),
        decreases addresses@.len() - i,
    {
        assert(addresses@.subrange(0, i + 1).drop_last() =~= addresses@.subrange(0, i as int));
        data.push(0u8);
        crate::bytes::push_all(&mut data, addresses[i].as_slice());
        data.push(0u8);
        data.push(0u8);
        assert(data@ =~= head + spec_extra_account_metas_bytes(addresses@.subrange(0, i + 1)));
        i = i + 1;
    }
    assert(addresses@.subrange(0, addresses@.len() as int) =~= addresses@);
    data
}

/// The Token-2022 instruction data of a checked transfer: instruction 12, the amount and
/// the decimals.
pub fn transfer_checked_instruction_data(amount: u64, decimals: u8) -> (r: Vec<u8>)
    ensures
        r@ == seq![12u8] + crate::bytes::le64(amount) + seq![decimals],
{
    let mut data: Vec<u8> = Vec::with_capacity(10);
    data.push(12u8);
    crate::bytes::push_u64(&mut data, amount);
    data.push(decimals);
    data
}

} // verus!
