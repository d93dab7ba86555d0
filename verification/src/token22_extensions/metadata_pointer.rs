//! The metadata pointer extension: where a mint's metadata lives.
use vstd::prelude::*;
use crate::bytes::read_pubkey;
use crate::bytes::Pubkey;
use crate::token22_extensions::{
    BaseState, Extension, ExtensionType, FixedSizeExtension, spec_optional_key_bytes, push_optional_key,
};

verus! {

/// Metadata pointer extension data
#[derive(Clone, Copy, Debug, PartialEq, Eq)]
pub struct MetadataPointer {
    /// Authority that can set the metadata address
    pub authority: [u8; 32],
    /// Account address that holds the metadata
    pub metadata_address: [u8; 32],
}

impl Extension for MetadataPointer {
    open spec fn spec_type() -> ExtensionType {
        ExtensionType::MetadataPointer
    }

    open spec fn spec_base_state() -> BaseState {
        BaseState::Mint
    }

    fn extension_type() -> (r: ExtensionType) {
        ExtensionType::MetadataPointer
    }

    fn base_state() -> (r: BaseState) {
        BaseState::Mint
    }
}

impl FixedSizeExtension for MetadataPointer {
    open spec fn spec_len() -> nat {
        64
    }

    open spec fn spec_ext_bytes(&self) -> Seq<u8> {
        self.authority@ + self.metadata_address@
    }

    fn len() -> (r: usize) {
        64
    }

    fn from_ext_bytes(data: &[u8]) -> (r: MetadataPointer) {
        let r = MetadataPointer { authority: read_pubkey(data, 0), metadata_address: read_pubkey(data, 32) };
        assert(r.spec_ext_bytes() =~= data@);
        r
    }
}


/// The Token-2022 instruction data that initializes the metadata pointer extension:
/// instruction 39, sub-instruction 0, the authority and the metadata address (zero for none).
pub fn initialize_metadata_pointer_instruction_data(authority: &Option<Pubkey>, metadata_address: &Option<Pubkey>) -> (r: Vec<u8>)
    ensures
        r@ == seq![39u8, 0u8] + spec_optional_key_bytes(*authority) + spec_optional_key_bytes(*metadata_address),
{
    let mut data: Vec<u8> = Vec::with_capacity(66);
    data.push(39u8);
    data.push(0u8);
    push_optional_key(&mut data, authority);
    push_optional_key(&mut data, metadata_address);
    assert(data@ =~= seq![39u8, 0u8] + spec_optional_key_bytes(*authority) + spec_optional_key_bytes(*metadata_address));
    data
}

} // verus!
