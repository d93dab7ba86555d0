//! The scaled UI amount extension: a multiplier applied when amounts are displayed.
use vstd::prelude::*;
use crate::bytes::{le_i64, read_pubkey, read_bytes8, read_i64, Pubkey};
use crate::token22_extensions::{
    BaseState, Extension, ExtensionType, FixedSizeExtension, spec_optional_key_bytes, push_optional_key,
};

verus! {

/// Size of the scaled UI amount extension data.
pub const SCALED_UI_AMOUNT_CONFIG_LEN: usize = 56;

/// Scaled UI amount extension data
#[derive(Clone, Copy, Debug, PartialEq, Eq)]
pub struct ScaledUiAmountConfig {
    /// Authority that can set the scaling amount and authority
    pub authority: Pubkey,
    /// Amount to multiply raw amounts by, as the bytes of a little-endian float
    pub multiplier: [u8; 8],
    /// Unix timestamp at which `new_multiplier` comes into effect
    pub new_multiplier_effective_timestamp: i64,
    /// Next multiplier, as the bytes of a little-endian float
    pub new_multiplier: [u8; 8],
}

impl Extension for ScaledUiAmountConfig {
    open spec fn spec_type() -> ExtensionType {
        ExtensionType::ScaledUiAmount
    }

    open spec fn spec_base_state() -> BaseState {
        BaseState::Mint
    }

    fn extension_type() -> (r: ExtensionType) {
        ExtensionType::ScaledUiAmount
    }

    fn base_state() -> (r: BaseState) {
        BaseState::Mint
    }
}

impl FixedSizeExtension for ScaledUiAmountConfig {
    open spec fn spec_len() -> nat {
        56
    }

    open spec fn spec_ext_bytes(&self) -> Seq<u8> {
        self.authority@ + self.multiplier@ + le_i64(self.new_multiplier_effective_timestamp) + self.new_multiplier@
    }

    fn len() -> (r: usize) {
        SCALED_UI_AMOUNT_CONFIG_LEN
    }

    fn from_ext_bytes(data: &[u8]) -> (r: ScaledUiAmountConfig) {
        let r = ScaledUiAmountConfig {
            authority: read_pubkey(data, 0),
            multiplier: read_bytes8(data, 32),
            new_multiplier_effective_timestamp: read_i64(data, 40),
            new_multiplier: read_bytes8(data, 48),
        };
        proof {
            crate::bytes::lemma_le_roundtrips();
        }
        assert(r.spec_ext_bytes() =~= data@);
        r
    }
}


/// The Token-2022 instruction data that initializes the scaled UI amount extension:
/// instruction 43, sub-instruction 0, the authority (zero for none) and the eight bytes
/// of the multiplier.
pub fn initialize_scaled_ui_amount_instruction_data(authority: &Option<Pubkey>, multiplier: &[u8; 8]) -> (r: Vec<u8>)
    ensures
        r@ == seq![43u8, 0u8] + spec_optional_key_bytes(*authority) + multiplier@,
{
    let mut data: Vec<u8> = Vec::with_capacity(42);
    data.push(43u8);
    data.push(0u8);
    push_optional_key(&mut data, authority);
    crate::bytes::push_all(&mut data, multiplier.as_slice());
    assert(data@ =~= seq![43u8, 0u8] + spec_optional_key_bytes(*authority) + multiplier@);
    data
}

} // verus!
