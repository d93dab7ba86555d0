//! The pausable extension: an authority that can stop minting, burning and transfers.
use vstd::prelude::*;
use crate::bytes::read_pubkey;
use crate::token22_extensions::{BaseState, Extension, ExtensionType, FixedSizeExtension};

verus! {

/// Pausable extension data
#[derive(Clone, Copy, Debug, PartialEq, Eq)]
pub struct Pausable {
    /// Authority that can pause/resume the mint
    pub authority: [u8; 32],
    /// Whether minting / transferring / burning tokens is paused
    pub paused: u8,
}

impl Extension for Pausable {
    open spec fn spec_type() -> ExtensionType {
        ExtensionType::Pausable
    }

    open spec fn spec_base_state() -> BaseState {
        BaseState::Mint
    }

    fn extension_type() -> (r: ExtensionType) {
        ExtensionType::Pausable
    }

    fn base_state() -> (r: BaseState) {
        BaseState::Mint
    }
}

impl FixedSizeExtension for Pausable {
    open spec fn spec_len() -> nat {
        33
    }

    open spec fn spec_ext_bytes(&self) -> Seq<u8> {
        self.authority@.push(self.paused)
    }

    fn len() -> (r: usize) {
        33
    }

    fn from_ext_bytes(data: &[u8]) -> (r: Pausable) {
        let r = Pausable { authority: read_pubkey(data, 0), paused: data[32] };
        assert(r.spec_ext_bytes() =~= data@);
        r
    }
}

/// The Token-2022 instruction data that initializes the pausable extension with an
/// authority: instruction 44, sub-instruction 0, then the authority.
pub fn initialize_pausable_instruction_data(authority: &[u8; 32]) -> (r: Vec<u8>)
    ensures
        r@ == seq![44u8, 0u8] + authority@,
{
    let mut data: Vec<u8> = Vec::with_capacity(34);
    data.push(44u8);
    data.push(0u8);
    crate::bytes::push_all(&mut data, authority.as_slice());
    assert(data@ =~= seq![44u8, 0u8] + authority@);
    data
}

/// The Token-2022 instruction data that pauses a mint: instruction 44, sub-instruction 1.
pub fn pause_instruction_data() -> (r: [u8; 2])
    ensures
        r@ == seq![44u8, 1u8],
{
    let r = [44u8, 1u8];
    assert(r@ =~= seq![44u8, 1u8]);
    r
}

/// The Token-2022 instruction data that resumes a mint: instruction 44, sub-instruction 2.
pub fn resume_instruction_data() -> (r: [u8; 2])
    ensures
        r@ == seq![44u8, 2u8],
{
    let r = [44u8, 2u8];
    assert(r@ =~= seq![44u8, 2u8]);
    r
}

} // verus!
