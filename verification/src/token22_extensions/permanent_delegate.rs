//! The permanent delegate extension: an account that may move or burn any holder's tokens.
use vstd::prelude::*;
use crate::bytes::read_pubkey;
use crate::token22_extensions::{BaseState, Extension, ExtensionType, FixedSizeExtension};

verus! {

/// Permanent delegate extension data
#[derive(Clone, Copy, Debug, PartialEq, Eq)]
pub struct PermanentDelegate {
    /// The permanent delegate
    pub delegate: [u8; 32],
}

impl Extension for PermanentDelegate {
    open spec fn spec_type() -> ExtensionType {
        ExtensionType::PermanentDelegate
    }

    open spec fn spec_base_state() -> BaseState {
        BaseState::Mint
    }

    fn extension_type() -> (r: ExtensionType) {
        ExtensionType::PermanentDelegate
    }

    fn base_state() -> (r: BaseState) {
        BaseState::Mint
    }
}

impl FixedSizeExtension for PermanentDelegate {
    open spec fn spec_len() -> nat {
        32
    }

    open spec fn spec_ext_bytes(&self) -> Seq<u8> {
        self.delegate@
    }

    fn len() -> (r: usize) {
        32
    }

    fn from_ext_bytes(data: &[u8]) -> (r: PermanentDelegate) {
        let r = PermanentDelegate { delegate: read_pubkey(data, 0) };
        assert(r.spec_ext_bytes() =~= data@);
        r
    }
}


/// The Token-2022 instruction data that initializes the permanent delegate extension:
/// instruction 35, then the delegate.
pub fn initialize_permanent_delegate_instruction_data(delegate: &[u8; 32]) -> (r: Vec<u8>)
    ensures
        r@ == seq![35u8] + delegate@,
{
    let mut data: Vec<u8> = Vec::with_capacity(33);
    data.push(35u8);
    crate::bytes::push_all(&mut data, delegate.as_slice());
    data
}

} // verus!
