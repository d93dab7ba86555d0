//! Arguments of the split instruction.
use vstd::prelude::*;
use crate::bytes::{le64, push_u64, lemma_le_roundtrips};
use crate::constants::ACTION_ID_LEN;
use crate::error::ProgramError;
use crate::instructions::rate_account::{spec_parse_action_id, parse_action_id_argument};

verus! {

/// Arguments to split a token amount according to a rate
#[derive(Clone, Copy, Debug, PartialEq, Eq, Structural)]
pub struct SplitArgs {
    /// Action ID for the split
    pub action_id: u64,
}

impl SplitArgs {
    /// Fixed size: action_id (8 bytes)
    pub const LEN: usize = ACTION_ID_LEN;

    /// The serialized arguments.
    pub open spec fn spec_to_bytes(self) -> Seq<u8> {
        le64(self.action_id)
    }

    /// The arguments that exactly eight bytes encode; the action identifier must be non-zero.
    pub open spec fn spec_try_from_bytes(data: Seq<u8>) -> Result<SplitArgs, ProgramError> {
        match spec_parse_action_id(data) {
            Ok(action_id) => Ok(SplitArgs { action_id }),
            Err(e) => Err(e),
        }
    }

    /// Deserialize arguments from bytes
    pub fn try_from_bytes(data: &[u8]) -> (r: Result<SplitArgs, ProgramError>)
        ensures
            r == Self::spec_try_from_bytes(data@),
    {
        if data.len() != Self::LEN {
            return Err(ProgramError::InvalidInstructionData);
        }
        let action_id = parse_action_id_argument(data)?;
        Ok(SplitArgs { action_id })
    }

    /// Pack the arguments into bytes
    pub fn to_bytes_inner(&self) -> (r: Vec<u8>)
        ensures
            r@ == self.spec_to_bytes(),
    {
        let mut data: Vec<u8> = Vec::with_capacity(Self::LEN);
        push_u64(&mut data, self.action_id);
        assert(data@ =~= le64(self.action_id));
        data
    }
}

/// Serializing split arguments and parsing the bytes gives them back exactly when the
/// action identifier is non-zero; accepted bytes are the serialization of what was read.
pub proof fn lemma_split_args_roundtrip(a: SplitArgs, data: Seq<u8>)
    ensures
        SplitArgs::spec_try_from_bytes(a.spec_to_bytes()) is Ok <==> a.action_id != 0,
        a.action_id != 0 ==> SplitArgs::spec_try_from_bytes(a.spec_to_bytes()) == Ok::<SplitArgs, ProgramError>(a),
        SplitArgs::spec_try_from_bytes(data) matches Ok(b) ==> b.spec_to_bytes() == data,
{
    lemma_le_roundtrips();
}

} // verus!
