//! Arguments of the convert instruction.
use vstd::prelude::*;
use crate::bytes::{le64, from_le64, read_u64, push_u64, lemma_le_roundtrips};
use crate::constants::ACTION_ID_LEN;
use crate::error::ProgramError;
use crate::instructions::rate_account::parse_action_id_argument;

verus! {

/// Arguments to convert a token A to token B according to the rate
#[derive(Clone, Copy, Debug, PartialEq, Eq, Structural)]
pub struct ConvertArgs {
    /// Action ID for the conversion operation
    pub action_id: u64,
    /// Amount to convert from token A to token B
    pub amount_to_convert: u64,
}

impl ConvertArgs {
    /// Fixed size: action_id (8 bytes) + amount (8 bytes) = 16 bytes
    pub const LEN: usize = 16;

    /// Arguments that parsing accepts: both fields non-zero.
    pub open spec fn valid(self) -> bool {
        self.action_id != 0 && self.amount_to_convert != 0
    }

    /// The serialized arguments.
    pub open spec fn spec_to_bytes(self) -> Seq<u8> {
        le64(self.action_id) + le64(self.amount_to_convert)
    }

    /// The arguments that exactly sixteen bytes encode; both fields must be non-zero.
    pub open spec fn spec_try_from_bytes(data: Seq<u8>) -> Result<ConvertArgs, ProgramError> {
        if data.len() != 16 {
            Err(ProgramError::InvalidInstructionData)
        } else if from_le64(data.subrange(0, 8)) == 0 || from_le64(data.subrange(8, 16)) == 0 {
            Err(ProgramError::InvalidArgument)
        } else {
            Ok(ConvertArgs {
                action_id: from_le64(data.subrange(0, 8)),
                amount_to_convert: from_le64(data.subrange(8, 16)),
            })
        }
    }

    /// Parse the arguments.
    pub fn try_from_bytes(data: &[u8]) -> (r: Result<ConvertArgs, ProgramError>)
        ensures
            r == Self::spec_try_from_bytes(data@),
    {
        if data.len() != Self::LEN {
            return Err(ProgramError::InvalidInstructionData);
        }
        let head = vstd::slice::slice_subrange(data, 0, ACTION_ID_LEN);
        let action_id = parse_action_id_argument(head)?;
        let amount_to_convert = read_u64(data, ACTION_ID_LEN);
        if amount_to_convert == 0 {
            return Err(ProgramError::InvalidArgument);
        }
        Ok(ConvertArgs { action_id, amount_to_convert })
    }

    /// Serialize the arguments.
    pub fn to_bytes_inner(&self) -> (r: Vec<u8>)
        ensures
            r@ == self.spec_to_bytes(),
    {
        let mut data: Vec<u8> = Vec::with_capacity(Self::LEN);
        push_u64(&mut data, self.action_id);
        push_u64(&mut data, self.amount_to_convert);
        assert(data@ =~= self.spec_to_bytes());
        data
    }
}

/// Serializing conversion arguments and parsing the bytes gives them back exactly when
/// both fields are non-zero; accepted bytes are the serialization of what was read.
pub proof fn lemma_convert_args_roundtrip(a: ConvertArgs, data: Seq<u8>)
    ensures
        ConvertArgs::spec_try_from_bytes(a.spec_to_bytes()) is Ok <==> a.valid(),
        a.valid() ==> ConvertArgs::spec_try_from_bytes(a.spec_to_bytes()) == Ok::<ConvertArgs, ProgramError>(a),
        ConvertArgs::spec_try_from_bytes(data) matches Ok(b) ==> b.valid() && b.spec_to_bytes() == data,
{
    lemma_le_roundtrips();
    let s = a.spec_to_bytes();
    assert(s.subrange(0, 8) =~= le64(a.action_id));
    assert(s.subrange(8, 16) =~= le64(a.amount_to_convert));
    if let Ok(b) = ConvertArgs::spec_try_from_bytes(data) {
        assert(data.subrange(0, 8).len() == 8);
        assert(data.subrange(8, 16).len() == 8);
        assert(b.spec_to_bytes() =~= data);
    }
}

} // verus!
