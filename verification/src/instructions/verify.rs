//! Arguments of the instruction that checks another instruction against its config.
use vstd::prelude::*;
use crate::bytes::{from_le32, read_u32, copy_range};
use crate::error::{ProgramError, map_ok};
use crate::instruction::SecurityTokenInstruction;

verus! {

/// Largest instruction data that can be checked (10 KiB).
pub const MAX_INSTRUCTION_DATA_LEN: usize = 10240;

/// Arguments to verify an instruction of the program
pub struct VerifyArgs {
    /// Discriminant of the instruction to verify
    pub ix: u8,
    /// Data of the instruction to verify
    pub instruction_data: Vec<u8>,
}

impl VerifyArgs {
    /// discriminant (1) + data length (4)
    pub const MIN_LEN: usize = 5;

    /// The fields.
    pub open spec fn spec_fields(self) -> (u8, Seq<u8>) {
        (self.ix, self.instruction_data@)
    }

    /// The fields that `data` encodes: the discriminant of an instruction of the program,
    /// a little-endian `u32` length of at most 10240, and that many data bytes; later
    /// bytes are ignored.
    pub open spec fn spec_try_from_bytes(data: Seq<u8>) -> Result<(u8, Seq<u8>), ProgramError> {
        if data.len() < 5 {
            Err(ProgramError::InvalidInstructionData)
        } else if SecurityTokenInstruction::spec_from_discriminant(data[0]) is None {
            Err(ProgramError::InvalidInstructionData)
        } else {
            let n = from_le32(data.subrange(1, 5)) as int;
            if n > 10240 || data.len() < 5 + n {
                Err(ProgramError::InvalidInstructionData)
            } else {
                Ok((data[0], data.subrange(5, 5 + n)))
            }
        }
    }

    /// Parse the arguments.
    pub fn try_from_bytes(data: &[u8]) -> (r: Result<VerifyArgs, ProgramError>)
        ensures
            map_ok(r, |a: VerifyArgs| a.spec_fields()) == Self::spec_try_from_bytes(data@),
    {
        let len = data.len();
        if len < Self::MIN_LEN {
            return Err(ProgramError::InvalidInstructionData);
        }
        let discriminant = data[0];
        if SecurityTokenInstruction::from_discriminant(discriminant).is_none() {
            return Err(ProgramError::InvalidInstructionData);
        }
        let vec_len = read_u32(data, 1) as usize;
        if vec_len > MAX_INSTRUCTION_DATA_LEN {
            return Err(ProgramError::InvalidInstructionData);
        }
        if len - 5 < vec_len {
            return Err(ProgramError::InvalidInstructionData);
        }
        let instruction_data = copy_range(data, 5, vec_len);
        Ok(VerifyArgs { ix: discriminant, instruction_data })
    }
}

} // verus!
