//! Arguments of the rate account instructions and the action identifier they share.
use vstd::prelude::*;
use crate::bytes::{from_le64, le64, read_u64, push_u64, push_all, lemma_le_roundtrips};
use crate::constants::ACTION_ID_LEN;
use crate::error::ProgramError;
use crate::state::rate::{Rounding, spec_rounding_from_u8};

verus! {

/// Serialized size of an action identifier followed by rate arguments.
pub const ACTION_AND_RATE_ARGS_LEN: usize = 11;

/// The action identifier encoded in `data`: exactly eight little-endian bytes that
/// are not all zero.
pub open spec fn spec_parse_action_id(data: Seq<u8>) -> Result<u64, ProgramError> {
    if data.len() != 8 {
        Err(ProgramError::InvalidInstructionData)
    } else if from_le64(data) == 0 {
        Err(ProgramError::InvalidArgument)
    } else {
        Ok(from_le64(data))
    }
}

/// Parse action_id from bytes
pub fn parse_action_id_argument(data: &[u8]) -> (r: Result<u64, ProgramError>)
    ensures
        r == spec_parse_action_id(data@),
{
    if data.len() != ACTION_ID_LEN {
        return Err(ProgramError::InvalidInstructionData);
    }
    let action_id = read_u64(data, 0);
    assert(data@.subrange(0, 8) =~= data@);
    if action_id == 0 {
        return Err(ProgramError::InvalidArgument);
    }
    Ok(action_id)
}

/// Rate configuration arguments
#[derive(Clone, Copy, Debug, PartialEq, Eq, Structural)]
pub struct RateArgs {
    /// Rounding direction (0 = Up, 1 = Down)
    pub rounding: u8,
    /// Rate numerator
    pub numerator: u8,
    /// Rate denominator
    pub denominator: u8,
}

/// Rate configuration arguments under the name the update instruction uses.
pub type RateConfig = RateArgs;

impl RateArgs {
    /// rounding + numerator + denominator
    pub const LEN: usize = 3;

    /// Rate arguments that parsing accepts: a known rounding and non-zero terms.
    pub open spec fn valid(self) -> bool {
        &&& spec_rounding_from_u8(self.rounding) is Ok
        &&& self.numerator != 0
        &&& self.denominator != 0
    }

    /// The three bytes of rate arguments.
    pub open spec fn spec_to_bytes(self) -> Seq<u8> {
        seq![self.rounding, self.numerator, self.denominator]
    }

    /// The rate arguments read from the first three bytes of `data`.
    pub open spec fn spec_try_from_bytes(data: Seq<u8>) -> Result<RateArgs, ProgramError> {
        if data.len() < 3 {
            Err(ProgramError::InvalidInstructionData)
        } else if spec_rounding_from_u8(data[0]) is Err {
            Err(ProgramError::InvalidArgument)
        } else if data[1] == 0 || data[2] == 0 {
            Err(ProgramError::InvalidArgument)
        } else {
            Ok(RateArgs { rounding: data[0], numerator: data[1], denominator: data[2] })
        }
    }

    /// Parse rate arguments from the start of `data`; bytes after the first three are ignored.
    pub fn try_from_bytes(data: &[u8]) -> (r: Result<RateArgs, ProgramError>)
        ensures
            r == Self::spec_try_from_bytes(data@),
    {
        if data.len() < Self::LEN {
            return Err(ProgramError::InvalidInstructionData);
        }
        let rounding = match Rounding::try_from(data[0]) {
            Ok(r) => r,
            Err(_) => return Err(ProgramError::InvalidArgument),
        };
        let numerator = data[1];
        let denominator = data[2];
        if denominator == 0 || numerator == 0 {
            return Err(ProgramError::InvalidArgument);
        }
        Ok(RateArgs { rounding: rounding.to_u8(), numerator, denominator })
    }

    /// Serialize the rate arguments.
    pub fn to_bytes_inner(&self) -> (r: Vec<u8>)
        ensures
            r@ == self.spec_to_bytes(),
    {
        let mut data: Vec<u8> = Vec::with_capacity(Self::LEN);
        data.push(self.rounding);
        data.push(self.numerator);
        data.push(self.denominator);
        assert(data@ =~= self.spec_to_bytes());
        data
    }
}

/// Arguments to create Rate account
#[derive(Clone, Copy, Debug, PartialEq, Eq, Structural)]
pub struct CreateRateArgs {
    /// Action ID for the rate creation
    pub action_id: u64,
    /// Rate configuration arguments
    pub rate: RateArgs,
}

impl CreateRateArgs {
    /// action_id + rate arguments
    pub const LEN: usize = 11;

    /// Arguments that parsing accepts.
    pub open spec fn valid(self) -> bool {
        self.action_id != 0 && self.rate.valid()
    }

    /// The serialized arguments.
    pub open spec fn spec_to_bytes(self) -> Seq<u8> {
        le64(self.action_id) + self.rate.spec_to_bytes()
    }

    /// The arguments read from `data`: a non-zero action identifier and rate arguments;
    /// bytes after the first eleven are ignored.
    pub open spec fn spec_try_from_bytes(data: Seq<u8>) -> Result<CreateRateArgs, ProgramError> {
        if data.len() < 11 {
            Err(ProgramError::InvalidInstructionData)
        } else if from_le64(data.subrange(0, 8)) == 0 {
            Err(ProgramError::InvalidArgument)
        } else {
            match RateArgs::spec_try_from_bytes(data.subrange(8, data.len() as int)) {
                Ok(rate) => Ok(CreateRateArgs { action_id: from_le64(data.subrange(0, 8)), rate }),
                Err(e) => Err(e),
            }
        }
    }

    /// Parse the arguments.
    pub fn try_from_bytes(data: &[u8]) -> (r: Result<CreateRateArgs, ProgramError>)
        ensures
            r == Self::spec_try_from_bytes(data@),
    {
        if data.len() < Self::LEN {
            return Err(ProgramError::InvalidInstructionData);
        }
        let action_id = read_u64(data, 0);
        if action_id == 0 {
            return Err(ProgramError::InvalidArgument);
        }
        let rate = RateArgs::try_from_bytes(vstd::slice::slice_subrange(data, 8, data.len()))?;
        Ok(CreateRateArgs { action_id, rate })
    }

    /// Serialize the arguments.
    pub fn to_bytes_inner(&self) -> (r: Vec<u8>)
        ensures
            r@ == self.spec_to_bytes(),
    {
        let mut data: Vec<u8> = Vec::with_capacity(Self::LEN);
        push_u64(&mut data, self.action_id);
        let rate = self.rate.to_bytes_inner();
        push_all(&mut data, rate.as_slice());
        data
    }
}

/// The action identifier and rate arguments encoded in exactly eleven bytes.
pub open spec fn spec_parse_action_and_rate(data: Seq<u8>) -> Result<(u64, RateArgs), ProgramError> {
    if data.len() != 11 {
        Err(ProgramError::InvalidInstructionData)
    } else {
        match spec_parse_action_id(data.subrange(0, 8)) {
            Err(e) => Err(e),
            Ok(id) => match RateArgs::spec_try_from_bytes(data.subrange(8, 11)) {
                Err(e) => Err(e),
                Ok(rate) => Ok((id, rate)),
            },
        }
    }
}

/// Parse (action_id, RateArgs) from bytes
pub fn parse_action_and_rate(data: &[u8]) -> (r: Result<(u64, RateArgs), ProgramError>)
    ensures
        r == spec_parse_action_and_rate(data@),
{
    if data.len() != ACTION_AND_RATE_ARGS_LEN {
        return Err(ProgramError::InvalidInstructionData);
    }
    let action_id = parse_action_id_argument(vstd::slice::slice_subrange(data, 0, ACTION_ID_LEN))?;
    let rate = RateArgs::try_from_bytes(vstd::slice::slice_subrange(data, ACTION_ID_LEN, data.len()))?;
    Ok((action_id, rate))
}

/// Serialize (action_id, Rate arguments) into bytes
pub fn serialize_action_and_rate(action_id: u64, rate: &RateArgs) -> (r: Vec<u8>)
    ensures
        r@ == le64(action_id) + rate.spec_to_bytes(),
{
    let mut data: Vec<u8> = Vec::with_capacity(ACTION_AND_RATE_ARGS_LEN);
    push_u64(&mut data, action_id);
    let bytes = rate.to_bytes_inner();
    push_all(&mut data, bytes.as_slice());
    data
}

/// Arguments for updating Rate account
#[derive(Clone, Copy, Debug, PartialEq, Eq, Structural)]
pub struct UpdateRateArgs {
    /// Action ID for the rate update
    pub action_id: u64,
    /// Rate configuration arguments
    pub rate: RateConfig,
}

impl UpdateRateArgs {
    /// Fixed size: action_id (8 bytes) + rate arguments (3 bytes) = 11 bytes
    pub const LEN: usize = ACTION_AND_RATE_ARGS_LEN;

    /// Parse the arguments.
    pub fn try_from_bytes(data: &[u8]) -> (r: Result<UpdateRateArgs, ProgramError>)
        ensures
            r == (match spec_parse_action_and_rate(data@) {
                Ok((action_id, rate)) => Ok(UpdateRateArgs { action_id, rate }),
                Err(e) => Err(e),
            }),
    {
        let (action_id, rate) = parse_action_and_rate(data)?;
        Ok(UpdateRateArgs { action_id, rate })
    }

    /// Serialize the arguments.
    pub fn to_bytes_inner(&self) -> (r: Vec<u8>)
        ensures
            r@ == le64(self.action_id) + self.rate.spec_to_bytes(),
    {
        serialize_action_and_rate(self.action_id, &self.rate)
    }
}

/// Arguments to close Rate account
#[derive(Clone, Copy, Debug, PartialEq, Eq, Structural)]
pub struct CloseRateArgs {
    /// Action ID of the Rate
    pub action_id: u64,
}

impl CloseRateArgs {
    /// Parse CloseRateArgs from bytes
    pub fn try_from_bytes(data: &[u8]) -> (r: Result<CloseRateArgs, ProgramError>)
        ensures
            r == (match spec_parse_action_id(data@) {
                Ok(action_id) => Ok(CloseRateArgs { action_id }),
                Err(e) => Err(e),
            }),
    {
        let action_id = parse_action_id_argument(data)?;
        Ok(CloseRateArgs { action_id })
    }
}

/// Reading the encoding of a non-zero action identifier gives it back, and an accepted
/// encoding is the encoding of what was read.
pub proof fn lemma_action_id_roundtrip(id: u64, data: Seq<u8>)
    ensures
        id != 0 ==> spec_parse_action_id(le64(id)) == Ok::<u64, ProgramError>(id),
        spec_parse_action_id(le64(0)) == Err::<u64, ProgramError>(ProgramError::InvalidArgument),
        spec_parse_action_id(data) matches Ok(v) ==> le64(v) == data,
{
    lemma_le_roundtrips();
}

/// Serializing valid rate arguments and parsing the bytes gives them back; parsing
/// accepts exactly the valid ones.
pub proof fn lemma_rate_args_roundtrip(a: RateArgs, data: Seq<u8>)
    ensures
        RateArgs::spec_try_from_bytes(a.spec_to_bytes()) is Ok <==> a.valid(),
        a.valid() ==> RateArgs::spec_try_from_bytes(a.spec_to_bytes()) == Ok::<RateArgs, ProgramError>(a),
        RateArgs::spec_try_from_bytes(data) matches Ok(b) ==> b.valid() && b.spec_to_bytes() == data.subrange(0, 3),
{
}

/// Serializing valid rate creation arguments and parsing the bytes gives them back.
pub proof fn lemma_create_rate_args_roundtrip(a: CreateRateArgs, data: Seq<u8>)
    ensures
        CreateRateArgs::spec_try_from_bytes(a.spec_to_bytes()) is Ok <==> a.valid(),
        a.valid() ==> CreateRateArgs::spec_try_from_bytes(a.spec_to_bytes()) == Ok::<CreateRateArgs, ProgramError>(a),
        CreateRateArgs::spec_try_from_bytes(data) matches Ok(b) ==> b.valid() && b.spec_to_bytes() == data.subrange(0, 11),
{
    lemma_le_roundtrips();
    let s = a.spec_to_bytes();
    assert(s.subrange(0, 8) =~= le64(a.action_id));
    assert(s.subrange(8, s.len() as int) =~= a.rate.spec_to_bytes());
    if let Ok(b) = CreateRateArgs::spec_try_from_bytes(data) {
        assert(data.subrange(0, 8).len() == 8);
        assert(b.spec_to_bytes() =~= data.subrange(0, 11));
    }
}

/// Serializing an action identifier with valid rate arguments and parsing the eleven
/// bytes gives both back; an accepted input is the serialization of what was read.
pub proof fn lemma_action_and_rate_roundtrip(id: u64, rate: RateArgs, data: Seq<u8>)
    ensures
        spec_parse_action_and_rate(le64(id) + rate.spec_to_bytes()) is Ok <==> (id != 0 && rate.valid()),
        id != 0 && rate.valid() ==> spec_parse_action_and_rate(le64(id) + rate.spec_to_bytes())
            == Ok::<(u64, RateArgs), ProgramError>((id, rate)),
        spec_parse_action_and_rate(data) matches Ok((i, r)) ==> le64(i) + r.spec_to_bytes() == data,
{
    lemma_le_roundtrips();
    let s = le64(id) + rate.spec_to_bytes();
    assert(s.subrange(0, 8) =~= le64(id));
    assert(s.subrange(8, 11) =~= rate.spec_to_bytes());
    if let Ok((i, r)) = spec_parse_action_and_rate(data) {
        assert(data.subrange(0, 8).len() == 8);
        assert(le64(i) + r.spec_to_bytes() =~= data);
    }
}

} // verus!
