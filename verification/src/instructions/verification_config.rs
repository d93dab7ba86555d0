//! Arguments of the instructions that create, extend and trim verification configs.
use vstd::prelude::*;
use crate::bytes::{
    Pubkey, key_views, is_zero_key, all_32_bytes, spec_key_list_bytes, spec_key_list_from_bytes, parse_key_list,
    push_key_list, is_default_key, lemma_key_list_roundtrip,
};
use crate::constants::MAX_VERIFICATION_PROGRAMS;
use crate::error::{ProgramError, map_ok};

verus! {

/// No address of `keys` is the all-zero address.
pub open spec fn no_zero_key(keys: Seq<Seq<u8>>) -> bool {
    forall|i: int| 0 <= i < keys.len() ==> !is_zero_key(#[trigger] keys[i])
}

/// Copies a slice of addresses into a vector.
fn addresses_to_vec(addresses: &[Pubkey]) -> (r: Vec<Pubkey>)
    ensures
        r@ == addresses@,
{
    vstd::slice::slice_to_vec(addresses)
}

/// Whether some address of `keys` is the all-zero address.
pub fn contains_zero_key(keys: &[Pubkey]) -> (r: bool)
    ensures
        r == !no_zero_key(key_views(keys@)),
{
    let mut i: usize = 0;
    while i < keys.len()
        invariant
            0 <= i <= keys@.len(),
            forall|j: int| 0 <= j < i ==> !is_zero_key(#[trigger] key_views(keys@)[j]),
        decreases keys@.len() - i,
    {
        if is_default_key(&keys[i]) {
            assert(is_zero_key(key_views(keys@)[i as int]));
            return true;
        }
        i = i + 1;
    }
    false
}

/// Arguments to create a verification config for one instruction
pub struct InitializeVerificationConfigArgs {
    /// Discriminant of the instruction the config guards
    pub instruction_discriminator: u8,
    /// Whether verification programs are called (CPI) rather than looked up in the transaction
    pub cpi_mode: bool,
    /// The verification programs
    pub program_addresses: Vec<Pubkey>,
}

impl InitializeVerificationConfigArgs {
    /// instruction discriminator (1) + cpi mode (1) + program count (4)
    pub const MIN_LEN: usize = 6;

    /// The fields, with the addresses taken as byte sequences.
    pub open spec fn spec_fields(self) -> (u8, bool, Seq<Seq<u8>>) {
        (self.instruction_discriminator, self.cpi_mode, key_views(self.program_addresses@))
    }

    /// The serialized arguments.
    pub open spec fn spec_to_bytes(self) -> Seq<u8> {
        seq![self.instruction_discriminator, if self.cpi_mode { 1u8 } else { 0u8 }]
            + spec_key_list_bytes(key_views(self.program_addresses@))
    }

    /// The fields that `data` encodes: the instruction discriminant, the CPI flag (any
    /// non-zero byte is true) and the counted list of addresses; later bytes are ignored.
    pub open spec fn spec_try_from_bytes(data: Seq<u8>) -> Result<(u8, bool, Seq<Seq<u8>>), ProgramError> {
        if data.len() < 6 {
            Err(ProgramError::InvalidInstructionData)
        } else {
            match spec_key_list_from_bytes(data.subrange(2, data.len() as int)) {
                Some(keys) => Ok((data[0], data[1] != 0, keys)),
                None => Err(ProgramError::InvalidInstructionData),
            }
        }
    }

    /// Arguments that validation accepts: at most ten programs, none of them the zero address.
    pub open spec fn valid(self) -> bool {
        self.program_addresses@.len() <= 10 && no_zero_key(key_views(self.program_addresses@))
    }

    /// Build the arguments.
    pub fn new(
        instruction_discriminator: u8,
        cpi_mode: bool,
        program_addresses: &[Pubkey],
    ) -> (r: Result<InitializeVerificationConfigArgs, ProgramError>)
        ensures
            r matches Ok(a) && a.instruction_discriminator == instruction_discriminator && a.cpi_mode == cpi_mode
                && a.program_addresses@ == program_addresses@,
    {
        Ok(InitializeVerificationConfigArgs {
            instruction_discriminator,
            cpi_mode,
            program_addresses: addresses_to_vec(program_addresses),
        })
    }

    /// Serialize the arguments.
    pub fn to_bytes_inner(&self) -> (r: Vec<u8>)
        ensures
            r@ == self.spec_to_bytes(),
    {
        let mut data: Vec<u8> = Vec::new();
        data.push(self.instruction_discriminator);
        data.push(if self.cpi_mode { 1u8 } else { 0u8 });
        push_key_list(&mut data, &self.program_addresses);
        assert(data@ =~= self.spec_to_bytes());
        data
    }

    /// Parse the arguments.
    pub fn try_from_bytes(data: &[u8]) -> (r: Result<InitializeVerificationConfigArgs, ProgramError>)
        ensures
            map_ok(r, |a: InitializeVerificationConfigArgs| a.spec_fields()) == Self::spec_try_from_bytes(data@),
    {
        let len = data.len();
        if len < Self::MIN_LEN {
            return Err(ProgramError::InvalidInstructionData);
        }
        let instruction_discriminator = data[0];
        let cpi_mode = data[1];
        match parse_key_list(vstd::slice::slice_subrange(data, 2, len)) {
            Some(program_addresses) => Ok(InitializeVerificationConfigArgs {
                instruction_discriminator,
                cpi_mode: cpi_mode != 0,
                program_addresses,
            }),
            None => Err(ProgramError::InvalidInstructionData),
        }
    }

    /// Check the program list: at most ten programs and no zero address.
    pub fn validate(&self) -> (r: Result<(), ProgramError>)
        ensures
            r == (if self.valid() { Ok(()) } else { Err(ProgramError::InvalidArgument) }),
    {
        if self.program_addresses.len() > MAX_VERIFICATION_PROGRAMS {
            return Err(ProgramError::InvalidArgument);
        }
        if contains_zero_key(self.program_addresses.as_slice()) {
            return Err(ProgramError::InvalidArgument);
        }
        Ok(())
    }

    /// The number of programs, truncated to a byte.
    pub fn program_count(&self) -> (r: u8)
        ensures
            r == self.program_addresses@.len() as u8,
    {
        #[verifier::truncate]
        (self.program_addresses.len() as u8)
    }

    /// The programs.
    pub fn program_addresses(&self) -> (r: &[Pubkey])
        ensures
            r@ == self.program_addresses@,
    {
        self.program_addresses.as_slice()
    }

    /// The program at `index`, if there is one.
    pub fn get_program_address(&self, index: usize) -> (r: Option<Pubkey>)
        ensures
            index < self.program_addresses@.len() ==> r == Some(self.program_addresses@[index as int]),
            index >= self.program_addresses@.len() ==> r is None,
    {
        if index < self.program_addresses.len() {
            Some(self.program_addresses[index])
        } else {
            None
        }
    }
}

/// Arguments to write programs into an existing verification config
pub struct UpdateVerificationConfigArgs {
    /// Discriminant of the instruction the config guards
    pub instruction_discriminator: u8,
    /// Whether verification programs are called (CPI) rather than looked up in the transaction
    pub cpi_mode: bool,
    /// Position in the program list at which the programs are written
    pub offset: u8,
    /// The programs to write
    pub program_addresses: Vec<Pubkey>,
}

impl UpdateVerificationConfigArgs {
    /// instruction discriminator (1) + cpi mode (1) + offset (1) + program count (4)
    pub const MIN_LEN: usize = 7;

    /// The fields, with the addresses taken as byte sequences.
    pub open spec fn spec_fields(self) -> (u8, bool, u8, Seq<Seq<u8>>) {
        (self.instruction_discriminator, self.cpi_mode, self.offset, key_views(self.program_addresses@))
    }

    /// The serialized arguments.
    pub open spec fn spec_to_bytes(self) -> Seq<u8> {
        seq![self.instruction_discriminator, if self.cpi_mode { 1u8 } else { 0u8 }, self.offset]
            + spec_key_list_bytes(key_views(self.program_addresses@))
    }

    /// The fields that `data` encodes: discriminant, CPI flag (non-zero is true), offset
    /// and the counted list of addresses; later bytes are ignored.
    pub open spec fn spec_try_from_bytes(data: Seq<u8>) -> Result<(u8, bool, u8, Seq<Seq<u8>>), ProgramError> {
        if data.len() < 7 {
            Err(ProgramError::InvalidInstructionData)
        } else {
            match spec_key_list_from_bytes(data.subrange(3, data.len() as int)) {
                Some(keys) => Ok((data[0], data[1] != 0, data[2], keys)),
                None => Err(ProgramError::InvalidInstructionData),
            }
        }
    }

    /// Arguments that validation accepts: the programs fit in the ten slots from the
    /// offset, which is itself below ten, and none is the zero address.
    pub open spec fn valid(self) -> bool {
        &&& self.offset < 10
        &&& self.offset + self.program_addresses@.len() <= 10
        &&& no_zero_key(key_views(self.program_addresses@))
    }

    /// Build the arguments.
    pub fn new(
        instruction_discriminator: u8,
        cpi_mode: bool,
        program_addresses: &[Pubkey],
        offset: u8,
    ) -> (r: Result<UpdateVerificationConfigArgs, ProgramError>)
        ensures
            r matches Ok(a) && a.instruction_discriminator == instruction_discriminator && a.cpi_mode == cpi_mode
                && a.offset == offset && a.program_addresses@ == program_addresses@,
    {
        Ok(UpdateVerificationConfigArgs {
            instruction_discriminator,
            cpi_mode,
            program_addresses: addresses_to_vec(program_addresses),
            offset,
        })
    }

    /// Serialize the arguments.
    pub fn to_bytes_inner(&self) -> (r: Vec<u8>)
        ensures
            r@ == self.spec_to_bytes(),
    {
        let mut data: Vec<u8> = Vec::new();
        data.push(self.instruction_discriminator);
        data.push(if self.cpi_mode { 1u8 } else { 0u8 });
        data.push(self.offset);
        push_key_list(&mut data, &self.program_addresses);
        assert(data@ =~= self.spec_to_bytes());
        data
    }

    /// Parse the arguments.
    pub fn try_from_bytes(data: &[u8]) -> (r: Result<UpdateVerificationConfigArgs, ProgramError>)
        ensures
            map_ok(r, |a: UpdateVerificationConfigArgs| a.spec_fields()) == Self::spec_try_from_bytes(data@),
    {
        let len = data.len();
        if len < Self::MIN_LEN {
            return Err(ProgramError::InvalidInstructionData);
        }
        let instruction_discriminator = data[0];
        let cpi_mode = data[1];
        let offset = data[2];
        match parse_key_list(vstd::slice::slice_subrange(data, 3, len)) {
            Some(program_addresses) => Ok(UpdateVerificationConfigArgs {
                instruction_discriminator,
                cpi_mode: cpi_mode != 0,
                program_addresses,
                offset,
            }),
            None => Err(ProgramError::InvalidInstructionData),
        }
    }

    /// Check the offset and the programs.
    pub fn validate(&self) -> (r: Result<(), ProgramError>)
        ensures
            r == (if self.valid() { Ok(()) } else { Err(ProgramError::InvalidArgument) }),
    {
        if self.offset >= 10u8 {
            return Err(ProgramError::InvalidArgument);
        }
        if self.program_addresses.len() > MAX_VERIFICATION_PROGRAMS - self.offset as usize {
            return Err(ProgramError::InvalidArgument);
        }
        if contains_zero_key(self.program_addresses.as_slice()) {
            return Err(ProgramError::InvalidArgument);
        }
        Ok(())
    }

    /// The programs.
    pub fn program_addresses(&self) -> (r: &[Pubkey])
        ensures
            r@ == self.program_addresses@,
    {
        self.program_addresses.as_slice()
    }

    /// The offset at which the programs are written.
    pub fn offset(&self) -> (r: u8)
        ensures
            r == self.offset,
    {
        self.offset
    }
}

/// Arguments to shrink or close a verification config
#[derive(Clone, Copy, Debug, PartialEq, Eq, Structural)]
pub struct TrimVerificationConfigArgs {
    /// Discriminant of the instruction the config guards
    pub instruction_discriminator: u8,
    /// Number of programs to keep
    pub size: u8,
    /// Whether to close the config account
    pub close: bool,
}

impl TrimVerificationConfigArgs {
    /// instruction discriminator (1) + size (1) + close flag (1)
    pub const LEN: usize = 3;

    /// The serialized arguments.
    pub open spec fn spec_to_bytes(self) -> Seq<u8> {
        seq![self.instruction_discriminator, self.size, if self.close { 1u8 } else { 0u8 }]
    }

    /// The arguments that the first three bytes of `data` encode (a non-zero close byte
    /// is true).
    pub open spec fn spec_try_from_bytes(data: Seq<u8>) -> Result<TrimVerificationConfigArgs, ProgramError> {
        if data.len() < 3 {
            Err(ProgramError::InvalidInstructionData)
        } else {
            Ok(TrimVerificationConfigArgs { instruction_discriminator: data[0], size: data[1], close: data[2] != 0 })
        }
    }

    /// Build the arguments.
    pub fn new(instruction_discriminator: u8, size: u8, close: bool) -> (r: Result<TrimVerificationConfigArgs, ProgramError>)
        ensures
            r == Ok::<TrimVerificationConfigArgs, ProgramError>(TrimVerificationConfigArgs { instruction_discriminator, size, close }),
    {
        Ok(TrimVerificationConfigArgs { instruction_discriminator, size, close })
    }

    /// Serialize the arguments.
    pub fn to_bytes_inner(&self) -> (r: Vec<u8>)
        ensures
            r@ == self.spec_to_bytes(),
    {
        let mut data: Vec<u8> = Vec::with_capacity(Self::LEN);
        data.push(self.instruction_discriminator);
        data.push(self.size);
        data.push(if self.close { 1u8 } else { 0u8 });
        assert(data@ =~= self.spec_to_bytes());
        data
    }

    /// Parse the arguments.
    pub fn try_from_bytes(data: &[u8]) -> (r: Result<TrimVerificationConfigArgs, ProgramError>)
        ensures
            r == Self::spec_try_from_bytes(data@),
    {
        if data.len() < Self::LEN {
            return Err(ProgramError::InvalidInstructionData);
        }
        Ok(TrimVerificationConfigArgs { instruction_discriminator: data[0], size: data[1], close: data[2] != 0 })
    }
}

/// Serializing config creation arguments (fewer than 2^32 programs) and parsing the
/// bytes gives the fields back.
pub proof fn lemma_initialize_verification_config_args_roundtrip(a: InitializeVerificationConfigArgs)
    requires
        a.program_addresses@.len() <= u32::MAX,
    ensures
        InitializeVerificationConfigArgs::spec_try_from_bytes(a.spec_to_bytes())
            == Ok::<(u8, bool, Seq<Seq<u8>>), ProgramError>(a.spec_fields()),
{
    let keys = key_views(a.program_addresses@);
    assert(all_32_bytes(keys));
    lemma_key_list_roundtrip(keys, Seq::empty());
    let s = a.spec_to_bytes();
    assert(s.subrange(2, s.len() as int) =~= spec_key_list_bytes(keys) + Seq::<u8>::empty());
}

/// Serializing config update arguments (fewer than 2^32 programs) and parsing the bytes
/// gives the fields back.
pub proof fn lemma_update_verification_config_args_roundtrip(a: UpdateVerificationConfigArgs)
    requires
        a.program_addresses@.len() <= u32::MAX,
    ensures
        UpdateVerificationConfigArgs::spec_try_from_bytes(a.spec_to_bytes())
            == Ok::<(u8, bool, u8, Seq<Seq<u8>>), ProgramError>(a.spec_fields()),
{
    let keys = key_views(a.program_addresses@);
    assert(all_32_bytes(keys));
    lemma_key_list_roundtrip(keys, Seq::empty());
    let s = a.spec_to_bytes();
    assert(s.subrange(3, s.len() as int) =~= spec_key_list_bytes(keys) + Seq::<u8>::empty());
}

/// Serializing trim arguments and parsing the bytes gives them back.
pub proof fn lemma_trim_verification_config_args_roundtrip(a: TrimVerificationConfigArgs)
    ensures
        TrimVerificationConfigArgs::spec_try_from_bytes(a.spec_to_bytes()) == Ok::<TrimVerificationConfigArgs, ProgramError>(a),
{
}

} // verus!
