//! Arguments of the instruction that updates the token metadata of a mint.
use vstd::prelude::*;
use crate::error::{ProgramError, map_ok};
use crate::instructions::initialize_mint::{
    TokenMetadataArgs, TokenMetadataArgsView, spec_metadata_args_bytes, spec_metadata_args_from_bytes,
    spec_metadata_args_overruns,
};

verus! {

/// Arguments to update the token metadata of a mint
pub struct UpdateMetadataArgs {
    /// The new metadata
    pub metadata: TokenMetadataArgs,
}

impl UpdateMetadataArgs {
    /// Build the arguments.
    pub fn new(metadata: TokenMetadataArgs) -> (r: UpdateMetadataArgs)
        ensures
            r.metadata == metadata,
    {
        UpdateMetadataArgs { metadata }
    }

    /// Serialize the arguments: the metadata in Borsh layout.
    pub fn to_bytes_inner(&self) -> (r: Vec<u8>)
        ensures
            r@ == spec_metadata_args_bytes(self.metadata@),
    {
        self.metadata.to_bytes()
    }

    /// Parse the arguments: token metadata at the start of `data`.
    pub fn try_from_bytes(data: &[u8]) -> (r: Result<UpdateMetadataArgs, ProgramError>)
        requires
            !spec_metadata_args_overruns(data@),
        ensures
            map_ok(r, |a: UpdateMetadataArgs| a.metadata@)
                == map_ok(spec_metadata_args_from_bytes(data@), |p: (TokenMetadataArgsView, int)| p.0),
    {
        let (metadata, _consumed) = TokenMetadataArgs::try_from_bytes(data)?;
        Ok(UpdateMetadataArgs { metadata })
    }
}

} // verus!
