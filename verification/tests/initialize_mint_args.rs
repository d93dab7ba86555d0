use security_token::error::ProgramError;
use security_token::instructions::initialize_mint::{
    InitializeMintArgs, MetadataPointerArgs, MintArgs, ScaledUiAmountConfigArgs, TokenMetadataArgs,
};
use security_token::instructions::update_metadata::UpdateMetadataArgs;

fn random_pubkey(seed: u8) -> [u8; 32] {
    let mut k = [0u8; 32];
    for (i, b) in k.iter_mut().enumerate() {
        *b = seed.wrapping_mul(31).wrapping_add(i as u8).wrapping_add(1);
    }
    k
}

#[test]
fn test_initialize_mint_args_to_bytes_inner_try_from_bytes() {
    let mint_authority = random_pubkey(1);
    let freeze_authority = random_pubkey(2);
    let source_args = MintArgs { decimals: 6, mint_authority, freeze_authority };
    let inner_bytes = source_args.to_bytes_inner();
    let deserialized = MintArgs::try_from_bytes(&inner_bytes).unwrap();
    assert_eq!(source_args.decimals, deserialized.decimals);
    assert_eq!(source_args.mint_authority, deserialized.mint_authority);
    assert_eq!(source_args.freeze_authority, deserialized.freeze_authority);
}

#[test]
fn test_initialize_args_with_metadata_and_scaled_ui_amount() {
    let mint_authority = random_pubkey(3);
    let freeze_authority = random_pubkey(4);
    let update_authority = random_pubkey(5);
    let multiplier_authority = random_pubkey(6);
    let mint = random_pubkey(7);

    let name = "Security Token";
    let symbol = "SEC";
    let uri = "https://example.com/metadata.json";
    let additional_metadata = vec![];

    let metadata = TokenMetadataArgs {
        update_authority,
        mint,
        name: name.to_string(),
        symbol: symbol.to_string(),
        uri: uri.to_string(),
        additional_metadata,
    };
    let metadata_pointer = MetadataPointerArgs { authority: update_authority, metadata_address: mint };
    let scaled_ui_amount = ScaledUiAmountConfigArgs {
        authority: multiplier_authority,
        multiplier: 2.0f64.to_le_bytes(),
        new_multiplier_effective_timestamp: 0,
        new_multiplier: 2.0f64.to_le_bytes(),
    };

    let source_args = InitializeMintArgs::new(
        6,
        mint_authority,
        freeze_authority,
        Some(metadata_pointer.clone()),
        Some(metadata.clone()),
        Some(scaled_ui_amount.clone()),
    );

    let inner_bytes = source_args.to_bytes_inner();
    assert!(InitializeMintArgs::in_bounds(&inner_bytes));
    let deserialized = InitializeMintArgs::try_from_bytes(&inner_bytes).unwrap();

    assert_eq!(source_args.ix_mint.decimals, deserialized.ix_mint.decimals);
    assert_eq!(source_args.ix_mint.mint_authority, deserialized.ix_mint.mint_authority);
    assert_eq!(source_args.ix_mint.freeze_authority, deserialized.ix_mint.freeze_authority);

    let deserialized_metadata_pointer = deserialized.ix_metadata_pointer.unwrap();
    assert_eq!(metadata_pointer.authority, deserialized_metadata_pointer.authority);
    assert_eq!(metadata_pointer.metadata_address, deserialized_metadata_pointer.metadata_address);

    let deserialized_metadata = deserialized.ix_metadata.unwrap();
    assert_eq!(metadata.name, deserialized_metadata.name);
    assert_eq!(metadata.symbol, deserialized_metadata.symbol);
    assert_eq!(metadata.uri, deserialized_metadata.uri);
    assert_eq!(metadata.additional_metadata, deserialized_metadata.additional_metadata);

    let deserialized_scaled_ui_amount = deserialized.ix_scaled_ui_amount.unwrap();
    assert_eq!(scaled_ui_amount.authority, deserialized_scaled_ui_amount.authority);
    assert_eq!(scaled_ui_amount.multiplier, deserialized_scaled_ui_amount.multiplier);
}

#[test]
fn test_initialize_args_without_metadata() {
    let mint_authority = random_pubkey(8);
    let freeze_authority = random_pubkey(9);
    let source_args = InitializeMintArgs::new(6, mint_authority, freeze_authority, None, None, None);
    let inner_bytes = source_args.to_bytes_inner();
    let deserialized = InitializeMintArgs::try_from_bytes(&inner_bytes).unwrap();
    assert_eq!(source_args.ix_mint.decimals, deserialized.ix_mint.decimals);
    assert_eq!(source_args.ix_mint.mint_authority, deserialized.ix_mint.mint_authority);
    assert_eq!(source_args.ix_mint.freeze_authority, deserialized.ix_mint.freeze_authority);
    assert!(deserialized.ix_metadata_pointer.is_none());
    assert!(deserialized.ix_metadata.is_none());
    assert!(deserialized.ix_scaled_ui_amount.is_none());
}

#[test]
fn test_validate() {
    let mint_authority = random_pubkey(10);
    let freeze_authority = random_pubkey(11);

    let valid_args = InitializeMintArgs::new(6, mint_authority, freeze_authority, None, None, None);
    assert!(valid_args.validate().is_ok());

    let invalid_decimals = InitializeMintArgs::new(25, mint_authority, freeze_authority, None, None, None);
    assert!(invalid_decimals.validate().is_err());

    let metadata_pointer = MetadataPointerArgs { authority: mint_authority, metadata_address: mint_authority };
    let valid_with_metadata_pointer_only = InitializeMintArgs::new(
        6,
        mint_authority,
        freeze_authority,
        Some(metadata_pointer.clone()),
        None,
        None,
    );
    assert!(valid_with_metadata_pointer_only.validate().is_ok());

    let name = "Test Token";
    let symbol = "TEST";
    let uri = "https://example.com";
    let additional_metadata: Vec<u8> = vec![];

    let valid_metadata = TokenMetadataArgs {
        update_authority: mint_authority,
        mint: mint_authority,
        name: name.to_string(),
        symbol: symbol.to_string(),
        uri: uri.to_string(),
        additional_metadata: additional_metadata.clone(),
    };
    let valid_with_metadata = InitializeMintArgs::new(
        6,
        mint_authority,
        freeze_authority,
        Some(metadata_pointer.clone()),
        Some(valid_metadata),
        None,
    );
    assert!(valid_with_metadata.validate().is_ok());

    let metadata_for_invalid_test = TokenMetadataArgs {
        update_authority: mint_authority,
        mint: mint_authority,
        name: name.to_string(),
        symbol: symbol.to_string(),
        uri: uri.to_string(),
        additional_metadata: additional_metadata.clone(),
    };
    let metadata_without_pointer =
        InitializeMintArgs::new(6, mint_authority, freeze_authority, None, Some(metadata_for_invalid_test), None);
    assert!(metadata_without_pointer.validate().is_err());

    let bad_metadata = TokenMetadataArgs {
        update_authority: mint_authority,
        mint: mint_authority,
        name: "".to_string(),
        symbol: symbol.to_string(),
        uri: uri.to_string(),
        additional_metadata: additional_metadata.clone(),
    };
    let invalid_metadata = InitializeMintArgs::new(
        6,
        mint_authority,
        freeze_authority,
        Some(metadata_pointer),
        Some(bad_metadata),
        None,
    );
    assert!(invalid_metadata.validate().is_err());
}

#[test]
fn token_metadata_args_errors() {
    assert_eq!(TokenMetadataArgs::try_from_bytes(&[0u8; 79]).err(), Some(ProgramError::AccountDataTooSmall));
    let meta = TokenMetadataArgs {
        update_authority: random_pubkey(12),
        mint: random_pubkey(13),
        name: "N".to_string(),
        symbol: "S".to_string(),
        uri: "U".to_string(),
        additional_metadata: vec![1, 2, 3],
    };
    let bytes = meta.to_bytes();
    assert_eq!(bytes.len(), 64 + 5 + 5 + 5 + 4 + 3);
    let (parsed, used) = TokenMetadataArgs::try_from_bytes(&bytes).unwrap();
    assert_eq!(used, bytes.len());
    assert_eq!(parsed.additional_metadata, vec![1, 2, 3]);
    let mut bad = bytes.clone();
    bad[68] = 0xff;
    assert_eq!(TokenMetadataArgs::try_from_bytes(&bad).err(), Some(ProgramError::InvalidInstructionData));
    let truncated = &bytes[..bytes.len() - 1];
    assert_eq!(TokenMetadataArgs::try_from_bytes(truncated).err(), Some(ProgramError::InvalidInstructionData));
    let mut overrun = vec![0u8; 80];
    overrun[64] = 12;
    assert!(!TokenMetadataArgs::in_bounds(&overrun));
    assert!(TokenMetadataArgs::in_bounds(&bytes));
}

#[test]
fn update_metadata_args_roundtrip() {
    let meta = TokenMetadataArgs {
        update_authority: random_pubkey(14),
        mint: random_pubkey(15),
        name: "Name".to_string(),
        symbol: "SYM".to_string(),
        uri: "https://u".to_string(),
        additional_metadata: vec![],
    };
    let args = UpdateMetadataArgs::new(meta);
    let bytes = args.to_bytes_inner();
    let parsed = UpdateMetadataArgs::try_from_bytes(&bytes).unwrap();
    assert_eq!(parsed.metadata.symbol, "SYM");
    assert_eq!(parsed.metadata.uri, "https://u");
}

#[test]
fn scaled_ui_amount_args_layout() {
    let c = ScaledUiAmountConfigArgs {
        authority: random_pubkey(16),
        multiplier: [1, 2, 3, 4, 5, 6, 7, 8],
        new_multiplier_effective_timestamp: -2,
        new_multiplier: [9; 8],
    };
    let bytes = c.to_bytes();
    assert_eq!(bytes.len(), ScaledUiAmountConfigArgs::LEN);
    assert_eq!(&bytes[40..48], &(-2i64).to_le_bytes());
    let parsed = ScaledUiAmountConfigArgs::try_from_bytes(&bytes).unwrap();
    assert_eq!(parsed.new_multiplier_effective_timestamp, -2);
    assert!(ScaledUiAmountConfigArgs::try_from_bytes(&bytes[..55]).is_err());
}
