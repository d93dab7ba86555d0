use security_token::token22_extensions::metadata::TokenMetadata;
use security_token::token22_extensions::metadata_pointer::MetadataPointer;
use security_token::token22_extensions::permanent_delegate::PermanentDelegate;
use security_token::token22_extensions::pausable::Pausable;
use security_token::token22_extensions::transfer_hook::TransferHook;
use security_token::token22_extensions::{
    get_extension_data_bytes_for_variable_pack, get_extension_from_bytes, ExtensionType,
};
use security_token::utils::{calculate_mint_size_with_extensions, calculate_metadata_tlv_size, parse_additional_metadata};
use security_token::instructions::initialize_mint::TokenMetadataArgs;
use security_token::error::ProgramError;

pub const TEST_MINT_WITH_EXTENSIONS_SLICE: &[u8] = &[
    1, 0, 0, 0, 221, 76, 72, 108, 144, 248, 182, 240, 7, 195, 4, 239, 36, 129, 248, 5, 24, 107,
    232, 253, 95, 82, 172, 209, 2, 92, 183, 155, 159, 103, 255, 33, 133, 204, 6, 44, 35, 140,
    0, 0, 6, 1, 1, 0, 0, 0, 23, 133, 50, 97, 239, 106, 184, 83, 42, 103, 240, 83, 134, 90, 173,
    49, 41, 63, 207, 7, 207, 18, 10, 181, 185, 161, 87, 6, 84, 141, 192, 43, 0, 0, 0, 0, 0, 0,
    0, 0, 0, 0, 0, 0, 0, 0, 0, 0, 0, 0, 0, 0, 0, 0, 0, 0, 0, 0, 0, 0, 0, 0, 0, 0, 0, 0, 0, 0,
    0, 0, 0, 0, 0, 0, 0, 0, 0, 0, 0, 0, 0, 0, 0, 0, 0, 0, 0, 0, 0, 0, 0, 0, 0, 0, 0, 0, 0, 0,
    0, 0, 0, 0, 0, 0, 0, 0, 0, 0, 0, 0, 0, 0, 0, 0, 0, 1,
    3, 0, 32, 0, 23, 133, 50, 97, 239, 106, 184, 83, 42, 103, 240, 83, 134, 90, 173, 49, 41, 63,
    207, 7, 207, 18, 10, 181, 185, 161, 87, 6, 84, 141, 192, 43,
    12, 0, 32, 0, 23, 133, 50, 97, 239, 106, 184, 83, 42, 103, 240, 83, 134, 90, 173, 49, 41,
    63, 207, 7, 207, 18, 10, 181, 185, 161, 87, 6, 84, 141, 192, 43,
    1, 0, 108, 0, 23, 133, 50, 97, 239, 106, 184, 83, 42, 103, 240, 83, 134, 90, 173, 49, 41,
    63, 207, 7, 207, 18, 10, 181, 185, 161, 87, 6, 84, 141, 192, 43, 23, 133, 50, 97, 239, 106,
    184, 83, 42, 103, 240, 83, 134, 90, 173, 49, 41, 63, 207, 7, 207, 18, 10, 181, 185, 161,
    87, 6, 84, 141, 192, 43, 0, 0, 0, 0, 0, 0, 0, 0, 93, 2, 0, 0, 0, 0, 0, 0, 0, 0, 0, 0, 0, 0,
    0, 0, 0, 0, 93, 2, 0, 0, 0, 0, 0, 0, 0, 0, 0, 0, 0, 0, 0, 0, 0, 0,
    4, 0, 65, 0, 23, 133, 50, 97, 239, 106, 184, 83, 42, 103, 240, 83, 134, 90, 173, 49, 41, 63,
    207, 7, 207, 18, 10, 181, 185, 161, 87, 6, 84, 141, 192, 43, 0, 0, 0, 0, 0, 0, 0, 0, 0, 0,
    0, 0, 0, 0, 0, 0, 0, 0, 0, 0, 0, 0, 0, 0, 0, 0, 0, 0, 0, 0, 0, 0, 0,
    16, 0, 129, 0, 23, 133, 50, 97, 239, 106, 184, 83, 42, 103, 240, 83, 134, 90, 173, 49, 41,
    63, 207, 7, 207, 18, 10, 181, 185, 161, 87, 6, 84, 141, 192, 43, 28, 55, 230, 67, 59, 115,
    4, 221, 130, 115, 122, 228, 13, 155, 139, 243, 196, 159, 91, 14, 108, 73, 168, 213, 51, 40,
    179, 229, 6, 144, 28, 87, 1, 0, 0, 0, 0, 0, 0, 0, 0, 0, 0, 0, 0, 0, 0, 0, 0, 0, 0, 0, 0, 0,
    0, 0, 0, 0, 0, 0, 0, 0, 0, 0, 0, 0, 0, 0, 0, 0, 0, 0, 0, 0, 0, 0, 0, 0, 0, 0, 0, 0, 0, 0,
    0, 0, 0, 0, 0, 0, 0, 0, 0, 0, 0, 0, 0,
    14, 0, 64, 0, 23, 133, 50, 97, 239, 106, 184, 83, 42, 103, 240, 83, 134, 90, 173, 49, 41,
    63, 207, 7, 207, 18, 10, 181, 185, 161, 87, 6, 84, 141, 192, 43, 0, 0, 0, 0, 0, 0, 0, 0, 0,
    0, 0, 0, 0, 0, 0, 0, 0, 0, 0, 0, 0, 0, 0, 0, 0, 0, 0, 0, 0, 0, 0, 0,
    18, 0, 64, 0, 23, 133, 50, 97, 239, 106, 184, 83, 42, 103, 240, 83, 134, 90, 173, 49, 41,
    63, 207, 7, 207, 18, 10, 181, 185, 161, 87, 6, 84, 141, 192, 43, 23, 146, 72, 59, 108, 138,
    42, 135, 183, 71, 29, 129, 79, 149, 145, 249, 57, 92, 132, 10, 156, 227, 217, 244, 213,
    186, 125, 58, 75, 138, 116, 158,
    19, 0, 174, 0, 23, 133, 50, 97, 239, 106, 184, 83, 42, 103, 240, 83, 134, 90, 173, 49, 41,
    63, 207, 7, 207, 18, 10, 181, 185, 161, 87, 6, 84, 141, 192, 43, 23, 146, 72, 59, 108, 138,
    42, 135, 183, 71, 29, 129, 79, 149, 145, 249, 57, 92, 132, 10, 156, 227, 217, 244, 213,
    186, 125, 58, 75, 138, 116, 158, 10, 0, 0, 0, 80, 97, 121, 80, 97, 108, 32, 85, 83, 68, 5,
    0, 0, 0, 80, 89, 85, 83, 68, 79, 0, 0, 0, 104, 116, 116, 112, 115, 58, 47, 47, 116, 111,
    107, 101, 110, 45, 109, 101, 116, 97, 100, 97, 116, 97, 46, 112, 97, 120, 111, 115, 46, 99,
    111, 109, 47, 112, 121, 117, 115, 100, 95, 109, 101, 116, 97, 100, 97, 116, 97, 47, 112,
    114, 111, 100, 47, 115, 111, 108, 97, 110, 97, 47, 112, 121, 117, 115, 100, 95, 109, 101,
    116, 97, 100, 97, 116, 97, 46, 106, 115, 111, 110, 0, 0, 0, 0,
    20, 0, 64, 0, 1, 1, 1, 1, 1, 1, 1, 1, 1, 1, 1, 1, 1, 1, 1, 1, 1, 1, 1, 1, 1, 1, 1, 1, 1, 1,
    1, 1, 1, 1, 1, 1, 2, 2, 2, 2, 2, 2, 2, 2, 2, 2, 2, 2, 2, 2, 2, 2, 2, 2, 2, 2, 2, 2, 2, 2,
    2, 2, 2, 2, 2, 2, 2, 2,
    21, 0, 80, 0, 1, 1, 1, 1, 1, 1, 1, 1, 1, 1, 1, 1, 1, 1, 1, 1, 1, 1, 1, 1, 1, 1, 1, 1, 1, 1,
    1, 1, 1, 1, 1, 1, 2, 2, 2, 2, 2, 2, 2, 2, 2, 2, 2, 2, 2, 2, 2, 2, 2, 2, 2, 2, 2, 2, 2, 2,
    2, 2, 2, 2, 2, 2, 2, 2, 1, 0, 0, 0, 0, 0, 0, 0, 2, 0, 0, 0, 0, 0, 0, 0,
];

#[test]
fn test_metadata_pointer() {
    let metadata_pointer = get_extension_from_bytes::<MetadataPointer>(&TEST_MINT_WITH_EXTENSIONS_SLICE);
    assert!(metadata_pointer.is_some());
}

#[test]
fn test_permanent_delegate() {
    let permanent_delegate = get_extension_from_bytes::<PermanentDelegate>(&TEST_MINT_WITH_EXTENSIONS_SLICE);
    assert!(permanent_delegate.is_some());
}

#[test]
fn test_token_metadata() {
    let token_metadata =
        get_extension_data_bytes_for_variable_pack::<TokenMetadata>(&TEST_MINT_WITH_EXTENSIONS_SLICE).unwrap();
    let token_metadata = TokenMetadata::from_bytes(token_metadata);
    assert!(token_metadata.is_ok());
    let token_metadata = token_metadata.unwrap();
    assert_eq!(token_metadata.symbol, "PYUSD");
}

#[test]
fn extension_contents_are_read_at_their_offsets() {
    let pointer = get_extension_from_bytes::<MetadataPointer>(&TEST_MINT_WITH_EXTENSIONS_SLICE).unwrap();
    assert_eq!(&pointer.authority[..4], &[23, 133, 50, 97]);
    assert_eq!(&pointer.metadata_address[..4], &[23, 146, 72, 59]);
    let hook = get_extension_from_bytes::<TransferHook>(&TEST_MINT_WITH_EXTENSIONS_SLICE).unwrap();
    assert_eq!(hook.program_id, [0u8; 32]);
    assert!(get_extension_from_bytes::<Pausable>(&TEST_MINT_WITH_EXTENSIONS_SLICE).is_none());
    let metadata =
        get_extension_data_bytes_for_variable_pack::<TokenMetadata>(&TEST_MINT_WITH_EXTENSIONS_SLICE).unwrap();
    assert_eq!(metadata.len(), 174);
    let metadata = TokenMetadata::from_bytes(metadata).unwrap();
    assert_eq!(metadata.name, "PayPal USD");
    assert!(metadata.uri.starts_with("https://token-metadata.paxos.com"));
    assert!(metadata.additional_metadata.is_empty());
}

#[test]
fn unknown_extension_type_stops_the_scan() {
    let mut data = TEST_MINT_WITH_EXTENSIONS_SLICE[..166].to_vec();
    data.extend_from_slice(&[99, 0, 32, 0]);
    data.extend_from_slice(&[5u8; 32]);
    data.extend_from_slice(&[12, 0, 32, 0]);
    data.extend_from_slice(&[6u8; 32]);
    assert!(get_extension_from_bytes::<PermanentDelegate>(&data).is_none());
}

#[test]
fn extension_type_codes() {
    assert_eq!(ExtensionType::MetadataPointer.to_bytes(), [18, 0]);
    assert_eq!(ExtensionType::from_bytes([26, 0]), Some(ExtensionType::Pausable));
    assert_eq!(ExtensionType::from_bytes([28, 0]), None);
    assert_eq!(ExtensionType::from_bytes([0, 1]), None);
}

#[test]
fn token_metadata_rejects_short_data() {
    assert_eq!(TokenMetadata::from_bytes(&[0u8; 63]).err(), Some(ProgramError::InvalidAccountData));
    let mut data = vec![0u8; 64];
    data.extend_from_slice(&[1, 0, 0, 0, b'a']);
    assert_eq!(TokenMetadata::from_bytes(&data).err(), Some(ProgramError::InvalidAccountData));
}

#[test]
fn mint_size_with_extensions() {
    assert_eq!(calculate_mint_size_with_extensions(&[]), 166);
    let all = [
        ExtensionType::PermanentDelegate,
        ExtensionType::TransferHook,
        ExtensionType::Pausable,
        ExtensionType::MetadataPointer,
        ExtensionType::ScaledUiAmount,
    ];
    assert_eq!(calculate_mint_size_with_extensions(&all), 166 + 36 + 68 + 37 + 68 + 60);
}

fn pair_bytes(key: &str, value: &str) -> Vec<u8> {
    let mut v = (key.len() as u32).to_le_bytes().to_vec();
    v.extend_from_slice(key.as_bytes());
    v.extend_from_slice(&(value.len() as u32).to_le_bytes());
    v.extend_from_slice(value.as_bytes());
    v
}

#[test]
fn additional_metadata_pairs() {
    let mut data = pair_bytes("isin", "US0000000000");
    data.extend(pair_bytes("class", "A"));
    let pairs = parse_additional_metadata(&data).unwrap();
    assert_eq!(pairs, vec![
        ("isin".to_string(), "US0000000000".to_string()),
        ("class".to_string(), "A".to_string()),
    ]);
    let truncated = &data[..data.len() - 1];
    assert_eq!(parse_additional_metadata(truncated).unwrap().len(), 1);
    let long_key = pair_bytes(&"k".repeat(257), "v");
    assert_eq!(parse_additional_metadata(&long_key).err(), Some(ProgramError::InvalidInstructionData));
    let long_value = pair_bytes("k", &"v".repeat(1025));
    assert_eq!(parse_additional_metadata(&long_value).err(), Some(ProgramError::InvalidInstructionData));
    let mut bad_utf8 = pair_bytes("k", "v");
    bad_utf8[4] = 0xff;
    assert_eq!(parse_additional_metadata(&bad_utf8).err(), Some(ProgramError::InvalidInstructionData));

    let meta = TokenMetadataArgs {
        update_authority: [1u8; 32],
        mint: [2u8; 32],
        name: "Name".to_string(),
        symbol: "SYM".to_string(),
        uri: "u".to_string(),
        additional_metadata: data,
    };
    let expected = 4 + 32 + 32 + 4 + 4 + 4 + 3 + 4 + 1 + 4 + (8 + 4 + 12) + (8 + 5 + 1);
    assert_eq!(calculate_metadata_tlv_size(&meta), Ok(expected));
}
