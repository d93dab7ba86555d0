use security_token::token22_extensions::metadata::{
    initialize_token_metadata_instruction_data, remove_key_instruction_data, update_field_instruction_data, Field,
};
use security_token::token22_extensions::metadata_pointer::initialize_metadata_pointer_instruction_data;
use security_token::token22_extensions::pausable::{
    initialize_pausable_instruction_data, pause_instruction_data, resume_instruction_data,
};
use security_token::token22_extensions::permanent_delegate::initialize_permanent_delegate_instruction_data;
use security_token::token22_extensions::scaled_ui_amount::initialize_scaled_ui_amount_instruction_data;
use security_token::token22_extensions::transfer_hook::{
    extra_account_metas_instruction_data, initialize_transfer_hook_instruction_data,
    transfer_checked_instruction_data,
};
use spl_tlv_account_resolution::account::ExtraAccountMeta;
use spl_token_metadata_interface::instruction::{Initialize, RemoveKey, TokenMetadataInstruction, UpdateField};
use spl_token_metadata_interface::state::Field as InterfaceField;

fn key(b: u8) -> [u8; 32] {
    [b; 32]
}

#[test]
fn token_metadata_instructions_match_the_interface() {
    let ours = initialize_token_metadata_instruction_data(&"Name".to_string(), &"SYM".to_string(), &"uri".to_string());
    let theirs = TokenMetadataInstruction::Initialize(Initialize {
        name: "Name".to_string(),
        symbol: "SYM".to_string(),
        uri: "uri".to_string(),
    })
    .pack();
    assert_eq!(ours, theirs);

    let cases = vec![
        (Field::Name, InterfaceField::Name),
        (Field::Symbol, InterfaceField::Symbol),
        (Field::Uri, InterfaceField::Uri),
        (Field::Key("color".to_string()), InterfaceField::Key("color".to_string())),
    ];
    for (ours_field, their_field) in cases {
        let ours = update_field_instruction_data(&ours_field, &"blue".to_string());
        let theirs =
            TokenMetadataInstruction::UpdateField(UpdateField { field: their_field, value: "blue".to_string() }).pack();
        assert_eq!(ours, theirs);
    }

    for idempotent in [true, false] {
        let ours = remove_key_instruction_data(idempotent, &"color".to_string());
        let theirs = TokenMetadataInstruction::RemoveKey(RemoveKey { idempotent, key: "color".to_string() }).pack();
        assert_eq!(ours, theirs);
    }
}

#[test]
fn extra_account_metas_layout() {
    let addresses = [key(1), key(2)];
    let data = extra_account_metas_instruction_data(true, &addresses);
    assert_eq!(&data[..8], &[0x2b, 0x22, 0x0d, 0x31, 0xa7, 0x58, 0xeb, 0xeb]);
    assert_eq!(&data[8..12], &2u32.to_le_bytes());
    for (i, address) in addresses.iter().enumerate() {
        let meta = ExtraAccountMeta {
            discriminator: 0,
            address_config: *address,
            is_signer: false.into(),
            is_writable: false.into(),
        };
        assert_eq!(&data[12 + 35 * i..12 + 35 * (i + 1)], bytemuck::bytes_of(&meta));
    }
    assert_eq!(data.len(), 12 + 70);
    let update = extra_account_metas_instruction_data(false, &[]);
    assert_eq!(update, vec![0x9d, 0x69, 0x2a, 0x92, 0x66, 0x55, 0xf1, 0xae, 0, 0, 0, 0]);
}

#[test]
fn extension_instruction_layouts() {
    let data = initialize_transfer_hook_instruction_data(&Some(key(3)), &None);
    assert_eq!(data.len(), 66);
    assert_eq!(&data[..2], &[36, 0]);
    assert_eq!(&data[2..34], &key(3));
    assert_eq!(&data[34..], &[0u8; 32]);

    let data = initialize_metadata_pointer_instruction_data(&None, &Some(key(4)));
    assert_eq!(&data[..2], &[39, 0]);
    assert_eq!(&data[2..34], &[0u8; 32]);
    assert_eq!(&data[34..], &key(4));

    let data = initialize_permanent_delegate_instruction_data(&key(5));
    assert_eq!(data[0], 35);
    assert_eq!(&data[1..], &key(5));

    let multiplier = 1.5f64.to_le_bytes();
    let data = initialize_scaled_ui_amount_instruction_data(&Some(key(6)), &multiplier);
    assert_eq!(data.len(), 42);
    assert_eq!(&data[..2], &[43, 0]);
    assert_eq!(&data[2..34], &key(6));
    assert_eq!(f64::from_le_bytes(data[34..42].try_into().unwrap()), 1.5);

    let data = initialize_pausable_instruction_data(&key(7));
    assert_eq!(&data[..2], &[44, 0]);
    assert_eq!(pause_instruction_data(), [44, 1]);
    assert_eq!(resume_instruction_data(), [44, 2]);

    let data = transfer_checked_instruction_data(1_000, 6);
    assert_eq!(data, vec![12, 0xe8, 0x03, 0, 0, 0, 0, 0, 0, 6]);
}
