use cpc_nvm3::protocol::{CmdWriteData, ProtocolError};

#[test]
fn test_invalid_transaction_id_error() {
    let write_completed_response_with_invalid_transaction_id = vec![
        0x02, // cmd
        0x05, // len 1
        0x00, // len 2
        0x00, // unique_id
        0x00, // unique_id
        0x00, // unique_id
        0x00, // unique_id
        0x00, // transaction_id
        0x00, // response_type sl_status
        0x00, // status byte 1
        0x00, // status byte 2
        0x00, // status byte 3
        0x00, // status byte 4
    ];

    let mut transaction_id: u8 = 0;
    let object_key: u32 = 1234;
    let offset: u16 = 100;
    let last_frag = 1;
    let data = vec![0u8; 1024];
    let cmd_write_data =
        CmdWriteData::new(0, &mut transaction_id, object_key, offset, last_frag, data);

    match cmd_write_data.parse_response(&write_completed_response_with_invalid_transaction_id) {
        Err(ProtocolError::InvalidTransactionId(expected, actual)) => {
            assert_eq!(expected, 1);
            assert_eq!(actual, 0);
        }
        Err(err) => {
            panic!("Expected InvalidTransactionId error, got {:?}", err);
        }
        _ => panic!("Expected InvalidTransactionId error"),
    }
}

#[test]
fn test_invalid_command_id_error() {
    let write_completed_response_with_invalid_command_id = vec![
        0x00, // cmd
        0x05, // len 1
        0x00, // len 2
        0x00, // unique_id
        0x00, // unique_id
        0x00, // unique_id
        0x00, // unique_id
        0x01, // transaction_id
        0x00, // response_type sl_status
        0x00, // status byte 1
        0x00, // status byte 2
        0x00, // status byte 3
        0x00, // status byte 4
    ];

    let mut transaction_id: u8 = 0;
    let object_key: u32 = 1234;
    let offset: u16 = 100;
    let last_frag = 1;
    let data = vec![0u8; 1024];
    let cmd_write_data =
        CmdWriteData::new(0, &mut transaction_id, object_key, offset, last_frag, data);

    match cmd_write_data.parse_response(&write_completed_response_with_invalid_command_id) {
        Err(ProtocolError::InvalidCommandId) => {}
        Err(err) => {
            panic!("Expected InvalidCommandId error, got {:?}", err);
        }
        _ => panic!("Expected InvalidCommandId error"),
    }
}

#[test]
fn test_invalid_transaction_id_wrap_around() {
    let write_completed_response_with_overflowed_transaction_id = vec![
        0x02, // cmd
        0x05, // len 1
        0x00, // len 2
        0x00, // unique_id
        0x00, // unique_id
        0x00, // unique_id
        0x00, // unique_id
        0x00, // transaction_id
        0x00, // response_type sl_status
        0x00, // status byte 1
        0x00, // status byte 2
        0x00, // status byte 3
        0x00, // status byte 4
    ];

    let mut transaction_id: u8 = 0xFF;
    let object_key: u32 = 1234;
    let offset: u16 = 100;
    let last_frag = 1;
    let data = vec![0u8; 1024];
    let cmd_write_data =
        CmdWriteData::new(0, &mut transaction_id, object_key, offset, last_frag, data);
    cmd_write_data
        .parse_response(&write_completed_response_with_overflowed_transaction_id)
        .unwrap();
}

#[test]
fn test_invalid_response_len() {
    let write_completed_response_with_invalid_len = vec![
        0x02, // cmd
        0x00, // len 1
        0x10, // len 2
        0x00, // unique_id
        0x00, // unique_id
        0x00, // unique_id
        0x00, // unique_id
        0x01, // transaction_id
        0x00, // response_type sl_status
        0x00, // status byte 1
        0x00, // status byte 2
        0x00, // status byte 3
        0x00, // status byte 4
    ];

    let mut transaction_id: u8 = 0;
    let object_key: u32 = 1234;
    let offset: u16 = 100;
    let last_frag = 1;
    let data = vec![0u8; 1024];
    let cmd_write_data =
        CmdWriteData::new(0, &mut transaction_id, object_key, offset, last_frag, data);

    match cmd_write_data.parse_response(&write_completed_response_with_invalid_len) {
        Err(ProtocolError::InvalidResponseLen(expected, actual)) => {
            assert_eq!(expected, 5);
            assert_eq!(actual, 4096);
        }
        Err(err) => {
            panic!("Expected InvalidResponseLen error, got {:?}", err);
        }
        _ => panic!("Expected InvalidResponseLen error"),
    }
}

#[test]
fn test_valid_write_completed_response() {
    let write_completed_response = vec![
        0x02, // cmd
        0x05, // len 1
        0x00, // len 2
        0x00, // unique_id
        0x00, // unique_id
        0x00, // unique_id
        0x00, // unique_id
        0x01, // transaction_id
        0x00, // response_type sl_status
        0x00, // status byte 1
        0x00, // status byte 2
        0x00, // status byte 3
        0x00, // status byte 4
    ];

    let mut transaction_id: u8 = 0;
    let object_key: u32 = 1234;
    let offset: u16 = 100;
    let last_frag = 1;
    let data = vec![0u8; 1024];
    let cmd_write_data =
        CmdWriteData::new(0, &mut transaction_id, object_key, offset, last_frag, data);

    cmd_write_data.parse_response(&write_completed_response).unwrap();
}

#[test]
fn test_write_data_serialize_exact_bytes() {
    let mut transaction_id: u8 = 0;
    let cmd = CmdWriteData::new(
        0x11223344,
        &mut transaction_id,
        0x000004D2,
        0x0100,
        1,
        vec![0xAB, 0xCD],
    );
    let bytes = cmd.serialize();
    assert_eq!(
        bytes,
        vec![
            0x06, // cmd
            0x09, // len 1 (7 fixed body bytes + 2 data bytes)
            0x00, // len 2
            0x44, // unique_id
            0x33, // unique_id
            0x22, // unique_id
            0x11, // unique_id
            0x01, // transaction_id
            0xD2, // object key
            0x04, // object key
            0x00, // object key
            0x00, // object key
            0x00, // offset
            0x01, // offset
            0x01, // last_frag
            0xAB, // data
            0xCD, // data
        ]
    );
}

#[test]
fn test_status_parse_ignores_trailing_bytes() {
    // A status body of six bytes: the discriminator, the code, one
    // extra byte the parser leaves unread.
    let response = vec![
        0x02, 0x06, 0x00, 0x00, 0x00, 0x00, 0x00, 0x01, 0x01, 0x0A, 0xE0, 0x00, 0xF0, 0xEE,
    ];
    let mut transaction_id: u8 = 0;
    let cmd = CmdWriteData::new(0, &mut transaction_id, 1, 0, 1, vec![0x00]);
    cmd.parse_response(&response).unwrap();
}
