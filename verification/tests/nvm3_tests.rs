use cpc_nvm3::nvm3::{
    classify_link_error, close, deinit, delete_object, get_maximum_write_size,
    get_object_count, get_object_info, get_timeout, init, increment_counter, list_objects,
    open, push_rx, read_counter, read_data, set_timeout, set_transaction_id, write_counter,
    write_data, CpcNvm3Error, CpcNvm3Registry, Endpoint, LinkErrorKind,
    CPC_NVM3_MAJOR_VERSION, CPC_NVM3_MAX_WRITE_CAPABILITY, CPC_NVM3_MINOR_VERSION,
    CPC_NVM3_PATCH_VERSION,
};
use cpc_nvm3::{CpcNvm3ErrorCodes, CpcNvm3ObjectType};

/// A link whose remote has already answered the handshake: the version
/// reply (txn 1) and a maximum write size of 255 (txn 2).
fn handshake_link() -> Endpoint {
    let mut link = Endpoint::new(CPC_NVM3_MAX_WRITE_CAPABILITY);
    link.push_rx(vec![
        0x01, // cmd
        0x03, // len
        0x00, // len
        0x00, // unique_id
        0x00, // unique_id
        0x00, // unique_id
        0x00, // unique_id
        0x01, // transaction_id
        CPC_NVM3_MAJOR_VERSION,
        CPC_NVM3_MINOR_VERSION,
        CPC_NVM3_PATCH_VERSION,
    ]);
    link.push_rx(vec![
        0x05, // cmd
        0x03, // len
        0x00, // len
        0x00, // unique_id
        0x00, // unique_id
        0x00, // unique_id
        0x00, // unique_id
        0x02, // transaction_id
        0x02, // property type: maximum write size
        0xFF, // value
        0x00, // value
    ]);
    link
}

fn prepare_open() -> (CpcNvm3Registry, u32) {
    let mut registry = CpcNvm3Registry::new();
    let handle = init(&mut registry).unwrap();
    open(&mut registry, handle, "cpcd_0", true, handshake_link()).unwrap();
    (registry, handle)
}

fn prepare_test(response: Vec<u8>) -> (CpcNvm3Registry, u32) {
    let (mut registry, handle) = prepare_open();
    push_rx(&mut registry, handle, response).unwrap();
    (registry, handle)
}

fn finalize_test(registry: &mut CpcNvm3Registry, handle: u32) -> Result<(), CpcNvm3Error> {
    close(registry, handle)?;
    deinit(registry, handle)?;
    Ok(())
}

fn error_code(err: CpcNvm3Error) -> CpcNvm3ErrorCodes {
    match err {
        CpcNvm3Error::ErrorCodeWithContext(code, _context) => code,
    }
}

#[test]
fn test_nvm3_close() {
    let mut registry = CpcNvm3Registry::new();
    let handle = init(&mut registry).unwrap();
    open(&mut registry, handle, "cpcd_0", true, handshake_link()).unwrap();
    close(&mut registry, handle).unwrap();
}

#[test]
fn test_nvm3_double_init_unique_handles() {
    let mut registry = CpcNvm3Registry::new();
    let handle_1 = init(&mut registry).unwrap();
    let handle_2 = init(&mut registry).unwrap();
    let handle_3 = init(&mut registry).unwrap();
    assert_ne!(handle_1, handle_2);
    assert_ne!(handle_2, handle_3);
}

#[test]
fn test_nvm3_write_success() {
    let response = vec![
        0x02, // cmd
        0x05, // len
        0x00, // len
        0x00, // unique_id
        0x00, // unique_id
        0x00, // unique_id
        0x00, // unique_id
        0x03, // transaction_id
        0x00, // response_type sl_status
        0x00, // status byte
        0x00, // status byte
        0x00, // status byte
        0x00, // status byte
    ];
    let (mut registry, handle) = prepare_test(response);

    let data: &[u8] = &[0x1, 0x2];
    write_data(&mut registry, handle, 1234, data).unwrap();
    finalize_test(&mut registry, handle).unwrap();
}

#[test]
fn test_nvm3_write_invalid_key_response() {
    let response = vec![
        0x02, // cmd
        0x05, // len
        0x00, // len
        0x00, // unique_id
        0x00, // unique_id
        0x00, // unique_id
        0x00, // unique_id
        0x03, // transaction_id
        0x01, // response_type ecode
        0x0A, // status byte
        0xE0, // status byte
        0x00, // status byte
        0xF0, // status byte
    ];
    let (mut registry, handle) = prepare_test(response);

    let data: &[u8] = &[0x1, 0x2];
    match write_data(&mut registry, handle, 1234, data) {
        Ok(_) => {
            panic!("Expected failure with invalid key error");
        }
        Err(err) => {
            assert_eq!(error_code(err), CpcNvm3ErrorCodes::CPC_NVM3_INVALID_OBJECT_KEY);
        }
    }
    finalize_test(&mut registry, handle).unwrap();
}

#[test]
fn test_nvm3_write_unknown_response() {
    let response = vec![
        0x02, // cmd
        0x05, // len
        0x00, // len
        0x00, // unique_id
        0x00, // unique_id
        0x00, // unique_id
        0x00, // unique_id
        0x03, // transaction_id
        0x01, // response_type ecode
        0x01, // status byte
        0x00, // status byte
        0x00, // status byte
        0x00, // status byte
    ];
    let (mut registry, handle) = prepare_test(response);

    let data: &[u8] = &[0x1, 0x2];
    match write_data(&mut registry, handle, 1234, data) {
        Ok(_) => {
            panic!("Expected failure with invalid key error");
        }
        Err(err) => {
            assert_eq!(error_code(err), CpcNvm3ErrorCodes::CPC_NVM3_UNKNOWN_ERROR);
        }
    }
    finalize_test(&mut registry, handle).unwrap();
}

#[test]
fn test_nvm3_read_success_small() {
    let response = vec![
        0x09, // cmd
        0x0B, // len
        0x00, // len
        0x00, // unique_id
        0x00, // unique_id
        0x00, // unique_id
        0x00, // unique_id
        0x03, // transaction_id
        0x01, // last_frag
        0x01, // data 1
        0x02, // data 2
        0x03, // data 3
        0x04, // data 4
        0x05, // data 5
        0x06, // data 6
        0x07, // data 7
        0x08, // data 8
        0x09, // data 9
        0x0a, // data 10
    ];
    let (mut registry, handle) = prepare_test(response);
    let mut buffer = vec![0u8; 10];
    let mut data_size: u16 = 0;

    read_data(&mut registry, handle, 1234, &mut buffer, &mut data_size).unwrap();
    assert_eq!(buffer, vec![0x01, 0x02, 0x03, 0x04, 0x05, 0x06, 0x07, 0x08, 0x09, 0x0a]);
    assert_eq!(data_size, 10);
    finalize_test(&mut registry, handle).unwrap();
}

#[test]
fn test_nvm3_read_fail_with_status() {
    let response = vec![
        0x02, // cmd
        0x05, // len
        0x00, // len
        0x00, // unique_id
        0x00, // unique_id
        0x00, // unique_id
        0x00, // unique_id
        0x03, // transaction_id
        0x00, // response_type sl_status
        0x01, // status byte
        0x00, // status byte
        0x00, // status byte
        0x00, // status byte
    ];
    let (mut registry, handle) = prepare_test(response);
    let mut buffer = vec![0u8; 10];
    let mut data_size: u16 = 0;

    match read_data(&mut registry, handle, 1234, &mut buffer, &mut data_size) {
        Ok(_) => {
            panic!("Should have failed")
        }
        Err(err) => {
            assert_eq!(error_code(err), CpcNvm3ErrorCodes::CPC_NVM3_FAILURE);
        }
    }
    finalize_test(&mut registry, handle).unwrap();
}

#[test]
fn test_nvm3_write_then_read_round_trip() {
    let ack = vec![
        0x02, 0x05, 0x00, 0x00, 0x00, 0x00, 0x00, 0x03, 0x00, 0x00, 0x00, 0x00, 0x00,
    ];
    let (mut registry, handle) = prepare_test(ack);

    let data: &[u8] = &[0x11, 0x22, 0x33];
    write_data(&mut registry, handle, 77, data).unwrap();

    // The remote returns the stored bytes for the next read (txn 4).
    let stored = vec![
        0x09, 0x04, 0x00, 0x00, 0x00, 0x00, 0x00, 0x04, 0x01, 0x11, 0x22, 0x33,
    ];
    push_rx(&mut registry, handle, stored).unwrap();
    let mut buffer = vec![0u8; 8];
    let mut data_size: u16 = 0;
    read_data(&mut registry, handle, 77, &mut buffer, &mut data_size).unwrap();
    assert_eq!(data_size, 3);
    assert_eq!(&buffer[..3], data);
    finalize_test(&mut registry, handle).unwrap();
}

#[test]
fn test_nvm3_read_two_fragments() {
    let first = vec![
        0x09, 0x03, 0x00, 0x00, 0x00, 0x00, 0x00, 0x03, 0x00, 0xAA, 0xBB,
    ];
    let (mut registry, handle) = prepare_test(first);
    let second = vec![0x09, 0x02, 0x00, 0x00, 0x00, 0x00, 0x00, 0x03, 0x01, 0xCC];
    push_rx(&mut registry, handle, second).unwrap();

    let mut buffer = vec![0u8; 4];
    let mut data_size: u16 = 0;
    read_data(&mut registry, handle, 9, &mut buffer, &mut data_size).unwrap();
    assert_eq!(data_size, 3);
    assert_eq!(&buffer[..3], &[0xAA, 0xBB, 0xCC]);
    finalize_test(&mut registry, handle).unwrap();
}

#[test]
fn test_nvm3_read_overflowing_remote_rejected() {
    // Eleven data bytes for a ten-byte buffer: the guard refuses them.
    let response = vec![
        0x09, 0x0C, 0x00, 0x00, 0x00, 0x00, 0x00, 0x03, 0x01, 0x01, 0x02, 0x03, 0x04, 0x05,
        0x06, 0x07, 0x08, 0x09, 0x0a, 0x0b,
    ];
    let (mut registry, handle) = prepare_test(response);
    let mut buffer = vec![0u8; 10];
    let mut data_size: u16 = 0;

    match read_data(&mut registry, handle, 1234, &mut buffer, &mut data_size) {
        Ok(_) => panic!("Should have failed"),
        Err(err) => {
            assert_eq!(error_code(err), CpcNvm3ErrorCodes::CPC_NVM3_BUFFER_TOO_SMALL);
        }
    }
    assert_eq!(buffer, vec![0u8; 10]);
    finalize_test(&mut registry, handle).unwrap();
}

#[test]
fn test_nvm3_write_two_fragments_uses_two_transactions() {
    // 250 bytes exceed the 241-byte fragment cap: two fragments, two
    // acknowledgements (txn 3 and 4).
    let ack_one = vec![
        0x02, 0x05, 0x00, 0x00, 0x00, 0x00, 0x00, 0x03, 0x00, 0x00, 0x00, 0x00, 0x00,
    ];
    let (mut registry, handle) = prepare_test(ack_one);
    let ack_two = vec![
        0x02, 0x05, 0x00, 0x00, 0x00, 0x00, 0x00, 0x04, 0x00, 0x00, 0x00, 0x00, 0x00,
    ];
    push_rx(&mut registry, handle, ack_two).unwrap();

    let data = vec![0x5Au8; 250];
    write_data(&mut registry, handle, 42, &data).unwrap();

    // A single-fragment write would have left the counter one lower and
    // this acknowledgement (txn 5) undeliverable.
    let ack_three = vec![
        0x02, 0x05, 0x00, 0x00, 0x00, 0x00, 0x00, 0x05, 0x00, 0x00, 0x00, 0x00, 0x00,
    ];
    push_rx(&mut registry, handle, ack_three).unwrap();
    write_counter(&mut registry, handle, 7, 1).unwrap();
    finalize_test(&mut registry, handle).unwrap();
}

#[test]
fn test_nvm3_write_oversize_rejected() {
    let (mut registry, handle) = prepare_open();
    let data = vec![0u8; 256];
    match write_data(&mut registry, handle, 1234, &data) {
        Ok(_) => panic!("Expected an argument error"),
        Err(err) => {
            assert_eq!(error_code(err), CpcNvm3ErrorCodes::CPC_NVM3_INVALID_ARG);
        }
    }
}

#[test]
fn test_nvm3_write_busy_try_again() {
    let response = vec![
        0x02, 0x05, 0x00, 0x00, 0x00, 0x00, 0x00, 0x03, 0x00, 0x04, 0x00, 0x00, 0x00,
    ];
    let (mut registry, handle) = prepare_test(response);
    let data: &[u8] = &[0x1];
    match write_data(&mut registry, handle, 1234, data) {
        Ok(_) => panic!("Expected a busy retry"),
        Err(err) => {
            assert_eq!(error_code(err), CpcNvm3ErrorCodes::CPC_NVM3_TRY_AGAIN);
        }
    }
}

#[test]
fn test_nvm3_empty_queue_is_try_again() {
    let (mut registry, handle) = prepare_open();
    match write_counter(&mut registry, handle, 1, 2) {
        Ok(_) => panic!("Expected a timeout"),
        Err(err) => {
            assert_eq!(error_code(err), CpcNvm3ErrorCodes::CPC_NVM3_TRY_AGAIN);
        }
    }
}

#[test]
fn test_nvm3_mismatched_frames_are_dropped() {
    // A frame with a foreign unique id, then one with a stale
    // transaction id; the matching acknowledgement comes third.
    let wrong_uid = vec![
        0x02, 0x05, 0x00, 0x09, 0x00, 0x00, 0x00, 0x03, 0x00, 0x00, 0x00, 0x00, 0x00,
    ];
    let (mut registry, handle) = prepare_test(wrong_uid);
    let stale_txn = vec![
        0x02, 0x05, 0x00, 0x00, 0x00, 0x00, 0x00, 0x02, 0x00, 0x00, 0x00, 0x00, 0x00,
    ];
    push_rx(&mut registry, handle, stale_txn).unwrap();
    let matching = vec![
        0x02, 0x05, 0x00, 0x00, 0x00, 0x00, 0x00, 0x03, 0x00, 0x00, 0x00, 0x00, 0x00,
    ];
    push_rx(&mut registry, handle, matching).unwrap();

    write_data(&mut registry, handle, 1234, &[0x1, 0x2]).unwrap();
    finalize_test(&mut registry, handle).unwrap();
}

#[test]
fn test_nvm3_bad_length_field_fails() {
    let response = vec![
        0x02, 0x10, 0x00, 0x00, 0x00, 0x00, 0x00, 0x03, 0x00, 0x00, 0x00, 0x00, 0x00,
    ];
    let (mut registry, handle) = prepare_test(response);
    match write_data(&mut registry, handle, 1234, &[0x1]) {
        Ok(_) => panic!("Expected a protocol failure"),
        Err(err) => {
            assert_eq!(error_code(err), CpcNvm3ErrorCodes::CPC_NVM3_FAILURE);
        }
    }
}

#[test]
fn test_nvm3_transaction_id_wraps_after_ff() {
    let (mut registry, handle) = prepare_open();
    set_transaction_id(&mut registry, handle, 0xFF).unwrap();
    // The next frame carries txn 0x00 and only an echo of 0x00 is
    // accepted.
    let response = vec![
        0x02, 0x05, 0x00, 0x00, 0x00, 0x00, 0x00, 0x00, 0x00, 0x00, 0x00, 0x00, 0x00,
    ];
    push_rx(&mut registry, handle, response).unwrap();
    write_counter(&mut registry, handle, 1, 2).unwrap();
    finalize_test(&mut registry, handle).unwrap();
}

#[test]
fn test_nvm3_deinit_then_not_initialized() {
    let mut registry = CpcNvm3Registry::new();
    let handle = init(&mut registry).unwrap();
    open(&mut registry, handle, "cpcd_0", true, handshake_link()).unwrap();
    close(&mut registry, handle).unwrap();
    deinit(&mut registry, handle).unwrap();
    match write_counter(&mut registry, handle, 1, 2) {
        Ok(_) => panic!("Expected a dead handle"),
        Err(err) => {
            assert_eq!(error_code(err), CpcNvm3ErrorCodes::CPC_NVM3_NOT_INITIALIZED);
        }
    }
    match deinit(&mut registry, handle) {
        Ok(_) => panic!("Expected a dead handle"),
        Err(err) => {
            assert_eq!(error_code(err), CpcNvm3ErrorCodes::CPC_NVM3_NOT_INITIALIZED);
        }
    }
}

#[test]
fn test_nvm3_deinit_open_instance_refused() {
    let mut registry = CpcNvm3Registry::new();
    let handle = init(&mut registry).unwrap();
    open(&mut registry, handle, "cpcd_0", true, handshake_link()).unwrap();
    match deinit(&mut registry, handle) {
        Ok(_) => panic!("Expected a refusal"),
        Err(err) => {
            assert_eq!(error_code(err), CpcNvm3ErrorCodes::CPC_NVM3_NOT_CLOSED);
        }
    }
}

#[test]
fn test_nvm3_two_instances_do_not_observe_each_other() {
    let mut registry = CpcNvm3Registry::new();
    let first = init(&mut registry).unwrap();
    let second = init(&mut registry).unwrap();
    open(&mut registry, first, "cpcd_0", true, handshake_link()).unwrap();
    open(&mut registry, second, "cpcd_0", true, handshake_link()).unwrap();

    // Only the first instance's queue holds an acknowledgement.
    let ack = vec![
        0x02, 0x05, 0x00, 0x00, 0x00, 0x00, 0x00, 0x03, 0x00, 0x00, 0x00, 0x00, 0x00,
    ];
    push_rx(&mut registry, first, ack).unwrap();
    write_data(&mut registry, first, 1, &[0x1]).unwrap();
    match write_counter(&mut registry, second, 1, 2) {
        Ok(_) => panic!("The second instance has nothing queued"),
        Err(err) => {
            assert_eq!(error_code(err), CpcNvm3ErrorCodes::CPC_NVM3_TRY_AGAIN);
        }
    }
}

#[test]
fn test_nvm3_operations_before_open_not_open() {
    let mut registry = CpcNvm3Registry::new();
    let handle = init(&mut registry).unwrap();
    match write_data(&mut registry, handle, 1, &[0x1]) {
        Ok(_) => panic!("Expected a closed instance"),
        Err(err) => {
            assert_eq!(error_code(err), CpcNvm3ErrorCodes::CPC_NVM3_NOT_OPEN);
        }
    }
    match get_maximum_write_size(&mut registry, handle) {
        Ok(_) => panic!("Expected a closed instance"),
        Err(err) => {
            assert_eq!(error_code(err), CpcNvm3ErrorCodes::CPC_NVM3_NOT_OPEN);
        }
    }
}

#[test]
fn test_nvm3_open_twice_not_closed() {
    let mut registry = CpcNvm3Registry::new();
    let handle = init(&mut registry).unwrap();
    open(&mut registry, handle, "cpcd_0", true, handshake_link()).unwrap();
    match open(&mut registry, handle, "cpcd_0", true, handshake_link()) {
        Ok(_) => panic!("Expected a refusal"),
        Err(err) => {
            assert_eq!(error_code(err), CpcNvm3ErrorCodes::CPC_NVM3_NOT_CLOSED);
        }
    }
}

#[test]
fn test_nvm3_read_counter_success() {
    let response = vec![
        0x0D, 0x04, 0x00, 0x00, 0x00, 0x00, 0x00, 0x03, 0x2A, 0x00, 0x00, 0x00,
    ];
    let (mut registry, handle) = prepare_test(response);
    let value = read_counter(&mut registry, handle, 5).unwrap();
    assert_eq!(value, 42);
    finalize_test(&mut registry, handle).unwrap();
}

#[test]
fn test_nvm3_read_counter_key_not_found() {
    let response = vec![
        0x02, 0x05, 0x00, 0x00, 0x00, 0x00, 0x00, 0x03, 0x01, 0x0B, 0xE0, 0x00, 0xF0,
    ];
    let (mut registry, handle) = prepare_test(response);
    match read_counter(&mut registry, handle, 5) {
        Ok(_) => panic!("Expected an invalid key"),
        Err(err) => {
            assert_eq!(error_code(err), CpcNvm3ErrorCodes::CPC_NVM3_INVALID_OBJECT_KEY);
        }
    }
}

#[test]
fn test_nvm3_increment_counter_success() {
    let response = vec![
        0x0D, 0x04, 0x00, 0x00, 0x00, 0x00, 0x00, 0x03, 0x07, 0x00, 0x00, 0x00,
    ];
    let (mut registry, handle) = prepare_test(response);
    let value = increment_counter(&mut registry, handle, 5).unwrap();
    assert_eq!(value, 7);
    finalize_test(&mut registry, handle).unwrap();
}

#[test]
fn test_nvm3_get_object_count_success() {
    let response = vec![
        0x14, 0x02, 0x00, 0x00, 0x00, 0x00, 0x00, 0x03, 0x03, 0x00,
    ];
    let (mut registry, handle) = prepare_test(response);
    let count = get_object_count(&mut registry, handle).unwrap();
    assert_eq!(count, 3);
    finalize_test(&mut registry, handle).unwrap();
}

#[test]
fn test_nvm3_get_object_info_success() {
    let response = vec![
        0x0B, 0x03, 0x00, 0x00, 0x00, 0x00, 0x00, 0x03, 0x01, 0x40, 0x00,
    ];
    let (mut registry, handle) = prepare_test(response);
    let (size, object_type) = get_object_info(&mut registry, handle, 5).unwrap();
    assert_eq!(size, 64);
    assert_eq!(object_type, CpcNvm3ObjectType::CPC_NVM3_OBJECT_TYPE_COUNTER);
    finalize_test(&mut registry, handle).unwrap();
}

#[test]
fn test_nvm3_list_objects_success() {
    // Two keys, 0x00000007 and 0x00000301, in one final fragment.
    let response = vec![
        0x12, 0x09, 0x00, 0x00, 0x00, 0x00, 0x00, 0x03, 0x01, 0x07, 0x00, 0x00, 0x00, 0x01,
        0x03, 0x00, 0x00,
    ];
    let (mut registry, handle) = prepare_test(response);
    let mut keys = vec![0u32; 4];
    let mut object_count: u16 = 0;
    list_objects(&mut registry, handle, &mut keys, &mut object_count).unwrap();
    assert_eq!(object_count, 2);
    assert_eq!(&keys[..2], &[7, 0x301]);
    finalize_test(&mut registry, handle).unwrap();
}

#[test]
fn test_nvm3_get_maximum_write_size_after_open() {
    let (mut registry, handle) = prepare_open();
    let max = get_maximum_write_size(&mut registry, handle).unwrap();
    assert_eq!(max, 255);
}

#[test]
fn test_nvm3_timeouts_default_and_set() {
    let (mut registry, handle) = prepare_open();
    assert_eq!(get_timeout(&mut registry, handle).unwrap(), (5, 0));
    set_timeout(&mut registry, handle, 1, 500000).unwrap();
    assert_eq!(get_timeout(&mut registry, handle).unwrap(), (1, 500000));
}

#[test]
fn test_link_error_classification() {
    assert_eq!(
        error_code(classify_link_error(LinkErrorKind::WouldBlock, false)),
        CpcNvm3ErrorCodes::CPC_NVM3_TRY_AGAIN
    );
    assert_eq!(
        error_code(classify_link_error(LinkErrorKind::ReconnectEligible, true)),
        CpcNvm3ErrorCodes::CPC_NVM3_TRY_AGAIN
    );
    assert_eq!(
        error_code(classify_link_error(LinkErrorKind::ReconnectEligible, false)),
        CpcNvm3ErrorCodes::CPC_NVM3_CPC_ENDPOINT_ERROR
    );
    assert_eq!(
        error_code(classify_link_error(LinkErrorKind::Unrecoverable, false)),
        CpcNvm3ErrorCodes::CPC_NVM3_CPC_ENDPOINT_ERROR
    );
}

#[test]
fn test_nvm3_list_objects_two_fragments() {
    // Keys 1 and 2 in a first fragment, key 3 in the final one.
    let first = vec![
        0x12, 0x09, 0x00, 0x00, 0x00, 0x00, 0x00, 0x03, 0x00, 0x01, 0x00, 0x00, 0x00, 0x02,
        0x00, 0x00, 0x00,
    ];
    let (mut registry, handle) = prepare_test(first);
    let second = vec![
        0x12, 0x05, 0x00, 0x00, 0x00, 0x00, 0x00, 0x03, 0x01, 0x03, 0x00, 0x00, 0x00,
    ];
    push_rx(&mut registry, handle, second).unwrap();

    let mut keys = vec![0u32; 4];
    let mut object_count: u16 = 0;
    list_objects(&mut registry, handle, &mut keys, &mut object_count).unwrap();
    assert_eq!(object_count, 3);
    assert_eq!(&keys[..3], &[1, 2, 3]);
    finalize_test(&mut registry, handle).unwrap();
}

#[test]
fn test_nvm3_list_objects_capacity_exceeded() {
    // Two keys for a one-key array.
    let response = vec![
        0x12, 0x09, 0x00, 0x00, 0x00, 0x00, 0x00, 0x03, 0x01, 0x01, 0x00, 0x00, 0x00, 0x02,
        0x00, 0x00, 0x00,
    ];
    let (mut registry, handle) = prepare_test(response);
    let mut keys = vec![0u32; 1];
    let mut object_count: u16 = 0;
    match list_objects(&mut registry, handle, &mut keys, &mut object_count) {
        Ok(_) => panic!("Expected a capacity error"),
        Err(err) => {
            assert_eq!(error_code(err), CpcNvm3ErrorCodes::CPC_NVM3_BUFFER_TOO_SMALL);
        }
    }
}

#[test]
fn test_nvm3_list_objects_ragged_payload_fails() {
    // Five payload bytes are not a whole number of keys.
    let response = vec![
        0x12, 0x06, 0x00, 0x00, 0x00, 0x00, 0x00, 0x03, 0x01, 0x01, 0x00, 0x00, 0x00, 0x02,
    ];
    let (mut registry, handle) = prepare_test(response);
    let mut keys = vec![0u32; 4];
    let mut object_count: u16 = 0;
    match list_objects(&mut registry, handle, &mut keys, &mut object_count) {
        Ok(_) => panic!("Expected a protocol failure"),
        Err(err) => {
            assert_eq!(error_code(err), CpcNvm3ErrorCodes::CPC_NVM3_FAILURE);
        }
    }
}

#[test]
fn test_nvm3_write_counter_busy_try_again() {
    // A busy remote is transient on every path: the caller retries.
    let response = vec![
        0x02, 0x05, 0x00, 0x00, 0x00, 0x00, 0x00, 0x03, 0x00, 0x04, 0x00, 0x00, 0x00,
    ];
    let (mut registry, handle) = prepare_test(response);
    match write_counter(&mut registry, handle, 1, 2) {
        Ok(_) => panic!("Expected a busy retry"),
        Err(err) => {
            assert_eq!(error_code(err), CpcNvm3ErrorCodes::CPC_NVM3_TRY_AGAIN);
        }
    }
}

#[test]
fn test_nvm3_delete_busy_try_again() {
    let response = vec![
        0x02, 0x05, 0x00, 0x00, 0x00, 0x00, 0x00, 0x03, 0x00, 0x04, 0x00, 0x00, 0x00,
    ];
    let (mut registry, handle) = prepare_test(response);
    match delete_object(&mut registry, handle, 1) {
        Ok(_) => panic!("Expected a busy retry"),
        Err(err) => {
            assert_eq!(error_code(err), CpcNvm3ErrorCodes::CPC_NVM3_TRY_AGAIN);
        }
    }
}

#[test]
fn test_nvm3_read_counter_busy_try_again() {
    let response = vec![
        0x02, 0x05, 0x00, 0x00, 0x00, 0x00, 0x00, 0x03, 0x00, 0x04, 0x00, 0x00, 0x00,
    ];
    let (mut registry, handle) = prepare_test(response);
    match read_counter(&mut registry, handle, 1) {
        Ok(_) => panic!("Expected a busy retry"),
        Err(err) => {
            assert_eq!(error_code(err), CpcNvm3ErrorCodes::CPC_NVM3_TRY_AGAIN);
        }
    }
}

#[test]
fn test_nvm3_delete_object_success_and_missing_key() {
    let ack = vec![
        0x02, 0x05, 0x00, 0x00, 0x00, 0x00, 0x00, 0x03, 0x00, 0x00, 0x00, 0x00, 0x00,
    ];
    let (mut registry, handle) = prepare_test(ack);
    delete_object(&mut registry, handle, 9).unwrap();

    let missing = vec![
        0x02, 0x05, 0x00, 0x00, 0x00, 0x00, 0x00, 0x04, 0x01, 0x0B, 0xE0, 0x00, 0xF0,
    ];
    push_rx(&mut registry, handle, missing).unwrap();
    match delete_object(&mut registry, handle, 9) {
        Ok(_) => panic!("Expected an invalid key"),
        Err(err) => {
            assert_eq!(error_code(err), CpcNvm3ErrorCodes::CPC_NVM3_INVALID_OBJECT_KEY);
        }
    }
    finalize_test(&mut registry, handle).unwrap();
}

#[test]
fn test_nvm3_get_object_info_unknown_type() {
    let response = vec![
        0x0B, 0x03, 0x00, 0x00, 0x00, 0x00, 0x00, 0x03, 0x07, 0x08, 0x00,
    ];
    let (mut registry, handle) = prepare_test(response);
    let (size, object_type) = get_object_info(&mut registry, handle, 5).unwrap();
    assert_eq!(size, 8);
    assert_eq!(object_type, CpcNvm3ObjectType::CPC_NVM3_OBJECT_TYPE_UNKNOWN);
    finalize_test(&mut registry, handle).unwrap();
}

#[test]
fn test_nvm3_open_version_mismatch() {
    let mut registry = CpcNvm3Registry::new();
    let handle = init(&mut registry).unwrap();
    let mut link = Endpoint::new(CPC_NVM3_MAX_WRITE_CAPABILITY);
    link.push_rx(vec![
        0x01,
        0x03,
        0x00,
        0x00,
        0x00,
        0x00,
        0x00,
        0x01,
        CPC_NVM3_MAJOR_VERSION + 1,
        CPC_NVM3_MINOR_VERSION,
        CPC_NVM3_PATCH_VERSION,
    ]);
    match open(&mut registry, handle, "cpcd_0", true, link) {
        Ok(_) => panic!("Expected a version mismatch"),
        Err(err) => {
            assert_eq!(error_code(err), CpcNvm3ErrorCodes::CPC_NVM3_INVALID_VERSION);
        }
    }
    // On any failure during open, both caps are cleared.
    match get_maximum_write_size(&mut registry, handle) {
        Ok(_) => panic!("Expected a closed instance"),
        Err(err) => {
            assert_eq!(error_code(err), CpcNvm3ErrorCodes::CPC_NVM3_NOT_OPEN);
        }
    }
}

#[test]
fn test_nvm3_open_without_replies_times_out() {
    let mut registry = CpcNvm3Registry::new();
    let handle = init(&mut registry).unwrap();
    let link = Endpoint::new(CPC_NVM3_MAX_WRITE_CAPABILITY);
    match open(&mut registry, handle, "cpcd_0", true, link) {
        Ok(_) => panic!("Expected a timeout"),
        Err(err) => {
            assert_eq!(error_code(err), CpcNvm3ErrorCodes::CPC_NVM3_TRY_AGAIN);
        }
    }
    match get_maximum_write_size(&mut registry, handle) {
        Ok(_) => panic!("Expected a closed instance"),
        Err(err) => {
            assert_eq!(error_code(err), CpcNvm3ErrorCodes::CPC_NVM3_NOT_OPEN);
        }
    }
}

#[test]
fn test_nvm3_open_negotiates_write_size() {
    let mut registry = CpcNvm3Registry::new();
    let handle = init(&mut registry).unwrap();
    let mut link = Endpoint::new(CPC_NVM3_MAX_WRITE_CAPABILITY);
    link.push_rx(vec![
        0x01,
        0x03,
        0x00,
        0x00,
        0x00,
        0x00,
        0x00,
        0x01,
        CPC_NVM3_MAJOR_VERSION,
        CPC_NVM3_MINOR_VERSION,
        CPC_NVM3_PATCH_VERSION,
    ]);
    // The remote reports a maximum write size of 100.
    link.push_rx(vec![
        0x05, 0x03, 0x00, 0x00, 0x00, 0x00, 0x00, 0x02, 0x02, 0x64, 0x00,
    ]);
    open(&mut registry, handle, "cpcd_0", true, link).unwrap();
    assert_eq!(get_maximum_write_size(&mut registry, handle).unwrap(), 100);

    // A write one byte over the negotiated size is rejected unsent.
    let oversize = vec![0u8; 101];
    match write_data(&mut registry, handle, 1, &oversize) {
        Ok(_) => panic!("Expected an argument error"),
        Err(err) => {
            assert_eq!(error_code(err), CpcNvm3ErrorCodes::CPC_NVM3_INVALID_ARG);
        }
    }
}

#[test]
fn test_nvm3_open_link_frames_too_small() {
    let mut registry = CpcNvm3Registry::new();
    let handle = init(&mut registry).unwrap();
    // A ten-byte frame cap cannot carry even an empty write frame.
    let link = Endpoint::new(10);
    match open(&mut registry, handle, "cpcd_0", true, link) {
        Ok(_) => panic!("Expected an endpoint error"),
        Err(err) => {
            assert_eq!(error_code(err), CpcNvm3ErrorCodes::CPC_NVM3_CPC_ENDPOINT_ERROR);
        }
    }
}

#[test]
fn test_nvm3_open_status_instead_of_property_fails() {
    let mut registry = CpcNvm3Registry::new();
    let handle = init(&mut registry).unwrap();
    let mut link = Endpoint::new(CPC_NVM3_MAX_WRITE_CAPABILITY);
    link.push_rx(vec![
        0x01,
        0x03,
        0x00,
        0x00,
        0x00,
        0x00,
        0x00,
        0x01,
        CPC_NVM3_MAJOR_VERSION,
        CPC_NVM3_MINOR_VERSION,
        CPC_NVM3_PATCH_VERSION,
    ]);
    link.push_rx(vec![
        0x02, 0x05, 0x00, 0x00, 0x00, 0x00, 0x00, 0x02, 0x00, 0x01, 0x00, 0x00, 0x00,
    ]);
    match open(&mut registry, handle, "cpcd_0", true, link) {
        Ok(_) => panic!("Expected a failure"),
        Err(err) => {
            assert_eq!(error_code(err), CpcNvm3ErrorCodes::CPC_NVM3_FAILURE);
        }
    }
}
