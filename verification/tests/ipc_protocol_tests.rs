// Wire protocol tests. Record layouts are hand-written byte codecs, so the
// wire size of each record is checked through its encoder and the size
// constants rather than through a compiler's memory layout.

use eztrans_rs::ipc_protocol::{
    Command, GenericResponse, InitializeRequest, InitializeResponse, MessageHeader,
    SetPropertyRequest, Status, TranslateMMNTRequest, TranslateMMNTResponse,
    TranslateMMNTWRequest, TranslateMMNTWResponse, GENERIC_RESPONSE_SIZE,
    INITIALIZE_REQUEST_SIZE, INITIALIZE_RESPONSE_SIZE, MESSAGE_HEADER_SIZE,
    SET_PROPERTY_REQUEST_SIZE, TRANSLATE_MMNTW_REQUEST_SIZE, TRANSLATE_MMNTW_RESPONSE_SIZE,
    TRANSLATE_MMNT_REQUEST_SIZE, TRANSLATE_MMNT_RESPONSE_SIZE,
};

#[test]
fn test_message_header_size() {
    // MessageHeader should be 16 bytes (4 + 4 + 8)
    assert_eq!(MESSAGE_HEADER_SIZE, 16);
    let header = MessageHeader { command: 1, payload_size: 0, request_id: 0 };
    assert_eq!(header.to_bytes().len(), 16);
}

#[test]
fn test_initialize_response_size() {
    // InitializeResponse should be 8 bytes (4 + 4 for bool with padding)
    assert_eq!(INITIALIZE_RESPONSE_SIZE, 8);
    let response = InitializeResponse { status: Status::Success, success: true };
    assert_eq!(response.to_bytes().len(), 8);
}

#[test]
fn test_generic_response_size() {
    // GenericResponse should be 4 bytes
    assert_eq!(GENERIC_RESPONSE_SIZE, 4);
    let response = GenericResponse { status: Status::Success };
    assert_eq!(response.to_bytes().len(), 4);
}

#[test]
fn test_initialize_request_size() {
    // 260 * 2 = 520 bytes for UTF-16 path
    assert_eq!(INITIALIZE_REQUEST_SIZE, 520);
    let request = InitializeRequest { engine_path: vec![0u16; 260] };
    assert_eq!(request.to_bytes().len(), 520);
}

#[test]
fn test_translate_mmnt_request_size() {
    // 4 bytes (data0) + 4096 bytes (text)
    assert_eq!(TRANSLATE_MMNT_REQUEST_SIZE, 4100);
    let request = TranslateMMNTRequest { data0: 0, text: vec![0u8; 4096] };
    assert_eq!(request.to_bytes().len(), 4100);
}

#[test]
fn test_translate_mmnt_response_size() {
    // 4 bytes (status) + 4 bytes (result_code) + 4096 bytes (translated)
    assert_eq!(TRANSLATE_MMNT_RESPONSE_SIZE, 4104);
    let response = TranslateMMNTResponse {
        status: Status::Success,
        result_code: 0,
        translated: vec![0u8; 4096],
    };
    assert_eq!(response.to_bytes().len(), 4104);
}

#[test]
fn test_translate_mmntw_request_size() {
    // 4 bytes (data0) + 4096 * 2 bytes (UTF-16 text) = 8196 bytes
    assert_eq!(TRANSLATE_MMNTW_REQUEST_SIZE, 8196);
    let request = TranslateMMNTWRequest { data0: 0, text: vec![0u16; 4096] };
    assert_eq!(request.to_bytes().len(), 8196);
}

#[test]
fn test_translate_mmntw_response_size() {
    // 4 bytes (status) + 4 bytes (result_code) + 4096 * 2 bytes (UTF-16 translated)
    assert_eq!(TRANSLATE_MMNTW_RESPONSE_SIZE, 8200);
    let response = TranslateMMNTWResponse {
        status: Status::Success,
        result_code: 0,
        translated: vec![0u16; 4096],
    };
    assert_eq!(response.to_bytes().len(), 8200);
}

#[test]
fn test_command_values() {
    assert_eq!(Command::Initialize.code(), 1);
    assert_eq!(Command::Terminate.code(), 2);
    assert_eq!(Command::TranslateMMNT.code(), 3);
    assert_eq!(Command::TranslateMMNTW.code(), 4);
    assert_eq!(Command::ReloadUserDict.code(), 5);
    assert_eq!(Command::SetProperty.code(), 6);
    assert_eq!(Command::Shutdown.code(), 7);
    assert_eq!(Command::Ping.code(), 8);
}

#[test]
fn test_status_values() {
    assert_eq!(Status::Success.code(), 0);
    assert_eq!(Status::Error.code(), 1);
    assert_eq!(Status::NotInitialized.code(), 2);
    assert_eq!(Status::InvalidParameter.code(), 3);
}

#[test]
fn test_message_header_creation() {
    let header = MessageHeader {
        command: Command::Ping.code(),
        payload_size: 0,
        request_id: 12345,
    };

    assert_eq!(header.command, 8);
    assert_eq!(header.payload_size, 0);
    assert_eq!(header.request_id, 12345);
}

#[test]
fn test_buffer_initialization() {
    let mut request = TranslateMMNTRequest { data0: 0, text: vec![0u8; 4096] };

    // Test writing to buffer
    let test_str = b"Hello";
    request.text[..test_str.len()].copy_from_slice(test_str);

    assert_eq!(&request.text[..5], b"Hello");
    assert_eq!(request.text[5], 0);
}

#[test]
fn test_wide_buffer_initialization() {
    let mut request = TranslateMMNTWRequest { data0: 0, text: vec![0u16; 4096] };

    // Test writing UTF-16 to buffer
    let test_str = "테스트";
    let encoded: Vec<u16> = test_str.encode_utf16().collect();
    request.text[..encoded.len()].copy_from_slice(&encoded);

    let decoded = String::from_utf16_lossy(&request.text[..encoded.len()]);
    assert_eq!(decoded, test_str);
}

#[test]
fn test_set_property_request_size() {
    // 4 bytes (property_id) + 4 bytes (value) = 8 bytes
    assert_eq!(SET_PROPERTY_REQUEST_SIZE, 8);
    let request = SetPropertyRequest { property_id: 0, value: 0 };
    assert_eq!(request.to_bytes().len(), 8);
}

#[test]
fn test_set_property_request_creation() {
    let request = SetPropertyRequest {
        property_id: 1,
        value: 100,
    };

    assert_eq!(request.property_id, 1);
    assert_eq!(request.value, 100);
}

#[test]
fn test_request_size_by_command() {
    // The record to read is dictated by the command code alone;
    // header-only commands carry no payload.
    assert_eq!(eztrans_rs::ipc_protocol::request_size(Command::Initialize), 520);
    assert_eq!(eztrans_rs::ipc_protocol::request_size(Command::TranslateMMNT), 4100);
    assert_eq!(eztrans_rs::ipc_protocol::request_size(Command::TranslateMMNTW), 8196);
    assert_eq!(eztrans_rs::ipc_protocol::request_size(Command::SetProperty), 8);
    assert_eq!(eztrans_rs::ipc_protocol::request_size(Command::Terminate), 0);
    assert_eq!(eztrans_rs::ipc_protocol::request_size(Command::ReloadUserDict), 0);
    assert_eq!(eztrans_rs::ipc_protocol::request_size(Command::Shutdown), 0);
    assert_eq!(eztrans_rs::ipc_protocol::request_size(Command::Ping), 0);
}

#[test]
fn test_command_try_from_valid() {
    assert_eq!(Command::try_from(1).unwrap(), Command::Initialize);
    assert_eq!(Command::try_from(2).unwrap(), Command::Terminate);
    assert_eq!(Command::try_from(3).unwrap(), Command::TranslateMMNT);
    assert_eq!(Command::try_from(4).unwrap(), Command::TranslateMMNTW);
    assert_eq!(Command::try_from(5).unwrap(), Command::ReloadUserDict);
    assert_eq!(Command::try_from(6).unwrap(), Command::SetProperty);
    assert_eq!(Command::try_from(7).unwrap(), Command::Shutdown);
    assert_eq!(Command::try_from(8).unwrap(), Command::Ping);
}

#[test]
fn test_command_try_from_invalid() {
    assert!(Command::try_from(0).is_err());
    assert!(Command::try_from(9).is_err());
    assert!(Command::try_from(100).is_err());
}
