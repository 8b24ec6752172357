// Byte-level tests of the wire records: exact layouts and round trips.

use eztrans_rs::ipc_protocol::{
    GenericResponse, InitializeRequest, InitializeResponse, MessageHeader, SetPropertyRequest,
    Status, TranslateMMNTResponse, TranslateMMNTWRequest,
};
use eztrans_rs::wide::{utf16_decode_lossy_chars, utf16_encode_chars};

#[test]
fn message_header_exact_bytes() {
    let header = MessageHeader { command: 8, payload_size: 0, request_id: 12345 };
    let bytes = header.to_bytes();
    assert_eq!(
        bytes,
        vec![8, 0, 0, 0, 0, 0, 0, 0, 0x39, 0x30, 0, 0, 0, 0, 0, 0]
    );
}

#[test]
fn message_header_round_trip() {
    let header = MessageHeader { command: 3, payload_size: 4100, request_id: u64::MAX };
    let bytes = header.to_bytes();
    let back = MessageHeader::from_bytes(&bytes);
    assert_eq!(back, header);
}

#[test]
fn initialize_request_round_trip() {
    let mut buf = vec![0u16; 260];
    let units: Vec<u16> = "C:\\ezTrans".encode_utf16().collect();
    buf[..units.len()].copy_from_slice(&units);
    let request = InitializeRequest { engine_path: buf.clone() };

    let bytes = request.to_bytes();
    assert_eq!(bytes.len(), 520);
    let back = InitializeRequest::from_bytes(&bytes);
    assert_eq!(back.engine_path, buf);
}

#[test]
fn initialize_response_exact_bytes() {
    let ok = InitializeResponse { status: Status::Success, success: true };
    assert_eq!(ok.to_bytes(), vec![0, 0, 0, 0, 1, 0, 0, 0]);

    let failed = InitializeResponse { status: Status::Error, success: false };
    assert_eq!(failed.to_bytes(), vec![1, 0, 0, 0, 0, 0, 0, 0]);
}

#[test]
fn generic_response_exact_bytes() {
    let response = GenericResponse { status: Status::NotInitialized };
    assert_eq!(response.to_bytes(), vec![2, 0, 0, 0]);
}

#[test]
fn translate_mmnt_response_error_prefix() {
    let response = TranslateMMNTResponse {
        status: Status::Error,
        result_code: -1,
        translated: vec![0u8; 4096],
    };
    let bytes = response.to_bytes();
    assert_eq!(&bytes[..8], &[1, 0, 0, 0, 0xFF, 0xFF, 0xFF, 0xFF]);
    assert!(bytes[8..].iter().all(|&b| b == 0));
}

#[test]
fn translate_mmntw_request_round_trip() {
    let mut buf = vec![0u16; 4096];
    let units: Vec<u16> = "翻訳テスト😀".encode_utf16().collect();
    buf[..units.len()].copy_from_slice(&units);
    let request = TranslateMMNTWRequest { data0: 9, text: buf.clone() };

    let bytes = request.to_bytes();
    assert_eq!(bytes.len(), 8196);
    let back = TranslateMMNTWRequest::from_bytes(&bytes);
    assert_eq!(back.data0, 9);
    assert_eq!(back.text, buf);
}

#[test]
fn set_property_request_round_trip() {
    let request = SetPropertyRequest { property_id: -7, value: 100 };
    let bytes = request.to_bytes();
    assert_eq!(&bytes[..4], &[0xF9, 0xFF, 0xFF, 0xFF]);
    let back = SetPropertyRequest::from_bytes(&bytes);
    assert_eq!(back, request);
}

#[test]
fn utf16_round_trip_including_surrogate_pairs() {
    let text = "家族の絵文字👨‍👩‍👧と한글";
    let chars: Vec<char> = text.chars().collect();
    let units = utf16_encode_chars(&chars);
    let expected: Vec<u16> = text.encode_utf16().collect();
    assert_eq!(units, expected);

    let back = utf16_decode_lossy_chars(&units);
    assert_eq!(back, chars);
}

#[test]
fn utf16_decode_replaces_unpaired_surrogates() {
    let units = vec![0x0041u16, 0xD800, 0x0042, 0xDC00, 0x0043];
    let chars = utf16_decode_lossy_chars(&units);
    let text: String = chars.into_iter().collect();
    assert_eq!(text, "A\u{FFFD}B\u{FFFD}C");
}
