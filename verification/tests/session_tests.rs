// Dispatcher scenarios: the session state machine driven as the serve loop
// would drive it, with engine outcomes handed in as plain values.

use eztrans_rs::ipc_protocol::{
    Command, InitializeRequest, MessageHeader, SetPropertyRequest, Status,
    TranslateMMNTRequest, TranslateMMNTWRequest,
};
use eztrans_rs::session::Session;
use eztrans_rs::EzTransError;

fn wide_request(text: &str) -> TranslateMMNTWRequest {
    let mut buf = vec![0u16; 4096];
    let units: Vec<u16> = text.encode_utf16().collect();
    buf[..units.len()].copy_from_slice(&units);
    TranslateMMNTWRequest { data0: 0, text: buf }
}

#[test]
fn scenario_initialize_then_translate() {
    let mut session = Session::new();
    assert!(!session.initialized);

    // Initialize with a valid path: the engine construction succeeded.
    let response = session.handle_initialize(true);
    assert_eq!(response.status, Status::Success);
    assert!(response.success);
    assert!(session.initialized);

    // A short Japanese sentence needs no escaping, so the engine gets it
    // verbatim.
    let request = wide_request("こんにちは。");
    let (engine_input, encoded) = session.begin_translate_extended(&request).unwrap();
    assert_eq!(engine_input, "こんにちは。");
    assert!(!encoded);

    // The engine answers; the response carries the translation.
    let response = session.finish_translate_extended(Some("안녕하세요.".to_string()), encoded);
    assert_eq!(response.status, Status::Success);
    assert_eq!(response.result_code, 0);
    let expected: Vec<u16> = "안녕하세요.".encode_utf16().collect();
    assert_eq!(&response.translated[..expected.len()], &expected[..]);
    assert!(response.translated[expected.len()] == 0);
}

#[test]
fn scenario_translate_before_initialize() {
    let session = Session::new();

    let request = wide_request("こんにちは。");
    assert!(session.begin_translate_extended(&request).is_none());

    let response = session.translate_extended_not_initialized();
    assert_eq!(response.status, Status::NotInitialized);
    assert_eq!(response.result_code, -1);
    assert!(response.translated.iter().all(|&u| u == 0));
}

#[test]
fn scenario_unknown_command_is_fatal() {
    // An unrecognized command code is rejected before any payload is read.
    let header = MessageHeader { command: 42, payload_size: 0, request_id: 7 };
    match Command::try_from(header.command) {
        Err(EzTransError::InvalidCommand(42)) => {}
        other => panic!("expected InvalidCommand(42), got {:?}", other),
    }
}

#[test]
fn scenario_shutdown_stops_loop() {
    let mut session = Session::new();
    session.handle_initialize(true);
    assert!(session.running);

    session.handle_shutdown();
    assert!(!session.running);
    // The engine attachment is untouched; teardown happens at loop exit.
    assert!(session.initialized);
}

#[test]
fn terminate_is_idempotent() {
    let mut session = Session::new();
    session.handle_initialize(true);

    let first = session.handle_terminate();
    assert_eq!(first.status, Status::Success);
    assert!(!session.initialized);

    let second = session.handle_terminate();
    assert_eq!(second.status, Status::Success);
    assert!(!session.initialized);
    assert!(session.running);
}

#[test]
fn initialize_failure_reports_error() {
    let mut session = Session::new();
    let response = session.handle_initialize(false);
    assert_eq!(response.status, Status::Error);
    assert!(!response.success);
    assert!(!session.initialized);
}

#[test]
fn translate_extended_engine_failure() {
    let mut session = Session::new();
    session.handle_initialize(true);
    let response = session.finish_translate_extended(None, false);
    assert_eq!(response.status, Status::Error);
    assert_eq!(response.result_code, -1);
    assert!(response.translated.iter().all(|&u| u == 0));
}

#[test]
fn translate_extended_escapes_protected_text() {
    let mut session = Session::new();
    session.handle_initialize(true);

    // Korean text in the request fires the pre-check, so the engine sees
    // escapes; the reply is decoded on the way back.
    let request = wide_request("가나다라おはようございます。");
    let (engine_input, encoded) = session.begin_translate_extended(&request).unwrap();
    assert!(encoded);
    assert!(engine_input.starts_with("+xAC00+xB098+xB2E4+xB77C"));

    let response = session.finish_translate_extended(
        Some("+xAC00+xB098+xB2E4+xB77C good morning.".to_string()),
        encoded,
    );
    assert_eq!(response.status, Status::Success);
    let expected: Vec<u16> = "가나다라 good morning.".encode_utf16().collect();
    assert_eq!(&response.translated[..expected.len()], &expected[..]);
}

#[test]
fn translate_legacy_full_exchange() {
    let mut session = Session::new();
    session.handle_initialize(true);

    // "こんにちは" in Shift-JIS, as the legacy request carries it.
    let sjis: [u8; 10] = [0x82, 0xB1, 0x82, 0xF1, 0x82, 0xC9, 0x82, 0xBF, 0x82, 0xCD];
    let mut buf = vec![0u8; 4096];
    buf[..sjis.len()].copy_from_slice(&sjis);
    let request = TranslateMMNTRequest { data0: 0, text: buf };

    let (engine_input, encoded) = session.begin_translate_legacy(&request).unwrap();
    assert_eq!(engine_input, "こんにちは");
    assert!(!encoded);

    // The engine answers in Korean; the response buffer carries EUC-KR.
    let response = session.finish_translate_legacy(Some("안녕".to_string()), encoded);
    assert_eq!(response.status, Status::Success);
    assert_eq!(response.result_code, 0);
    let expected: [u8; 4] = [0xBE, 0xC8, 0xB3, 0xE7]; // "안녕" in EUC-KR
    assert_eq!(&response.translated[..4], &expected[..]);
    assert!(response.translated[4] == 0);
}

#[test]
fn translate_legacy_before_initialize() {
    let session = Session::new();
    let mut buf = vec![0u8; 4096];
    buf[0] = b'a';
    let request = TranslateMMNTRequest { data0: 0, text: buf };
    assert!(session.begin_translate_legacy(&request).is_none());

    let response = session.translate_legacy_not_initialized();
    assert_eq!(response.status, Status::NotInitialized);
    assert_eq!(response.result_code, -1);
    assert!(response.translated.iter().all(|&b| b == 0));
}

#[test]
fn set_property_paths() {
    let mut session = Session::new();
    let request = SetPropertyRequest { property_id: 3, value: 1 };

    // Before initialization the engine is never consulted.
    assert!(session.begin_set_property(&request).is_none());
    let response = session.finish_set_property(None);
    assert_eq!(response.status, Status::NotInitialized);

    session.handle_initialize(true);
    assert_eq!(session.begin_set_property(&request), Some((3, 1)));
    assert_eq!(session.finish_set_property(Some(true)).status, Status::Success);
    assert_eq!(session.finish_set_property(Some(false)).status, Status::Error);
}

#[test]
fn reload_and_ping_always_succeed() {
    let session = Session::new();
    assert_eq!(session.handle_ping().status, Status::Success);
    assert_eq!(session.handle_reload_user_dict().status, Status::Success);
}

#[test]
fn initialize_paths_from_request() {
    let mut buf = vec![0u16; 260];
    let units: Vec<u16> = "C:\\ezTrans".encode_utf16().collect();
    buf[..units.len()].copy_from_slice(&units);
    let request = InitializeRequest { engine_path: buf };

    let (dll, dat) = Session::initialize_paths(&request);
    assert_eq!(dll, "C:\\ezTrans\\J2KEngine.dll");
    assert_eq!(dat, "C:\\ezTrans\\Dat");
}
