use bmw_toolbox_lib::transport::mock_ecu::{DiagnosticSession, MockEcu, Nrc};

#[test]
fn session_control_switches_session_and_acks() {
    let mut ecu = MockEcu::new();
    let response = ecu.handle_request(&[0x10, 0x03]);
    assert_eq!(response[0], 0x50);
    assert_eq!(response[1], 0x03);
    assert_eq!(ecu.session(), DiagnosticSession::Extended);
}

#[test]
fn session_control_rejects_unknown_subfunction() {
    let mut ecu = MockEcu::new();
    let response = ecu.handle_request(&[0x10, 0xEE]);
    assert_eq!(response, vec![0x7F, 0x10, Nrc::SubFunctionNotSupported.code()]);
}

#[test]
fn read_data_by_identifier_returns_configured_vin() {
    let mut ecu = MockEcu::new();
    let response = ecu.handle_request(&[0x22, 0xF1, 0x90]);
    assert_eq!(&response[..3], &[0x62, 0xF1, 0x90]);
    assert_eq!(&response[3..], b"WBAF12345LC000001");
}

#[test]
fn read_data_by_identifier_unknown_did_is_negative() {
    let mut ecu = MockEcu::new();
    let response = ecu.handle_request(&[0x22, 0x00, 0x00]);
    assert_eq!(response, vec![0x7F, 0x22, Nrc::RequestOutOfRange.code()]);
}

#[test]
fn read_dtc_information_lists_configured_dtcs() {
    let mut ecu = MockEcu::new().with_dtc(0x001234, 0x08);
    let response = ecu.handle_request(&[0x19, 0x02]);
    assert_eq!(response[0], 0x59);
    assert_eq!(&response[3..6], &[0x00, 0x12, 0x34]);
    assert_eq!(response[6], 0x08);
}

#[test]
fn read_dtc_information_rejects_unsupported_subfunction() {
    let mut ecu = MockEcu::new();
    let response = ecu.handle_request(&[0x19, 0x04]);
    assert_eq!(response, vec![0x7F, 0x19, Nrc::SubFunctionNotSupported.code()]);
}

#[test]
fn tester_present_acks() {
    let mut ecu = MockEcu::new();
    assert_eq!(ecu.handle_request(&[0x3E, 0x00]), vec![0x7E, 0x00]);
}

#[test]
fn unknown_service_is_negative() {
    let mut ecu = MockEcu::new();
    let response = ecu.handle_request(&[0x99]);
    assert_eq!(response, vec![0x7F, 0x99, Nrc::ServiceNotSupported.code()]);
}

#[test]
fn nrc_wire_values() {
    assert_eq!(Nrc::ServiceNotSupported.code(), 0x11);
    assert_eq!(Nrc::SubFunctionNotSupported.code(), 0x12);
    assert_eq!(Nrc::RequestOutOfRange.code(), 0x31);
}

#[test]
fn empty_request_is_negative_with_sid_zero() {
    let mut ecu = MockEcu::new();
    assert_eq!(ecu.handle_request(&[]), vec![0x7F, 0x00, 0x11]);
}

#[test]
fn session_control_positive_response_carries_timings() {
    let mut ecu = MockEcu::new();
    assert_eq!(ecu.handle_request(&[0x10, 0x01]), vec![0x50, 0x01, 0x00, 0x32, 0x01, 0xF4]);
    assert_eq!(ecu.session(), DiagnosticSession::Default);
}

#[test]
fn rejected_session_request_keeps_session() {
    let mut ecu = MockEcu::new();
    ecu.handle_request(&[0x10, 0x03]);
    assert_eq!(ecu.handle_request(&[0x10]), vec![0x7F, 0x10, 0x12]);
    assert_eq!(ecu.handle_request(&[0x10, 0x02]), vec![0x7F, 0x10, 0x12]);
    assert_eq!(ecu.session(), DiagnosticSession::Extended);
}

#[test]
fn short_read_requests_are_out_of_range() {
    let mut ecu = MockEcu::new();
    assert_eq!(ecu.handle_request(&[0x22, 0xF1]), vec![0x7F, 0x22, 0x31]);
    assert_eq!(ecu.handle_request(&[0x19]), vec![0x7F, 0x19, 0x12]);
    assert_eq!(ecu.handle_request(&[0x3E]), vec![0x7F, 0x3E, 0x12]);
    assert_eq!(ecu.handle_request(&[0x3E, 0x80]), vec![0x7F, 0x3E, 0x12]);
}

#[test]
fn with_did_replaces_value_and_adds_new_ones() {
    let mut ecu = MockEcu::new().with_did(0xF190, vec![0x41]).with_did(0x0102, vec![1, 2, 3]);
    assert_eq!(ecu.handle_request(&[0x22, 0xF1, 0x90]), vec![0x62, 0xF1, 0x90, 0x41]);
    assert_eq!(ecu.handle_request(&[0x22, 0x01, 0x02]), vec![0x62, 0x01, 0x02, 1, 2, 3]);
}

#[test]
fn dtcs_are_reported_in_insertion_order() {
    let mut ecu = MockEcu::new().with_dtc(0x0A0B0C, 0x01).with_dtc(0xFF010203, 0x02);
    assert_eq!(
        ecu.handle_request(&[0x19, 0x02]),
        vec![0x59, 0x02, 0xFF, 0x0A, 0x0B, 0x0C, 0x01, 0x01, 0x02, 0x03, 0x02]
    );
}

#[test]
fn latency_is_configurable_and_defaults_to_zero() {
    assert_eq!(MockEcu::new().simulated_latency(), 0);
    assert_eq!(MockEcu::default().with_latency(75).simulated_latency(), 75);
    assert_eq!(MockEcu::default().session(), DiagnosticSession::Default);
}
