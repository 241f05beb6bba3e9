use bmw_toolbox_lib::protocol::uds::{expect_positive, DiagnosticSession, Dtc, Uds};
use bmw_toolbox_lib::protocol::{Protocol, ProtocolError};
use bmw_toolbox_lib::transport::mock::MockTransport;
use bmw_toolbox_lib::transport::mock_ecu::MockEcu;
use bmw_toolbox_lib::transport::{Transport, TransportError};

fn connected_uds_with_ecu(ecu: MockEcu) -> Uds<MockTransport> {
    let mut transport = MockTransport::with_ecu(ecu);
    transport.connect().unwrap();
    Uds::new(transport)
}

#[test]
fn full_session_reads_vin_and_dtcs() {
    let ecu = MockEcu::new().with_dtc(0x001234, 0x08);
    let mut uds = connected_uds_with_ecu(ecu);

    uds.diagnostic_session_control(DiagnosticSession::Extended).unwrap();

    let vin_bytes = uds.read_data_by_identifier(0xF190).unwrap();
    assert_eq!(String::from_utf8(vin_bytes).unwrap(), "WBAF12345LC000001");

    let dtcs = uds.read_dtc_information().unwrap();
    assert_eq!(dtcs, vec![Dtc { code: 0x001234, status: 0x08 }]);

    uds.tester_present().unwrap();
}

#[test]
fn reading_unknown_did_surfaces_negative_response_as_error() {
    let mut uds = connected_uds_with_ecu(MockEcu::new());
    let result = uds.read_data_by_identifier(0x0000);
    assert!(matches!(result, Err(ProtocolError::UnexpectedResponse(_))));
}

#[test]
fn no_ecu_behind_transport_surfaces_transport_timeout() {
    let mut transport = MockTransport::new();
    transport.connect().unwrap();
    let mut uds = Uds::new(transport);

    let result = uds.tester_present();
    assert!(matches!(result, Err(ProtocolError::Transport(_))));
}

#[test]
fn unknown_did_error_carries_sid_and_nrc_in_hex() {
    let mut uds = connected_uds_with_ecu(MockEcu::new());
    let result = uds.read_data_by_identifier(0x1234);
    assert_eq!(
        result,
        Err(ProtocolError::UnexpectedResponse(
            "negative response for SID 0x22: NRC 0x31".to_string()
        ))
    );
}

#[test]
fn configured_did_is_read_back_exactly() {
    let ecu = MockEcu::new().with_did(0x1000, vec![0xDE, 0xAD, 0xBE, 0xEF]);
    let mut uds = connected_uds_with_ecu(ecu);
    assert_eq!(uds.read_data_by_identifier(0x1000).unwrap(), vec![0xDE, 0xAD, 0xBE, 0xEF]);
    let ecu = MockEcu::new().with_did(0x2000, vec![]);
    let mut uds = connected_uds_with_ecu(ecu);
    assert_eq!(uds.read_data_by_identifier(0x2000).unwrap(), Vec::<u8>::new());
}

#[test]
fn dtc_codes_keep_their_low_three_bytes_in_order() {
    let ecu = MockEcu::new()
        .with_dtc(0xAB123456, 0x2F)
        .with_dtc(0x000001, 0x00)
        .with_dtc(0xFFFFFF, 0xFF);
    let mut uds = connected_uds_with_ecu(ecu);
    assert_eq!(
        uds.read_dtc_information().unwrap(),
        vec![
            Dtc { code: 0x123456, status: 0x2F },
            Dtc { code: 0x000001, status: 0x00 },
            Dtc { code: 0xFFFFFF, status: 0xFF },
        ]
    );
}

#[test]
fn no_stored_dtcs_reads_empty_list() {
    let mut uds = connected_uds_with_ecu(MockEcu::new());
    assert_eq!(uds.read_dtc_information().unwrap(), Vec::<Dtc>::new());
}

#[test]
fn default_session_request_is_acknowledged() {
    let mut uds = connected_uds_with_ecu(MockEcu::new());
    assert!(uds.diagnostic_session_control(DiagnosticSession::Default).is_ok());
}

#[test]
fn disconnected_transport_surfaces_not_connected() {
    let mut uds = Uds::new(MockTransport::with_ecu(MockEcu::new()));
    assert_eq!(
        uds.read_data_by_identifier(0xF190),
        Err(ProtocolError::Transport(TransportError::NotConnected))
    );
}

#[test]
fn slow_ecu_surfaces_transport_timeout() {
    let mut uds = connected_uds_with_ecu(MockEcu::new().with_latency(501));
    assert_eq!(uds.tester_present(), Err(ProtocolError::Transport(TransportError::Timeout)));
    let mut uds = connected_uds_with_ecu(MockEcu::new().with_latency(500));
    assert!(uds.tester_present().is_ok());
}

#[test]
fn expect_positive_reports_each_problem() {
    assert_eq!(expect_positive(&[0x62, 0x01], 0x62), Ok(()));
    assert_eq!(
        expect_positive(&[], 0x62),
        Err(ProtocolError::UnexpectedResponse("empty response".to_string()))
    );
    assert_eq!(
        expect_positive(&[0x50, 0x01], 0x62),
        Err(ProtocolError::UnexpectedResponse("expected response 0x62, got 0x50".to_string()))
    );
    assert_eq!(
        expect_positive(&[0x7F], 0x62),
        Err(ProtocolError::UnexpectedResponse(
            "negative response for SID 0x00: NRC 0x00".to_string()
        ))
    );
    assert_eq!(
        expect_positive(&[0x7F, 0x3E, 0x12], 0x7E),
        Err(ProtocolError::UnexpectedResponse(
            "negative response for SID 0x3E: NRC 0x12".to_string()
        ))
    );
    assert_eq!(
        expect_positive(&[0x7F, 0xAB, 0xCD], 0x7F),
        Err(ProtocolError::UnexpectedResponse(
            "negative response for SID 0xAB: NRC 0xCD".to_string()
        ))
    );
}

#[test]
fn protocol_reports_its_name() {
    let uds = Uds::new(MockTransport::new());
    assert_eq!(uds.name(), "UDS");
}

#[test]
fn protocol_error_messages() {
    assert_eq!(
        ProtocolError::Transport(TransportError::Timeout).message(),
        "transport error: timeout waiting for response"
    );
    assert_eq!(
        ProtocolError::UnexpectedResponse("empty response".to_string()).message(),
        "unexpected response: empty response"
    );
    assert_eq!(
        ProtocolError::from(TransportError::NotConnected),
        ProtocolError::Transport(TransportError::NotConnected)
    );
}

/// A transport that answers every request with the same bytes.
struct Canned(Vec<u8>);

impl Transport for Canned {
    fn connect(&mut self) -> Result<(), TransportError> {
        Ok(())
    }

    fn disconnect(&mut self) -> Result<(), TransportError> {
        Ok(())
    }

    fn is_connected(&self) -> bool {
        true
    }

    fn send_receive(&mut self, _data: &[u8], _timeout_ms: u64) -> Result<Vec<u8>, TransportError> {
        Ok(self.0.clone())
    }
}

#[test]
fn truncated_positive_response_is_reported() {
    let mut uds = Uds::new(Canned(vec![0x62, 0xF1]));
    assert_eq!(
        uds.read_data_by_identifier(0xF190),
        Err(ProtocolError::UnexpectedResponse("truncated positive response".to_string()))
    );
    let mut uds = Uds::new(Canned(vec![0x59, 0x02]));
    assert_eq!(
        uds.read_dtc_information(),
        Err(ProtocolError::UnexpectedResponse("truncated positive response".to_string()))
    );
}

#[test]
fn trailing_partial_dtc_record_is_ignored() {
    let mut uds = Uds::new(Canned(vec![0x59, 0x02, 0xFF, 0x01, 0x02, 0x03, 0x04, 0x05, 0x06]));
    assert_eq!(uds.read_dtc_information().unwrap(), vec![Dtc { code: 0x010203, status: 0x04 }]);
}

#[test]
fn wrong_positive_response_is_reported() {
    let mut uds = Uds::new(Canned(vec![0x50, 0x03]));
    assert_eq!(
        uds.read_data_by_identifier(0xF190),
        Err(ProtocolError::UnexpectedResponse("expected response 0x62, got 0x50".to_string()))
    );
    let mut uds = Uds::new(Canned(vec![0x7F, 0x10, 0x22]));
    assert_eq!(
        uds.diagnostic_session_control(DiagnosticSession::Extended),
        Err(ProtocolError::UnexpectedResponse(
            "negative response for SID 0x10: NRC 0x22".to_string()
        ))
    );
}
