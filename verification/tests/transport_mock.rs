use bmw_toolbox_lib::transport::mock::MockTransport;
use bmw_toolbox_lib::transport::mock_ecu::MockEcu;
use bmw_toolbox_lib::transport::{Transport, TransportError};

#[test]
fn rejects_send_before_connect() {
    let mut transport = MockTransport::new();
    let result = transport.send_receive(&[0x10, 0x01], 50);
    assert_eq!(result, Err(TransportError::NotConnected));
}

#[test]
fn connect_then_disconnect_tracks_state() {
    let mut transport = MockTransport::new();
    assert!(!transport.is_connected());

    transport.connect().unwrap();
    assert!(transport.is_connected());

    transport.disconnect().unwrap();
    assert!(!transport.is_connected());
}

#[test]
fn connected_with_no_ecu_behind_it_times_out() {
    let mut transport = MockTransport::new();
    transport.connect().unwrap();
    let result = transport.send_receive(&[0x10, 0x01], 50);
    assert_eq!(result, Err(TransportError::Timeout));
}

#[test]
fn connected_with_ecu_routes_request_and_answers() {
    let mut transport = MockTransport::with_ecu(MockEcu::new());
    transport.connect().unwrap();
    let response = transport.send_receive(&[0x22, 0xF1, 0x90], 50).unwrap();
    assert_eq!(&response[..3], &[0x62, 0xF1, 0x90]);
}

#[test]
fn ecu_latency_above_timeout_reports_transport_timeout() {
    let ecu = MockEcu::new().with_latency(200);
    let mut transport = MockTransport::with_ecu(ecu);
    transport.connect().unwrap();
    let result = transport.send_receive(&[0x22, 0xF1, 0x90], 50);
    assert_eq!(result, Err(TransportError::Timeout));
}

#[test]
fn latency_equal_to_timeout_still_answers() {
    let mut transport = MockTransport::with_ecu(MockEcu::new().with_latency(50));
    transport.connect().unwrap();
    assert_eq!(transport.send_receive(&[0x3E, 0x00], 50), Ok(vec![0x7E, 0x00]));
}

#[test]
fn disconnect_stops_routing() {
    let mut transport = MockTransport::with_ecu(MockEcu::new());
    transport.connect().unwrap();
    assert!(transport.send_receive(&[0x3E, 0x00], 50).is_ok());
    transport.disconnect().unwrap();
    assert_eq!(transport.send_receive(&[0x3E, 0x00], 50), Err(TransportError::NotConnected));
}

#[test]
fn default_transport_is_disconnected_with_nothing_behind() {
    let mut transport = MockTransport::default();
    assert!(!transport.is_connected());
    transport.connect().unwrap();
    assert_eq!(transport.send_receive(&[0x3E, 0x00], 500), Err(TransportError::Timeout));
}

#[test]
fn transport_error_messages() {
    assert_eq!(TransportError::ConnectionFailed("refused".to_string()).message(), "connection failed: refused");
    assert_eq!(TransportError::Timeout.message(), "timeout waiting for response");
    assert_eq!(TransportError::NotConnected.message(), "not connected");
    assert_eq!(TransportError::Io("broken pipe".to_string()).message(), "I/O error: broken pipe");
}

#[test]
fn timed_out_request_does_not_reach_the_ecu() {
    // The slow request times out; a later, patient one is answered normally.
    let mut transport = MockTransport::with_ecu(MockEcu::new().with_latency(100));
    transport.connect().unwrap();
    assert_eq!(transport.send_receive(&[0x10, 0x03], 50), Err(TransportError::Timeout));
    assert_eq!(
        transport.send_receive(&[0x10, 0x01], 100),
        Ok(vec![0x50, 0x01, 0x00, 0x32, 0x01, 0xF4])
    );
}
