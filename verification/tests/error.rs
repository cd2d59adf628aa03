use replay_monitor::error::{MonitorError, Operation};

#[test]
fn handshake_failures_are_told_from_the_others() {
    assert!(MonitorError::HandshakeOpenError.is_handshake_error());
    assert!(MonitorError::HandshakeMapError.is_handshake_error());
    assert!(MonitorError::HandshakeQueryError.is_handshake_error());
    assert!(MonitorError::HandshakeSizeError { reported_size: 0, max_region_size: 1 }
        .is_handshake_error());
    assert!(MonitorError::HandshakeDecodeError.is_handshake_error());
    assert!(MonitorError::HandshakeFormatError.is_handshake_error());
    assert!(!MonitorError::ControlPlaneTransportError { operation: Operation::GetStatus }
        .is_handshake_error());
    assert!(!MonitorError::ControlPlaneStatusError {
        operation: Operation::SetEnabled,
        status_code: 500
    }
    .is_handshake_error());
    assert!(!MonitorError::ControlPlaneDecodeError.is_handshake_error());
}

#[test]
fn messages_carry_the_observed_value() {
    assert_eq!(
        MonitorError::ControlPlaneStatusError { operation: Operation::GetStatus, status_code: 500 }
            .message(),
        "Failed to get Instant Replay status, status code: 500"
    );
    assert_eq!(
        MonitorError::ControlPlaneStatusError { operation: Operation::SetEnabled, status_code: -7 }
            .message(),
        "Failed to enable Instant Replay, status code: -7"
    );
    assert_eq!(
        MonitorError::HandshakeSizeError { reported_size: 8192, max_region_size: 4096 }.message(),
        "Map view region size is not within valid range, region size: 8192, maximum: 4096"
    );
}

#[test]
fn messages_name_the_step() {
    assert_eq!(MonitorError::HandshakeOpenError.message(), "Failed to open file mapping");
    assert_eq!(MonitorError::HandshakeMapError.message(), "Failed to map view of file");
    assert_eq!(
        MonitorError::HandshakeQueryError.message(),
        "Failed to query map view memory information"
    );
    assert_eq!(
        MonitorError::HandshakeDecodeError.message(),
        "Failed to convert map view bytes to text"
    );
    assert_eq!(
        MonitorError::HandshakeFormatError.message(),
        "Failed to deserialize handshake record"
    );
    assert_eq!(
        MonitorError::ControlPlaneTransportError { operation: Operation::GetStatus }.message(),
        "HTTP request to Instant Replay status endpoint failed"
    );
    assert_eq!(
        MonitorError::ControlPlaneTransportError { operation: Operation::SetEnabled }.message(),
        "HTTP request to Instant Replay endpoint failed"
    );
    assert_eq!(
        MonitorError::ControlPlaneDecodeError.message(),
        "Failed to deserialize Instant Replay status"
    );
}
