//! The failures that end a run of the monitor.

use crate::decimal::{decimal_digits, decimal_string, signed_digits, signed_string};
use vstd::prelude::*;
use vstd::string::StringExecFns;

verus! {

/// The two exchanges with the control interface.
#[derive(Clone, Copy, Debug, PartialEq, Eq, Structural)]
pub enum Operation {
    /// Asking whether the feature is switched on.
    GetStatus,
    /// Asking for the feature to be switched on.
    SetEnabled,
}

/// Every failure of the handshake or of the control interface, with the
/// value that was observed where there is one.
#[derive(Clone, Copy, Debug, PartialEq, Eq, Structural)]
pub enum MonitorError {
    /// The named shared-memory object could not be opened.
    HandshakeOpenError,
    /// No read-only view of the object could be mapped.
    HandshakeMapError,
    /// The size of the mapped region could not be queried.
    HandshakeQueryError,
    /// The region's size lies outside `1..=max_region_size`.
    HandshakeSizeError { reported_size: usize, max_region_size: usize },
    /// The bytes read are no terminated UTF-8 text.
    HandshakeDecodeError,
    /// The text is no record of a port and a secret.
    HandshakeFormatError,
    /// The request did not reach the control interface, or no reply came.
    ControlPlaneTransportError { operation: Operation },
    /// The control interface answered with a status other than 200.
    ControlPlaneStatusError { operation: Operation, status_code: i32 },
    /// The body of a 200 reply is no record of a boolean status.
    ControlPlaneDecodeError,
}

/// What is said of a failure: the step that failed and, where one was
/// observed, the value that made it fail.
pub open spec fn failure_message(e: MonitorError) -> Seq<char> {
    match e {
        MonitorError::HandshakeOpenError => "Failed to open file mapping"@,
        MonitorError::HandshakeMapError => "Failed to map view of file"@,
        MonitorError::HandshakeQueryError => "Failed to query map view memory information"@,
        MonitorError::HandshakeSizeError { reported_size, max_region_size } => {
            "Map view region size is not within valid range, region size: "@ + decimal_digits(
                reported_size as nat,
            ) + ", maximum: "@ + decimal_digits(max_region_size as nat)
        },
        MonitorError::HandshakeDecodeError => "Failed to convert map view bytes to text"@,
        MonitorError::HandshakeFormatError => "Failed to deserialize handshake record"@,
        MonitorError::ControlPlaneTransportError { operation } => match operation {
            Operation::GetStatus => "HTTP request to Instant Replay status endpoint failed"@,
            Operation::SetEnabled => "HTTP request to Instant Replay endpoint failed"@,
        },
        MonitorError::ControlPlaneStatusError { operation, status_code } => (match operation {
            Operation::GetStatus => "Failed to get Instant Replay status, status code: "@,
            Operation::SetEnabled => "Failed to enable Instant Replay, status code: "@,
        }) + signed_digits(status_code as int),
        MonitorError::ControlPlaneDecodeError => "Failed to deserialize Instant Replay status"@,
    }
}

impl MonitorError {
    /// Whether the failure arose while the credentials were being acquired.
    pub open spec fn from_handshake(self) -> bool {
        self is HandshakeOpenError || self is HandshakeMapError || self is HandshakeQueryError
            || self is HandshakeSizeError || self is HandshakeDecodeError
            || self is HandshakeFormatError
    }

    /// Whether the failure arose while the credentials were being acquired.
    pub fn is_handshake_error(&self) -> (r: bool)
        ensures
            r == self.from_handshake(),
    {
        match self {
            MonitorError::HandshakeOpenError => true,
            MonitorError::HandshakeMapError => true,
            MonitorError::HandshakeQueryError => true,
            MonitorError::HandshakeSizeError { .. } => true,
            MonitorError::HandshakeDecodeError => true,
            MonitorError::HandshakeFormatError => true,
            MonitorError::ControlPlaneTransportError { .. } => false,
            MonitorError::ControlPlaneStatusError { .. } => false,
            MonitorError::ControlPlaneDecodeError => false,
        }
    }

    /// The failure in words, for the log.
    pub fn message(&self) -> (r: String)
        ensures
            r@ == failure_message(*self),
    {
        match self {
            MonitorError::HandshakeOpenError => String::from_str("Failed to open file mapping"),
            MonitorError::HandshakeMapError => String::from_str("Failed to map view of file"),
            MonitorError::HandshakeQueryError => String::from_str(
                "Failed to query map view memory information",
            ),
            MonitorError::HandshakeSizeError { reported_size, max_region_size } => {
                let reported = decimal_string(*reported_size as u64);
                let maximum = decimal_string(*max_region_size as u64);
                let r = String::from_str(
                    "Map view region size is not within valid range, region size: ",
                );
                let r = r.concat(reported.as_str());
                let r = r.concat(", maximum: ");
                r.concat(maximum.as_str())
            },
            MonitorError::HandshakeDecodeError => String::from_str(
                "Failed to convert map view bytes to text",
            ),
            MonitorError::HandshakeFormatError => String::from_str(
                "Failed to deserialize handshake record",
            ),
            MonitorError::ControlPlaneTransportError { operation } => match operation {
                Operation::GetStatus => String::from_str(
                    "HTTP request to Instant Replay status endpoint failed",
                ),
                Operation::SetEnabled => String::from_str(
                    "HTTP request to Instant Replay endpoint failed",
                ),
            },
            MonitorError::ControlPlaneStatusError { operation, status_code } => {
                let code = signed_string(*status_code);
                let r = match operation {
                    Operation::GetStatus => String::from_str(
                        "Failed to get Instant Replay status, status code: ",
                    ),
                    Operation::SetEnabled => String::from_str(
                        "Failed to enable Instant Replay, status code: ",
                    ),
                };
                r.concat(code.as_str())
            },
            MonitorError::ControlPlaneDecodeError => String::from_str(
                "Failed to deserialize Instant Replay status",
            ),
        }
    }
}

} // verus!
