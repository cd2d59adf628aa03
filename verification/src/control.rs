//! The two exchanges with the control interface: what is sent, and what a
//! reply means.

use crate::credentials::LpContents;
use crate::decimal::{decimal_digits, decimal_string};
use crate::error::{MonitorError, Operation};
use crate::json::{
    as_flag, flag_field, flag_object_text, member, parse_document, write_flag_object,
};
use crate::payload::utf8_text;
use vstd::pervasive::unreached;
use vstd::prelude::*;
use vstd::string::StringExecFns;
use vstd::utf8::{decode_utf8, valid_utf8};

verus! {

/// The state of the feature as it travels in both directions.
#[derive(Clone, Copy, Debug, PartialEq, Eq, Structural)]
pub struct StatusBody {
    pub status: bool,
}

impl StatusBody {
    /// Builds the record from its one member, as far as it was found as a
    /// boolean. Fails with `ControlPlaneDecodeError` where it was not.
    pub fn from_field(status: Option<bool>) -> (r: Result<StatusBody, MonitorError>)
        ensures
            match status {
                Some(flag) => r == Ok::<StatusBody, MonitorError>(StatusBody { status: flag }),
                None => r == Err::<StatusBody, MonitorError>(
                    MonitorError::ControlPlaneDecodeError,
                ),
            },
    {
        match status {
            Some(flag) => Ok(StatusBody { status: flag }),
            None => Err(MonitorError::ControlPlaneDecodeError),
        }
    }

    /// Decodes the text of a reply. Succeeds exactly where the text is a
    /// record with a boolean `status`, and fails with
    /// `ControlPlaneDecodeError` otherwise.
    pub fn decode(text: &str) -> (r: Result<StatusBody, MonitorError>)
        ensures
            match flag_field(text@, "status"@) {
                Some(flag) => r == Ok::<StatusBody, MonitorError>(StatusBody { status: flag }),
                None => r == Err::<StatusBody, MonitorError>(
                    MonitorError::ControlPlaneDecodeError,
                ),
            },
    {
        let status = match parse_document(text) {
            Ok(doc) => match member(&doc, "status") {
                Some(value) => as_flag(value),
                None => None,
            },
            Err(_) => None,
        };
        StatusBody::from_field(status)
    }

    /// The record as JSON text: `{"status":true}` or `{"status":false}`.
    pub fn to_json(&self) -> (r: String)
        ensures
            r@ == flag_object_text("status"@, self.status),
    {
        proof {
            reveal_strlit("status");
        }
        match write_flag_object("status", self.status) {
            Ok(text) => text,
            Err(_) => unreached(),
        }
    }
}

/// The two methods that the control interface is addressed with.
#[derive(Clone, Copy, Debug, PartialEq, Eq, Structural)]
pub enum HttpMethod {
    Get,
    Post,
}

/// One header line of a request.
pub struct HttpHeader {
    pub name: String,
    pub value: String,
}

/// A request, ready to be sent as it stands.
pub struct HttpRequest {
    pub method: HttpMethod,
    pub url: String,
    pub headers: Vec<HttpHeader>,
    pub body: Option<String>,
}

/// A request as contracts see it.
pub struct RequestModel {
    pub method: HttpMethod,
    pub url: Seq<char>,
    pub headers: Seq<(Seq<char>, Seq<char>)>,
    pub body: Option<Seq<char>>,
}

impl View for HttpRequest {
    type V = RequestModel;

    open spec fn view(&self) -> RequestModel {
        RequestModel {
            method: self.method,
            url: self.url@,
            headers: Seq::new(
                self.headers@.len(),
                |i: int| (self.headers@[i].name@, self.headers@[i].value@),
            ),
            body: match self.body {
                Some(text) => Some(text@),
                None => None,
            },
        }
    }
}

/// A reply as it arrived: the status code and the bytes of the body.
#[derive(Debug)]
pub struct HttpResponse {
    pub status_code: i32,
    pub body: Vec<u8>,
}

/// How an exchange ended on the wire.
#[derive(Debug)]
pub enum HttpOutcome {
    /// A reply arrived.
    Response(HttpResponse),
    /// The request could not be delivered, or no reply could be read.
    TransportFailed,
}

/// Where the control interface listens.
pub open spec fn endpoint_url(port: u16, endpoint: Seq<char>) -> Seq<char> {
    "http://localhost:"@ + decimal_digits(port as nat) + endpoint
}

/// The request that asks whether the feature is switched on.
pub open spec fn status_request(port: u16, secret: Seq<char>, endpoint: Seq<char>) -> RequestModel {
    RequestModel {
        method: HttpMethod::Get,
        url: endpoint_url(port, endpoint),
        headers: seq![("X_LOCAL_SECURITY_COOKIE"@, secret)],
        body: None,
    }
}

/// The request that switches the feature on.
pub open spec fn enable_request(port: u16, secret: Seq<char>, endpoint: Seq<char>) -> RequestModel {
    RequestModel {
        method: HttpMethod::Post,
        url: endpoint_url(port, endpoint),
        headers: seq![
            ("Content-Type"@, "application/json"@),
            ("X_LOCAL_SECURITY_COOKIE"@, secret),
        ],
        body: Some(flag_object_text("status"@, true)),
    }
}

/// The status that the body of a reply reports, where the body is UTF-8
/// text that holds a record with a boolean `status`.
pub open spec fn status_in_body(body: Seq<u8>) -> Option<bool> {
    if valid_utf8(body) {
        flag_field(decode_utf8(body), "status"@)
    } else {
        None
    }
}

/// What the outcome of the status request amounts to.
pub open spec fn status_of(outcome: HttpOutcome) -> Result<bool, MonitorError> {
    match outcome {
        HttpOutcome::TransportFailed => Err(
            MonitorError::ControlPlaneTransportError { operation: Operation::GetStatus },
        ),
        HttpOutcome::Response(reply) => if reply.status_code != 200 {
            Err(
                MonitorError::ControlPlaneStatusError {
                    operation: Operation::GetStatus,
                    status_code: reply.status_code,
                },
            )
        } else {
            match status_in_body(reply.body@) {
                Some(flag) => Ok(flag),
                None => Err(MonitorError::ControlPlaneDecodeError),
            }
        },
    }
}

/// What the outcome of the enabling request amounts to.
pub open spec fn enabling_of(outcome: HttpOutcome) -> Result<(), MonitorError> {
    match outcome {
        HttpOutcome::TransportFailed => Err(
            MonitorError::ControlPlaneTransportError { operation: Operation::SetEnabled },
        ),
        HttpOutcome::Response(reply) => if reply.status_code != 200 {
            Err(
                MonitorError::ControlPlaneStatusError {
                    operation: Operation::SetEnabled,
                    status_code: reply.status_code,
                },
            )
        } else {
            Ok(())
        },
    }
}

fn endpoint_address(enable_endpoint: &str, port: u16) -> (r: String)
    ensures
        r@ == endpoint_url(port, enable_endpoint@),
{
    let digits = decimal_string(port as u64);
    let r = String::from_str("http://localhost:");
    let r = r.concat(digits.as_str());
    r.concat(enable_endpoint)
}

fn cookie_header(lp_contents: &LpContents) -> (r: HttpHeader)
    ensures
        r.name@ == "X_LOCAL_SECURITY_COOKIE"@,
        r.value@ == lp_contents.secret@,
{
    HttpHeader {
        name: String::from_str("X_LOCAL_SECURITY_COOKIE"),
        value: String::from_str(lp_contents.secret.as_str()),
    }
}

/// Builds the request that asks whether the feature is switched on: a GET
/// to the endpoint on the local port, with the secret as its one header.
pub fn get_status_request(enable_endpoint: &str, lp_contents: &LpContents) -> (r: HttpRequest)
    ensures
        r@ == status_request(lp_contents.port, lp_contents.secret@, enable_endpoint@),
{
    let mut headers: Vec<HttpHeader> = Vec::new();
    headers.push(cookie_header(lp_contents));
    let r = HttpRequest {
        method: HttpMethod::Get,
        url: endpoint_address(enable_endpoint, lp_contents.port),
        headers,
        body: None,
    };
    assert(r@.headers =~= seq![("X_LOCAL_SECURITY_COOKIE"@, lp_contents.secret@)]);
    r
}

/// Builds the request that switches the feature on: a POST to the same
/// address, with the content type, the secret, and `{"status":true}` as its
/// body.
pub fn set_enabled_request(enable_endpoint: &str, lp_contents: &LpContents) -> (r: HttpRequest)
    ensures
        r@ == enable_request(lp_contents.port, lp_contents.secret@, enable_endpoint@),
{
    let body = StatusBody { status: true }.to_json();
    let mut headers: Vec<HttpHeader> = Vec::new();
    headers.push(
        HttpHeader {
            name: String::from_str("Content-Type"),
            value: String::from_str("application/json"),
        },
    );
    headers.push(cookie_header(lp_contents));
    let r = HttpRequest {
        method: HttpMethod::Post,
        url: endpoint_address(enable_endpoint, lp_contents.port),
        headers,
        body: Some(body),
    };
    assert(r@.headers =~= seq![
        ("Content-Type"@, "application/json"@),
        ("X_LOCAL_SECURITY_COOKIE"@, lp_contents.secret@),
    ]);
    r
}

impl HttpResponse {
    /// The body as text, for diagnostics, where it is UTF-8.
    pub fn body_text(&self) -> (r: Option<String>)
        ensures
            r is Some <==> valid_utf8(self.body@),
            r is Some ==> r->Some_0@ == decode_utf8(self.body@),
    {
        utf8_text(self.body.as_slice())
    }
}

/// Reads the status from the outcome of the status request. A reply with
/// status 200 and a body that holds a boolean `status` yields that boolean.
/// Any other status code fails with `ControlPlaneStatusError` and the code,
/// a 200 reply with any other body with `ControlPlaneDecodeError`, and an
/// exchange that did not complete with `ControlPlaneTransportError`.
pub fn get_status(outcome: &HttpOutcome) -> (r: Result<bool, MonitorError>)
    ensures
        r == status_of(*outcome),
{
    match outcome {
        HttpOutcome::TransportFailed => Err(
            MonitorError::ControlPlaneTransportError { operation: Operation::GetStatus },
        ),
        HttpOutcome::Response(reply) => {
            if reply.status_code != 200 {
                Err(
                    MonitorError::ControlPlaneStatusError {
                        operation: Operation::GetStatus,
                        status_code: reply.status_code,
                    },
                )
            } else {
                match utf8_text(reply.body.as_slice()) {
                    Some(text) => match StatusBody::decode(text.as_str()) {
                        Ok(body) => Ok(body.status),
                        Err(e) => Err(e),
                    },
                    None => Err(MonitorError::ControlPlaneDecodeError),
                }
            }
        },
    }
}

/// Reads the outcome of the enabling request. A reply with status 200 is
/// success, whatever its body. Any other status code fails with
/// `ControlPlaneStatusError` and the code, and an exchange that did not
/// complete with `ControlPlaneTransportError`.
pub fn set_enabled(outcome: &HttpOutcome) -> (r: Result<(), MonitorError>)
    ensures
        r == enabling_of(*outcome),
{
    match outcome {
        HttpOutcome::TransportFailed => Err(
            MonitorError::ControlPlaneTransportError { operation: Operation::SetEnabled },
        ),
        HttpOutcome::Response(reply) => {
            if reply.status_code != 200 {
                Err(
                    MonitorError::ControlPlaneStatusError {
                        operation: Operation::SetEnabled,
                        status_code: reply.status_code,
                    },
                )
            } else {
                Ok(())
            }
        },
    }
}

} // verus!
