use replay_monitor::credentials::LpContents;
use replay_monitor::error::MonitorError;

fn failure(r: Result<LpContents, MonitorError>) -> MonitorError {
    match r {
        Ok(_) => panic!("credentials were decoded"),
        Err(e) => e,
    }
}

#[test]
fn decodes_port_and_secret() {
    let c = LpContents::decode("{\"port\":12345,\"secret\":\"abc\"}").ok().unwrap();
    assert_eq!(c.port, 12345);
    assert_eq!(c.secret, "abc");
}

#[test]
fn decodes_with_spaces_and_in_any_order() {
    let c = LpContents::decode(" { \"secret\" : \"s3cr3t\\n\" , \"port\" : 65535 } ").ok().unwrap();
    assert_eq!(c.port, 65535);
    assert_eq!(c.secret, "s3cr3t\n");
}

#[test]
fn secret_is_taken_as_it_is() {
    let c = LpContents::decode("{\"port\":0,\"secret\":\"\"}").ok().unwrap();
    assert_eq!(c.port, 0);
    assert_eq!(c.secret, "");
}

#[test]
fn other_members_are_passed_over() {
    let c = LpContents::decode("{\"port\":1,\"secret\":\"x\",\"more\":[1,2]}").ok().unwrap();
    assert_eq!(c.port, 1);
    assert_eq!(c.secret, "x");
}

#[test]
fn missing_secret_is_a_format_error() {
    assert_eq!(failure(LpContents::decode("{\"port\":12345}")), MonitorError::HandshakeFormatError);
}

#[test]
fn missing_port_is_a_format_error() {
    assert_eq!(
        failure(LpContents::decode("{\"secret\":\"abc\"}")),
        MonitorError::HandshakeFormatError
    );
}

#[test]
fn mistyped_members_are_a_format_error() {
    for text in [
        "{\"port\":\"12345\",\"secret\":\"abc\"}",
        "{\"port\":12345,\"secret\":7}",
        "{\"port\":-1,\"secret\":\"abc\"}",
        "{\"port\":1.5,\"secret\":\"abc\"}",
        "{\"port\":65536,\"secret\":\"abc\"}",
        "{\"port\":null,\"secret\":\"abc\"}",
        "{\"port\":1,\"secret\":null}",
    ] {
        assert_eq!(failure(LpContents::decode(text)), MonitorError::HandshakeFormatError);
    }
}

#[test]
fn text_that_is_no_record_is_a_format_error() {
    for text in ["", "12345", "\"abc\"", "[12345,\"abc\"]", "{\"port\":12345,\"secret\":\"abc\"", "null"] {
        assert_eq!(failure(LpContents::decode(text)), MonitorError::HandshakeFormatError);
    }
}

#[test]
fn from_fields_needs_both_members() {
    let c = LpContents::from_fields(Some(8080), Some("k".to_string())).ok().unwrap();
    assert_eq!(c.port, 8080);
    assert_eq!(c.secret, "k");
    assert_eq!(
        failure(LpContents::from_fields(None, Some("k".to_string()))),
        MonitorError::HandshakeFormatError
    );
    assert_eq!(failure(LpContents::from_fields(Some(8080), None)), MonitorError::HandshakeFormatError);
    assert_eq!(failure(LpContents::from_fields(None, None)), MonitorError::HandshakeFormatError);
}

#[test]
fn from_fields_bounds_the_port() {
    assert_eq!(LpContents::from_fields(Some(65535), Some(String::new())).ok().unwrap().port, 65535);
    assert_eq!(
        failure(LpContents::from_fields(Some(65536), Some(String::new()))),
        MonitorError::HandshakeFormatError
    );
    assert_eq!(
        failure(LpContents::from_fields(Some(u64::MAX), Some(String::new()))),
        MonitorError::HandshakeFormatError
    );
}

#[test]
fn debug_text_shows_the_port_only() {
    let c = LpContents { port: 12345, secret: "hunter2".to_string() };
    assert_eq!(c.debug_text(), "LpContents { port: 12345, secret: [REDACTED] }");
    assert!(!c.debug_text().contains("hunter2"));
    let z = LpContents { port: 0, secret: "0".to_string() };
    assert_eq!(z.debug_text(), "LpContents { port: 0, secret: [REDACTED] }");
}
