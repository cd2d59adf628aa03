use replay_monitor::control::{HttpMethod, HttpOutcome, HttpResponse};
use replay_monitor::credentials::LpContents;
use replay_monitor::error::{MonitorError, Operation};
use replay_monitor::monitor::{Milestone, Monitor, MonitorAction, MonitorEvent, MonitorPhase};

const HANDSHAKE: &str = "{\"port\":12345,\"secret\":\"abc\"}";

fn reply(status_code: i32, body: &[u8]) -> MonitorEvent {
    MonitorEvent::Reply(HttpOutcome::Response(HttpResponse { status_code, body: body.to_vec() }))
}

fn watching() -> Monitor {
    let (monitor, action) = Monitor::new("/enable".to_string())
        .step(MonitorEvent::Handshake(Ok(HANDSHAKE.to_string())));
    assert!(is_request(&action, HttpMethod::Get));
    monitor
}

fn is_request(action: &Option<MonitorAction>, method: HttpMethod) -> bool {
    match action {
        Some(MonitorAction::Send(request)) => request.method == method,
        _ => false,
    }
}

fn is_rest(action: &Option<MonitorAction>, milestone: Milestone) -> bool {
    matches!(action, Some(MonitorAction::Rest(m)) if *m == milestone)
}

fn is_stop(action: &Option<MonitorAction>, failure: MonitorError) -> bool {
    matches!(action, Some(MonitorAction::Stop(e)) if *e == failure)
}

#[test]
fn handshake_is_followed_by_the_first_poll() {
    let monitor = Monitor::new("/enable".to_string());
    assert_eq!(monitor.phase(), MonitorPhase::Unknown);
    let (monitor, action) = monitor.step(MonitorEvent::Handshake(Ok(HANDSHAKE.to_string())));
    assert_eq!(monitor.phase(), MonitorPhase::Checking);
    match action {
        Some(MonitorAction::Send(request)) => {
            assert_eq!(request.method, HttpMethod::Get);
            assert_eq!(request.url, "http://localhost:12345/enable");
            assert_eq!(request.headers.len(), 1);
            assert_eq!(request.headers[0].name, "X_LOCAL_SECURITY_COOKIE");
            assert_eq!(request.headers[0].value, "abc");
            assert_eq!(request.body, None);
        }
        _ => panic!("no request was asked for"),
    }
}

#[test]
fn failed_handshake_stops_the_monitor() {
    let (monitor, action) = Monitor::new("/enable".to_string())
        .step(MonitorEvent::Handshake(Err(MonitorError::HandshakeOpenError)));
    assert!(is_stop(&action, MonitorError::HandshakeOpenError));
    assert_eq!(monitor.phase(), MonitorPhase::Failed);
    assert_eq!(monitor.failure(), Some(MonitorError::HandshakeOpenError));
}

#[test]
fn handshake_that_is_no_record_stops_the_monitor() {
    let (monitor, action) = Monitor::new("/enable".to_string())
        .step(MonitorEvent::Handshake(Ok("{\"port\":12345}".to_string())));
    assert!(is_stop(&action, MonitorError::HandshakeFormatError));
    assert_eq!(monitor.failure(), Some(MonitorError::HandshakeFormatError));
}

#[test]
fn enabled_feature_is_left_alone() {
    let (monitor, action) = watching().step(reply(200, b"{\"status\":true}"));
    assert!(is_rest(&action, Milestone::AlreadyEnabled));
    assert_eq!(monitor.phase(), MonitorPhase::Sleeping);
    let (monitor, action) = monitor.step(MonitorEvent::Woke);
    assert!(is_request(&action, HttpMethod::Get));
    assert_eq!(monitor.phase(), MonitorPhase::Checking);
}

#[test]
fn disabled_feature_is_enabled_once_then_rest() {
    let (monitor, action) = watching().step(reply(200, b"{\"status\":false}"));
    assert_eq!(monitor.phase(), MonitorPhase::Enabling);
    match action {
        Some(MonitorAction::Send(request)) => {
            assert_eq!(request.method, HttpMethod::Post);
            assert_eq!(request.url, "http://localhost:12345/enable");
            assert_eq!(request.headers.len(), 2);
            assert_eq!(request.headers[0].name, "Content-Type");
            assert_eq!(request.headers[0].value, "application/json");
            assert_eq!(request.headers[1].name, "X_LOCAL_SECURITY_COOKIE");
            assert_eq!(request.headers[1].value, "abc");
            assert_eq!(request.body, Some("{\"status\":true}".to_string()));
        }
        _ => panic!("no request was asked for"),
    }
    let (monitor, action) = monitor.step(reply(200, b""));
    assert!(is_rest(&action, Milestone::Enabled));
    assert_eq!(monitor.phase(), MonitorPhase::Sleeping);
    let (monitor, action) = monitor.step(MonitorEvent::Woke);
    assert!(is_request(&action, HttpMethod::Get));
    assert_eq!(monitor.failure(), None);
}

#[test]
fn server_error_on_poll_stops_without_enabling() {
    let (monitor, action) = watching().step(reply(500, b"internal error"));
    let failure = MonitorError::ControlPlaneStatusError {
        operation: Operation::GetStatus,
        status_code: 500,
    };
    assert!(is_stop(&action, failure));
    assert_eq!(monitor.phase(), MonitorPhase::Failed);
    assert_eq!(monitor.failure(), Some(failure));
    let (monitor, action) = monitor.step(MonitorEvent::Woke);
    assert!(action.is_none());
    let (monitor, action) = monitor.step(reply(200, b"{\"status\":false}"));
    assert!(action.is_none());
    assert_eq!(monitor.failure(), Some(failure));
}

#[test]
fn malformed_status_stops_the_monitor() {
    let (monitor, action) = watching().step(reply(200, b"{\"status\":"));
    assert!(is_stop(&action, MonitorError::ControlPlaneDecodeError));
    assert_eq!(monitor.failure(), Some(MonitorError::ControlPlaneDecodeError));
}

#[test]
fn failed_enabling_stops_the_monitor() {
    let (monitor, _) = watching().step(reply(200, b"{\"status\":false}"));
    let (monitor, action) = monitor.step(reply(403, b"denied"));
    let failure = MonitorError::ControlPlaneStatusError {
        operation: Operation::SetEnabled,
        status_code: 403,
    };
    assert!(is_stop(&action, failure));
    assert_eq!(monitor.failure(), Some(failure));
}

#[test]
fn transport_failure_stops_the_monitor() {
    let (monitor, action) = watching().step(MonitorEvent::Reply(HttpOutcome::TransportFailed));
    let failure = MonitorError::ControlPlaneTransportError { operation: Operation::GetStatus };
    assert!(is_stop(&action, failure));
    assert_eq!(monitor.failure(), Some(failure));
    let (monitor, _) = watching().step(reply(200, b"{\"status\":false}"));
    let (monitor, action) = monitor.step(MonitorEvent::Reply(HttpOutcome::TransportFailed));
    let failure = MonitorError::ControlPlaneTransportError { operation: Operation::SetEnabled };
    assert!(is_stop(&action, failure));
    assert_eq!(monitor.failure(), Some(failure));
}

#[test]
fn reports_out_of_turn_are_passed_over() {
    let (monitor, action) = Monitor::new("/enable".to_string()).step(MonitorEvent::Woke);
    assert!(action.is_none());
    let (monitor, action) = monitor.step(reply(200, b"{\"status\":false}"));
    assert!(action.is_none());
    assert_eq!(monitor.phase(), MonitorPhase::Unknown);
    let (monitor, action) = watching().step(MonitorEvent::Woke);
    assert!(action.is_none());
    let (monitor, action) = monitor.step(MonitorEvent::Handshake(Ok(HANDSHAKE.to_string())));
    assert!(action.is_none());
    assert_eq!(monitor.phase(), MonitorPhase::Checking);
}

#[test]
fn decided_results_drive_the_monitor() {
    let credentials = LpContents { port: 8080, secret: "k".to_string() };
    let (monitor, action) = Monitor::new("/e".to_string()).on_handshake(Ok(credentials));
    assert!(is_request(&action, HttpMethod::Get));
    let (monitor, action) = monitor.on_status(Ok(true));
    assert!(is_rest(&action, Milestone::AlreadyEnabled));
    let (monitor, action) = monitor.on_enabling(Ok(()));
    assert!(action.is_none());
    let (monitor, action) = monitor.on_wake();
    assert!(is_request(&action, HttpMethod::Get));
    let (monitor, action) = monitor.on_wake();
    assert!(action.is_none());
    let (monitor, action) = monitor.on_status(Ok(false));
    assert!(is_request(&action, HttpMethod::Post));
    let (monitor, action) = monitor.on_status(Ok(false));
    assert!(action.is_none());
    let (monitor, action) = monitor.on_enabling(Ok(()));
    assert!(is_rest(&action, Milestone::Enabled));
    let (monitor, _) = monitor.on_wake();
    let (monitor, action) = monitor.on_status(Err(MonitorError::ControlPlaneDecodeError));
    assert!(is_stop(&action, MonitorError::ControlPlaneDecodeError));
    assert_eq!(monitor.phase(), MonitorPhase::Failed);
}

#[test]
fn many_rounds_poll_and_enable_as_needed() {
    let mut monitor = watching();
    let mut posts = 0;
    for round in 0..20 {
        let off = round % 3 == 0;
        let body: &[u8] = if off { b"{\"status\":false}" } else { b"{\"status\":true}" };
        let (next, action) = monitor.step(reply(200, body));
        monitor = next;
        if off {
            assert!(is_request(&action, HttpMethod::Post));
            posts += 1;
            let (next, action) = monitor.step(reply(200, b"{}"));
            monitor = next;
            assert!(is_rest(&action, Milestone::Enabled));
        } else {
            assert!(is_rest(&action, Milestone::AlreadyEnabled));
        }
        let (next, action) = monitor.step(MonitorEvent::Woke);
        monitor = next;
        assert!(is_request(&action, HttpMethod::Get));
    }
    assert_eq!(posts, 7);
}
