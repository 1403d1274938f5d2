use pg_blocking::connect::{plan_transport, ChannelKind, ConnectError, SslMode};
use pg_blocking::handshake::{Direction, Directive, HandshakeDriver, Phase, StepOutcome};
use pg_blocking::session::{CancelKey, Session};

#[test]
fn handshake_completes_after_suspensions() {
    let mut driver = HandshakeDriver::begin();
    assert!(!driver.may_carry_traffic());

    let d1 = driver.advance(StepOutcome::Blocked(Direction::Readable));
    assert_eq!(d1, Directive::Await(Direction::Readable));
    assert!(!driver.may_carry_traffic());

    let d2 = driver.advance(StepOutcome::Blocked(Direction::Writable));
    assert_eq!(d2, Directive::Await(Direction::Writable));
    assert!(!driver.may_carry_traffic());

    let d3 = driver.advance(StepOutcome::Complete);
    assert_eq!(d3, Directive::Deliver);
    assert!(driver.may_carry_traffic());
}

#[test]
fn handshake_failure_never_delivers() {
    let mut driver = HandshakeDriver::begin();
    let d1 = driver.advance(StepOutcome::Blocked(Direction::Readable));
    assert_eq!(d1, Directive::Await(Direction::Readable));

    let d2 = driver.advance(StepOutcome::Failed);
    assert_eq!(d2, Directive::Fail);
    assert!(!driver.may_carry_traffic());
}

#[test]
fn immediate_handshake_completion() {
    let mut driver = HandshakeDriver::begin();
    let d = driver.advance(StepOutcome::Complete);
    assert_eq!(d, Directive::Deliver);
    assert!(driver.may_carry_traffic());
}

#[test]
fn require_takes_tls_when_server_accepts() {
    assert_eq!(plan_transport(SslMode::Require, true, true), Ok(ChannelKind::Tls));
}

#[test]
fn require_fails_rather_than_fall_back() {
    assert_eq!(
        plan_transport(SslMode::Require, true, false),
        Err(ConnectError::TlsRefusedByServer)
    );
}

#[test]
fn prefer_takes_tls_against_capable_server() {
    assert_eq!(plan_transport(SslMode::Prefer, true, true), Ok(ChannelKind::Tls));
}

#[test]
fn prefer_falls_back_when_server_declines() {
    assert_eq!(plan_transport(SslMode::Prefer, true, false), Ok(ChannelKind::Plain));
    assert_eq!(plan_transport(SslMode::Prefer, false, true), Ok(ChannelKind::Plain));
}

#[test]
fn disable_never_negotiates() {
    assert_eq!(plan_transport(SslMode::Disable, true, true), Ok(ChannelKind::Plain));
}

#[test]
fn established_session_reports_its_transport() {
    let key = CancelKey { process_id: 42, secret_key: 7 };
    let session = Session::establish(SslMode::Require, true, true, true, true, key)
        .expect("trusted certificate and correct credentials must connect");
    assert!(!session.is_closed());
    assert_eq!(session.cancel_token(), key);
}

#[test]
fn establish_fails_when_handshake_fails() {
    let key = CancelKey { process_id: 1, secret_key: 2 };
    let outcome = Session::establish(SslMode::Require, true, true, false, true, key);
    assert!(matches!(outcome, Err(ConnectError::HandshakeFailed)));
}

#[test]
fn wrong_credentials_fail_at_connection_time() {
    let key = CancelKey { process_id: 1, secret_key: 2 };
    let outcome = Session::establish(SslMode::Require, true, true, true, false, key);
    // No session value exists, so no query can be issued on the failed attempt.
    assert!(matches!(outcome, Err(ConnectError::AuthenticationFailed)));
}

#[test]
fn plain_session_with_wrong_credentials_also_fails() {
    let key = CancelKey { process_id: 1, secret_key: 2 };
    let outcome = Session::establish(SslMode::Disable, false, false, false, false, key);
    assert!(matches!(outcome, Err(ConnectError::AuthenticationFailed)));
}
