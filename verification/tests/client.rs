use rumqtt_quic::client::{ConnectAction, ConnectOutcome, ConnectPhase, Error};

#[test]
fn connect_starts_by_dialing() {
    let (phase, action) = ConnectPhase::start();
    assert_eq!(phase, ConnectPhase::Dialing);
    assert!(matches!(action, ConnectAction::Dial));
}

#[test]
fn connect_succeeds_after_three_steps() {
    let (p, _) = ConnectPhase::start();
    let (p, a) = p.step(ConnectOutcome::Done);
    assert_eq!(p, ConnectPhase::Handshaking);
    assert!(matches!(a, ConnectAction::AwaitHandshake));
    let (p, a) = p.step(ConnectOutcome::Done);
    assert_eq!(p, ConnectPhase::OpeningStreams);
    assert!(matches!(a, ConnectAction::AcceptStreams));
    let (p, a) = p.step(ConnectOutcome::Done);
    assert_eq!(p, ConnectPhase::Connected);
    assert!(matches!(a, ConnectAction::Finish));
}

#[test]
fn connect_refused_is_a_connect_error() {
    let (p, _) = ConnectPhase::start();
    let (p, a) = p.step(ConnectOutcome::Refused(quinn::ConnectError::InvalidDnsName("bad name".to_string())));
    assert_eq!(p, ConnectPhase::Failed);
    match a {
        ConnectAction::Fail(Error::Connect(e)) => {
            assert_eq!(e, quinn::ConnectError::InvalidDnsName("bad name".to_string()))
        }
        _ => panic!("expected a connect error"),
    }
}

#[test]
fn connect_lost_in_handshake_is_a_connection_error() {
    let (p, _) = ConnectPhase::Dialing.step(ConnectOutcome::Done);
    let (p, a) = p.step(ConnectOutcome::Lost(quinn::ConnectionError::TimedOut));
    assert_eq!(p, ConnectPhase::Failed);
    assert!(matches!(a, ConnectAction::Fail(Error::Connection(quinn::ConnectionError::TimedOut))));
}

#[test]
fn connect_lost_while_opening_stream_is_a_connection_error() {
    let (p, a) = ConnectPhase::OpeningStreams.step(ConnectOutcome::Lost(quinn::ConnectionError::Reset));
    assert_eq!(p, ConnectPhase::Failed);
    assert!(matches!(a, ConnectAction::Fail(Error::Connection(quinn::ConnectionError::Reset))));
}

#[test]
fn connect_over_ignores_later_outcomes() {
    let (p, a) = ConnectPhase::Connected.step(ConnectOutcome::Lost(quinn::ConnectionError::LocallyClosed));
    assert_eq!(p, ConnectPhase::Connected);
    assert!(matches!(a, ConnectAction::Nothing));
    let (p, a) = ConnectPhase::Failed.step(ConnectOutcome::Done);
    assert_eq!(p, ConnectPhase::Failed);
    assert!(matches!(a, ConnectAction::Nothing));
}
