use rumqtt_quic::server::{AcceptAction, AcceptOutcome, AcceptPhase, Error};

#[test]
fn accept_starts_by_waiting() {
    let (phase, action) = AcceptPhase::start();
    assert_eq!(phase, AcceptPhase::Waiting);
    assert!(matches!(action, AcceptAction::AwaitIncoming));
}

#[test]
fn accept_succeeds_after_three_steps_without_tenant() {
    let (p, _) = AcceptPhase::start();
    let (p, a) = p.step(AcceptOutcome::Done);
    assert_eq!(p, AcceptPhase::Handshaking);
    assert!(matches!(a, AcceptAction::AwaitHandshake));
    let (p, a) = p.step(AcceptOutcome::Done);
    assert_eq!(p, AcceptPhase::OpeningStreams);
    assert!(matches!(a, AcceptAction::AcceptStreams));
    let (p, a) = p.step(AcceptOutcome::Done);
    assert_eq!(p, AcceptPhase::Accepted);
    match a {
        AcceptAction::Finish { tenant_id } => assert_eq!(tenant_id, None),
        _ => panic!("expected the client to be handed out"),
    }
}

#[test]
fn accept_without_incoming_is_no_incoming() {
    let (p, a) = AcceptPhase::Waiting.step(AcceptOutcome::Closed);
    assert_eq!(p, AcceptPhase::Failed);
    assert!(matches!(a, AcceptAction::Fail(Error::NoIncoming)));
}

#[test]
fn accept_lost_in_handshake_is_a_connection_error() {
    let (p, a) = AcceptPhase::Handshaking.step(AcceptOutcome::Lost(quinn::ConnectionError::VersionMismatch));
    assert_eq!(p, AcceptPhase::Failed);
    assert!(matches!(a, AcceptAction::Fail(Error::Connection(quinn::ConnectionError::VersionMismatch))));
}

#[test]
fn accept_lost_while_opening_stream_is_a_connection_error() {
    let (p, a) = AcceptPhase::OpeningStreams.step(AcceptOutcome::Lost(quinn::ConnectionError::TimedOut));
    assert_eq!(p, AcceptPhase::Failed);
    assert!(matches!(a, AcceptAction::Fail(Error::Connection(quinn::ConnectionError::TimedOut))));
}

#[test]
fn accept_over_ignores_later_outcomes() {
    let (p, a) = AcceptPhase::Accepted.step(AcceptOutcome::Closed);
    assert_eq!(p, AcceptPhase::Accepted);
    assert!(matches!(a, AcceptAction::Nothing));
    let (p, a) = AcceptPhase::Failed.step(AcceptOutcome::Done);
    assert_eq!(p, AcceptPhase::Failed);
    assert!(matches!(a, AcceptAction::Nothing));
}
