use uni_socket::{
    accept_action, is_transient_accept_error, poll_accept_action, AcceptAction, AcceptOutcome,
    IoErrorKind, PollAcceptAction, PollAcceptOutcome,
};

const ALL_ERRORS: [IoErrorKind; 5] = [
    IoErrorKind::ConnectionRefused,
    IoErrorKind::ConnectionAborted,
    IoErrorKind::ConnectionReset,
    IoErrorKind::NotConnected,
    IoErrorKind::Other,
];

#[test]
fn transient_accept_errors() {
    assert!(is_transient_accept_error(IoErrorKind::ConnectionRefused));
    assert!(is_transient_accept_error(IoErrorKind::ConnectionAborted));
    assert!(is_transient_accept_error(IoErrorKind::ConnectionReset));
    assert!(!is_transient_accept_error(IoErrorKind::NotConnected));
    assert!(!is_transient_accept_error(IoErrorKind::Other));
}

#[test]
fn accept_delivers_an_accepted_connection() {
    assert_eq!(accept_action(AcceptOutcome::Accepted), AcceptAction::Deliver);
}

#[test]
fn accept_retries_refused_aborted_and_reset_connections() {
    assert_eq!(
        accept_action(AcceptOutcome::Failed(IoErrorKind::ConnectionRefused)),
        AcceptAction::Retry
    );
    assert_eq!(
        accept_action(AcceptOutcome::Failed(IoErrorKind::ConnectionAborted)),
        AcceptAction::Retry
    );
    assert_eq!(
        accept_action(AcceptOutcome::Failed(IoErrorKind::ConnectionReset)),
        AcceptAction::Retry
    );
}

#[test]
fn accept_returns_other_failures() {
    assert_eq!(
        accept_action(AcceptOutcome::Failed(IoErrorKind::NotConnected)),
        AcceptAction::Fail
    );
    assert_eq!(
        accept_action(AcceptOutcome::Failed(IoErrorKind::Other)),
        AcceptAction::Fail
    );
}

#[test]
fn poll_accept_reports_pending() {
    assert_eq!(poll_accept_action(PollAcceptOutcome::Pending), PollAcceptAction::Pending);
}

#[test]
fn poll_accept_agrees_with_accept() {
    let mut outcomes = vec![AcceptOutcome::Accepted];
    for kind in ALL_ERRORS {
        outcomes.push(AcceptOutcome::Failed(kind));
    }
    for outcome in outcomes {
        let expected = match accept_action(outcome) {
            AcceptAction::Deliver => PollAcceptAction::Deliver,
            AcceptAction::Retry => PollAcceptAction::Retry,
            AcceptAction::Fail => PollAcceptAction::Fail,
        };
        assert_eq!(poll_accept_action(PollAcceptOutcome::Ready(outcome)), expected);
    }
}

#[test]
fn accept_run_stops_at_the_first_lasting_outcome() {
    let run = [
        AcceptOutcome::Failed(IoErrorKind::ConnectionReset),
        AcceptOutcome::Failed(IoErrorKind::ConnectionRefused),
        AcceptOutcome::Failed(IoErrorKind::ConnectionAborted),
        AcceptOutcome::Accepted,
        AcceptOutcome::Failed(IoErrorKind::Other),
    ];
    let stop = run
        .iter()
        .position(|o| accept_action(*o) != AcceptAction::Retry);
    assert_eq!(stop, Some(3));
    assert_eq!(accept_action(run[3]), AcceptAction::Deliver);
}
