use tg_reporter::verbosity::{verbosity_level, Verbosity};
use tg_reporter::session::{SessionAction, SessionEvent, SessionState, Teardown};

fn run(events: &[SessionEvent]) -> (SessionState, Vec<SessionAction>) {
    let mut s = SessionState::new();
    let mut actions = Vec::new();
    for e in events {
        let (n, a) = s.step(*e);
        s = n;
        actions.push(a);
    }
    (s, actions)
}

#[test]
fn authorized_session_proceeds_and_disconnects() {
    let (s, a) = run(&[SessionEvent::Connected { authorized: true }]);
    assert_eq!(a, vec![SessionAction::Proceed]);
    assert!(s.is_authenticated());
    assert_eq!(s.teardown(), Teardown::Disconnect);
}

#[test]
fn saved_session_disconnects_without_sign_out() {
    let (s, a) = run(&[
        SessionEvent::Connected { authorized: false },
        SessionEvent::CodeSent,
        SessionEvent::CodeAccepted,
        SessionEvent::Saved,
    ]);
    assert_eq!(
        a,
        vec![
            SessionAction::RequestLoginCode,
            SessionAction::SubmitCode,
            SessionAction::SaveSession,
            SessionAction::Proceed
        ]
    );
    assert_eq!(s.teardown(), Teardown::Disconnect);
}

#[test]
fn unsaved_session_signs_out() {
    let (s, _) = run(&[
        SessionEvent::Connected { authorized: false },
        SessionEvent::CodeSent,
        SessionEvent::CodeAccepted,
        SessionEvent::SaveFailed,
    ]);
    assert_eq!(s, SessionState::Authenticated { sign_out: true });
    assert_eq!(s.teardown(), Teardown::SignOutAndDisconnect);
}

#[test]
fn password_flow_then_save_failure_signs_out() {
    let (s, a) = run(&[
        SessionEvent::Connected { authorized: false },
        SessionEvent::CodeSent,
        SessionEvent::PasswordRequired,
        SessionEvent::PasswordAccepted,
        SessionEvent::SaveFailed,
    ]);
    assert_eq!(a[2], SessionAction::SubmitPassword);
    assert_eq!(a[3], SessionAction::SaveSession);
    assert_eq!(s.teardown(), Teardown::SignOutAndDisconnect);
}

#[test]
fn rejection_aborts() {
    let (s, a) = run(&[
        SessionEvent::Connected { authorized: false },
        SessionEvent::CodeSent,
        SessionEvent::Rejected,
    ]);
    assert_eq!(s, SessionState::Failed);
    assert_eq!(a[2], SessionAction::Abort);
    assert!(!s.is_authenticated());
    assert_eq!(s.teardown(), Teardown::Disconnect);
}

#[test]
fn unexpected_event_aborts() {
    let (s, a) = run(&[SessionEvent::Saved]);
    assert_eq!(s, SessionState::Failed);
    assert_eq!(a, vec![SessionAction::Abort]);
}

#[test]
fn verbosity_ladder() {
    assert_eq!(verbosity_level(0), Verbosity::Off);
    assert_eq!(verbosity_level(1), Verbosity::Error);
    assert_eq!(verbosity_level(2), Verbosity::Warn);
    assert_eq!(verbosity_level(3), Verbosity::Info);
    assert_eq!(verbosity_level(4), Verbosity::Debug);
    assert_eq!(verbosity_level(5), Verbosity::Trace);
    assert_eq!(verbosity_level(255), Verbosity::Trace);
}
