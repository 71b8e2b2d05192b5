use rijq::driver::{
    run_session_with, DisconnectCause, SessionEnd, SessionEvent, SessionPhase,
};
use rijq::login::{FlowStatus, LoginError, LoginKind};

#[test]
fn first_connect_failure_is_fatal() {
    let rep = run_session_with(vec![SessionEvent::Connected { ok: false }]);
    assert_eq!(rep.phase, SessionPhase::Ended { end: SessionEnd::ConnectFailed });
    assert!(rep.connect_delays.is_empty());
}

#[test]
fn resume_failure_reports_original_disconnect_cause() {
    let cause = DisconnectCause::TaskError { detail: b"read reset".to_vec() };
    let rep = run_session_with(vec![
        SessionEvent::Connected { ok: true },
        SessionEvent::LoginDone { status: FlowStatus::Done { kind: LoginKind::Resumed } },
        SessionEvent::DriveEnded { cause: cause.clone() },
        SessionEvent::Connected { ok: true },
        SessionEvent::ResumeDone { ok: false },
    ]);
    assert_eq!(rep.phase, SessionPhase::Ended { end: SessionEnd::ResumeFailed { cause } });
}

#[test]
fn clean_disconnect_is_retried_and_reported_as_clean_on_failed_resume() {
    let rep = run_session_with(vec![
        SessionEvent::Connected { ok: true },
        SessionEvent::LoginDone { status: FlowStatus::Done { kind: LoginKind::Fresh } },
        SessionEvent::DriveEnded { cause: DisconnectCause::Clean },
        SessionEvent::Connected { ok: false },
        SessionEvent::Connected { ok: true },
        SessionEvent::ResumeDone { ok: false },
    ]);
    assert_eq!(
        rep.phase,
        SessionPhase::Ended { end: SessionEnd::ResumeFailed { cause: DisconnectCause::Clean } }
    );
}

#[test]
fn reconnect_backoff_delays_follow_the_schedule() {
    let mut replies = vec![
        SessionEvent::Connected { ok: true },
        SessionEvent::LoginDone { status: FlowStatus::Done { kind: LoginKind::Resumed } },
        SessionEvent::DriveEnded { cause: DisconnectCause::Clean },
    ];
    for _ in 0..7 {
        replies.push(SessionEvent::Connected { ok: false });
    }
    replies.push(SessionEvent::Connected { ok: true });
    replies.push(SessionEvent::ResumeDone { ok: true });
    let rep = run_session_with(replies);
    assert_eq!(rep.connect_delays, vec![1, 2, 3, 4, 5, 6, 6, 6]);
    assert_eq!(rep.phase, SessionPhase::Running);
}

#[test]
fn successful_resume_returns_to_running_and_can_fail_later() {
    let first = DisconnectCause::TaskError { detail: b"one".to_vec() };
    let second = DisconnectCause::TaskError { detail: b"two".to_vec() };
    let rep = run_session_with(vec![
        SessionEvent::Connected { ok: true },
        SessionEvent::LoginDone { status: FlowStatus::Done { kind: LoginKind::Resumed } },
        SessionEvent::DriveEnded { cause: first },
        SessionEvent::Connected { ok: true },
        SessionEvent::ResumeDone { ok: true },
        SessionEvent::DriveEnded { cause: second.clone() },
        SessionEvent::Connected { ok: true },
        SessionEvent::ResumeDone { ok: false },
    ]);
    // the second disconnect is the one a failed resume reports
    assert_eq!(
        rep.phase,
        SessionPhase::Ended { end: SessionEnd::ResumeFailed { cause: second } }
    );
}

#[test]
fn login_failure_ends_the_session() {
    let rep = run_session_with(vec![
        SessionEvent::Connected { ok: true },
        SessionEvent::LoginDone { status: FlowStatus::Failed { err: LoginError::Canceled } },
    ]);
    assert_eq!(
        rep.phase,
        SessionPhase::Ended { end: SessionEnd::LoginFailed { err: LoginError::Canceled } }
    );
}

#[test]
fn device_lock_halts_the_session() {
    let url = b"https://verify.example".to_vec();
    let rep = run_session_with(vec![
        SessionEvent::Connected { ok: true },
        SessionEvent::LoginDone {
            status: FlowStatus::HaltedForVerification { verify_url: url.clone() },
        },
    ]);
    assert_eq!(
        rep.phase,
        SessionPhase::Ended { end: SessionEnd::HaltedForVerification { verify_url: url } }
    );
}
