use rijq::login::{
    captcha_request_url, ensure_logged_in_with, replace_bytes, FlowEvent, FlowStatus, LoginError,
    LoginKind, LoginOutcome, QrState, TokenLoginResult,
};
use rijq::store::MemorySessionStore;
use rijq::token::{token_to_bytes, Token};

fn sample_token() -> Token {
    Token {
        uin: 99,
        d2: vec![1],
        d2key: vec![2],
        tgt: vec![3],
        srm_token: vec![4],
        t133: vec![5],
        encrypted_a1: vec![6],
        wt_session_ticket_key: vec![7],
        out_packet_session_id: vec![8],
        tgtgt_key: vec![9],
    }
}

fn stored() -> MemorySessionStore {
    MemorySessionStore::holding(token_to_bytes(&sample_token()))
}

#[test]
fn token_fast_path_resumes_without_qr() {
    let mut store = stored();
    let rep = ensure_logged_in_with(
        &mut store,
        vec![FlowEvent::TokenLoginDone { result: TokenLoginResult::Accepted }],
    );
    assert_eq!(rep.status, FlowStatus::Done { kind: LoginKind::Resumed });
    assert!(store.record.is_some());
    assert!(!rep.removed);
    assert!(rep.saved.is_none());
    assert!(rep.submitted.is_empty());
}

#[test]
fn explicit_rejection_deletes_record_and_goes_interactive() {
    let mut store = stored();
    let rep = ensure_logged_in_with(
        &mut store,
        vec![FlowEvent::TokenLoginDone { result: TokenLoginResult::Rejected }],
    );
    assert_eq!(rep.status, FlowStatus::Pending);
    assert!(rep.removed);
    assert!(store.record.is_none());
}

#[test]
fn transient_failure_keeps_record() {
    let mut store = stored();
    let rep = ensure_logged_in_with(
        &mut store,
        vec![FlowEvent::TokenLoginDone { result: TokenLoginResult::Transient }],
    );
    assert_eq!(rep.status, FlowStatus::Pending);
    assert!(!rep.removed);
    assert_eq!(store.record, Some(token_to_bytes(&sample_token())));
}

#[test]
fn corrupt_record_goes_interactive_without_removal() {
    let mut store = MemorySessionStore::holding(vec![1, 2, 3]);
    let rep = ensure_logged_in_with(&mut store, vec![]);
    assert_eq!(rep.status, FlowStatus::Pending);
    assert!(!rep.removed);
    assert_eq!(store.record, Some(vec![1, 2, 3]));
}

#[test]
fn qr_flow_persists_fresh_token_once_after_success() {
    let mut store = MemorySessionStore::empty();
    let data = token_to_bytes(&sample_token());
    let rep = ensure_logged_in_with(
        &mut store,
        vec![
            FlowEvent::QrFetched {
                qr: Some(QrState::ImageFetch { image: vec![10], signature: vec![11] }),
            },
            FlowEvent::QrShown { ok: true },
            FlowEvent::QrPolled { qr: Some(QrState::WaitingForScan) },
            FlowEvent::QrPolled { qr: Some(QrState::WaitingForConfirm) },
            FlowEvent::QrPolled {
                qr: Some(QrState::Confirmed {
                    password: vec![12],
                    no_pic_signature: vec![13],
                    ticket: vec![14],
                }),
            },
            FlowEvent::LoginResponded { outcome: Some(LoginOutcome::Success) },
            FlowEvent::TokenGenerated { data: Some(data.clone()) },
        ],
    );
    assert_eq!(rep.status, FlowStatus::Done { kind: LoginKind::Fresh });
    assert_eq!(rep.saved, Some(data.clone()));
    assert_eq!(store.record, Some(data));
}

#[test]
fn qr_timeout_is_followed_by_a_refetch() {
    let mut store = MemorySessionStore::empty();
    let rep = ensure_logged_in_with(
        &mut store,
        vec![
            FlowEvent::QrFetched {
                qr: Some(QrState::ImageFetch { image: vec![1], signature: vec![2] }),
            },
            FlowEvent::QrShown { ok: true },
            FlowEvent::QrPolled { qr: Some(QrState::Timeout) },
            FlowEvent::QrFetched {
                qr: Some(QrState::ImageFetch { image: vec![3], signature: vec![4] }),
            },
        ],
    );
    assert_eq!(rep.status, FlowStatus::Pending);
}

#[test]
fn qr_cancel_fails_for_good() {
    let mut store = MemorySessionStore::empty();
    let rep = ensure_logged_in_with(
        &mut store,
        vec![FlowEvent::QrFetched { qr: Some(QrState::Canceled) }],
    );
    assert_eq!(rep.status, FlowStatus::Failed { err: LoginError::Canceled });
}

#[test]
fn qr_fetch_failure_aborts() {
    let mut store = MemorySessionStore::empty();
    let rep = ensure_logged_in_with(&mut store, vec![FlowEvent::QrFetched { qr: None }]);
    assert_eq!(rep.status, FlowStatus::Failed { err: LoginError::QrFetchFailed });
}

#[test]
fn qr_render_failure_aborts() {
    let mut store = MemorySessionStore::empty();
    let rep = ensure_logged_in_with(
        &mut store,
        vec![
            FlowEvent::QrFetched {
                qr: Some(QrState::ImageFetch { image: vec![1], signature: vec![2] }),
            },
            FlowEvent::QrShown { ok: false },
        ],
    );
    assert_eq!(rep.status, FlowStatus::Failed { err: LoginError::QrRenderFailed });
}

#[test]
fn qr_poll_failure_aborts() {
    let mut store = MemorySessionStore::empty();
    let rep = ensure_logged_in_with(
        &mut store,
        vec![
            FlowEvent::QrFetched {
                qr: Some(QrState::ImageFetch { image: vec![1], signature: vec![2] }),
            },
            FlowEvent::QrShown { ok: true },
            FlowEvent::QrPolled { qr: None },
        ],
    );
    assert_eq!(rep.status, FlowStatus::Failed { err: LoginError::QrQueryFailed });
}

fn confirmed() -> FlowEvent {
    FlowEvent::QrFetched {
        qr: Some(QrState::Confirmed {
            password: vec![1],
            no_pic_signature: vec![2],
            ticket: vec![3],
        }),
    }
}

#[test]
fn captcha_polls_until_changed_and_submits_exactly_once() {
    let mut store = MemorySessionStore::empty();
    let url = b"https://ssl.captcha.qq.com/cap_union?aid=1".to_vec();
    let data = token_to_bytes(&sample_token());
    let rep = ensure_logged_in_with(
        &mut store,
        vec![
            confirmed(),
            FlowEvent::LoginResponded {
                outcome: Some(LoginOutcome::NeedCaptcha { verify_url: Some(url) }),
            },
            FlowEvent::CaptchaFetched { body: Some(b"please wait".to_vec()) },
            FlowEvent::CaptchaFetched { body: Some(b"please wait".to_vec()) },
            FlowEvent::CaptchaFetched { body: Some(b"t-ticket-42".to_vec()) },
            FlowEvent::LoginResponded { outcome: Some(LoginOutcome::Success) },
            FlowEvent::TokenGenerated { data: Some(data.clone()) },
        ],
    );
    assert_eq!(rep.status, FlowStatus::Done { kind: LoginKind::Fresh });
    assert_eq!(rep.submitted, vec![b"t-ticket-42".to_vec()]);
    assert_eq!(rep.saved, Some(data));
}

#[test]
fn captcha_fetch_failure_aborts() {
    let mut store = MemorySessionStore::empty();
    let rep = ensure_logged_in_with(
        &mut store,
        vec![
            confirmed(),
            FlowEvent::LoginResponded {
                outcome: Some(LoginOutcome::NeedCaptcha { verify_url: Some(vec![1]) }),
            },
            FlowEvent::CaptchaFetched { body: None },
        ],
    );
    assert_eq!(rep.status, FlowStatus::Failed { err: LoginError::CaptchaFetchFailed });
}

#[test]
fn missing_captcha_url_aborts() {
    let mut store = MemorySessionStore::empty();
    let rep = ensure_logged_in_with(
        &mut store,
        vec![
            confirmed(),
            FlowEvent::LoginResponded {
                outcome: Some(LoginOutcome::NeedCaptcha { verify_url: None }),
            },
        ],
    );
    assert_eq!(rep.status, FlowStatus::Failed { err: LoginError::MissingVerifyUrl });
}

#[test]
fn device_lock_halts_with_verify_url() {
    let mut store = MemorySessionStore::empty();
    let rep = ensure_logged_in_with(
        &mut store,
        vec![
            confirmed(),
            FlowEvent::LoginResponded {
                outcome: Some(LoginOutcome::DeviceLocked {
                    sms_phone: Some(b"123".to_vec()),
                    verify_url: Some(b"https://verify.example".to_vec()),
                    message: None,
                }),
            },
        ],
    );
    assert_eq!(
        rep.status,
        FlowStatus::HaltedForVerification { verify_url: b"https://verify.example".to_vec() }
    );
}

#[test]
fn device_lock_login_pending_loops_to_a_new_outcome() {
    let mut store = MemorySessionStore::empty();
    let data = token_to_bytes(&sample_token());
    let rep = ensure_logged_in_with(
        &mut store,
        vec![
            confirmed(),
            FlowEvent::LoginResponded { outcome: Some(LoginOutcome::DeviceLockLoginPending) },
            FlowEvent::LoginResponded { outcome: Some(LoginOutcome::Success) },
            FlowEvent::TokenGenerated { data: Some(data.clone()) },
        ],
    );
    assert_eq!(rep.status, FlowStatus::Done { kind: LoginKind::Fresh });
    assert_eq!(store.record, Some(data));
}

#[test]
fn account_frozen_fails() {
    let mut store = MemorySessionStore::empty();
    let rep = ensure_logged_in_with(
        &mut store,
        vec![confirmed(), FlowEvent::LoginResponded { outcome: Some(LoginOutcome::AccountFrozen) }],
    );
    assert_eq!(rep.status, FlowStatus::Failed { err: LoginError::AccountFrozen });
}

#[test]
fn too_many_sms_requests_fails() {
    let mut store = MemorySessionStore::empty();
    let rep = ensure_logged_in_with(
        &mut store,
        vec![
            confirmed(),
            FlowEvent::LoginResponded { outcome: Some(LoginOutcome::TooManySmsRequests) },
        ],
    );
    assert_eq!(rep.status, FlowStatus::Failed { err: LoginError::TooManySmsRequests });
}

#[test]
fn unknown_status_fails_with_diagnostics() {
    let mut store = MemorySessionStore::empty();
    let rep = ensure_logged_in_with(
        &mut store,
        vec![
            confirmed(),
            FlowEvent::LoginResponded {
                outcome: Some(LoginOutcome::UnknownStatus {
                    status_code: 42,
                    tlvs: vec![(0x104, vec![1, 2])],
                    message: b"odd".to_vec(),
                }),
            },
        ],
    );
    assert_eq!(
        rep.status,
        FlowStatus::Failed {
            err: LoginError::UnknownStatus {
                status_code: 42,
                tlvs: vec![(0x104, vec![1, 2])],
                message: b"odd".to_vec(),
            }
        }
    );
}

#[test]
fn failed_save_reports_save_failed() {
    let mut store = MemorySessionStore::empty();
    let rep = ensure_logged_in_with(
        &mut store,
        vec![
            confirmed(),
            FlowEvent::LoginResponded { outcome: Some(LoginOutcome::Success) },
            FlowEvent::TokenGenerated { data: None },
        ],
    );
    assert_eq!(rep.status, FlowStatus::Failed { err: LoginError::SaveFailed });
    assert!(store.record.is_none());
}

#[test]
fn captcha_request_url_rewrites_only_the_captcha_host() {
    let url = b"https://ssl.captcha.qq.com/cap_union_new?aid=1&sig=ab".to_vec();
    let out = captcha_request_url(&url);
    assert_eq!(out, b"https://txhelper.glitch.me/cap_union_new?aid=1&sig=ab".to_vec());
    let other = b"https://example.org/x".to_vec();
    assert_eq!(captcha_request_url(&other), other);
}

#[test]
fn replace_bytes_replaces_every_occurrence_leftmost_first() {
    let hay = b"abcabcab".to_vec();
    let pat = b"abc".to_vec();
    let sub = b"x".to_vec();
    assert_eq!(replace_bytes(&hay, &pat, &sub), b"xxab".to_vec());
    let hay2 = b"aaaa".to_vec();
    let pat2 = b"aa".to_vec();
    let sub2 = b"b".to_vec();
    assert_eq!(replace_bytes(&hay2, &pat2, &sub2), b"bb".to_vec());
}
