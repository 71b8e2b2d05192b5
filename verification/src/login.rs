//! The login orchestrator: the token fast path, the interactive QR
//! flow, and the post-login challenge resolution, as one verified state
//! machine.
//!
//! The embedding process performs the network calls and hands each
//! observed result back as a `FlowEvent`; `login_step` decides the next
//! state and the next `FlowAction` to perform.  `ensure_logged_in_with`
//! drives the machine against an in-memory store and a list of remote
//! replies, which is how the tests and the proofs exercise whole
//! trajectories.

use crate::store::MemorySessionStore;
use crate::token::spec_decode_token;
use crate::token::Token;
use vstd::prelude::*;

verus! {

/// How a login finished: by resuming a stored token or by a fresh
/// interactive login.
#[derive(Clone, Copy, PartialEq, Eq, Structural, Debug)]
pub enum LoginKind {
    Resumed,
    Fresh,
}

/// The remote's answer to a token-login attempt.  Only `Rejected` (the
/// explicit token rejection) invalidates stored credentials; any other
/// failure is `Transient` and leaves the record in place.
#[derive(Clone, Copy, PartialEq, Eq, Structural, Debug)]
pub enum TokenLoginResult {
    Accepted,
    Rejected,
    Transient,
}

/// One observation of the QR code's state at the remote.
#[derive(Clone, Debug, PartialEq, Eq)]
pub enum QrState {
    /// A fresh code: its rendered image and the signature later polls
    /// must quote.
    ImageFetch { image: Vec<u8>, signature: Vec<u8> },
    WaitingForScan,
    WaitingForConfirm,
    /// The code expired; a new one must be fetched.
    Timeout,
    /// The user approved: the confirmation fields to exchange for a
    /// login outcome.
    Confirmed { password: Vec<u8>, no_pic_signature: Vec<u8>, ticket: Vec<u8> },
    Canceled,
}

/// The remote's answer to a login exchange.  Only `Success` is
/// terminal-accepting; `AccountFrozen`, `TooManySmsRequests` and
/// `UnknownStatus` are terminal-failing; the rest need further
/// interaction.
#[derive(Clone, Debug, PartialEq, Eq)]
pub enum LoginOutcome {
    Success,
    DeviceLocked {
        sms_phone: Option<Vec<u8>>,
        verify_url: Option<Vec<u8>>,
        message: Option<Vec<u8>>,
    },
    NeedCaptcha { verify_url: Option<Vec<u8>> },
    DeviceLockLoginPending,
    AccountFrozen,
    TooManySmsRequests,
    UnknownStatus { status_code: u8, tlvs: Vec<(u16, Vec<u8>)>, message: Vec<u8> },
}

/// Why a login attempt failed for good.
#[derive(Clone, Debug, PartialEq, Eq)]
pub enum LoginError {
    /// The QR code was canceled by the user.
    Canceled,
    AccountFrozen,
    TooManySmsRequests,
    /// An unrecognized login status, with its diagnostic payload.
    UnknownStatus { status_code: u8, tlvs: Vec<(u16, Vec<u8>)>, message: Vec<u8> },
    /// Fetching a QR code failed.
    QrFetchFailed,
    /// Rendering the QR code for the operator failed.
    QrRenderFailed,
    /// Polling the QR code's state failed.
    QrQueryFailed,
    /// Exchanging the confirmed QR code for a login outcome failed.
    QrLoginCallFailed,
    /// A challenge arrived without the verification address it needs.
    MissingVerifyUrl,
    /// Polling the captcha relay failed.
    CaptchaFetchFailed,
    /// Submitting the solved captcha ticket failed.
    SubmitTicketFailed,
    /// The device-lock login continuation failed.
    DeviceLockLoginFailed,
    /// The fresh token could not be encoded or persisted.
    SaveFailed,
    /// The embedder answered with an event the current state cannot
    /// accept.
    UnexpectedEvent,
}

/// Where the login flow stands.  Each non-terminal state names the
/// action whose result the machine is waiting for.
#[derive(Clone, Debug, PartialEq, Eq)]
pub enum FlowState {
    /// Waiting for the stored record to be loaded and decoded.
    AwaitingToken,
    /// A token-login call is in flight.
    TokenLoginPending,
    /// The stored record is being removed after an explicit rejection.
    RemovingSession,
    /// A QR code fetch is in flight; `last_signature` is the signature
    /// of the previous code, if one was ever issued.
    QrFetching { last_signature: Option<Vec<u8>> },
    /// The fetched code is being rendered for the operator.
    QrShowing { signature: Vec<u8> },
    /// Waiting out the poll interval before querying the code's state;
    /// polls quote `signature` (none means no code was issued yet).
    QrWaiting { signature: Option<Vec<u8>> },
    /// The confirmed code is being exchanged for a login outcome.
    QrLoginPending,
    /// Polling the captcha relay at the rewritten `verify_url`;
    /// `initial` is the relay's first answer, and any later, different
    /// answer is the solved ticket.
    CaptchaPolling { verify_url: Vec<u8>, initial: Option<Vec<u8>> },
    /// A solved captcha ticket has been submitted.
    TicketPending,
    /// The device-lock login continuation is in flight.
    DeviceLockPending,
    /// A fresh token is being generated.
    TokenGenPending,
    /// The encoded fresh token is being persisted.
    SavingSession,
    /// Logged in.
    Finished { kind: LoginKind },
    /// Device lock: the operator must verify out of band at this
    /// address and restart; the process halts deliberately.
    HaltedForVerification { verify_url: Vec<u8> },
    /// Failed for good.
    Aborted { err: LoginError },
}

/// What the embedder must do next.  Actions that need data already held
/// by the current state (the poll signature, the captcha address) name
/// it there rather than carrying a copy.
#[derive(Clone, Debug, PartialEq, Eq)]
pub enum FlowAction {
    /// Attempt token login with the decoded token.
    CallTokenLogin { token: Token },
    /// Remove the stored session record.
    RemoveSession,
    /// Fetch a fresh QR code.
    FetchQr,
    /// Render this image for the operator to scan.
    ShowQr { image: Vec<u8> },
    /// Wait `delay_secs`, then query the QR state, quoting the
    /// signature held by the waiting state.
    PollQr { delay_secs: u64 },
    /// Exchange the confirmation fields for a login outcome.
    CallQrLogin { password: Vec<u8>, no_pic_signature: Vec<u8>, ticket: Vec<u8> },
    /// Wait `delay_secs`, then fetch the captcha relay once, at the
    /// address `captcha_request_url` computes from the state's
    /// `verify_url`.
    FetchCaptcha { delay_secs: u64 },
    /// Submit this solved captcha ticket.
    SubmitTicket { ticket: Vec<u8> },
    /// Invoke the device-lock login continuation.
    CallDeviceLockLogin,
    /// Generate a fresh token from the live session.
    CallGenToken,
    /// Persist this encoded token.
    SaveSession { data: Vec<u8> },
    /// Nothing: the flow is over.
    Stop,
}

/// What the embedder observed for the pending action.
#[derive(Clone, Debug, PartialEq, Eq)]
pub enum FlowEvent {
    /// The stored record was loaded and decoded: the token, or none if
    /// no record exists, the store failed, or the record was corrupt.
    TokenReady { token: Option<Token> },
    TokenLoginDone { result: TokenLoginResult },
    SessionRemoved,
    /// The fetched QR state, or none if the fetch failed.
    QrFetched { qr: Option<QrState> },
    /// Whether rendering the code succeeded.
    QrShown { ok: bool },
    /// The polled QR state, or none if the query failed.
    QrPolled { qr: Option<QrState> },
    /// The login outcome, or none if the call failed.
    LoginResponded { outcome: Option<LoginOutcome> },
    /// The captcha relay's body, or none if the request failed.
    CaptchaFetched { body: Option<Vec<u8>> },
    /// The fresh token, already encoded, or none if it could not be
    /// encoded.
    TokenGenerated { data: Option<Vec<u8>> },
    /// Whether persisting succeeded.
    SessionSaved { ok: bool },
}

// ---------- the transition function ----------

/// The transition out of a freshly observed QR state; `last` is the
/// signature of the most recent code, if any.
pub open spec fn spec_on_qr(qr: QrState, last: Option<Vec<u8>>) -> (FlowState, FlowAction) {
    match qr {
        QrState::ImageFetch { image, signature } => (
            FlowState::QrShowing { signature },
            FlowAction::ShowQr { image },
        ),
        QrState::WaitingForScan => (
            FlowState::QrWaiting { signature: last },
            FlowAction::PollQr { delay_secs: 5 },
        ),
        QrState::WaitingForConfirm => (
            FlowState::QrWaiting { signature: last },
            FlowAction::PollQr { delay_secs: 5 },
        ),
        QrState::Timeout => (FlowState::QrFetching { last_signature: last }, FlowAction::FetchQr),
        QrState::Confirmed { password, no_pic_signature, ticket } => (
            FlowState::QrLoginPending,
            FlowAction::CallQrLogin { password, no_pic_signature, ticket },
        ),
        QrState::Canceled => (FlowState::Aborted { err: LoginError::Canceled }, FlowAction::Stop),
    }
}

/// The transition out of a login outcome.
pub open spec fn spec_on_outcome(o: LoginOutcome) -> (FlowState, FlowAction) {
    match o {
        LoginOutcome::Success => (FlowState::TokenGenPending, FlowAction::CallGenToken),
        LoginOutcome::DeviceLocked { sms_phone, verify_url, message } => match verify_url {
            Some(u) => (FlowState::HaltedForVerification { verify_url: u }, FlowAction::Stop),
            None => (FlowState::Aborted { err: LoginError::MissingVerifyUrl }, FlowAction::Stop),
        },
        LoginOutcome::NeedCaptcha { verify_url } => match verify_url {
            Some(u) => (
                FlowState::CaptchaPolling { verify_url: u, initial: None },
                FlowAction::FetchCaptcha { delay_secs: 0 },
            ),
            None => (FlowState::Aborted { err: LoginError::MissingVerifyUrl }, FlowAction::Stop),
        },
        LoginOutcome::DeviceLockLoginPending => (
            FlowState::DeviceLockPending,
            FlowAction::CallDeviceLockLogin,
        ),
        LoginOutcome::AccountFrozen => (
            FlowState::Aborted { err: LoginError::AccountFrozen },
            FlowAction::Stop,
        ),
        LoginOutcome::TooManySmsRequests => (
            FlowState::Aborted { err: LoginError::TooManySmsRequests },
            FlowAction::Stop,
        ),
        LoginOutcome::UnknownStatus { status_code, tlvs, message } => (
            FlowState::Aborted { err: LoginError::UnknownStatus { status_code, tlvs, message } },
            FlowAction::Stop,
        ),
    }
}

/// The whole transition function: the next state and the next action,
/// for every state and event.  Terminal states absorb every event; a
/// non-terminal state answered with an event it cannot accept aborts
/// with `UnexpectedEvent`.
pub open spec fn spec_login_step(s: FlowState, e: FlowEvent) -> (FlowState, FlowAction) {
    match s {
        FlowState::AwaitingToken => match e {
            FlowEvent::TokenReady { token: Some(t) } => (
                FlowState::TokenLoginPending,
                FlowAction::CallTokenLogin { token: t },
            ),
            FlowEvent::TokenReady { token: None } => (
                FlowState::QrFetching { last_signature: None },
                FlowAction::FetchQr,
            ),
            _ => (FlowState::Aborted { err: LoginError::UnexpectedEvent }, FlowAction::Stop),
        },
        FlowState::TokenLoginPending => match e {
            FlowEvent::TokenLoginDone { result: TokenLoginResult::Accepted } => (
                FlowState::Finished { kind: LoginKind::Resumed },
                FlowAction::Stop,
            ),
            FlowEvent::TokenLoginDone { result: TokenLoginResult::Rejected } => (
                FlowState::RemovingSession,
                FlowAction::RemoveSession,
            ),
            FlowEvent::TokenLoginDone { result: TokenLoginResult::Transient } => (
                FlowState::QrFetching { last_signature: None },
                FlowAction::FetchQr,
            ),
            _ => (FlowState::Aborted { err: LoginError::UnexpectedEvent }, FlowAction::Stop),
        },
        FlowState::RemovingSession => match e {
            FlowEvent::SessionRemoved => (
                FlowState::QrFetching { last_signature: None },
                FlowAction::FetchQr,
            ),
            _ => (FlowState::Aborted { err: LoginError::UnexpectedEvent }, FlowAction::Stop),
        },
        FlowState::QrFetching { last_signature } => match e {
            FlowEvent::QrFetched { qr: Some(q) } => spec_on_qr(q, last_signature),
            FlowEvent::QrFetched { qr: None } => (
                FlowState::Aborted { err: LoginError::QrFetchFailed },
                FlowAction::Stop,
            ),
            _ => (FlowState::Aborted { err: LoginError::UnexpectedEvent }, FlowAction::Stop),
        },
        FlowState::QrShowing { signature } => match e {
            FlowEvent::QrShown { ok: true } => (
                FlowState::QrWaiting { signature: Some(signature) },
                FlowAction::PollQr { delay_secs: 5 },
            ),
            FlowEvent::QrShown { ok: false } => (
                FlowState::Aborted { err: LoginError::QrRenderFailed },
                FlowAction::Stop,
            ),
            _ => (FlowState::Aborted { err: LoginError::UnexpectedEvent }, FlowAction::Stop),
        },
        FlowState::QrWaiting { signature } => match e {
            FlowEvent::QrPolled { qr: Some(q) } => spec_on_qr(q, signature),
            FlowEvent::QrPolled { qr: None } => (
                FlowState::Aborted { err: LoginError::QrQueryFailed },
                FlowAction::Stop,
            ),
            _ => (FlowState::Aborted { err: LoginError::UnexpectedEvent }, FlowAction::Stop),
        },
        FlowState::QrLoginPending => match e {
            FlowEvent::LoginResponded { outcome: Some(o) } => spec_on_outcome(o),
            FlowEvent::LoginResponded { outcome: None } => (
                FlowState::Aborted { err: LoginError::QrLoginCallFailed },
                FlowAction::Stop,
            ),
            _ => (FlowState::Aborted { err: LoginError::UnexpectedEvent }, FlowAction::Stop),
        },
        FlowState::CaptchaPolling { verify_url, initial } => match e {
            FlowEvent::CaptchaFetched { body: Some(b) } => match initial {
                None => (
                    FlowState::CaptchaPolling { verify_url, initial: Some(b) },
                    FlowAction::FetchCaptcha { delay_secs: 5 },
                ),
                Some(first) => if b@ == first@ {
                    (
                        FlowState::CaptchaPolling { verify_url, initial: Some(first) },
                        FlowAction::FetchCaptcha { delay_secs: 5 },
                    )
                } else {
                    (FlowState::TicketPending, FlowAction::SubmitTicket { ticket: b })
                },
            },
            FlowEvent::CaptchaFetched { body: None } => (
                FlowState::Aborted { err: LoginError::CaptchaFetchFailed },
                FlowAction::Stop,
            ),
            _ => (FlowState::Aborted { err: LoginError::UnexpectedEvent }, FlowAction::Stop),
        },
        FlowState::TicketPending => match e {
            FlowEvent::LoginResponded { outcome: Some(o) } => spec_on_outcome(o),
            FlowEvent::LoginResponded { outcome: None } => (
                FlowState::Aborted { err: LoginError::SubmitTicketFailed },
                FlowAction::Stop,
            ),
            _ => (FlowState::Aborted { err: LoginError::UnexpectedEvent }, FlowAction::Stop),
        },
        FlowState::DeviceLockPending => match e {
            FlowEvent::LoginResponded { outcome: Some(o) } => spec_on_outcome(o),
            FlowEvent::LoginResponded { outcome: None } => (
                FlowState::Aborted { err: LoginError::DeviceLockLoginFailed },
                FlowAction::Stop,
            ),
            _ => (FlowState::Aborted { err: LoginError::UnexpectedEvent }, FlowAction::Stop),
        },
        FlowState::TokenGenPending => match e {
            FlowEvent::TokenGenerated { data: Some(d) } => (
                FlowState::SavingSession,
                FlowAction::SaveSession { data: d },
            ),
            FlowEvent::TokenGenerated { data: None } => (
                FlowState::Aborted { err: LoginError::SaveFailed },
                FlowAction::Stop,
            ),
            _ => (FlowState::Aborted { err: LoginError::UnexpectedEvent }, FlowAction::Stop),
        },
        FlowState::SavingSession => match e {
            FlowEvent::SessionSaved { ok: true } => (
                FlowState::Finished { kind: LoginKind::Fresh },
                FlowAction::Stop,
            ),
            FlowEvent::SessionSaved { ok: false } => (
                FlowState::Aborted { err: LoginError::SaveFailed },
                FlowAction::Stop,
            ),
            _ => (FlowState::Aborted { err: LoginError::UnexpectedEvent }, FlowAction::Stop),
        },
        FlowState::Finished { kind } => (FlowState::Finished { kind }, FlowAction::Stop),
        FlowState::HaltedForVerification { verify_url } => (
            FlowState::HaltedForVerification { verify_url },
            FlowAction::Stop,
        ),
        FlowState::Aborted { err } => (FlowState::Aborted { err }, FlowAction::Stop),
    }
}

/// Whether two byte vectors hold the same bytes.
pub fn bytes_equal(a: &Vec<u8>, b: &Vec<u8>) -> (r: bool)
    ensures
        r == (a@ == b@),
{
    if a.len() != b.len() {
        return false;
    }
    let n = a.len();
    let mut i: usize = 0;
    while i < n
        invariant
            i <= n,
            n == a@.len(),
            n == b@.len(),
            forall|j: int| 0 <= j < i ==> a@[j] == b@[j],
        decreases n - i,
    {
        if a[i] != b[i] {
            return false;
        }
        i = i + 1;
    }
    proof {
        assert(a@ =~= b@);
    }
    true
}

/// The executable transition function; it computes exactly
/// `spec_login_step`.
pub fn login_step(s: FlowState, e: FlowEvent) -> (r: (FlowState, FlowAction))
    ensures
        r == spec_login_step(s, e),
{
    match s {
        FlowState::AwaitingToken => match e {
            FlowEvent::TokenReady { token: Some(t) } => (
                FlowState::TokenLoginPending,
                FlowAction::CallTokenLogin { token: t },
            ),
            FlowEvent::TokenReady { token: None } => (
                FlowState::QrFetching { last_signature: None },
                FlowAction::FetchQr,
            ),
            _ => (FlowState::Aborted { err: LoginError::UnexpectedEvent }, FlowAction::Stop),
        },
        FlowState::TokenLoginPending => match e {
            FlowEvent::TokenLoginDone { result: TokenLoginResult::Accepted } => (
                FlowState::Finished { kind: LoginKind::Resumed },
                FlowAction::Stop,
            ),
            FlowEvent::TokenLoginDone { result: TokenLoginResult::Rejected } => (
                FlowState::RemovingSession,
                FlowAction::RemoveSession,
            ),
            FlowEvent::TokenLoginDone { result: TokenLoginResult::Transient } => (
                FlowState::QrFetching { last_signature: None },
                FlowAction::FetchQr,
            ),
            _ => (FlowState::Aborted { err: LoginError::UnexpectedEvent }, FlowAction::Stop),
        },
        FlowState::RemovingSession => match e {
            FlowEvent::SessionRemoved => (
                FlowState::QrFetching { last_signature: None },
                FlowAction::FetchQr,
            ),
            _ => (FlowState::Aborted { err: LoginError::UnexpectedEvent }, FlowAction::Stop),
        },
        FlowState::QrFetching { last_signature } => match e {
            FlowEvent::QrFetched { qr: Some(q) } => on_qr(q, last_signature),
            FlowEvent::QrFetched { qr: None } => (
                FlowState::Aborted { err: LoginError::QrFetchFailed },
                FlowAction::Stop,
            ),
            _ => (FlowState::Aborted { err: LoginError::UnexpectedEvent }, FlowAction::Stop),
        },
        FlowState::QrShowing { signature } => match e {
            FlowEvent::QrShown { ok } => {
                if ok {
                    (
                        FlowState::QrWaiting { signature: Some(signature) },
                        FlowAction::PollQr { delay_secs: 5 },
                    )
                } else {
                    (FlowState::Aborted { err: LoginError::QrRenderFailed }, FlowAction::Stop)
                }
            },
            _ => (FlowState::Aborted { err: LoginError::UnexpectedEvent }, FlowAction::Stop),
        },
        FlowState::QrWaiting { signature } => match e {
            FlowEvent::QrPolled { qr: Some(q) } => on_qr(q, signature),
            FlowEvent::QrPolled { qr: None } => (
                FlowState::Aborted { err: LoginError::QrQueryFailed },
                FlowAction::Stop,
            ),
            _ => (FlowState::Aborted { err: LoginError::UnexpectedEvent }, FlowAction::Stop),
        },
        FlowState::QrLoginPending => match e {
            FlowEvent::LoginResponded { outcome: Some(o) } => on_outcome(o),
            FlowEvent::LoginResponded { outcome: None } => (
                FlowState::Aborted { err: LoginError::QrLoginCallFailed },
                FlowAction::Stop,
            ),
            _ => (FlowState::Aborted { err: LoginError::UnexpectedEvent }, FlowAction::Stop),
        },
        FlowState::CaptchaPolling { verify_url, initial } => match e {
            FlowEvent::CaptchaFetched { body: Some(b) } => match initial {
                None => (
                    FlowState::CaptchaPolling { verify_url, initial: Some(b) },
                    FlowAction::FetchCaptcha { delay_secs: 5 },
                ),
                Some(first) => {
                    if bytes_equal(&b, &first) {
                        (
                            FlowState::CaptchaPolling { verify_url, initial: Some(first) },
                            FlowAction::FetchCaptcha { delay_secs: 5 },
                        )
                    } else {
                        (FlowState::TicketPending, FlowAction::SubmitTicket { ticket: b })
                    }
                },
            },
            FlowEvent::CaptchaFetched { body: None } => (
                FlowState::Aborted { err: LoginError::CaptchaFetchFailed },
                FlowAction::Stop,
            ),
            _ => (FlowState::Aborted { err: LoginError::UnexpectedEvent }, FlowAction::Stop),
        },
        FlowState::TicketPending => match e {
            FlowEvent::LoginResponded { outcome: Some(o) } => on_outcome(o),
            FlowEvent::LoginResponded { outcome: None } => (
                FlowState::Aborted { err: LoginError::SubmitTicketFailed },
                FlowAction::Stop,
            ),
            _ => (FlowState::Aborted { err: LoginError::UnexpectedEvent }, FlowAction::Stop),
        },
        FlowState::DeviceLockPending => match e {
            FlowEvent::LoginResponded { outcome: Some(o) } => on_outcome(o),
            FlowEvent::LoginResponded { outcome: None } => (
                FlowState::Aborted { err: LoginError::DeviceLockLoginFailed },
                FlowAction::Stop,
            ),
            _ => (FlowState::Aborted { err: LoginError::UnexpectedEvent }, FlowAction::Stop),
        },
        FlowState::TokenGenPending => match e {
            FlowEvent::TokenGenerated { data: Some(d) } => (
                FlowState::SavingSession,
                FlowAction::SaveSession { data: d },
            ),
            FlowEvent::TokenGenerated { data: None } => (
                FlowState::Aborted { err: LoginError::SaveFailed },
                FlowAction::Stop,
            ),
            _ => (FlowState::Aborted { err: LoginError::UnexpectedEvent }, FlowAction::Stop),
        },
        FlowState::SavingSession => match e {
            FlowEvent::SessionSaved { ok } => {
                if ok {
                    (FlowState::Finished { kind: LoginKind::Fresh }, FlowAction::Stop)
                } else {
                    (FlowState::Aborted { err: LoginError::SaveFailed }, FlowAction::Stop)
                }
            },
            _ => (FlowState::Aborted { err: LoginError::UnexpectedEvent }, FlowAction::Stop),
        },
        FlowState::Finished { kind } => (FlowState::Finished { kind }, FlowAction::Stop),
        FlowState::HaltedForVerification { verify_url } => (
            FlowState::HaltedForVerification { verify_url },
            FlowAction::Stop,
        ),
        FlowState::Aborted { err } => (FlowState::Aborted { err }, FlowAction::Stop),
    }
}

fn on_qr(qr: QrState, last: Option<Vec<u8>>) -> (r: (FlowState, FlowAction))
    ensures
        r == spec_on_qr(qr, last),
{
    match qr {
        QrState::ImageFetch { image, signature } => (
            FlowState::QrShowing { signature },
            FlowAction::ShowQr { image },
        ),
        QrState::WaitingForScan => (
            FlowState::QrWaiting { signature: last },
            FlowAction::PollQr { delay_secs: 5 },
        ),
        QrState::WaitingForConfirm => (
            FlowState::QrWaiting { signature: last },
            FlowAction::PollQr { delay_secs: 5 },
        ),
        QrState::Timeout => (FlowState::QrFetching { last_signature: last }, FlowAction::FetchQr),
        QrState::Confirmed { password, no_pic_signature, ticket } => (
            FlowState::QrLoginPending,
            FlowAction::CallQrLogin { password, no_pic_signature, ticket },
        ),
        QrState::Canceled => (FlowState::Aborted { err: LoginError::Canceled }, FlowAction::Stop),
    }
}

fn on_outcome(o: LoginOutcome) -> (r: (FlowState, FlowAction))
    ensures
        r == spec_on_outcome(o),
{
    match o {
        LoginOutcome::Success => (FlowState::TokenGenPending, FlowAction::CallGenToken),
        LoginOutcome::DeviceLocked { sms_phone: _, verify_url, message: _ } => match verify_url {
            Some(u) => (FlowState::HaltedForVerification { verify_url: u }, FlowAction::Stop),
            None => (FlowState::Aborted { err: LoginError::MissingVerifyUrl }, FlowAction::Stop),
        },
        LoginOutcome::NeedCaptcha { verify_url } => match verify_url {
            Some(u) => (
                FlowState::CaptchaPolling { verify_url: u, initial: None },
                FlowAction::FetchCaptcha { delay_secs: 0 },
            ),
            None => (FlowState::Aborted { err: LoginError::MissingVerifyUrl }, FlowAction::Stop),
        },
        LoginOutcome::DeviceLockLoginPending => (
            FlowState::DeviceLockPending,
            FlowAction::CallDeviceLockLogin,
        ),
        LoginOutcome::AccountFrozen => (
            FlowState::Aborted { err: LoginError::AccountFrozen },
            FlowAction::Stop,
        ),
        LoginOutcome::TooManySmsRequests => (
            FlowState::Aborted { err: LoginError::TooManySmsRequests },
            FlowAction::Stop,
        ),
        LoginOutcome::UnknownStatus { status_code, tlvs, message } => (
            FlowState::Aborted { err: LoginError::UnknownStatus { status_code, tlvs, message } },
            FlowAction::Stop,
        ),
    }
}

// ---------- the trajectory model ----------

/// Everything one login run has decided and done: the machine state,
/// the store's contents, what was persisted and removed, how many QR
/// codes were requested, and every ticket submitted, in order.
pub struct RunModel {
    pub state: FlowState,
    pub contents: Option<Seq<u8>>,
    pub saved: Option<Seq<u8>>,
    pub removed: bool,
    pub qr_fetches: nat,
    pub submitted: Seq<Seq<u8>>,
}

pub open spec fn spec_terminal(s: FlowState) -> bool {
    s is Finished || s is HaltedForVerification || s is Aborted
}

pub open spec fn spec_count_action(m: RunModel, a: FlowAction) -> RunModel {
    match a {
        FlowAction::FetchQr => RunModel {
            state: m.state,
            contents: m.contents,
            saved: m.saved,
            removed: m.removed,
            qr_fetches: m.qr_fetches + 1,
            submitted: m.submitted,
        },
        FlowAction::SubmitTicket { ticket } => RunModel {
            state: m.state,
            contents: m.contents,
            saved: m.saved,
            removed: m.removed,
            qr_fetches: m.qr_fetches,
            submitted: m.submitted.push(ticket@),
        },
        _ => m,
    }
}

/// One reply fed to the machine.  Store actions are performed on the
/// spot: the in-memory store can never fail, so removal is followed by
/// `SessionRemoved` and saving by a successful `SessionSaved`.
pub open spec fn spec_feed(m: RunModel, e: FlowEvent) -> RunModel {
    let stepped = spec_login_step(m.state, e);
    let m1 = spec_count_action(
        RunModel {
            state: stepped.0,
            contents: m.contents,
            saved: m.saved,
            removed: m.removed,
            qr_fetches: m.qr_fetches,
            submitted: m.submitted,
        },
        stepped.1,
    );
    match stepped.1 {
        FlowAction::RemoveSession => {
            let stepped2 = spec_login_step(m1.state, FlowEvent::SessionRemoved);
            spec_count_action(
                RunModel {
                    state: stepped2.0,
                    contents: None,
                    saved: m1.saved,
                    removed: true,
                    qr_fetches: m1.qr_fetches,
                    submitted: m1.submitted,
                },
                stepped2.1,
            )
        },
        FlowAction::SaveSession { data } => {
            let stepped2 = spec_login_step(m1.state, FlowEvent::SessionSaved { ok: true });
            spec_count_action(
                RunModel {
                    state: stepped2.0,
                    contents: Some(data@),
                    saved: Some(data@),
                    removed: m1.removed,
                    qr_fetches: m1.qr_fetches,
                    submitted: m1.submitted,
                },
                stepped2.1,
            )
        },
        _ => m1,
    }
}

/// A whole run: replies are fed in order until none remain or the flow
/// is over.
pub open spec fn spec_login_run(m: RunModel, evs: Seq<FlowEvent>) -> RunModel
    decreases evs.len(),
{
    if evs.len() == 0 || spec_terminal(m.state) {
        m
    } else {
        spec_login_run(spec_feed(m, evs[0]), evs.skip(1))
    }
}

/// Where a run begins, given the store's contents: a stored record that
/// decodes starts the token fast path; a missing, unreadable or corrupt
/// record falls through to the QR path without touching the store.
pub open spec fn spec_initial_model(contents: Option<Seq<u8>>) -> RunModel {
    if contents matches Some(b) && spec_decode_token(b) is Some {
        RunModel {
            state: FlowState::TokenLoginPending,
            contents,
            saved: None,
            removed: false,
            qr_fetches: 0,
            submitted: seq![],
        }
    } else {
        RunModel {
            state: FlowState::QrFetching { last_signature: None },
            contents,
            saved: None,
            removed: false,
            qr_fetches: 1,
            submitted: seq![],
        }
    }
}

/// Runs compose: feeding a whole reply list equals feeding a prefix,
/// then the rest.
pub proof fn lemma_run_split(m: RunModel, evs: Seq<FlowEvent>, i: int)
    requires
        0 <= i <= evs.len(),
    ensures
        spec_login_run(m, evs) == spec_login_run(spec_login_run(m, evs.take(i)), evs.skip(i)),
    decreases i,
{
    if i == 0 {
        assert(evs.take(0) =~= Seq::<FlowEvent>::empty());
        assert(evs.skip(0) =~= evs);
    } else if spec_terminal(m.state) {
        assert(spec_login_run(m, evs) == m);
        assert(spec_login_run(m, evs.take(i)) == m);
        assert(spec_login_run(m, evs.skip(i)) == m);
    } else {
        let m1 = spec_feed(m, evs[0]);
        let rest = evs.skip(1);
        assert(evs.take(i)[0] == evs[0]);
        assert(evs.take(i).skip(1) =~= rest.take(i - 1));
        assert(evs.skip(i) =~= rest.skip(i - 1));
        lemma_run_split(m1, rest, i - 1);
    }
}

// ---------- the driver ----------

/// How a driven login run ended: still waiting for more remote replies,
/// done, halted for out-of-band device verification, or failed.
#[derive(Clone, Debug, PartialEq, Eq)]
pub enum FlowStatus {
    Pending,
    Done { kind: LoginKind },
    HaltedForVerification { verify_url: Vec<u8> },
    Failed { err: LoginError },
}

pub open spec fn spec_status_of(s: FlowState) -> FlowStatus {
    match s {
        FlowState::Finished { kind } => FlowStatus::Done { kind },
        FlowState::HaltedForVerification { verify_url } => FlowStatus::HaltedForVerification {
            verify_url,
        },
        FlowState::Aborted { err } => FlowStatus::Failed { err },
        _ => FlowStatus::Pending,
    }
}

pub open spec fn spec_opt_view(o: Option<Vec<u8>>) -> Option<Seq<u8>> {
    match o {
        Some(v) => Some(v@),
        None => None,
    }
}

/// What `ensure_logged_in_with` reports back: the final status, the
/// record it persisted (if any), whether it removed the stored record,
/// and every captcha ticket it submitted, in order.
pub struct LoginReport {
    pub status: FlowStatus,
    pub saved: Option<Vec<u8>>,
    pub removed: bool,
    pub submitted: Vec<Vec<u8>>,
}

fn flow_over(s: &FlowState) -> (r: bool)
    ensures
        r == spec_terminal(*s),
{
    match s {
        FlowState::Finished { .. } => true,
        FlowState::HaltedForVerification { .. } => true,
        FlowState::Aborted { .. } => true,
        _ => false,
    }
}

/// The status a state stands for: terminal states map to their
/// outcome, every other state is still pending.
pub fn flow_status_of(s: FlowState) -> (r: FlowStatus)
    ensures
        r == spec_status_of(s),
{
    match s {
        FlowState::Finished { kind } => FlowStatus::Done { kind },
        FlowState::HaltedForVerification { verify_url } => FlowStatus::HaltedForVerification {
            verify_url,
        },
        FlowState::Aborted { err } => FlowStatus::Failed { err },
        _ => FlowStatus::Pending,
    }
}

fn clone_bytes(v: &Vec<u8>) -> (r: Vec<u8>)
    ensures
        r@ == v@,
{
    let c = v.clone();
    proof {
        assert(c@ =~= v@);
    }
    c
}

/// Ensures the session is logged in, against the in-memory store and a
/// list of remote replies: the stored record is loaded and decoded,
/// token login is tried first, and the machine then follows the replies
/// until the flow is over or the replies run out.  The result and every
/// store change are exactly those of the trajectory model.
pub fn ensure_logged_in_with(store: &mut MemorySessionStore, replies: Vec<FlowEvent>) -> (r:
    LoginReport)
    ensures
        ({
            let m = spec_login_run(spec_initial_model(old(store).held()), replies@);
            &&& r.status == spec_status_of(m.state)
            &&& final(store).held() == m.contents
            &&& spec_opt_view(r.saved) == m.saved
            &&& r.removed == m.removed
            &&& r.submitted@.map_values(|v: Vec<u8>| v@) == m.submitted
        }),
{
    let ghost m0 = spec_initial_model(old(store).held());
    let mut state: FlowState = match &store.record {
        None => FlowState::QrFetching { last_signature: None },
        Some(v) => match crate::token::bytes_to_token(v) {
            Ok(_) => FlowState::TokenLoginPending,
            Err(_) => FlowState::QrFetching { last_signature: None },
        },
    };
    let mut rep = LoginReport {
        status: FlowStatus::Pending,
        saved: None,
        removed: false,
        submitted: Vec::new(),
    };
    let mut evs = replies;
    let ghost all = evs@;
    let ghost mut i: int = 0;
    proof {
        assert(all.take(0) =~= Seq::<FlowEvent>::empty());
        assert(rep.submitted@.map_values(|v: Vec<u8>| v@) =~= Seq::<Seq<u8>>::empty());
    }
    let mut over = flow_over(&state);
    while evs.len() > 0 && !over
        invariant
            0 <= i <= all.len(),
            evs@ == all.skip(i),
            ({
                let mi = spec_login_run(m0, all.take(i));
                &&& state == mi.state
                &&& store.held() == mi.contents
                &&& spec_opt_view(rep.saved) == mi.saved
                &&& rep.removed == mi.removed
                &&& rep.submitted@.map_values(|v: Vec<u8>| v@) == mi.submitted
                &&& over == spec_terminal(mi.state)
            }),
        decreases evs@.len(),
    {
        let ghost mi = spec_login_run(m0, all.take(i));
        let e = evs.remove(0);
        proof {
            assert(all.skip(i)[0] == all[i]);
            assert(e == all[i]);
            assert(evs@ =~= all.skip(i + 1));
        }
        let stepped = login_step(state, e);
        state = stepped.0;
        match stepped.1 {
            FlowAction::RemoveSession => {
                store.record = None;
                rep.removed = true;
                let stepped2 = login_step(state, FlowEvent::SessionRemoved);
                state = stepped2.0;
            },
            FlowAction::SaveSession { data } => {
                let copy = clone_bytes(&data);
                store.record = Some(data);
                rep.saved = Some(copy);
                let stepped2 = login_step(state, FlowEvent::SessionSaved { ok: true });
                state = stepped2.0;
            },
            FlowAction::SubmitTicket { ticket } => {
                let ghost before = rep.submitted@;
                rep.submitted.push(ticket);
                proof {
                    assert(rep.submitted@.map_values(|v: Vec<u8>| v@) =~= before.map_values(
                        |v: Vec<u8>| v@,
                    ).push(rep.submitted@.last()@));
                }
            },
            _ => {},
        }
        over = flow_over(&state);
        proof {
            i = i + 1;
            lemma_run_split(m0, all.take(i), i - 1);
            assert(all.take(i).take(i - 1) =~= all.take(i - 1));
            assert(all.take(i).skip(i - 1) =~= seq![all[i - 1]]);
            assert(seq![e].skip(1) =~= Seq::<FlowEvent>::empty());
            assert(spec_login_run(spec_feed(mi, e), Seq::<FlowEvent>::empty()) == spec_feed(mi, e));
            assert(spec_login_run(mi, seq![e]) == spec_login_run(
                spec_feed(mi, e),
                seq![e].skip(1),
            ));
            assert(spec_login_run(m0, all.take(i)) == spec_feed(mi, e));
        }
    }
    proof {
        let mi = spec_login_run(m0, all.take(i));
        lemma_run_split(m0, all, i);
        if i == all.len() {
            assert(all.take(i) =~= all);
        } else {
            assert(spec_terminal(mi.state));
        }
        assert(spec_login_run(m0, all) == mi);
    }
    rep.status = flow_status_of(state);
    rep
}

// ---------- the captcha relay address ----------

/// Leftmost, non-overlapping replacement of every occurrence of `pat`
/// in `s` by `sub`.
pub open spec fn spec_replace(s: Seq<u8>, pat: Seq<u8>, sub: Seq<u8>) -> Seq<u8>
    recommends
        pat.len() > 0,
    decreases s.len(),
{
    if s.len() == 0 {
        s
    } else if pat.len() > 0 && pat.len() <= s.len() && s.take(pat.len() as int) == pat {
        sub + spec_replace(s.skip(pat.len() as int), pat, sub)
    } else {
        s.take(1) + spec_replace(s.skip(1), pat, sub)
    }
}

fn matches_at(hay: &Vec<u8>, i: usize, pat: &Vec<u8>) -> (r: bool)
    requires
        i <= hay@.len(),
    ensures
        r == (pat@.len() <= hay@.len() - i && hay@.skip(i as int).take(pat@.len() as int) == pat@),
{
    let n = hay.len();
    let m = pat.len();
    if m > n - i {
        return false;
    }
    let mut j: usize = 0;
    while j < m
        invariant
            j <= m,
            m == pat@.len(),
            n == hay@.len(),
            i + m <= n,
            forall|k: int| 0 <= k < j ==> hay@[i + k] == pat@[k],
        decreases m - j,
    {
        if hay[i + j] != pat[j] {
            proof {
                assert(hay@.skip(i as int).take(pat@.len() as int)[j as int] == hay@[i + j]);
            }
            return false;
        }
        j = j + 1;
    }
    proof {
        assert(hay@.skip(i as int).take(pat@.len() as int) =~= pat@);
    }
    true
}

fn replace_from(hay: &Vec<u8>, i: usize, pat: &Vec<u8>, sub: &Vec<u8>) -> (r: Vec<u8>)
    requires
        pat@.len() > 0,
        i <= hay@.len(),
    ensures
        r@ == spec_replace(hay@.skip(i as int), pat@, sub@),
    decreases hay@.len() - i,
{
    if i == hay.len() {
        proof {
            assert(hay@.skip(i as int) =~= Seq::<u8>::empty());
        }
        Vec::new()
    } else if matches_at(hay, i, pat) {
        let mut r = clone_bytes(sub);
        let mut rest = replace_from(hay, i + pat.len(), pat, sub);
        r.append(&mut rest);
        proof {
            assert(hay@.skip(i as int).skip(pat@.len() as int) =~= hay@.skip(
                i as int + pat@.len(),
            ));
        }
        r
    } else {
        let mut r: Vec<u8> = Vec::new();
        r.push(hay[i]);
        let mut rest = replace_from(hay, i + 1, pat, sub);
        r.append(&mut rest);
        proof {
            assert(hay@.skip(i as int).take(1) =~= seq![hay@[i as int]]);
            assert(hay@.skip(i as int).skip(1) =~= hay@.skip(i as int + 1));
            assert(r@ =~= hay@.skip(i as int).take(1) + spec_replace(
                hay@.skip(i as int).skip(1),
                pat@,
                sub@,
            ));
        }
        r
    }
}

/// Replaces every occurrence of `pat` in `hay` by `sub`, leftmost
/// first, without overlap.
pub fn replace_bytes(hay: &Vec<u8>, pat: &Vec<u8>, sub: &Vec<u8>) -> (r: Vec<u8>)
    requires
        pat@.len() > 0,
    ensures
        r@ == spec_replace(hay@, pat@, sub@),
{
    let r = replace_from(hay, 0, pat, sub);
    proof {
        assert(hay@.skip(0) =~= hay@);
    }
    r
}

/// The captcha host the challenge URL points at.
pub open spec fn spec_captcha_host() -> Seq<u8> {
    seq![
        115, 115, 108, 46, 99, 97, 112, 116, 99, 104, 97, 46, 113, 113, 46, 99, 111, 109u8,
    ]
}

/// The relay host that serves solved tickets in its place.
pub open spec fn spec_helper_host() -> Seq<u8> {
    seq![
        116, 120, 104, 101, 108, 112, 101, 114, 46, 103, 108, 105, 116, 99, 104, 46, 109, 101u8,
    ]
}

fn captcha_host() -> (r: Vec<u8>)
    ensures
        r@ == spec_captcha_host(),
{
    let mut v: Vec<u8> = Vec::new();
    v.push(115);
    v.push(115);
    v.push(108);
    v.push(46);
    v.push(99);
    v.push(97);
    v.push(112);
    v.push(116);
    v.push(99);
    v.push(104);
    v.push(97);
    v.push(46);
    v.push(113);
    v.push(113);
    v.push(46);
    v.push(99);
    v.push(111);
    v.push(109);
    proof {
        assert(v@ =~= spec_captcha_host());
    }
    v
}

fn helper_host() -> (r: Vec<u8>)
    ensures
        r@ == spec_helper_host(),
{
    let mut v: Vec<u8> = Vec::new();
    v.push(116);
    v.push(120);
    v.push(104);
    v.push(101);
    v.push(108);
    v.push(112);
    v.push(101);
    v.push(114);
    v.push(46);
    v.push(103);
    v.push(108);
    v.push(105);
    v.push(116);
    v.push(99);
    v.push(104);
    v.push(46);
    v.push(109);
    v.push(101);
    proof {
        assert(v@ =~= spec_helper_host());
    }
    v
}

/// The address the captcha relay is polled at: the challenge's verify
/// URL with the captcha host rewritten to the relay host.
pub fn captcha_request_url(verify_url: &Vec<u8>) -> (r: Vec<u8>)
    ensures
        r@ == spec_replace(verify_url@, spec_captcha_host(), spec_helper_host()),
{
    let pat = captcha_host();
    let sub = helper_host();
    replace_bytes(verify_url, &pat, &sub)
}

// ---------- laws ----------

proof fn lemma_run_unfold(m: RunModel, evs: Seq<FlowEvent>)
    requires
        evs.len() > 0,
        !spec_terminal(m.state),
    ensures
        spec_login_run(m, evs) == spec_login_run(spec_feed(m, evs[0]), evs.skip(1)),
{
}

proof fn lemma_run_now(m: RunModel, evs: Seq<FlowEvent>)
    requires
        evs.len() == 0 || spec_terminal(m.state),
    ensures
        spec_login_run(m, evs) == m,
{
}

/// Fast-path law: with a stored record that decodes to a token and a
/// token-login that succeeds, the login resumes, the QR path is never
/// entered, and the store is untouched.
pub proof fn lemma_token_fast_path(b: Seq<u8>)
    requires
        spec_decode_token(b) is Some,
    ensures
        ({
            let m = spec_login_run(
                spec_initial_model(Some(b)),
                seq![FlowEvent::TokenLoginDone { result: TokenLoginResult::Accepted }],
            );
            &&& m.state == (FlowState::Finished { kind: LoginKind::Resumed })
            &&& m.contents == Some(b)
            &&& m.qr_fetches == 0
            &&& !m.removed
            &&& m.saved is None
        }),
{
    let m0 = spec_initial_model(Some(b));
    let e = FlowEvent::TokenLoginDone { result: TokenLoginResult::Accepted };
    lemma_run_unfold(m0, seq![e]);
    assert(seq![e].skip(1) =~= Seq::<FlowEvent>::empty());
    lemma_run_now(spec_feed(m0, e), seq![e].skip(1));
}

/// Rejection law: with a stored record that decodes to a token and the
/// explicit token-login rejection, the stored record is deleted and the
/// flow proceeds to interactive login.
pub proof fn lemma_token_rejection_clears_store(b: Seq<u8>)
    requires
        spec_decode_token(b) is Some,
    ensures
        ({
            let m = spec_login_run(
                spec_initial_model(Some(b)),
                seq![FlowEvent::TokenLoginDone { result: TokenLoginResult::Rejected }],
            );
            &&& m.state == (FlowState::QrFetching { last_signature: None })
            &&& m.contents is None
            &&& m.removed
            &&& m.qr_fetches == 1
        }),
{
    let m0 = spec_initial_model(Some(b));
    let e = FlowEvent::TokenLoginDone { result: TokenLoginResult::Rejected };
    lemma_run_unfold(m0, seq![e]);
    assert(seq![e].skip(1) =~= Seq::<FlowEvent>::empty());
    lemma_run_now(spec_feed(m0, e), seq![e].skip(1));
}

/// Transient-failure law: a token-login failure other than the
/// explicit rejection leaves the stored record in place while the flow
/// proceeds to interactive login.
pub proof fn lemma_transient_failure_keeps_store(b: Seq<u8>)
    requires
        spec_decode_token(b) is Some,
    ensures
        ({
            let m = spec_login_run(
                spec_initial_model(Some(b)),
                seq![FlowEvent::TokenLoginDone { result: TokenLoginResult::Transient }],
            );
            &&& m.state == (FlowState::QrFetching { last_signature: None })
            &&& m.contents == Some(b)
            &&& !m.removed
        }),
{
    let m0 = spec_initial_model(Some(b));
    let e = FlowEvent::TokenLoginDone { result: TokenLoginResult::Transient };
    lemma_run_unfold(m0, seq![e]);
    assert(seq![e].skip(1) =~= Seq::<FlowEvent>::empty());
    lemma_run_now(spec_feed(m0, e), seq![e].skip(1));
}

/// Removal law: the machine asks for the stored record's removal only
/// as the answer to the explicit token-login rejection.
pub proof fn lemma_removal_only_on_rejection(s: FlowState, e: FlowEvent)
    ensures
        spec_login_step(s, e).1 is RemoveSession ==> {
            &&& s is TokenLoginPending
            &&& e == (FlowEvent::TokenLoginDone { result: TokenLoginResult::Rejected })
        },
{
}

/// Persistence law: along the interactive QR flow, nothing is persisted
/// before the remote reports success, and after success the freshly
/// generated record is persisted exactly once.
pub proof fn lemma_qr_flow_persists_once(
    image: Vec<u8>,
    signature: Vec<u8>,
    password: Vec<u8>,
    no_pic_signature: Vec<u8>,
    ticket: Vec<u8>,
    data: Vec<u8>,
)
    ensures
        ({
            let evs = seq![
                FlowEvent::QrFetched { qr: Some(QrState::ImageFetch { image, signature }) },
                FlowEvent::QrShown { ok: true },
                FlowEvent::QrPolled { qr: Some(QrState::WaitingForScan) },
                FlowEvent::QrPolled { qr: Some(QrState::WaitingForConfirm) },
                FlowEvent::QrPolled {
                    qr: Some(QrState::Confirmed { password, no_pic_signature, ticket }),
                },
                FlowEvent::LoginResponded { outcome: Some(LoginOutcome::Success) },
                FlowEvent::TokenGenerated { data: Some(data) },
            ];
            let before = spec_login_run(spec_initial_model(None), evs.take(6));
            let m = spec_login_run(spec_initial_model(None), evs);
            &&& before.saved is None
            &&& m.saved == Some(data@)
            &&& m.contents == Some(data@)
            &&& m.state == (FlowState::Finished { kind: LoginKind::Fresh })
        }),
{
    let evs = seq![
        FlowEvent::QrFetched { qr: Some(QrState::ImageFetch { image, signature }) },
        FlowEvent::QrShown { ok: true },
        FlowEvent::QrPolled { qr: Some(QrState::WaitingForScan) },
        FlowEvent::QrPolled { qr: Some(QrState::WaitingForConfirm) },
        FlowEvent::QrPolled { qr: Some(QrState::Confirmed { password, no_pic_signature, ticket }) },
        FlowEvent::LoginResponded { outcome: Some(LoginOutcome::Success) },
        FlowEvent::TokenGenerated { data: Some(data) },
    ];
    let t = evs.take(6);
    let m0 = spec_initial_model(None);
    assert(t[0] == evs[0] && t[1] == evs[1] && t[2] == evs[2] && t[3] == evs[3] && t[4] == evs[4]
        && t[5] == evs[5]);
    let m1 = spec_feed(m0, evs[0]);
    let m2 = spec_feed(m1, evs[1]);
    let m3 = spec_feed(m2, evs[2]);
    let m4 = spec_feed(m3, evs[3]);
    let m5 = spec_feed(m4, evs[4]);
    let m6 = spec_feed(m5, evs[5]);
    let m7 = spec_feed(m6, evs[6]);
    lemma_run_unfold(m0, t);
    assert(t.skip(1)[0] == evs[1] && t.skip(1).len() == 5);
    lemma_run_unfold(m1, t.skip(1));
    assert(t.skip(1).skip(1) =~= t.skip(2));
    assert(t.skip(2)[0] == evs[2] && t.skip(2).len() == 4);
    lemma_run_unfold(m2, t.skip(2));
    assert(t.skip(2).skip(1) =~= t.skip(3));
    assert(t.skip(3)[0] == evs[3] && t.skip(3).len() == 3);
    lemma_run_unfold(m3, t.skip(3));
    assert(t.skip(3).skip(1) =~= t.skip(4));
    assert(t.skip(4)[0] == evs[4] && t.skip(4).len() == 2);
    lemma_run_unfold(m4, t.skip(4));
    assert(t.skip(4).skip(1) =~= t.skip(5));
    assert(t.skip(5)[0] == evs[5] && t.skip(5).len() == 1);
    lemma_run_unfold(m5, t.skip(5));
    assert(t.skip(5).skip(1) =~= Seq::<FlowEvent>::empty());
    lemma_run_now(m6, t.skip(5).skip(1));
    assert(spec_login_run(m0, t) == m6);
    lemma_run_split(m0, evs, 6);
    assert(evs.take(6) == t);
    assert(evs.skip(6) =~= seq![evs[6]]);
    lemma_run_unfold(m6, seq![evs[6]]);
    assert(seq![evs[6]].skip(1) =~= Seq::<FlowEvent>::empty());
    lemma_run_now(m7, seq![evs[6]].skip(1));
    assert(spec_login_run(m0, evs) == m7);
}

/// Captcha law: after a captcha challenge, relay polls whose body
/// equals the first answer submit nothing, and the first changed body
/// is submitted as the one ticket.
pub proof fn lemma_captcha_single_submission(url: Vec<u8>, a1: Vec<u8>, a2: Vec<u8>, b: Vec<u8>)
    requires
        a2@ == a1@,
        b@ != a1@,
    ensures
        ({
            let m0 = RunModel {
                state: FlowState::QrLoginPending,
                contents: None,
                saved: None,
                removed: false,
                qr_fetches: 0,
                submitted: seq![],
            };
            let evs = seq![
                FlowEvent::LoginResponded {
                    outcome: Some(LoginOutcome::NeedCaptcha { verify_url: Some(url) }),
                },
                FlowEvent::CaptchaFetched { body: Some(a1) },
                FlowEvent::CaptchaFetched { body: Some(a2) },
                FlowEvent::CaptchaFetched { body: Some(b) },
            ];
            let m = spec_login_run(m0, evs);
            &&& m.submitted == seq![b@]
            &&& m.state is TicketPending
        }),
{
    let m0 = RunModel {
        state: FlowState::QrLoginPending,
        contents: None,
        saved: None,
        removed: false,
        qr_fetches: 0,
        submitted: seq![],
    };
    let evs = seq![
        FlowEvent::LoginResponded {
            outcome: Some(LoginOutcome::NeedCaptcha { verify_url: Some(url) }),
        },
        FlowEvent::CaptchaFetched { body: Some(a1) },
        FlowEvent::CaptchaFetched { body: Some(a2) },
        FlowEvent::CaptchaFetched { body: Some(b) },
    ];
    let m1 = spec_feed(m0, evs[0]);
    let m2 = spec_feed(m1, evs[1]);
    let m3 = spec_feed(m2, evs[2]);
    let m4 = spec_feed(m3, evs[3]);
    lemma_run_unfold(m0, evs);
    assert(evs.skip(1)[0] == evs[1] && evs.skip(1).len() == 3);
    lemma_run_unfold(m1, evs.skip(1));
    assert(evs.skip(1).skip(1) =~= evs.skip(2));
    assert(evs.skip(2)[0] == evs[2] && evs.skip(2).len() == 2);
    lemma_run_unfold(m2, evs.skip(2));
    assert(evs.skip(2).skip(1) =~= evs.skip(3));
    assert(evs.skip(3)[0] == evs[3] && evs.skip(3).len() == 1);
    lemma_run_unfold(m3, evs.skip(3));
    assert(evs.skip(3).skip(1) =~= Seq::<FlowEvent>::empty());
    lemma_run_now(m4, evs.skip(3).skip(1));
    assert(m4.submitted =~= seq![b@]);
}

} // verus!
