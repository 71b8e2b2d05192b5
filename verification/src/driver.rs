//! The top-level session driver: connect, log in, run until the drive
//! task ends, then reconnect with backoff and resume by token only — a
//! failed resume after a drop is fatal and reports the original
//! disconnect cause.
//!
//! As with the login flow, the embedding process performs the dials,
//! waits and awaits, and hands each result back as a `SessionEvent`;
//! `session_step` decides the next phase and action.

use crate::login::FlowStatus;
use crate::login::LoginError;
use crate::supervisor::backoff_secs;
use crate::supervisor::spec_backoff_secs;
use vstd::prelude::*;

verus! {

/// Why the drive task ended.  A clean close is still a failure: the
/// transport is gone either way, and every disconnect is retried.
#[derive(Clone, Debug, PartialEq, Eq)]
pub enum DisconnectCause {
    /// The drive task returned normally: the transport closed.
    Clean,
    /// The drive task failed; the embedder's description of the error.
    TaskError { detail: Vec<u8> },
}

/// How a session run ends for good.
#[derive(Clone, Debug, PartialEq, Eq)]
pub enum SessionEnd {
    /// The very first connection attempt failed: fatal, a
    /// configuration or network problem to surface upstream.
    ConnectFailed,
    /// The first login failed.
    LoginFailed { err: LoginError },
    /// Device lock: the operator must verify out of band at this
    /// address and restart.
    HaltedForVerification { verify_url: Vec<u8> },
    /// A token resume after a disconnect failed: the original
    /// disconnect cause is reported, never a newer error.
    ResumeFailed { cause: DisconnectCause },
    /// The embedder answered with an event the phase cannot accept.
    OutOfProtocol,
}

/// Where the session driver stands.
#[derive(Clone, Debug, PartialEq, Eq)]
pub enum SessionPhase {
    /// The first connect (dial, spawn the drive task, settle) is in
    /// flight.
    Connecting,
    /// The full login flow is running.
    FirstLogin,
    /// Connected and logged in; awaiting the drive task's end.
    Running,
    /// Reconnect attempt `attempt` (1-based) is in flight after a
    /// disconnect with `cause`.
    Reconnecting { attempt: u64, cause: DisconnectCause },
    /// A token-only resume is in flight after a disconnect with
    /// `cause`.
    Resuming { cause: DisconnectCause },
    /// Over.
    Ended { end: SessionEnd },
}

/// What the embedder observed for the pending action.
#[derive(Clone, Debug, PartialEq, Eq)]
pub enum SessionEvent {
    /// Whether connecting worked.
    Connected { ok: bool },
    /// The login flow's result.
    LoginDone { status: FlowStatus },
    /// The drive task resolved.
    DriveEnded { cause: DisconnectCause },
    /// Whether the token-only resume succeeded.
    ResumeDone { ok: bool },
}

/// What the embedder must do next.
#[derive(Clone, Debug, PartialEq, Eq)]
pub enum SessionAction {
    /// Wait `delay_secs`, select an address, dial it, spawn the drive
    /// task, then yield and wait about a second for the handshake.
    Connect { delay_secs: u64 },
    /// Run the full login flow: token fast path, then interactive QR.
    RunLogin,
    /// Refresh the post-login caches, then await the drive task.
    AwaitDrive,
    /// Attempt token login only — never interactive QR mid-session.
    TryResume,
    /// Nothing: the session is over.
    Stop,
}

/// Where a session run begins: connecting at once.
pub open spec fn spec_session_start() -> (SessionPhase, SessionAction) {
    (SessionPhase::Connecting, SessionAction::Connect { delay_secs: 0 })
}

/// The executable starting phase and action.
pub fn session_start() -> (r: (SessionPhase, SessionAction))
    ensures
        r == spec_session_start(),
{
    (SessionPhase::Connecting, SessionAction::Connect { delay_secs: 0 })
}

/// The driver's transition function.  A failed first connect is fatal;
/// every disconnect is retried with backoff, unboundedly; a reconnect
/// is followed by a token-only resume whose failure ends the session
/// with the original disconnect cause.
pub open spec fn spec_session_step(s: SessionPhase, e: SessionEvent) -> (
    SessionPhase,
    SessionAction,
) {
    match s {
        SessionPhase::Connecting => match e {
            SessionEvent::Connected { ok: true } => (
                SessionPhase::FirstLogin,
                SessionAction::RunLogin,
            ),
            SessionEvent::Connected { ok: false } => (
                SessionPhase::Ended { end: SessionEnd::ConnectFailed },
                SessionAction::Stop,
            ),
            _ => (SessionPhase::Ended { end: SessionEnd::OutOfProtocol }, SessionAction::Stop),
        },
        SessionPhase::FirstLogin => match e {
            SessionEvent::LoginDone { status } => match status {
                FlowStatus::Done { kind: _ } => (SessionPhase::Running, SessionAction::AwaitDrive),
                FlowStatus::HaltedForVerification { verify_url } => (
                    SessionPhase::Ended { end: SessionEnd::HaltedForVerification { verify_url } },
                    SessionAction::Stop,
                ),
                FlowStatus::Failed { err } => (
                    SessionPhase::Ended { end: SessionEnd::LoginFailed { err } },
                    SessionAction::Stop,
                ),
                FlowStatus::Pending => (
                    SessionPhase::Ended { end: SessionEnd::OutOfProtocol },
                    SessionAction::Stop,
                ),
            },
            _ => (SessionPhase::Ended { end: SessionEnd::OutOfProtocol }, SessionAction::Stop),
        },
        SessionPhase::Running => match e {
            SessionEvent::DriveEnded { cause } => (
                SessionPhase::Reconnecting { attempt: 1, cause },
                SessionAction::Connect { delay_secs: spec_backoff_secs(1) },
            ),
            _ => (SessionPhase::Ended { end: SessionEnd::OutOfProtocol }, SessionAction::Stop),
        },
        SessionPhase::Reconnecting { attempt, cause } => match e {
            SessionEvent::Connected { ok: true } => (
                SessionPhase::Resuming { cause },
                SessionAction::TryResume,
            ),
            SessionEvent::Connected { ok: false } => {
                let next = if attempt == u64::MAX {
                    attempt
                } else {
                    (attempt + 1) as u64
                };
                (
                    SessionPhase::Reconnecting { attempt: next, cause },
                    SessionAction::Connect { delay_secs: spec_backoff_secs(next) },
                )
            },
            _ => (SessionPhase::Ended { end: SessionEnd::OutOfProtocol }, SessionAction::Stop),
        },
        SessionPhase::Resuming { cause } => match e {
            SessionEvent::ResumeDone { ok: true } => (
                SessionPhase::Running,
                SessionAction::AwaitDrive,
            ),
            SessionEvent::ResumeDone { ok: false } => (
                SessionPhase::Ended { end: SessionEnd::ResumeFailed { cause } },
                SessionAction::Stop,
            ),
            _ => (SessionPhase::Ended { end: SessionEnd::OutOfProtocol }, SessionAction::Stop),
        },
        SessionPhase::Ended { end } => (SessionPhase::Ended { end }, SessionAction::Stop),
    }
}

/// The executable transition function; it computes exactly
/// `spec_session_step`.
pub fn session_step(s: SessionPhase, e: SessionEvent) -> (r: (SessionPhase, SessionAction))
    ensures
        r == spec_session_step(s, e),
{
    match s {
        SessionPhase::Connecting => match e {
            SessionEvent::Connected { ok } => {
                if ok {
                    (SessionPhase::FirstLogin, SessionAction::RunLogin)
                } else {
                    (SessionPhase::Ended { end: SessionEnd::ConnectFailed }, SessionAction::Stop)
                }
            },
            _ => (SessionPhase::Ended { end: SessionEnd::OutOfProtocol }, SessionAction::Stop),
        },
        SessionPhase::FirstLogin => match e {
            SessionEvent::LoginDone { status } => match status {
                FlowStatus::Done { kind: _ } => (SessionPhase::Running, SessionAction::AwaitDrive),
                FlowStatus::HaltedForVerification { verify_url } => (
                    SessionPhase::Ended { end: SessionEnd::HaltedForVerification { verify_url } },
                    SessionAction::Stop,
                ),
                FlowStatus::Failed { err } => (
                    SessionPhase::Ended { end: SessionEnd::LoginFailed { err } },
                    SessionAction::Stop,
                ),
                FlowStatus::Pending => (
                    SessionPhase::Ended { end: SessionEnd::OutOfProtocol },
                    SessionAction::Stop,
                ),
            },
            _ => (SessionPhase::Ended { end: SessionEnd::OutOfProtocol }, SessionAction::Stop),
        },
        SessionPhase::Running => match e {
            SessionEvent::DriveEnded { cause } => (
                SessionPhase::Reconnecting { attempt: 1, cause },
                SessionAction::Connect { delay_secs: backoff_secs(1) },
            ),
            _ => (SessionPhase::Ended { end: SessionEnd::OutOfProtocol }, SessionAction::Stop),
        },
        SessionPhase::Reconnecting { attempt, cause } => match e {
            SessionEvent::Connected { ok } => {
                if ok {
                    (SessionPhase::Resuming { cause }, SessionAction::TryResume)
                } else {
                    let next = if attempt == u64::MAX {
                        attempt
                    } else {
                        attempt + 1
                    };
                    (
                        SessionPhase::Reconnecting { attempt: next, cause },
                        SessionAction::Connect { delay_secs: backoff_secs(next) },
                    )
                }
            },
            _ => (SessionPhase::Ended { end: SessionEnd::OutOfProtocol }, SessionAction::Stop),
        },
        SessionPhase::Resuming { cause } => match e {
            SessionEvent::ResumeDone { ok } => {
                if ok {
                    (SessionPhase::Running, SessionAction::AwaitDrive)
                } else {
                    (
                        SessionPhase::Ended { end: SessionEnd::ResumeFailed { cause } },
                        SessionAction::Stop,
                    )
                }
            },
            _ => (SessionPhase::Ended { end: SessionEnd::OutOfProtocol }, SessionAction::Stop),
        },
        SessionPhase::Ended { end } => (SessionPhase::Ended { end }, SessionAction::Stop),
    }
}

// ---------- the trajectory model ----------

/// What one session run has decided: the phase, and the delay of every
/// connect the machine asked for, in order.
pub struct SessionRunModel {
    pub phase: SessionPhase,
    pub connect_delays: Seq<u64>,
}

pub open spec fn spec_session_terminal(s: SessionPhase) -> bool {
    s is Ended
}

pub open spec fn spec_session_feed(m: SessionRunModel, e: SessionEvent) -> SessionRunModel {
    let stepped = spec_session_step(m.phase, e);
    SessionRunModel {
        phase: stepped.0,
        connect_delays: match stepped.1 {
            SessionAction::Connect { delay_secs } => m.connect_delays.push(delay_secs),
            _ => m.connect_delays,
        },
    }
}

pub open spec fn spec_session_run(m: SessionRunModel, evs: Seq<SessionEvent>) -> SessionRunModel
    decreases evs.len(),
{
    if evs.len() == 0 || spec_session_terminal(m.phase) {
        m
    } else {
        spec_session_run(spec_session_feed(m, evs[0]), evs.skip(1))
    }
}

/// Session runs compose, prefix then rest.
pub proof fn lemma_session_run_split(m: SessionRunModel, evs: Seq<SessionEvent>, i: int)
    requires
        0 <= i <= evs.len(),
    ensures
        spec_session_run(m, evs) == spec_session_run(
            spec_session_run(m, evs.take(i)),
            evs.skip(i),
        ),
    decreases i,
{
    if i == 0 {
        assert(evs.take(0) =~= Seq::<SessionEvent>::empty());
        assert(evs.skip(0) =~= evs);
    } else if spec_session_terminal(m.phase) {
        assert(spec_session_run(m, evs) == m);
        assert(spec_session_run(m, evs.take(i)) == m);
        assert(spec_session_run(m, evs.skip(i)) == m);
    } else {
        let m1 = spec_session_feed(m, evs[0]);
        let rest = evs.skip(1);
        assert(evs.take(i)[0] == evs[0]);
        assert(evs.take(i).skip(1) =~= rest.take(i - 1));
        assert(evs.skip(i) =~= rest.skip(i - 1));
        lemma_session_run_split(m1, rest, i - 1);
    }
}

/// What `run_session_with` reports: the final phase and the delay of
/// every connect the machine asked for (the initial connect, with no
/// delay, is not a machine-requested one and is not listed).
pub struct SessionReport {
    pub phase: SessionPhase,
    pub connect_delays: Vec<u64>,
}

fn session_over(s: &SessionPhase) -> (r: bool)
    ensures
        r == spec_session_terminal(*s),
{
    match s {
        SessionPhase::Ended { .. } => true,
        _ => false,
    }
}

/// Drives the session machine from its start against a list of
/// embedder replies; the result is exactly the trajectory model's.
pub fn run_session_with(replies: Vec<SessionEvent>) -> (r: SessionReport)
    ensures
        ({
            let m = spec_session_run(
                SessionRunModel { phase: SessionPhase::Connecting, connect_delays: seq![] },
                replies@,
            );
            &&& r.phase == m.phase
            &&& r.connect_delays@ == m.connect_delays
        }),
{
    let ghost m0 = SessionRunModel { phase: SessionPhase::Connecting, connect_delays: seq![] };
    let mut phase = SessionPhase::Connecting;
    let mut delays: Vec<u64> = Vec::new();
    let mut evs = replies;
    let ghost all = evs@;
    let ghost mut i: int = 0;
    proof {
        assert(all.take(0) =~= Seq::<SessionEvent>::empty());
    }
    let mut over = session_over(&phase);
    while evs.len() > 0 && !over
        invariant
            0 <= i <= all.len(),
            evs@ == all.skip(i),
            ({
                let mi = spec_session_run(m0, all.take(i));
                &&& phase == mi.phase
                &&& delays@ == mi.connect_delays
                &&& over == spec_session_terminal(mi.phase)
            }),
        decreases evs@.len(),
    {
        let ghost mi = spec_session_run(m0, all.take(i));
        let e = evs.remove(0);
        proof {
            assert(all.skip(i)[0] == all[i]);
            assert(e == all[i]);
            assert(evs@ =~= all.skip(i + 1));
        }
        let stepped = session_step(phase, e);
        phase = stepped.0;
        match stepped.1 {
            SessionAction::Connect { delay_secs } => {
                delays.push(delay_secs);
            },
            _ => {},
        }
        over = session_over(&phase);
        proof {
            i = i + 1;
            lemma_session_run_split(m0, all.take(i), i - 1);
            assert(all.take(i).take(i - 1) =~= all.take(i - 1));
            assert(all.take(i).skip(i - 1) =~= seq![all[i - 1]]);
            assert(seq![e].skip(1) =~= Seq::<SessionEvent>::empty());
            assert(spec_session_run(spec_session_feed(mi, e), Seq::<SessionEvent>::empty())
                == spec_session_feed(mi, e));
            assert(spec_session_run(mi, seq![e]) == spec_session_run(
                spec_session_feed(mi, e),
                seq![e].skip(1),
            ));
        }
    }
    proof {
        let mi = spec_session_run(m0, all.take(i));
        lemma_session_run_split(m0, all, i);
        if i == all.len() {
            assert(all.take(i) =~= all);
        }
        assert(spec_session_run(m0, all) == mi);
    }
    SessionReport { phase, connect_delays: delays }
}

// ---------- laws ----------

proof fn lemma_session_run_unfold(m: SessionRunModel, evs: Seq<SessionEvent>)
    requires
        evs.len() > 0,
        !spec_session_terminal(m.phase),
    ensures
        spec_session_run(m, evs) == spec_session_run(spec_session_feed(m, evs[0]), evs.skip(1)),
{
}

proof fn lemma_session_run_now(m: SessionRunModel, evs: Seq<SessionEvent>)
    requires
        evs.len() == 0 || spec_session_terminal(m.phase),
    ensures
        spec_session_run(m, evs) == m,
{
}

/// `k` failed reconnect attempts in a row.
pub open spec fn spec_failed_connects(k: nat) -> Seq<SessionEvent>
    decreases k,
{
    if k == 0 {
        seq![]
    } else {
        seq![SessionEvent::Connected { ok: false }] + spec_failed_connects((k - 1) as nat)
    }
}

/// Failed reconnect attempts keep the disconnect cause: however many
/// attempts fail, the driver is still reconnecting for the same cause.
pub proof fn lemma_reconnect_preserves_cause(
    m: SessionRunModel,
    attempt: u64,
    cause: DisconnectCause,
    k: nat,
)
    requires
        m.phase == (SessionPhase::Reconnecting { attempt, cause }),
    ensures
        ({
            let m2 = spec_session_run(m, spec_failed_connects(k));
            m2.phase matches SessionPhase::Reconnecting { attempt: _, cause: c } && c == cause
        }),
    decreases k,
{
    if k == 0 {
        lemma_session_run_now(m, spec_failed_connects(0));
    } else {
        let evs = spec_failed_connects(k);
        assert(evs == seq![SessionEvent::Connected { ok: false }] + spec_failed_connects(
            (k - 1) as nat,
        ));
        assert(evs[0] == SessionEvent::Connected { ok: false });
        assert(evs.len() == 1 + spec_failed_connects((k - 1) as nat).len());
        lemma_session_run_unfold(m, evs);
        let m1 = spec_session_feed(m, evs[0]);
        assert(m1.phase matches SessionPhase::Reconnecting { attempt: _, cause: c } && c == cause);
        assert(evs.skip(1) =~= spec_failed_connects((k - 1) as nat));
        let a2 = match m1.phase {
            SessionPhase::Reconnecting { attempt: a, cause: _ } => a,
            _ => 0,
        };
        lemma_reconnect_preserves_cause(m1, a2, cause, (k - 1) as nat);
    }
}

/// Resume-failure law: after a disconnect, any number of failed
/// reconnect attempts, a successful reconnect and a failed token
/// resume, the session ends reporting exactly the original disconnect
/// cause, never a newer error.
pub proof fn lemma_resume_failure_reports_original_cause(
    m: SessionRunModel,
    cause: DisconnectCause,
    k: nat,
)
    requires
        m.phase is Running,
    ensures
        ({
            let evs = seq![SessionEvent::DriveEnded { cause }] + spec_failed_connects(k) + seq![
                SessionEvent::Connected { ok: true },
                SessionEvent::ResumeDone { ok: false },
            ];
            spec_session_run(m, evs).phase == (SessionPhase::Ended {
                end: SessionEnd::ResumeFailed { cause },
            })
        }),
{
    let head = seq![SessionEvent::DriveEnded { cause }];
    let mid = spec_failed_connects(k);
    let tail = seq![
        SessionEvent::Connected { ok: true },
        SessionEvent::ResumeDone { ok: false },
    ];
    let evs = head + mid + tail;
    assert(evs[0] == SessionEvent::DriveEnded { cause });
    lemma_session_run_unfold(m, evs);
    let m1 = spec_session_feed(m, evs[0]);
    assert(m1.phase == (SessionPhase::Reconnecting { attempt: 1, cause }));
    assert(evs.skip(1) =~= mid + tail);
    lemma_session_run_split(m1, mid + tail, mid.len() as int);
    assert((mid + tail).take(mid.len() as int) =~= mid);
    assert((mid + tail).skip(mid.len() as int) =~= tail);
    lemma_reconnect_preserves_cause(m1, 1, cause, k);
    let m2 = spec_session_run(m1, mid);
    assert(tail[0] == SessionEvent::Connected { ok: true });
    lemma_session_run_unfold(m2, tail);
    let m3 = spec_session_feed(m2, tail[0]);
    assert(m3.phase == (SessionPhase::Resuming { cause }));
    assert(tail.skip(1) =~= seq![SessionEvent::ResumeDone { ok: false }]);
    lemma_session_run_unfold(m3, seq![SessionEvent::ResumeDone { ok: false }]);
    let m4 = spec_session_feed(m3, SessionEvent::ResumeDone { ok: false });
    assert(m4.phase == (SessionPhase::Ended { end: SessionEnd::ResumeFailed { cause } }));
    assert(seq![SessionEvent::ResumeDone { ok: false }].skip(1) =~= Seq::<SessionEvent>::empty());
    lemma_session_run_now(m4, seq![SessionEvent::ResumeDone { ok: false }].skip(1));
}

} // verus!
