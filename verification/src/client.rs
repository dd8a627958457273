//! The app's side of the helper: pinging it until it answers, and the
//! steps of a connection. Sending, sleeping and the other outside work is
//! done by the caller; these functions decide what comes next.
use vstd::prelude::*;
use crate::failure::Failure;
use crate::protocol::{
    Request, Response, ResponseView, debug_option, opt_debug, opt_json_view,
    reply_version, version_of,
};
use crate::text::{str_concat, owned};
use crate::commands::{ConnectionStatus, is_status, status};
use crate::platform::Os;
use crate::tun_config::{wrap_text, wrap_with_tun_text};

verus! {

/// Where a ping with retries stands.
#[derive(PartialEq, Eq, Structural, Clone, Copy, Debug)]
pub enum PingPhase {
    /// Waiting for the reply to a `Version` request.
    AwaitReply,
    /// Waiting for the pause after a failed attempt to end.
    Sleeping,
    /// Done.
    Finished,
}

/// A ping with retries: the attempt under way (from 0), how many may be
/// made, and the failure of the last attempt.
pub struct PingRetry {
    pub phase: PingPhase,
    pub attempt: u32,
    pub max_attempts: u32,
    pub last_err: Failure,
}

/// What came back.
pub enum PingEvent {
    /// The helper replied.
    Replied(Response),
    /// Sending or receiving failed.
    SendFailed(Failure),
    /// The pause is over.
    Slept,
}

/// What to do next.
pub enum PingAction {
    /// Send a `Version` request.
    SendVersion,
    /// Pause for this many milliseconds.
    Sleep(u64),
    /// Stop with the helper's version, or the last failure.
    Finish(Result<String, Failure>),
    /// Nothing: the event was not expected.
    Ignore,
}

/// The pause after attempt `i` (from 0), in milliseconds.
pub open spec fn retry_delay(i: nat) -> nat {
    200 + i * 100
}

/// The failure recorded for an error reply.
pub open spec fn error_reply_failure(r: ResponseView) -> Seq<Seq<char>> {
    seq!["helper returned error: "@ + opt_debug(r.error)]
}

/// Starts pinging the helper with at most `max_attempts` attempts.
pub fn ping_with_retry(max_attempts: u32) -> (r: (PingRetry, PingAction))
    ensures
        r.0.max_attempts == max_attempts,
        r.0.attempt == 0,
        max_attempts == 0 ==> r.0.phase == PingPhase::Finished && (r.1 matches PingAction::Finish(
            Err(f),
        ) && f@ == seq!["not attempted"@]),
        max_attempts > 0 ==> ping_state(r.0) == ping_start(max_attempts) && r.1 is SendVersion,
        max_attempts > 0 ==> r.0.phase == PingPhase::AwaitReply && r.1 is SendVersion,
{
    let st = PingRetry {
        phase: PingPhase::AwaitReply,
        attempt: 0,
        max_attempts,
        last_err: Failure::msg(owned("not attempted")),
    };
    if max_attempts == 0 {
        let f = Failure::msg(owned("not attempted"));
        (PingRetry { phase: PingPhase::Finished, ..st }, PingAction::Finish(Err(f)))
    } else {
        (st, PingAction::SendVersion)
    }
}

/// A ping state that can go on: the attempt under way is one of those allowed.
pub open spec fn ping_wf(st: PingRetry) -> bool {
    st.phase != PingPhase::Finished ==> st.attempt < st.max_attempts
}

/// The mathematical value of a ping state.
pub struct PingStateView {
    pub phase: PingPhase,
    pub attempt: nat,
    pub max_attempts: nat,
    pub last_err: Seq<Seq<char>>,
}

/// The mathematical value of what came back to a ping.
pub enum PingEventView {
    Replied(ResponseView),
    SendFailed(Seq<Seq<char>>),
    Slept,
}

/// The mathematical value of what a ping does next.
pub enum PingActionView {
    SendVersion,
    Sleep(nat),
    Finish(Result<Seq<char>, Seq<Seq<char>>>),
    Ignore,
}

pub open spec fn ping_state(st: PingRetry) -> PingStateView {
    PingStateView {
        phase: st.phase,
        attempt: st.attempt as nat,
        max_attempts: st.max_attempts as nat,
        last_err: st.last_err@,
    }
}

pub open spec fn ping_event(ev: PingEvent) -> PingEventView {
    match ev {
        PingEvent::Replied(r) => PingEventView::Replied(r@),
        PingEvent::SendFailed(f) => PingEventView::SendFailed(f@),
        PingEvent::Slept => PingEventView::Slept,
    }
}

pub open spec fn ping_action(a: PingAction) -> PingActionView {
    match a {
        PingAction::SendVersion => PingActionView::SendVersion,
        PingAction::Sleep(ms) => PingActionView::Sleep(ms as nat),
        PingAction::Finish(Ok(v)) => PingActionView::Finish(Ok(v@)),
        PingAction::Finish(Err(f)) => PingActionView::Finish(Err(f@)),
        PingAction::Ignore => PingActionView::Ignore,
    }
}

/// One step of a ping: a good reply ends it with the helper's version; an
/// error reply or a failed send is recorded and followed by a pause that
/// grows with the attempt; after the pause comes the next attempt, or, when
/// none is left, the end with the last failure.
pub open spec fn ping_next(s: PingStateView, e: PingEventView) -> (PingStateView, PingActionView) {
    match (s.phase, e) {
        (PingPhase::AwaitReply, PingEventView::Replied(r)) => if r.ok {
            (PingStateView { phase: PingPhase::Finished, ..s }, PingActionView::Finish(Ok(version_of(r.data))))
        } else {
            (
                PingStateView { phase: PingPhase::Sleeping, last_err: error_reply_failure(r), ..s },
                PingActionView::Sleep(retry_delay(s.attempt)),
            )
        },
        (PingPhase::AwaitReply, PingEventView::SendFailed(f)) => (
            PingStateView { phase: PingPhase::Sleeping, last_err: f, ..s },
            PingActionView::Sleep(retry_delay(s.attempt)),
        ),
        (PingPhase::Sleeping, PingEventView::Slept) => if s.attempt + 1 < s.max_attempts {
            (PingStateView { phase: PingPhase::AwaitReply, attempt: s.attempt + 1, ..s }, PingActionView::SendVersion)
        } else {
            (
                PingStateView { phase: PingPhase::Finished, last_err: seq!["not attempted"@], ..s },
                PingActionView::Finish(Err(s.last_err)),
            )
        },
        _ => (s, PingActionView::Ignore),
    }
}

/// What one attempt came to: the helper's reply, or a failure to send or
/// receive.
pub enum AttemptView {
    Reply(ResponseView),
    Failed(Seq<Seq<char>>),
}

pub open spec fn attempt_event(a: AttemptView) -> PingEventView {
    match a {
        AttemptView::Reply(r) => PingEventView::Replied(r),
        AttemptView::Failed(f) => PingEventView::SendFailed(f),
    }
}

/// A ping run from state `s`, awaiting the reply to attempt `s.attempt`,
/// where attempt `i` comes to `o[i]` and every pause ends: the action it
/// ends with and how many requests it sent.
pub open spec fn ping_run(s: PingStateView, o: Seq<AttemptView>) -> (PingActionView, nat)
    decreases o.len() - s.attempt,
{
    if s.attempt >= o.len() || s.phase != PingPhase::AwaitReply {
        (PingActionView::Ignore, 0)
    } else {
        let (s1, a1) = ping_next(s, attempt_event(o[s.attempt as int]));
        if a1 is Sleep {
            let (s2, a2) = ping_next(s1, PingEventView::Slept);
            if a2 is SendVersion && s2.attempt == s.attempt + 1 {
                let (a, k) = ping_run(s2, o);
                (a, k + 1)
            } else {
                (a2, 1)
            }
        } else {
            (a1, 1)
        }
    }
}

/// How a ping whose attempt `i` comes to `o[i]` ends, looking from attempt
/// `i` on: with the version of the first good reply, or, when none comes,
/// with the failure of the last attempt; and how many requests that takes.
pub open spec fn ping_outcome(o: Seq<AttemptView>, i: nat) -> (Result<Seq<char>, Seq<Seq<char>>>, nat)
    decreases o.len() - i,
{
    if i >= o.len() {
        (Err(seq!["not attempted"@]), i)
    } else {
        match o[i as int] {
            AttemptView::Reply(r) => if r.ok {
                (Ok(version_of(r.data)), i + 1)
            } else if i + 1 == o.len() {
                (Err(error_reply_failure(r)), i + 1)
            } else {
                ping_outcome(o, i + 1)
            },
            AttemptView::Failed(f) => if i + 1 == o.len() {
                (Err(f), i + 1)
            } else {
                ping_outcome(o, i + 1)
            },
        }
    }
}

proof fn lemma_ping_run_from(s: PingStateView, o: Seq<AttemptView>)
    requires
        s.phase == PingPhase::AwaitReply,
        s.attempt < o.len(),
        s.max_attempts == o.len(),
    ensures
        ping_outcome(o, s.attempt).1 > s.attempt,
        ping_run(s, o) == (PingActionView::Finish(ping_outcome(o, s.attempt).0), (ping_outcome(o, s.attempt).1
            - s.attempt) as nat),
    decreases o.len() - s.attempt,
{
    let i = s.attempt;
    let (s1, a1) = ping_next(s, attempt_event(o[i as int]));
    let good = o[i as int] matches AttemptView::Reply(r) && r.ok;
    if good {
        assert(ping_outcome(o, i).1 == i + 1);
        assert(ping_run(s, o) == (a1, 1nat));
    } else {
        assert(a1 is Sleep);
        assert(s1.phase == PingPhase::Sleeping && s1.attempt == i && s1.max_attempts == o.len());
        let (s2, a2) = ping_next(s1, PingEventView::Slept);
        if i + 1 < o.len() {
            assert(s2.attempt == i + 1 && s2.phase == PingPhase::AwaitReply && a2 is SendVersion);
            lemma_ping_run_from(s2, o);
            assert(ping_outcome(o, i) == ping_outcome(o, i + 1));
            assert(ping_run(s, o) == (ping_run(s2, o).0, ping_run(s2, o).1 + 1));
        } else {
            assert(a2 == PingActionView::Finish(Err(s1.last_err)));
            assert(ping_run(s, o) == (a2, 1nat));
        }
    }
}

/// A ping with `n` attempts, where attempt `i` comes to `o[i]` and every
/// pause ends, sends one request per attempt until the helper answers well:
/// it ends with the version of the first good reply after that many
/// requests, or, when no reply is good, with the failure of the last
/// attempt after all `n`.
pub proof fn law_ping_retries(n: u32, o: Seq<AttemptView>)
    requires
        n > 0,
        o.len() == n,
    ensures
        ping_run(ping_start(n), o) == (PingActionView::Finish(ping_outcome(o, 0).0), ping_outcome(o, 0).1),
{
    lemma_ping_run_from(ping_start(n), o);
}

/// The state a ping with `n` attempts starts in.
pub open spec fn ping_start(n: u32) -> PingStateView {
    PingStateView {
        phase: PingPhase::AwaitReply,
        attempt: 0,
        max_attempts: n as nat,
        last_err: seq!["not attempted"@],
    }
}

/// Takes the ping one step.
pub fn ping_step(st: PingRetry, ev: PingEvent) -> (r: (PingRetry, PingAction))
    requires
        ping_wf(st),
    ensures
        ping_wf(r.0),
        (ping_state(r.0), ping_action(r.1)) == ping_next(ping_state(st), ping_event(ev)),
        r.0.max_attempts == st.max_attempts,
        match (st.phase, ev) {
            (PingPhase::AwaitReply, PingEvent::Replied(resp)) => if resp.ok {
                r.0.phase == PingPhase::Finished && (r.1 matches PingAction::Finish(Ok(v)) && v@
                    == version_of(opt_json_view(resp.data)))
            } else {
                r.0.phase == PingPhase::Sleeping && r.0.attempt == st.attempt && r.0.last_err@
                    == error_reply_failure(resp@) && r.1 == PingAction::Sleep(
                    retry_delay(st.attempt as nat) as u64,
                )
            },
            (PingPhase::AwaitReply, PingEvent::SendFailed(f)) => r.0.phase == PingPhase::Sleeping
                && r.0.attempt == st.attempt && r.0.last_err == f && r.1 == PingAction::Sleep(
                retry_delay(st.attempt as nat) as u64,
            ),
            (PingPhase::Sleeping, PingEvent::Slept) => if st.attempt + 1 < st.max_attempts {
                r.0.phase == PingPhase::AwaitReply && r.0.attempt == st.attempt + 1
                    && r.1 is SendVersion
            } else {
                r.0.phase == PingPhase::Finished && r.1 == PingAction::Finish(Err(st.last_err))
            },
            _ => r.0 == st && r.1 is Ignore,
        },
{
    match (st.phase, ev) {
        (PingPhase::AwaitReply, PingEvent::Replied(resp)) => {
            if resp.ok {
                let v = reply_version(&resp.data);
                (PingRetry { phase: PingPhase::Finished, ..st }, PingAction::Finish(Ok(v)))
            } else {
                let d = debug_option(&resp.error);
                let f = Failure::msg(str_concat("helper returned error: ", d.as_str()));
                let delay: u64 = 200 + (st.attempt as u64) * 100;
                (
                    PingRetry { phase: PingPhase::Sleeping, last_err: f, ..st },
                    PingAction::Sleep(delay),
                )
            }
        },
        (PingPhase::AwaitReply, PingEvent::SendFailed(f)) => {
            let delay: u64 = 200 + (st.attempt as u64) * 100;
            (PingRetry { phase: PingPhase::Sleeping, last_err: f, ..st }, PingAction::Sleep(delay))
        },
        (PingPhase::Sleeping, PingEvent::Slept) => {
            if st.attempt + 1 < st.max_attempts {
                (
                    PingRetry { phase: PingPhase::AwaitReply, attempt: st.attempt + 1, ..st },
                    PingAction::SendVersion,
                )
            } else {
                let f = st.last_err;
                (
                    PingRetry {
                        phase: PingPhase::Finished,
                        attempt: st.attempt,
                        max_attempts: st.max_attempts,
                        last_err: Failure::msg(owned("not attempted")),
                    },
                    PingAction::Finish(Err(f)),
                )
            }
        },
        (phase, ev) => (st, PingAction::Ignore),
    }
}

/// Where a connection stands.
#[derive(PartialEq, Eq, Structural, Clone, Copy, Debug)]
pub enum ConnectStage {
    Installing,
    Pinging,
    Locating,
    PreparingWorkdir,
    Starting,
    WaitingForPort,
    StoppingAfterTimeout,
    DisablingIpv6,
    Finished,
}

/// A connection under way.
pub struct ConnectFlow {
    pub stage: ConnectStage,
    pub os: Os,
    /// The mihomo binary, once found.
    pub mihomo: Option<String>,
    /// The working directory, once made.
    pub workdir: Option<String>,
    /// The failure to report once the helper has been told to stop.
    pub pending: Option<Failure>,
    /// The user's configuration text.
    pub config: String,
}

/// What came back from the last action.
pub enum ConnectEvent {
    /// The action succeeded.
    Done,
    /// The action failed.
    Failed(Failure),
    /// Waiting for a blocking task failed; reported as it is.
    Aborted(Failure),
    /// The mihomo binary is at this path.
    Located(String),
    /// The working directory is at this path.
    WorkdirReady(String),
    /// The helper answered the `Start` request.
    Replied(Response),
}

/// What to do next.
pub enum ConnectAction {
    /// Install the helper.
    InstallHelper,
    /// Ping the helper with this many attempts.
    Ping(u32),
    /// Find the mihomo binary.
    LocateMihomo,
    /// Make the working directory.
    PrepareWorkdir,
    /// Send this request to the helper.
    Send(Request),
    /// Wait until the port accepts connections, for at most this many seconds.
    WaitForPort { port: u16, timeout_secs: u64 },
    /// Tell the helper to stop, ignoring the outcome.
    SendStop,
    /// Turn IPv6 off on all network services, ignoring the outcome.
    DisableIpv6,
    /// Stop with this result.
    Finish(Result<ConnectionStatus, Failure>),
    /// Nothing: the event was not expected.
    Ignore,
}

/// Starts a connection with the user's configuration text: the helper is
/// installed first when it is not.
pub fn connect_proxy(helper_installed: bool, os: Os, config_yaml: String) -> (r: (ConnectFlow, ConnectAction))
    ensures
        r.0.os == os,
        r.0.config == config_yaml,
        r.0.mihomo is None,
        r.0.workdir is None,
        r.0.pending is None,
        !helper_installed ==> r.0.stage == ConnectStage::Installing && r.1 is InstallHelper,
        helper_installed ==> r.0.stage == ConnectStage::Pinging && r.1 == ConnectAction::Ping(30),
{
    let flow = ConnectFlow {
        stage: ConnectStage::Installing,
        os,
        mihomo: None,
        workdir: None,
        pending: None,
        config: config_yaml,
    };
    if !helper_installed {
        (flow, ConnectAction::InstallHelper)
    } else {
        (ConnectFlow { stage: ConnectStage::Pinging, ..flow }, ConnectAction::Ping(30))
    }
}

/// The result of a finished connection.
pub open spec fn finished_ok(a: ConnectAction) -> bool {
    a matches ConnectAction::Finish(Ok(s)) && is_status(s, true, true)
}

pub open spec fn finished_err(a: ConnectAction, f: Seq<Seq<char>>) -> bool {
    a matches ConnectAction::Finish(Err(e)) && e@ == f
}

/// The helper's error message for a refused `Start`.
pub open spec fn start_refused(r: ResponseView) -> Seq<Seq<char>> {
    seq![
        "helper returned error: "@ + match r.error {
            Some(e) => e,
            None => Seq::empty(),
        },
    ]
}

/// Takes a connection one step.
pub fn connect_step(flow: ConnectFlow, ev: ConnectEvent) -> (r: (ConnectFlow, ConnectAction))
    ensures
        r.0.os == flow.os,
        r.0.config == flow.config,
        match (flow.stage, ev) {
            (ConnectStage::Finished, _) => r.0 == flow && r.1 is Ignore,
            (_, ConnectEvent::Aborted(f)) => r.0.stage == ConnectStage::Finished && finished_err(r.1, f@),
            (ConnectStage::Installing, ConnectEvent::Done) => r.0.stage == ConnectStage::Pinging
                && r.1 == ConnectAction::Ping(30),
            (ConnectStage::Installing, ConnectEvent::Failed(f)) => r.0.stage == ConnectStage::Finished
                && finished_err(r.1, seq!["installing TUN component"@] + f@),
            (ConnectStage::Pinging, ConnectEvent::Done) => r.0.stage == ConnectStage::Locating
                && r.1 is LocateMihomo,
            (ConnectStage::Pinging, ConnectEvent::Failed(f)) => r.0.stage == ConnectStage::Finished
                && finished_err(r.1, seq!["helper not responding"@] + f@),
            (ConnectStage::Locating, ConnectEvent::Located(p)) => r.0.stage
                == ConnectStage::PreparingWorkdir && r.0.mihomo == Some(p) && r.1 is PrepareWorkdir,
            (ConnectStage::PreparingWorkdir, ConnectEvent::WorkdirReady(d)) => match flow.mihomo {
                Some(m) => match wrap_text(flow.config@, flow.os) {
                    Ok(t) => r.0.stage == ConnectStage::Starting && (r.1 matches ConnectAction::Send(
                        Request::Start { mihomo, config, workdir },
                    ) && mihomo == m && config@ == t && workdir == d),
                    Err(e) => r.0.stage == ConnectStage::Finished && finished_err(r.1, e),
                },
                None => r.0 == flow && r.1 is Ignore,
            },
            (ConnectStage::Starting, ConnectEvent::Replied(resp)) => if resp.ok {
                r.0.stage == ConnectStage::WaitingForPort && r.1 == (ConnectAction::WaitForPort {
                    port: 7899,
                    timeout_secs: 12,
                })
            } else {
                r.0.stage == ConnectStage::Finished && finished_err(r.1, start_refused(resp@))
            },
            (ConnectStage::Starting, ConnectEvent::Failed(f)) => r.0.stage == ConnectStage::Finished
                && finished_err(r.1, seq!["send Start to helper"@] + f@),
            (ConnectStage::WaitingForPort, ConnectEvent::Done) => if flow.os == Os::MacOs {
                r.0.stage == ConnectStage::DisablingIpv6 && r.1 is DisableIpv6
            } else {
                r.0.stage == ConnectStage::Finished && finished_ok(r.1)
            },
            (ConnectStage::WaitingForPort, ConnectEvent::Failed(f)) => r.0.stage
                == ConnectStage::StoppingAfterTimeout && r.0.pending == Some(f) && r.1 is SendStop,
            (ConnectStage::StoppingAfterTimeout, ConnectEvent::Done) => r.0.stage
                == ConnectStage::Finished && match flow.pending {
                Some(f) => r.1 == ConnectAction::Finish(Err(f)),
                None => r.1 is Ignore,
            },
            (ConnectStage::StoppingAfterTimeout, ConnectEvent::Failed(_)) => r.0.stage
                == ConnectStage::Finished && match flow.pending {
                Some(f) => r.1 == ConnectAction::Finish(Err(f)),
                None => r.1 is Ignore,
            },
            (ConnectStage::DisablingIpv6, ConnectEvent::Done) => r.0.stage == ConnectStage::Finished
                && finished_ok(r.1),
            (ConnectStage::DisablingIpv6, ConnectEvent::Failed(_)) => r.0.stage
                == ConnectStage::Finished && finished_ok(r.1),
            (ConnectStage::Locating, ConnectEvent::Failed(f)) => r.0.stage == ConnectStage::Finished
                && finished_err(r.1, f@),
            (ConnectStage::PreparingWorkdir, ConnectEvent::Failed(f)) => r.0.stage
                == ConnectStage::Finished && finished_err(r.1, f@),
            _ => r.0 == flow && r.1 is Ignore,
        },
{
    let os = flow.os;
    match (flow.stage, ev) {
        (ConnectStage::Finished, ev) => (flow, ConnectAction::Ignore),
        (_, ConnectEvent::Aborted(f)) => (
            ConnectFlow { stage: ConnectStage::Finished, ..flow },
            ConnectAction::Finish(Err(f)),
        ),
        (ConnectStage::Installing, ConnectEvent::Done) => (
            ConnectFlow { stage: ConnectStage::Pinging, ..flow },
            ConnectAction::Ping(30),
        ),
        (ConnectStage::Installing, ConnectEvent::Failed(f)) => (
            ConnectFlow { stage: ConnectStage::Finished, ..flow },
            ConnectAction::Finish(Err(f.context(owned("installing TUN component")))),
        ),
        (ConnectStage::Pinging, ConnectEvent::Done) => (
            ConnectFlow { stage: ConnectStage::Locating, ..flow },
            ConnectAction::LocateMihomo,
        ),
        (ConnectStage::Pinging, ConnectEvent::Failed(f)) => (
            ConnectFlow { stage: ConnectStage::Finished, ..flow },
            ConnectAction::Finish(Err(f.context(owned("helper not responding")))),
        ),
        (ConnectStage::Locating, ConnectEvent::Located(p)) => (
            ConnectFlow { stage: ConnectStage::PreparingWorkdir, mihomo: Some(p), ..flow },
            ConnectAction::PrepareWorkdir,
        ),
        (ConnectStage::PreparingWorkdir, ConnectEvent::WorkdirReady(d)) => {
            let ConnectFlow { stage, os, mihomo, workdir, pending, config } = flow;
            match mihomo {
                None => (ConnectFlow { stage, os, mihomo: None, workdir, pending, config }, ConnectAction::Ignore),
                Some(m) => match wrap_with_tun_text(config.as_str(), os) {
                    Ok(text) => (
                        ConnectFlow {
                            stage: ConnectStage::Starting,
                            os,
                            mihomo: None,
                            workdir: None,
                            pending,
                            config,
                        },
                        ConnectAction::Send(Request::Start { mihomo: m, config: text, workdir: d }),
                    ),
                    Err(f) => (
                        ConnectFlow {
                            stage: ConnectStage::Finished,
                            os,
                            mihomo: Some(m),
                            workdir: Some(d),
                            pending,
                            config,
                        },
                        ConnectAction::Finish(Err(f)),
                    ),
                },
            }
        },
        (ConnectStage::Starting, ConnectEvent::Replied(resp)) => {
            if resp.ok {
                (
                    ConnectFlow { stage: ConnectStage::WaitingForPort, ..flow },
                    ConnectAction::WaitForPort {
                        port: crate::mihomo::default_mixed_port(),
                        timeout_secs: 12,
                    },
                )
            } else {
                let msg = match resp.error {
                    Some(e) => e,
                    None => String::new(),
                };
                let f = Failure::msg(str_concat("helper returned error: ", msg.as_str()));
                (ConnectFlow { stage: ConnectStage::Finished, ..flow }, ConnectAction::Finish(Err(f)))
            }
        },
        (ConnectStage::Starting, ConnectEvent::Failed(f)) => (
            ConnectFlow { stage: ConnectStage::Finished, ..flow },
            ConnectAction::Finish(Err(f.context(owned("send Start to helper")))),
        ),
        (ConnectStage::WaitingForPort, ConnectEvent::Done) => {
            if os == Os::MacOs {
                (ConnectFlow { stage: ConnectStage::DisablingIpv6, ..flow }, ConnectAction::DisableIpv6)
            } else {
                (
                    ConnectFlow { stage: ConnectStage::Finished, ..flow },
                    ConnectAction::Finish(Ok(status(true, true))),
                )
            }
        },
        (ConnectStage::WaitingForPort, ConnectEvent::Failed(f)) => (
            ConnectFlow { stage: ConnectStage::StoppingAfterTimeout, pending: Some(f), ..flow },
            ConnectAction::SendStop,
        ),
        (ConnectStage::StoppingAfterTimeout, ev) => {
            match ev {
                ConnectEvent::Done | ConnectEvent::Failed(_) => {
                    let next = ConnectFlow {
                        stage: ConnectStage::Finished,
                        os,
                        mihomo: flow.mihomo,
                        workdir: flow.workdir,
                        pending: None,
                        config: flow.config,
                    };
                    match flow.pending {
                        Some(f) => (next, ConnectAction::Finish(Err(f))),
                        None => (next, ConnectAction::Ignore),
                    }
                },
                _ => (flow, ConnectAction::Ignore),
            }
        },
        (ConnectStage::DisablingIpv6, ev) => {
            match ev {
                ConnectEvent::Done | ConnectEvent::Failed(_) => (
                    ConnectFlow { stage: ConnectStage::Finished, ..flow },
                    ConnectAction::Finish(Ok(status(true, true))),
                ),
                _ => (flow, ConnectAction::Ignore),
            }
        },
        (ConnectStage::Locating, ConnectEvent::Failed(f)) => (
            ConnectFlow { stage: ConnectStage::Finished, ..flow },
            ConnectAction::Finish(Err(f)),
        ),
        (ConnectStage::PreparingWorkdir, ConnectEvent::Failed(f)) => (
            ConnectFlow { stage: ConnectStage::Finished, ..flow },
            ConnectAction::Finish(Err(f)),
        ),
        (_, ev) => (flow, ConnectAction::Ignore),
    }
}

} // verus!
