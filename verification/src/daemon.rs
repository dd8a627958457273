//! The privileged helper: what it does for each line a client sends.
//! Reading, parsing, writing and process control are done by the caller;
//! `handle` decides, for the event that came back, what to do next.
use vstd::prelude::*;
use crate::json::{JsonValue, JsonView, jobject1, lemma_member_index};
use crate::protocol::{Request, Response, ResponseView, running_of, version_of};
use crate::text::{str_concat, dec, decimal, owned, trim, trim_seq};

verus! {

/// An outside command: a program and its arguments.
pub struct Command {
    pub program: String,
    pub args: Vec<String>,
}

/// The mathematical value of a `Command`.
pub struct CommandView {
    pub program: Seq<char>,
    pub args: Seq<Seq<char>>,
}

impl View for Command {
    type V = CommandView;

    open spec fn view(&self) -> CommandView {
        CommandView { program: self.program@, args: crate::text::views(self.args@) }
    }
}

/// What asking a child process whether it has exited (`try_wait`) gave.
#[derive(PartialEq, Eq, Structural, Clone, Copy, Debug)]
pub enum ChildExit {
    /// It still runs (`Ok(None)`).
    Running,
    /// It has exited, or the question failed.
    Exited,
}

/// What the helper keeps across connections.
pub struct Supervisor {
    /// The process id of the mihomo the helper started, while it owns one.
    pub child: Option<u32>,
    /// The helper's version, reported by `Version`.
    pub version: String,
}

/// The parameters of a `Start` request.
pub struct StartJob {
    pub mihomo: String,
    pub config: String,
    pub workdir: String,
}

/// Where a `Start` request stands.
#[derive(PartialEq, Eq, Structural, Clone, Copy, Debug)]
pub enum StartStage {
    StopOld,
    KillStrays,
    CreateDir,
    WriteConfig,
    OpenLog,
    CloneLog,
    Spawn,
}

/// Where a connection stands.
pub enum Phase {
    /// Waiting for the next line.
    Reading,
    /// Waiting for a line to be parsed into a request.
    Parsing,
    /// `Status`: waiting for the child's exit state.
    Probing,
    /// `Stop`: waiting for the child to be killed and reaped.
    Stopping,
    /// `Start`: waiting for the outcome of a step.
    Starting(StartJob, StartStage),
    /// Waiting for a response to be written.
    Replying,
    /// The connection is over.
    Closed,
}

/// What came back from the last action.
pub enum DaemonEvent {
    Line(String),
    ReadFailed,
    InputEnded,
    Parsed(Request),
    Unparsable(String),
    Probed(ChildExit),
    Done,
    Failed(String),
    Spawned(u32),
    Written,
    WriteFailed,
}

/// What the helper is to do next.
pub enum DaemonAction {
    /// Read the next line from the connection.
    ReadLine,
    /// End the connection.
    Close,
    /// Parse the line as a request.
    Parse(String),
    /// Ask the child whether it has exited.
    Probe,
    /// Kill the child with this process id and reap it.
    KillChild(u32),
    /// Run these commands, ignoring their outcome, then pause briefly.
    KillStrays(Vec<Command>),
    /// Create this directory and its parents.
    CreateDir(String),
    /// Write `contents` to the file at `path`.
    WriteFile { path: String, contents: String },
    /// Open this file for appending, creating it if needed.
    OpenLog(String),
    /// Duplicate the open log file for the child's error stream.
    CloneLog,
    /// Spawn the command with the log as its output and no input.
    Spawn(Command),
    /// Write the response as one line.
    Send(Response),
    /// Nothing: the event was not expected here.
    Ignore,
}

/// The mathematical value of a `DaemonAction`.
pub enum ActionView {
    ReadLine,
    Close,
    Parse(Seq<char>),
    Probe,
    KillChild(u32),
    KillStrays(Seq<CommandView>),
    CreateDir(Seq<char>),
    WriteFile(Seq<char>, Seq<char>),
    OpenLog(Seq<char>),
    CloneLog,
    Spawn(CommandView),
    Send(ResponseView),
    Ignore,
}

impl View for DaemonAction {
    type V = ActionView;

    open spec fn view(&self) -> ActionView {
        match self {
            DaemonAction::ReadLine => ActionView::ReadLine,
            DaemonAction::Close => ActionView::Close,
            DaemonAction::Parse(l) => ActionView::Parse(l@),
            DaemonAction::Probe => ActionView::Probe,
            DaemonAction::KillChild(p) => ActionView::KillChild(*p),
            DaemonAction::KillStrays(c) => ActionView::KillStrays(
                c@.map_values(|x: Command| x@),
            ),
            DaemonAction::CreateDir(d) => ActionView::CreateDir(d@),
            DaemonAction::WriteFile { path, contents } => ActionView::WriteFile(path@, contents@),
            DaemonAction::OpenLog(p) => ActionView::OpenLog(p@),
            DaemonAction::CloneLog => ActionView::CloneLog,
            DaemonAction::Spawn(c) => ActionView::Spawn(c@),
            DaemonAction::Send(r) => ActionView::Send(r@),
            DaemonAction::Ignore => ActionView::Ignore,
        }
    }
}

/// `base` joined with the relative file name `name`, as `Path::join` does
/// on Unix: a separator is put between them unless `base` is empty or
/// already ends with one.
pub open spec fn path_join(base: Seq<char>, name: Seq<char>) -> Seq<char> {
    if base.len() == 0 {
        name
    } else if base.last() == '/' {
        base + name
    } else {
        base + "/"@ + name
    }
}

/// `base` joined with the relative file name `name`.
pub fn join_path(base: &str, name: &str) -> (r: String)
    ensures
        r@ == path_join(base@, name@),
{
    let v = crate::text::chars_of(base);
    let n = v.len();
    if n == 0 {
        owned(name)
    } else if v[n - 1] == '/' {
        str_concat(base, name)
    } else {
        let with_sep = str_concat(base, "/");
        str_concat(with_sep.as_str(), name)
    }
}

/// The command lines run to remove mihomo processes left by earlier builds.
pub open spec fn stray_patterns() -> Seq<Seq<char>> {
    seq![
        "cryptdoor-app/src-tauri/target/.*/mihomo"@,
        "cursor-sandbox-cache/.*/mihomo"@,
        "cryptdoor-app/.*sidecar/mihomo"@,
    ]
}

pub open spec fn stray_commands() -> Seq<CommandView> {
    stray_patterns().map_values(
        |p: Seq<char>| CommandView { program: "/usr/bin/pkill"@, args: seq!["-9"@, "-f"@, p] },
    )
}

fn pkill(pattern: &str) -> (c: Command)
    ensures
        c@ == (CommandView {
            program: "/usr/bin/pkill"@,
            args: seq!["-9"@, "-f"@, pattern@],
        }),
{
    let mut args: Vec<String> = Vec::new();
    args.push(owned("-9"));
    args.push(owned("-f"));
    args.push(owned(pattern));
    assert(crate::text::views(args@) =~= seq!["-9"@, "-f"@, pattern@]);
    Command { program: owned("/usr/bin/pkill"), args }
}

/// The commands that kill mihomo processes left by earlier builds.
pub fn stray_kill_commands() -> (v: Vec<Command>)
    ensures
        v@.map_values(|x: Command| x@) == stray_commands(),
{
    let mut v: Vec<Command> = Vec::new();
    v.push(pkill("cryptdoor-app/src-tauri/target/.*/mihomo"));
    v.push(pkill("cursor-sandbox-cache/.*/mihomo"));
    v.push(pkill("cryptdoor-app/.*sidecar/mihomo"));
    assert(v@.map_values(|x: Command| x@) =~= stray_commands());
    v
}

/// The command that starts mihomo in `workdir` with the configuration `cfg`.
pub open spec fn mihomo_command(mihomo: Seq<char>, workdir: Seq<char>) -> CommandView {
    CommandView {
        program: mihomo,
        args: seq!["-d"@, workdir, "-f"@, path_join(workdir, "config.yaml"@)],
    }
}

fn spawn_command(job: &StartJob) -> (c: Command)
    ensures
        c@ == mihomo_command(job.mihomo@, job.workdir@),
{
    let mut args: Vec<String> = Vec::new();
    args.push(owned("-d"));
    args.push(job.workdir.clone());
    args.push(owned("-f"));
    args.push(join_path(job.workdir.as_str(), "config.yaml"));
    assert(crate::text::views(args@) =~= mihomo_command(job.mihomo@, job.workdir@).args);
    Command { program: job.mihomo.clone(), args }
}

/// The message a failed `Start` step replies with.
pub open spec fn start_failure(stage: StartStage, cause: Seq<char>) -> Seq<char> {
    let head = match stage {
        StartStage::CreateDir => "create workdir failed: "@,
        StartStage::WriteConfig => "write config failed: "@,
        StartStage::OpenLog => "open log failed: "@,
        StartStage::CloneLog => "clone log failed: "@,
        _ => "spawn mihomo failed: "@,
    };
    head + cause
}

pub open spec fn ok_with(key: Seq<char>, value: JsonView) -> ResponseView {
    ResponseView { ok: true, error: None, data: Some(JsonView::Object(seq![(key, value)])) }
}

pub open spec fn ok_empty_view() -> ResponseView {
    ResponseView { ok: true, error: None, data: None }
}

pub open spec fn err_view(msg: Seq<char>) -> ResponseView {
    ResponseView { ok: false, error: Some(msg), data: None }
}

/// One step of the helper: from where a connection stands, the mihomo
/// child it owns, its version and the event that came back, to where the
/// connection stands next, the child it owns then and the next action.
pub open spec fn daemon_step(phase: Phase, child: Option<u32>, version: Seq<char>, ev: DaemonEvent) -> (
    Phase,
    Option<u32>,
    ActionView,
) {
    match (phase, ev) {
        (Phase::Reading, DaemonEvent::Line(l)) => if trim_seq(l@).len() == 0 {
            (Phase::Reading, child, ActionView::ReadLine)
        } else {
            (Phase::Parsing, child, ActionView::Parse(l@))
        },
        (Phase::Reading, DaemonEvent::ReadFailed) => (Phase::Closed, child, ActionView::Close),
        (Phase::Reading, DaemonEvent::InputEnded) => (Phase::Closed, child, ActionView::Close),
        (Phase::Parsing, DaemonEvent::Unparsable(m)) => (
            Phase::Replying,
            child,
            ActionView::Send(err_view("invalid request: "@ + m@)),
        ),
        (Phase::Parsing, DaemonEvent::Parsed(req)) => match req {
            Request::Version => (
                Phase::Replying,
                child,
                ActionView::Send(ok_with("version"@, JsonView::Str(version))),
            ),
            Request::Status => match child {
                Some(_) => (Phase::Probing, child, ActionView::Probe),
                None => (
                    Phase::Replying,
                    None,
                    ActionView::Send(ok_with("running"@, JsonView::Bool(false))),
                ),
            },
            Request::Stop => match child {
                Some(pid) => (Phase::Stopping, None, ActionView::KillChild(pid)),
                None => (Phase::Replying, None, ActionView::Send(ok_empty_view())),
            },
            Request::Start { mihomo, config, workdir } => {
                let job = StartJob { mihomo, config, workdir };
                match child {
                    Some(pid) => (
                        Phase::Starting(job, StartStage::StopOld),
                        None,
                        ActionView::KillChild(pid),
                    ),
                    None => (
                        Phase::Starting(job, StartStage::KillStrays),
                        None,
                        ActionView::KillStrays(stray_commands()),
                    ),
                }
            },
        },
        (Phase::Probing, DaemonEvent::Probed(ChildExit::Running)) => (
            Phase::Replying,
            child,
            ActionView::Send(ok_with("running"@, JsonView::Bool(true))),
        ),
        (Phase::Probing, DaemonEvent::Probed(ChildExit::Exited)) => (
            Phase::Replying,
            None,
            ActionView::Send(ok_with("running"@, JsonView::Bool(false))),
        ),
        (Phase::Stopping, DaemonEvent::Done) => (
            Phase::Replying,
            child,
            ActionView::Send(ok_empty_view()),
        ),
        (Phase::Stopping, DaemonEvent::Failed(_)) => (
            Phase::Replying,
            child,
            ActionView::Send(ok_empty_view()),
        ),
        (Phase::Starting(job, stage), DaemonEvent::Done) => match stage {
            StartStage::StopOld => (
                Phase::Starting(job, StartStage::KillStrays),
                child,
                ActionView::KillStrays(stray_commands()),
            ),
            StartStage::KillStrays => (
                Phase::Starting(job, StartStage::CreateDir),
                child,
                ActionView::CreateDir(job.workdir@),
            ),
            StartStage::CreateDir => (
                Phase::Starting(job, StartStage::WriteConfig),
                child,
                ActionView::WriteFile(path_join(job.workdir@, "config.yaml"@), job.config@),
            ),
            StartStage::WriteConfig => (
                Phase::Starting(job, StartStage::OpenLog),
                child,
                ActionView::OpenLog(path_join(job.workdir@, "mihomo.log"@)),
            ),
            StartStage::OpenLog => (
                Phase::Starting(job, StartStage::CloneLog),
                child,
                ActionView::CloneLog,
            ),
            StartStage::CloneLog => (
                Phase::Starting(job, StartStage::Spawn),
                child,
                ActionView::Spawn(mihomo_command(job.mihomo@, job.workdir@)),
            ),
            StartStage::Spawn => (Phase::Starting(job, stage), child, ActionView::Ignore),
        },
        (Phase::Starting(job, stage), DaemonEvent::Failed(m)) => match stage {
            StartStage::StopOld => (
                Phase::Starting(job, StartStage::KillStrays),
                child,
                ActionView::KillStrays(stray_commands()),
            ),
            StartStage::KillStrays => (
                Phase::Starting(job, StartStage::CreateDir),
                child,
                ActionView::CreateDir(job.workdir@),
            ),
            _ => (Phase::Replying, child, ActionView::Send(err_view(start_failure(stage, m@)))),
        },
        (Phase::Starting(job, stage), DaemonEvent::Spawned(pid)) => if stage == StartStage::Spawn {
            (Phase::Replying, Some(pid), ActionView::Send(ok_with("pid"@, JsonView::Null)))
        } else {
            (Phase::Starting(job, stage), child, ActionView::Ignore)
        },
        (Phase::Replying, DaemonEvent::Written) => (Phase::Reading, child, ActionView::ReadLine),
        (Phase::Replying, DaemonEvent::WriteFailed) => (Phase::Closed, child, ActionView::Close),
        (p, _) => (p, child, ActionView::Ignore),
    }
}

fn reply_with(key: &str, value: JsonValue) -> (a: DaemonAction)
    ensures
        a@ == ActionView::Send(ok_with(key@, value@)),
{
    DaemonAction::Send(Response::ok(jobject1(key, value)))
}

fn reply_err(head: &str, cause: &str) -> (a: DaemonAction)
    ensures
        a@ == ActionView::Send(err_view(head@ + cause@)),
{
    DaemonAction::Send(Response::err(str_concat(head, cause)))
}

/// Takes the helper one step: `phase` is where the connection stands and
/// `ev` what came back from the last action. Returns where the connection
/// stands next and what to do; `sup.child` follows the child the helper owns.
pub fn handle(phase: Phase, sup: &mut Supervisor, ev: DaemonEvent) -> (r: (Phase, DaemonAction))
    ensures
        (r.0, final(sup).child, r.1@) == daemon_step(phase, old(sup).child, old(sup).version@, ev),
        final(sup).version == old(sup).version,
{
    match (phase, ev) {
        (Phase::Reading, DaemonEvent::Line(l)) => {
            let t = trim(l.as_str());
            if t.as_str().is_empty() {
                (Phase::Reading, DaemonAction::ReadLine)
            } else {
                (Phase::Parsing, DaemonAction::Parse(l))
            }
        },
        (Phase::Reading, DaemonEvent::ReadFailed) => (Phase::Closed, DaemonAction::Close),
        (Phase::Reading, DaemonEvent::InputEnded) => (Phase::Closed, DaemonAction::Close),
        (Phase::Parsing, DaemonEvent::Unparsable(m)) => (
            Phase::Replying,
            reply_err("invalid request: ", m.as_str()),
        ),
        (Phase::Parsing, DaemonEvent::Parsed(req)) => match req {
            Request::Version => {
                let v = JsonValue::Str(sup.version.clone());
                (Phase::Replying, reply_with("version", v))
            },
            Request::Status => match sup.child {
                Some(_) => (Phase::Probing, DaemonAction::Probe),
                None => (Phase::Replying, reply_with("running", JsonValue::Bool(false))),
            },
            Request::Stop => match sup.child.take() {
                Some(pid) => (Phase::Stopping, DaemonAction::KillChild(pid)),
                None => (Phase::Replying, DaemonAction::Send(Response::ok_empty())),
            },
            Request::Start { mihomo, config, workdir } => {
                let job = StartJob { mihomo, config, workdir };
                match sup.child.take() {
                    Some(pid) => (
                        Phase::Starting(job, StartStage::StopOld),
                        DaemonAction::KillChild(pid),
                    ),
                    None => (
                        Phase::Starting(job, StartStage::KillStrays),
                        DaemonAction::KillStrays(stray_kill_commands()),
                    ),
                }
            },
        },
        (Phase::Probing, DaemonEvent::Probed(ChildExit::Running)) => (
            Phase::Replying,
            reply_with("running", JsonValue::Bool(true)),
        ),
        (Phase::Probing, DaemonEvent::Probed(ChildExit::Exited)) => {
            sup.child = None;
            (Phase::Replying, reply_with("running", JsonValue::Bool(false)))
        },
        (Phase::Stopping, DaemonEvent::Done) => (
            Phase::Replying,
            DaemonAction::Send(Response::ok_empty()),
        ),
        (Phase::Stopping, DaemonEvent::Failed(_)) => (
            Phase::Replying,
            DaemonAction::Send(Response::ok_empty()),
        ),
        (Phase::Starting(job, stage), DaemonEvent::Done) => match stage {
            StartStage::StopOld => (
                Phase::Starting(job, StartStage::KillStrays),
                DaemonAction::KillStrays(stray_kill_commands()),
            ),
            StartStage::KillStrays => {
                let dir = job.workdir.clone();
                (Phase::Starting(job, StartStage::CreateDir), DaemonAction::CreateDir(dir))
            },
            StartStage::CreateDir => {
                let path = join_path(job.workdir.as_str(), "config.yaml");
                let contents = job.config.clone();
                (
                    Phase::Starting(job, StartStage::WriteConfig),
                    DaemonAction::WriteFile { path, contents },
                )
            },
            StartStage::WriteConfig => {
                let path = join_path(job.workdir.as_str(), "mihomo.log");
                (Phase::Starting(job, StartStage::OpenLog), DaemonAction::OpenLog(path))
            },
            StartStage::OpenLog => (
                Phase::Starting(job, StartStage::CloneLog),
                DaemonAction::CloneLog,
            ),
            StartStage::CloneLog => {
                let c = spawn_command(&job);
                (Phase::Starting(job, StartStage::Spawn), DaemonAction::Spawn(c))
            },
            StartStage::Spawn => (Phase::Starting(job, stage), DaemonAction::Ignore),
        },
        (Phase::Starting(job, stage), DaemonEvent::Failed(m)) => match stage {
            StartStage::StopOld => (
                Phase::Starting(job, StartStage::KillStrays),
                DaemonAction::KillStrays(stray_kill_commands()),
            ),
            StartStage::KillStrays => {
                let dir = job.workdir.clone();
                (Phase::Starting(job, StartStage::CreateDir), DaemonAction::CreateDir(dir))
            },
            StartStage::CreateDir => (
                Phase::Replying,
                reply_err("create workdir failed: ", m.as_str()),
            ),
            StartStage::WriteConfig => (
                Phase::Replying,
                reply_err("write config failed: ", m.as_str()),
            ),
            StartStage::OpenLog => (Phase::Replying, reply_err("open log failed: ", m.as_str())),
            StartStage::CloneLog => (
                Phase::Replying,
                reply_err("clone log failed: ", m.as_str()),
            ),
            StartStage::Spawn => (
                Phase::Replying,
                reply_err("spawn mihomo failed: ", m.as_str()),
            ),
        },
        (Phase::Starting(job, stage), DaemonEvent::Spawned(pid)) => {
            if stage == StartStage::Spawn {
                sup.child = Some(pid);
                (Phase::Replying, reply_with("pid", JsonValue::Null))
            } else {
                (Phase::Starting(job, stage), DaemonAction::Ignore)
            }
        },
        (Phase::Replying, DaemonEvent::Written) => (Phase::Reading, DaemonAction::ReadLine),
        (Phase::Replying, DaemonEvent::WriteFailed) => (Phase::Closed, DaemonAction::Close),
        (p, _) => (p, DaemonAction::Ignore),
    }
}

/// std's clock reading, carried through opaquely.
#[verifier::external_type_specification]
#[verifier::external_body]
pub struct ExSystemTime(std::time::SystemTime);

/// Reads the system clock with std's `SystemTime::now`. The reading
/// depends on the time, so the contract claims nothing of it.
#[verifier::external_body]
fn system_now() -> (t: std::time::SystemTime) {
    std::time::SystemTime::now()
}

/// The time from the Unix epoch to `t`, by std's
/// `SystemTime::duration_since(UNIX_EPOCH)`; `None` when `t` is before the
/// epoch. Nothing is claimed of the duration: the reading is opaque.
#[verifier::external_body]
fn since_epoch(t: &std::time::SystemTime) -> (d: Option<std::time::Duration>) {
    t.duration_since(std::time::UNIX_EPOCH).ok()
}

/// The whole seconds of `d`, by std's `Duration::as_secs`. A duration is
/// opaque here, so nothing is claimed of the number.
#[verifier::external_body]
fn whole_secs(d: &std::time::Duration) -> (s: u64) {
    d.as_secs()
}

/// The log time stamp for a clock reading: its seconds, 0 when the clock
/// is before the epoch.
pub fn timestamp_text(secs: Option<u64>) -> (r: String)
    ensures
        r@ == dec(
            match secs {
                Some(s) => s as nat,
                None => 0nat,
            },
        ),
{
    match secs {
        Some(s) => decimal(s),
        None => decimal(0),
    }
}

/// The current log time stamp: seconds since the Unix epoch.
pub fn chrono_now() -> (r: String)
    ensures
        exists|n: nat| r@ == dec(n),
{
    let secs = match since_epoch(&system_now()) {
        Some(d) => Some(whole_secs(&d)),
        None => None,
    };
    let r = timestamp_text(secs);
    proof {
        let n: nat = match secs {
            Some(s) => s as nat,
            None => 0nat,
        };
        assert(r@ == dec(n));
    }
    r
}

/// One line of the helper's log.
pub fn log_line(stamp: &str, msg: &str) -> (r: String)
    ensures
        r@ == "["@ + stamp@ + "] "@ + msg@ + "\n"@,
{
    let a = str_concat("[", stamp);
    let b = str_concat(a.as_str(), "] ");
    let c = str_concat(b.as_str(), msg);
    str_concat(c.as_str(), "\n")
}

/// Releases the child the helper owns, if any, returning its process id
/// to be killed and reaped.
pub fn stop_inner(sup: &mut Supervisor) -> (pid: Option<u32>)
    ensures
        pid == old(sup).child,
        final(sup).child is None,
        final(sup).version == old(sup).version,
{
    sup.child.take()
}

/// Several steps of the helper: the events in order, from where a
/// connection stands and the child the helper owns, to where it stands
/// after them, the child it owns then, and the actions taken in order.
pub open spec fn daemon_run(phase: Phase, child: Option<u32>, version: Seq<char>, evs: Seq<DaemonEvent>) -> (
    Phase,
    Option<u32>,
    Seq<ActionView>,
)
    decreases evs.len(),
{
    if evs.len() == 0 {
        (phase, child, seq![])
    } else {
        let (p1, c1, a1) = daemon_step(phase, child, version, evs[0]);
        let (p2, c2, rest) = daemon_run(p1, c1, version, evs.drop_first());
        (p2, c2, seq![a1] + rest)
    }
}

proof fn lemma_run_cons(phase: Phase, child: Option<u32>, version: Seq<char>, e: DaemonEvent, rest: Seq<DaemonEvent>)
    ensures
        daemon_run(phase, child, version, seq![e] + rest) == ({
            let (p1, c1, a1) = daemon_step(phase, child, version, e);
            let (p2, c2, acts) = daemon_run(p1, c1, version, rest);
            (p2, c2, seq![a1] + acts)
        }),
{
    assert((seq![e] + rest).drop_first() =~= rest);
    assert((seq![e] + rest)[0] == e);
}

/// A response is followed by the next read only once it has been written,
/// and the next line is read only after a blank line or a written response:
/// each request line is answered by exactly one response.
pub proof fn law_one_reply_per_request(phase: Phase, child: Option<u32>, version: Seq<char>, ev: DaemonEvent)
    ensures
        daemon_step(phase, child, version, ev).2 is ReadLine ==> (phase is Reading || phase is Replying),
        daemon_step(phase, child, version, ev).2 is Send ==> daemon_step(phase, child, version, ev).0 is Replying,
        phase is Replying ==> daemon_step(phase, child, version, ev).2 is ReadLine
            || daemon_step(phase, child, version, ev).2 is Close
            || daemon_step(phase, child, version, ev).2 is Ignore,
{
}

/// A `Start` whose steps all succeed first kills the mihomo the helper
/// owned, if any, then leaves the helper owning the spawned mihomo and
/// answers `{"pid": null}`; the configuration is written to `config.yaml`
/// in the working directory and mihomo is started on it.
pub proof fn law_start_succeeds(
    mihomo: String,
    config: String,
    workdir: String,
    child: Option<u32>,
    version: Seq<char>,
    pid: u32,
)
    ensures
        ({
            let req = Request::Start { mihomo, config, workdir };
            let tail = seq![
                DaemonEvent::Done,
                DaemonEvent::Done,
                DaemonEvent::Done,
                DaemonEvent::Done,
                DaemonEvent::Done,
                DaemonEvent::Spawned(pid),
            ];
            let evs = if child is Some {
                seq![DaemonEvent::Parsed(req), DaemonEvent::Done] + tail
            } else {
                seq![DaemonEvent::Parsed(req)] + tail
            };
            let (p, c, acts) = daemon_run(Phase::Parsing, child, version, evs);
            &&& p is Replying
            &&& c == Some(pid)
            &&& acts.last() == ActionView::Send(ok_with("pid"@, JsonView::Null))
            &&& acts.contains(ActionView::WriteFile(path_join(workdir@, "config.yaml"@), config@))
            &&& acts.contains(ActionView::Spawn(mihomo_command(mihomo@, workdir@)))
            &&& (child matches Some(old) ==> acts[0] == ActionView::KillChild(old))
        }),
{
    let req = Request::Start { mihomo, config, workdir };
    let job = StartJob { mihomo, config, workdir };
    let e = DaemonEvent::Done;
    let s6 = seq![DaemonEvent::Spawned(pid)];
    let s5 = seq![e] + s6;
    let s4 = seq![e] + s5;
    let s3 = seq![e] + s4;
    let s2 = seq![e] + s3;
    let s1 = seq![e] + s2;
    let tail = seq![e, e, e, e, e, DaemonEvent::Spawned(pid)];
    assert(s1 =~= tail);
    lemma_run_cons(Phase::Starting(job, StartStage::Spawn), None, version, DaemonEvent::Spawned(pid), seq![]);
    assert(s6 =~= seq![DaemonEvent::Spawned(pid)] + seq![]);
    lemma_run_cons(Phase::Starting(job, StartStage::CloneLog), None, version, e, s6);
    lemma_run_cons(Phase::Starting(job, StartStage::OpenLog), None, version, e, s5);
    lemma_run_cons(Phase::Starting(job, StartStage::WriteConfig), None, version, e, s4);
    lemma_run_cons(Phase::Starting(job, StartStage::CreateDir), None, version, e, s3);
    lemma_run_cons(Phase::Starting(job, StartStage::KillStrays), None, version, e, s2);
    let (p, c, acts) = daemon_run(Phase::Starting(job, StartStage::KillStrays), None, version, tail);
    assert(acts[1] == ActionView::WriteFile(path_join(workdir@, "config.yaml"@), config@));
    assert(acts[4] == ActionView::Spawn(mihomo_command(mihomo@, workdir@)));
    if child is Some {
        lemma_run_cons(Phase::Starting(job, StartStage::StopOld), None, version, e, tail);
        let evs = seq![DaemonEvent::Parsed(req), DaemonEvent::Done] + tail;
        assert(evs =~= seq![DaemonEvent::Parsed(req)] + (seq![e] + tail));
        lemma_run_cons(Phase::Parsing, child, version, DaemonEvent::Parsed(req), seq![e] + tail);
        let (p2, c2, acts2) = daemon_run(Phase::Parsing, child, version, evs);
        assert(acts2[3] == acts[1]);
        assert(acts2[6] == acts[4]);
    } else {
        lemma_run_cons(Phase::Parsing, child, version, DaemonEvent::Parsed(req), tail);
        let evs = seq![DaemonEvent::Parsed(req)] + tail;
        let (p2, c2, acts2) = daemon_run(Phase::Parsing, child, version, evs);
        assert(acts2[2] == acts[1]);
        assert(acts2[5] == acts[4]);
    }
}

/// Once a `Stop` has been answered, a `Status` on the next line reports
/// that mihomo is not running.
pub proof fn law_stop_then_status(child: Option<u32>, version: Seq<char>, line: String)
    requires
        trim_seq(line@).len() != 0,
    ensures
        ({
            let tail = seq![
                DaemonEvent::Written,
                DaemonEvent::Line(line),
                DaemonEvent::Parsed(Request::Status),
            ];
            let evs = if child is Some {
                seq![DaemonEvent::Parsed(Request::Stop), DaemonEvent::Done] + tail
            } else {
                seq![DaemonEvent::Parsed(Request::Stop)] + tail
            };
            let (p, c, acts) = daemon_run(Phase::Parsing, child, version, evs);
            &&& c is None
            &&& acts.last() == ActionView::Send(ok_with("running"@, JsonView::Bool(false)))
        }),
{
    let t3 = seq![DaemonEvent::Parsed(Request::Status)];
    let t2 = seq![DaemonEvent::Line(line)] + t3;
    let tail = seq![DaemonEvent::Written] + t2;
    assert(tail =~= seq![DaemonEvent::Written, DaemonEvent::Line(line), DaemonEvent::Parsed(Request::Status)]);
    assert(t3 =~= seq![DaemonEvent::Parsed(Request::Status)] + seq![]);
    lemma_run_cons(Phase::Parsing, None, version, DaemonEvent::Parsed(Request::Status), seq![]);
    lemma_run_cons(Phase::Reading, None, version, DaemonEvent::Line(line), t3);
    lemma_run_cons(Phase::Replying, None, version, DaemonEvent::Written, t2);
    if child is Some {
        lemma_run_cons(Phase::Stopping, None, version, DaemonEvent::Done, tail);
        let evs = seq![DaemonEvent::Parsed(Request::Stop), DaemonEvent::Done] + tail;
        assert(evs =~= seq![DaemonEvent::Parsed(Request::Stop)] + (seq![DaemonEvent::Done] + tail));
        lemma_run_cons(Phase::Parsing, child, version, DaemonEvent::Parsed(Request::Stop), seq![DaemonEvent::Done] + tail);
    } else {
        lemma_run_cons(Phase::Parsing, child, version, DaemonEvent::Parsed(Request::Stop), tail);
    }
}

/// What the helper writes in its `Version` and `Status` replies is what
/// the app reads back from them: the version, and whether mihomo runs.
pub proof fn law_replies_read_back(version: Seq<char>, running: bool)
    ensures
        version_of(ok_with("version"@, JsonView::Str(version)).data) == version,
        running_of(ok_with("running"@, JsonView::Bool(running)).data) == running,
{
    lemma_member_index(seq![("version"@, JsonView::Str(version))], "version"@);
    lemma_member_index(seq![("running"@, JsonView::Bool(running))], "running"@);
}

/// A run of events in which no mihomo gets spawned.
pub open spec fn no_spawn(evs: Seq<DaemonEvent>) -> bool {
    forall|i: int| 0 <= i < evs.len() ==> !(#[trigger] evs[i] is Spawned)
}

/// The reply that says mihomo runs.
pub open spec fn running_reply() -> ActionView {
    ActionView::Send(ok_with("running"@, JsonView::Bool(true)))
}

proof fn lemma_quiet_step(phase: Phase, version: Seq<char>, ev: DaemonEvent)
    requires
        !(ev is Spawned),
        !(phase is Probing),
    ensures
        daemon_step(phase, None, version, ev).1 is None,
        !(daemon_step(phase, None, version, ev).0 is Probing),
        daemon_step(phase, None, version, ev).2 != running_reply(),
{
    reveal_strlit("version");
    reveal_strlit("running");
    assert("version"@[0] != "running"@[0]);
    let a = daemon_step(phase, None, version, ev).2;
    if a == running_reply() {
        let r = ok_with("running"@, JsonView::Bool(true));
        assert(r.data->0->Object_0[0] == ("running"@, JsonView::Bool(true)));
        match (phase, ev) {
            (Phase::Parsing, DaemonEvent::Parsed(Request::Version)) => {
                let w = ok_with("version"@, JsonView::Str(version));
                assert(w.data->0->Object_0[0].0 == "version"@);
                assert(false);
            },
            _ => {},
        }
    }
}

proof fn lemma_quiet_run(phase: Phase, version: Seq<char>, evs: Seq<DaemonEvent>)
    requires
        no_spawn(evs),
        !(phase is Probing),
    ensures
        daemon_run(phase, None, version, evs).1 is None,
        !daemon_run(phase, None, version, evs).2.contains(running_reply()),
    decreases evs.len(),
{
    if evs.len() > 0 {
        assert(!(evs[0] is Spawned));
        lemma_quiet_step(phase, version, evs[0]);
        let (p1, c1, a1) = daemon_step(phase, None, version, evs[0]);
        let rest = evs.drop_first();
        assert forall|i: int| 0 <= i < rest.len() implies !(#[trigger] rest[i] is Spawned) by {
            assert(rest[i] == evs[i + 1]);
        }
        lemma_quiet_run(p1, version, rest);
        let (p2, c2, acts) = daemon_run(p1, None, version, rest);
        let all = seq![a1] + acts;
        assert forall|i: int| 0 <= i < all.len() implies all[i] != running_reply() by {
            if i > 0 {
                assert(all[i] == acts[i - 1]);
                assert(acts.contains(acts[i - 1]));
            }
        }
    }
}

/// Once a `Status` has been answered "not running", every later reply on
/// the connection says so too, and the helper owns no mihomo, until a
/// `Start` spawns one.
pub proof fn law_not_running_stays(version: Seq<char>, evs: Seq<DaemonEvent>)
    requires
        no_spawn(evs),
    ensures
        daemon_run(Phase::Replying, None, version, evs).1 is None,
        !daemon_run(Phase::Replying, None, version, evs).2.contains(running_reply()),
{
    lemma_quiet_run(Phase::Replying, version, evs);
}

/// A `Stop` kills and reaps the mihomo the helper owned, and from then on
/// no `Status`, on any later line, reports mihomo running until a `Start`
/// spawns one.
pub proof fn law_stop_keeps_not_running(child: Option<u32>, version: Seq<char>, evs: Seq<DaemonEvent>)
    requires
        no_spawn(evs),
    ensures
        daemon_run(Phase::Parsing, child, version, seq![DaemonEvent::Parsed(Request::Stop)] + evs).1 is None,
        !daemon_run(Phase::Parsing, child, version, seq![DaemonEvent::Parsed(Request::Stop)] + evs).2.contains(
            running_reply(),
        ),
        child matches Some(pid) ==> daemon_run(
            Phase::Parsing,
            child,
            version,
            seq![DaemonEvent::Parsed(Request::Stop)] + evs,
        ).2[0] == ActionView::KillChild(pid),
{
    let e = DaemonEvent::Parsed(Request::Stop);
    lemma_run_cons(Phase::Parsing, child, version, e, evs);
    let (p1, c1, a1) = daemon_step(Phase::Parsing, child, version, e);
    assert(c1 is None);
    assert(!(p1 is Probing));
    lemma_quiet_run(p1, version, evs);
    let (p2, c2, acts) = daemon_run(p1, None, version, evs);
    let all = seq![a1] + acts;
    assert(a1 != running_reply());
    assert forall|i: int| 0 <= i < all.len() implies all[i] != running_reply() by {
        if i > 0 {
            assert(all[i] == acts[i - 1]);
            assert(acts.contains(acts[i - 1]));
        }
    }
}

/// The child the helper owns outlives connections and changes only when a
/// request stops or replaces it, when a status probe finds it exited, or
/// when a new one is spawned: every other event, in every phase (reading,
/// the end of input, parsing, replying, any step of a start), leaves it as
/// it was. A change either forgets the child or records the pid just
/// spawned.
pub proof fn law_child_kept(phase: Phase, child: Option<u32>, version: Seq<char>, ev: DaemonEvent)
    ensures
        ({
            let next = daemon_step(phase, child, version, ev).1;
            &&& (!(ev matches DaemonEvent::Parsed(Request::Start { .. }))
                && !(ev matches DaemonEvent::Parsed(Request::Stop))
                && !(ev matches DaemonEvent::Probed(ChildExit::Exited))
                && !(ev is Spawned)) ==> next == child
            &&& next == child || next is None || (ev matches DaemonEvent::Spawned(pid) && next == Some(pid))
        }),
{
}

/// Every reply the helper sends is well shaped: a success has no error, a
/// failure has no data and a non-empty message, and a success without data
/// answers a `Stop`.
pub proof fn law_reply_shape(phase: Phase, child: Option<u32>, version: Seq<char>, ev: DaemonEvent)
    ensures
        daemon_step(phase, child, version, ev).2 matches ActionView::Send(r) ==> {
            &&& r.ok == (r.error is None)
            &&& !r.ok ==> r.data is None && r.error->0.len() > 0
            &&& r.ok && r.data is None ==> (phase is Stopping || (phase is Parsing
                && ev matches DaemonEvent::Parsed(Request::Stop)))
        },
{
    reveal_strlit("invalid request: ");
    reveal_strlit("create workdir failed: ");
    reveal_strlit("write config failed: ");
    reveal_strlit("open log failed: ");
    reveal_strlit("clone log failed: ");
    reveal_strlit("spawn mihomo failed: ");
}

} // verus!
