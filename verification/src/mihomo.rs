//! Supervision of a mihomo process the app starts by itself: whether one
//! runs, what starting and stopping it do to what the app keeps, and where
//! its binary is looked for.
use vstd::prelude::*;
use crate::daemon::ChildExit;
use crate::platform::{Os, triple_of};
use crate::text::{str_concat, owned, views};
use crate::daemon::{Command, CommandView, path_join};

verus! {

/// What the app keeps of the mihomo process it started.
pub struct MihomoState {
    /// The process id of the child, while the app owns one.
    pub child: Option<u32>,
    /// The configuration file it was started with.
    pub config_path: Option<String>,
}

/// The port on which mihomo serves mixed HTTP/SOCKS proxying.
pub fn default_mixed_port() -> (p: u16)
    ensures
        p == 7899,
{
    7899
}

/// What the app keeps once its child is stopped.
pub open spec fn after_stop(s: MihomoState) -> MihomoState {
    MihomoState { child: None, config_path: s.config_path }
}

/// Whether the child runs, given what asking it gave.
pub open spec fn running(s: MihomoState, probe: ChildExit) -> bool {
    s.child is Some && probe == ChildExit::Running
}

/// What the app keeps after asking its child: an exited child is forgotten.
pub open spec fn after_probe(s: MihomoState, probe: ChildExit) -> MihomoState {
    if running(s, probe) {
        s
    } else {
        after_stop(s)
    }
}

/// What the app keeps once a child is spawned.
pub open spec fn after_started(s: MihomoState, pid: u32, config_path: String) -> MihomoState {
    MihomoState { child: Some(pid), config_path: Some(config_path) }
}

/// Releases the child, if any, returning its process id to be killed and
/// reaped. The configuration path is kept.
pub fn stop(state: &mut MihomoState) -> (pid: Option<u32>)
    ensures
        pid == old(state).child,
        *final(state) == after_stop(*old(state)),
{
    state.child.take()
}

/// The same as `stop`, for callers on a blocking thread.
pub fn stop_blocking(state: &mut MihomoState) -> (pid: Option<u32>)
    ensures
        pid == old(state).child,
        *final(state) == after_stop(*old(state)),
{
    stop(state)
}

/// Whether the child still runs, given what asking it (`try_wait`) gave;
/// a child that has exited is forgotten.
pub fn is_running(state: &mut MihomoState, probe: ChildExit) -> (r: bool)
    ensures
        r == running(*old(state), probe),
        *final(state) == after_probe(*old(state), probe),
{
    match state.child {
        Some(_) => match probe {
            ChildExit::Running => true,
            ChildExit::Exited => {
                state.child = None;
                false
            },
        },
        None => false,
    }
}

/// What `start` does first.
pub enum StartDecision {
    /// The child still runs: nothing is started, the port is returned.
    AlreadyRunning(u16),
    /// A new child is to be started, after killing and reaping the old one
    /// when there is one.
    Launch { kill: Option<u32> },
}

/// The first part of `start`: keeps a running child, or releases an
/// exited one so that a new one can be started.
pub fn start(state: &mut MihomoState, probe: ChildExit) -> (d: StartDecision)
    ensures
        running(*old(state), probe) ==> d == StartDecision::AlreadyRunning(7899) && *final(state)
            == *old(state),
        !running(*old(state), probe) ==> d == (StartDecision::Launch { kill: old(state).child })
            && *final(state) == after_stop(*old(state)),
{
    if state.child.is_some() && probe == ChildExit::Running {
        StartDecision::AlreadyRunning(default_mixed_port())
    } else {
        StartDecision::Launch { kill: state.child.take() }
    }
}

/// The last part of `start`: records the spawned child and its
/// configuration, and returns the port it serves.
pub fn started(state: &mut MihomoState, pid: u32, config_path: String) -> (port: u16)
    ensures
        *final(state) == after_started(*old(state), pid, config_path),
        port == 7899,
{
    state.child = Some(pid);
    state.config_path = Some(config_path);
    default_mixed_port()
}

/// Once stopped, the app's mihomo is not running, whatever asking it gives.
pub proof fn law_stopped_not_running(s: MihomoState, probe: ChildExit)
    ensures
        !running(after_stop(s), probe),
        after_probe(after_stop(s), probe) == after_stop(s),
{
}

/// A freshly started mihomo that still runs is reported running, and
/// starting again while it runs launches nothing.
pub proof fn law_started_is_running(s: MihomoState, pid: u32, config_path: String)
    ensures
        running(after_started(s, pid, config_path), ChildExit::Running),
        after_probe(after_started(s, pid, config_path), ChildExit::Running) == after_started(s, pid, config_path),
{
}

/// The first index whose entry is true.
pub open spec fn first_true(found: Seq<bool>) -> Option<nat>
    decreases found.len(),
{
    if found.len() == 0 {
        None
    } else if found[0] {
        Some(0)
    } else {
        match first_true(found.drop_first()) {
            Some(i) => Some(i + 1),
            None => None,
        }
    }
}

/// The first of several candidates that was found, in order.
pub fn first_present(found: &Vec<bool>) -> (r: Option<usize>)
    ensures
        match r {
            Some(i) => first_true(found@) == Some(i as nat),
            None => first_true(found@) is None,
        },
{
    let n = found.len();
    let mut i: usize = n;
    let mut r: Option<usize> = None;
    while i > 0
        invariant
            n == found@.len(),
            i <= n,
            match r {
                Some(j) => i <= j < n && first_true(found@.skip(i as int)) == Some((j - i) as nat),
                None => first_true(found@.skip(i as int)) is None,
            },
        decreases i,
    {
        i = i - 1;
        let ghost old_r = r;
        proof {
            let t = found@.skip(i as int);
            assert(t.drop_first() =~= found@.skip(i + 1));
            assert(t[0] == found@[i as int]);
        }
        if found[i] {
            r = Some(i);
        }
    }
    assert(found@.skip(0) =~= found@);
    r
}

/// Where a mihomo binary may be.
#[derive(PartialEq, Eq, Structural, Clone, Copy, Debug)]
pub enum BinaryBase {
    /// The app's bundled resources.
    Resource,
    /// The directory of the running executable.
    ExeDir,
    /// The `sidecar` directory of the source tree the app was built from.
    DevSidecar,
}

/// The file name of the sidecar binary in the source tree.
pub open spec fn sidecar_name(os: Os) -> Seq<char> {
    if os == Os::Windows {
        "mihomo.exe"@
    } else {
        "mihomo"@
    }
}

/// The file name of the sidecar binary in the source tree.
pub fn sidecar_binary_name(os: Os) -> (s: &'static str)
    ensures
        s@ == sidecar_name(os),
{
    if os == Os::Windows {
        "mihomo.exe"
    } else {
        "mihomo"
    }
}

/// The places a connection looks for the mihomo binary, in order.
pub open spec fn mihomo_places(os: Os, arch: crate::platform::Arch) -> Seq<(BinaryBase, Seq<char>)> {
    let named = "mihomo-"@ + triple_of(os, arch);
    seq![
        (BinaryBase::ExeDir, "mihomo"@),
        (BinaryBase::ExeDir, named),
        (BinaryBase::DevSidecar, named),
        (BinaryBase::DevSidecar, "mihomo"@),
    ]
}

/// The places a connection looks for the mihomo binary, in order.
pub fn mihomo_candidates(os: Os, arch: crate::platform::Arch) -> (v: Vec<(BinaryBase, String)>)
    requires
        crate::platform::supported_target(os, arch),
    ensures
        v@.map_values(|p: (BinaryBase, String)| (p.0, p.1@)) == mihomo_places(os, arch),
{
    let triple = crate::platform::current_triple(os, arch);
    let named = str_concat("mihomo-", triple);
    let mut v: Vec<(BinaryBase, String)> = Vec::new();
    v.push((BinaryBase::ExeDir, owned("mihomo")));
    v.push((BinaryBase::ExeDir, named.clone()));
    v.push((BinaryBase::DevSidecar, named));
    v.push((BinaryBase::DevSidecar, owned("mihomo")));
    assert(v@.map_values(|p: (BinaryBase, String)| (p.0, p.1@)) =~= mihomo_places(os, arch));
    v
}

/// The places the app looks for the mihomo binary it starts by itself, in order.
pub open spec fn binary_places(os: Os) -> Seq<(BinaryBase, Seq<char>)> {
    seq![
        (BinaryBase::Resource, "sidecar/mihomo"@),
        (BinaryBase::ExeDir, "mihomo"@),
        (BinaryBase::DevSidecar, sidecar_name(os)),
    ]
}

/// The places the app looks for the mihomo binary it starts by itself, in order.
pub fn mihomo_binary_places(os: Os) -> (v: Vec<(BinaryBase, String)>)
    ensures
        v@.map_values(|p: (BinaryBase, String)| (p.0, p.1@)) == binary_places(os),
{
    let mut v: Vec<(BinaryBase, String)> = Vec::new();
    v.push((BinaryBase::Resource, owned("sidecar/mihomo")));
    v.push((BinaryBase::ExeDir, owned("mihomo")));
    v.push((BinaryBase::DevSidecar, owned(sidecar_binary_name(os))));
    assert(v@.map_values(|p: (BinaryBase, String)| (p.0, p.1@)) =~= binary_places(os));
    v
}

/// A path separator of Windows.
pub open spec fn win_sep(c: char) -> bool {
    c == '\\' || c == '/'
}

/// A Windows verbatim path, `\\?\...`: the first four characters read as
/// `\\?\` and none of the next four is `/`.
pub open spec fn verbatim(b: Seq<char>) -> bool {
    &&& b.len() >= 4
    &&& win_sep(b[0]) && win_sep(b[1]) && b[2] == '?' && win_sep(b[3])
    &&& forall|i: int| 4 <= i < 8 && i < b.len() ==> b[i] != '/'
}

/// A Windows path that is only a drive, such as `C:`.
pub open spec fn drive_only(b: Seq<char>) -> bool {
    b.len() == 2 && b[1] == ':' && ascii_letter(b[0])
}

pub open spec fn ascii_letter(c: char) -> bool {
    ('a' <= c && c <= 'z') || ('A' <= c && c <= 'Z')
}

/// A file name that joins as one component: not empty, without separators,
/// not `.` or `..`, and not starting with a drive.
pub open spec fn plain_name(n: Seq<char>) -> bool {
    &&& n.len() > 0
    &&& forall|i: int| 0 <= i < n.len() ==> !win_sep(n[i])
    &&& n != "."@ && n != ".."@
    &&& !(n.len() >= 2 && ascii_letter(n[0]) && n[1] == ':')
}

/// The index of the first `\` in `s` at or after `i`, or the length of `s`.
pub open spec fn next_bslash(s: Seq<char>, i: nat) -> nat
    decreases s.len() - i,
{
    if i >= s.len() {
        s.len()
    } else if s[i as int] == '\\' {
        i
    } else {
        next_bslash(s, i + 1)
    }
}

/// Where the prefix of a verbatim path ends: `\\?\UNC\server\share`,
/// `\\?\C:`, or `\\?\` and what follows up to the next `\`.
pub open spec fn verbatim_prefix_end(b: Seq<char>) -> nat {
    if b.len() >= 8 && b[4] == 'U' && b[5] == 'N' && b[6] == 'C' && b[7] == '\\' {
        let server_end = next_bslash(b, 8);
        if server_end < b.len() && next_bslash(b, server_end + 1) > server_end + 1 {
            next_bslash(b, server_end + 1)
        } else {
            server_end
        }
    } else if b.len() >= 6 && ascii_letter(b[4]) && b[5] == ':' && (b.len() == 6 || win_sep(b[6])) {
        6
    } else {
        next_bslash(b, 4)
    }
}

/// The components of `s` from `i` on, split at `\` with empty ones
/// dropped, joined with `\`; `pending` when one came before and a
/// separator is owed.
pub open spec fn pieces_from(s: Seq<char>, i: nat, started: bool, pending: bool) -> Seq<char>
    decreases s.len() - i,
{
    if i >= s.len() {
        Seq::empty()
    } else if s[i as int] == '\\' {
        pieces_from(s, i + 1, started, started)
    } else {
        (if pending {
            seq!['\\', s[i as int]]
        } else {
            seq![s[i as int]]
        }) + pieces_from(s, i + 1, true, false)
    }
}

/// A verbatim path joined with a file name: the prefix as written, then
/// the path's components and the name, each after one `\`.
pub open spec fn verbatim_join(b: Seq<char>, name: Seq<char>) -> Seq<char> {
    let p = verbatim_prefix_end(b);
    let start = if p < b.len() && win_sep(b[p as int]) {
        p + 1
    } else {
        p
    };
    let c = pieces_from(b, start, false, false);
    b.subrange(0, p as int) + seq!['\\'] + c + (if c.len() > 0 {
        seq!['\\']
    } else {
        Seq::empty()
    }) + name
}

/// `base` joined with the plain file name `name`, as `Path::join` does on
/// the given system. On Windows the separator is `\`; a verbatim base is
/// rebuilt from its components; otherwise no separator is put after one or
/// after a bare drive. Elsewhere as on Unix.
pub open spec fn os_path_join(os: Os, base: Seq<char>, name: Seq<char>) -> Seq<char> {
    if os == Os::Windows {
        if verbatim(base) {
            verbatim_join(base, name)
        } else if base.len() == 0 || win_sep(base.last()) || drive_only(base) {
            base + name
        } else {
            base + seq!['\\'] + name
        }
    } else {
        path_join(base, name)
    }
}

fn is_win_sep(c: char) -> (r: bool)
    ensures
        r == win_sep(c),
{
    c == '\\' || c == '/'
}

fn is_letter(c: char) -> (r: bool)
    ensures
        r == ascii_letter(c),
{
    ('a' <= c && c <= 'z') || ('A' <= c && c <= 'Z')
}

fn is_verbatim(v: &Vec<char>) -> (r: bool)
    ensures
        r == verbatim(v@),
{
    if v.len() < 4 || !(is_win_sep(v[0]) && is_win_sep(v[1]) && v[2] == '?' && is_win_sep(v[3])) {
        return false;
    }
    let mut i: usize = 4;
    while i < 8 && i < v.len()
        invariant
            4 <= i <= 8,
            forall|j: int| 4 <= j < i && j < v@.len() ==> v@[j] != '/',
        decreases 8 - i,
    {
        if v[i] == '/' {
            return false;
        }
        i = i + 1;
    }
    true
}

fn next_backslash(v: &Vec<char>, from: usize) -> (r: usize)
    requires
        from <= v.len(),
    ensures
        r == next_bslash(v@, from as nat),
        from <= r <= v.len(),
{
    let mut i = from;
    while i < v.len() && v[i] != '\\'
        invariant
            from <= i <= v.len(),
            next_bslash(v@, i as nat) == next_bslash(v@, from as nat),
        decreases v.len() - i,
    {
        i = i + 1;
    }
    i
}

fn prefix_end(v: &Vec<char>) -> (r: usize)
    requires
        verbatim(v@),
    ensures
        r == verbatim_prefix_end(v@),
        r <= v.len(),
{
    if v.len() >= 8 && v[4] == 'U' && v[5] == 'N' && v[6] == 'C' && v[7] == '\\' {
        let server_end = next_backslash(v, 8);
        if server_end < v.len() {
            let share_end = next_backslash(v, server_end + 1);
            if share_end > server_end + 1 {
                return share_end;
            }
        }
        server_end
    } else if v.len() >= 6 && is_letter(v[4]) && v[5] == ':' && (v.len() == 6 || is_win_sep(v[6])) {
        6
    } else {
        next_backslash(v, 4)
    }
}

fn join_verbatim(base: &str, name: &str) -> (r: String)
    requires
        verbatim(base@),
    ensures
        r@ == verbatim_join(base@, name@),
{
    let v = crate::text::chars_of(base);
    let p = prefix_end(&v);
    let start = if p < v.len() && is_win_sep(v[p]) {
        p + 1
    } else {
        p
    };
    let ghost total = pieces_from(v@, start as nat, false, false);
    let mut out = crate::text::string_of(&v, 0, p);
    crate::text::push_char(&mut out, '\\');
    let ghost head = out@;
    let mut i = start;
    let mut started = false;
    let mut pending = false;
    while i < v.len()
        invariant
            start <= i <= v.len(),
            v@ == base@,
            out@ == head + pieces_from(v@, start as nat, false, false).subrange(
                0,
                total.len() - pieces_from(v@, i as nat, started, pending).len(),
            ),
            total == pieces_from(v@, start as nat, false, false),
            total.len() >= pieces_from(v@, i as nat, started, pending).len(),
            total == total.subrange(0, total.len() - pieces_from(v@, i as nat, started, pending).len())
                + pieces_from(v@, i as nat, started, pending),
            started == (total.len() > pieces_from(v@, i as nat, started, pending).len()),
        decreases v.len() - i,
    {
        let c = v[i];
        if c == '\\' {
            pending = started;
        } else {
            if pending {
                crate::text::push_char(&mut out, '\\');
            }
            crate::text::push_char(&mut out, c);
            started = true;
            pending = false;
        }
        i = i + 1;
    }
    if started {
        crate::text::push_char(&mut out, '\\');
    }
    str_concat(out.as_str(), name)
}

/// `base` joined with the plain file name `name` on the given system.
pub fn join_path_for(os: Os, base: &str, name: &str) -> (r: String)
    requires
        plain_name(name@),
    ensures
        r@ == os_path_join(os, base@, name@),
{
    if os != Os::Windows {
        return crate::daemon::join_path(base, name);
    }
    let v = crate::text::chars_of(base);
    if is_verbatim(&v) {
        return join_verbatim(base, name);
    }
    let n = v.len();
    if n == 0 || is_win_sep(v[n - 1]) || (n == 2 && is_letter(v[0]) && v[1] == ':') {
        str_concat(base, name)
    } else {
        let mut with_sep = owned(base);
        crate::text::push_char(&mut with_sep, '\\');
        str_concat(with_sep.as_str(), name)
    }
}

/// What starting mihomo by the app itself involves: the configuration file
/// to write, the log file to append to, and the command to spawn.
pub struct LocalStart {
    pub config_path: String,
    pub log_path: String,
    pub command: Command,
}

/// Starting `binary` in the data directory `data_dir`: the configuration
/// goes to `config.yaml` and the log to `mihomo.log` there, and mihomo runs
/// with `-d data_dir -f config.yaml`.
pub fn local_start_plan(os: Os, binary: &str, data_dir: &str) -> (p: LocalStart)
    ensures
        p.config_path@ == os_path_join(os, data_dir@, "config.yaml"@),
        p.log_path@ == os_path_join(os, data_dir@, "mihomo.log"@),
        p.command@ == (CommandView {
            program: binary@,
            args: seq!["-d"@, data_dir@, "-f"@, os_path_join(os, data_dir@, "config.yaml"@)],
        }),
{
    proof {
        reveal_strlit("config.yaml");
        reveal_strlit("mihomo.log");
        reveal_strlit(".");
        reveal_strlit("..");
        assert("config.yaml"@.len() == 11);
        assert(forall|i: int| 0 <= i < 11 ==> !win_sep(#[trigger] "config.yaml"@[i]));
        assert("config.yaml"@ != "."@);
        assert("config.yaml"@ != ".."@);
        assert(plain_name("config.yaml"@));
        assert("mihomo.log"@.len() == 10);
        assert(forall|i: int| 0 <= i < 10 ==> !win_sep(#[trigger] "mihomo.log"@[i]));
        assert("mihomo.log"@ != "."@);
        assert("mihomo.log"@ != ".."@);
        assert(plain_name("mihomo.log"@));
    }
    let config_path = join_path_for(os, data_dir, "config.yaml");
    let log_path = join_path_for(os, data_dir, "mihomo.log");
    let mut args: Vec<String> = Vec::new();
    args.push(owned("-d"));
    args.push(owned(data_dir));
    args.push(owned("-f"));
    args.push(config_path.clone());
    assert(views(args@) =~= seq!["-d"@, data_dir@, "-f"@, config_path@]);
    LocalStart { config_path, log_path, command: Command { program: owned(binary), args } }
}

} // verus!
