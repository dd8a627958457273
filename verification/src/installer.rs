//! Installing the privileged helper on macOS: the shell script run with
//! administrator rights, the AppleScript that asks for them, and the
//! quoting that carries file paths into both.
use vstd::prelude::*;
use crate::daemon::{Command, CommandView};
use crate::failure::Failure;
use crate::mihomo::{first_present, first_true};
use crate::text::{chars_of, str_concat, dec, decimal, owned, push_char, trim, trim_seq, views};

verus! {

/// A character as it is written inside single quotes for bash: a quote
/// closes the quoting, adds an escaped quote and reopens it.
pub open spec fn sq_piece(c: char) -> Seq<char> {
    if c == '\'' {
        seq!['\'', '\\', '\'', '\'']
    } else {
        seq![c]
    }
}

/// `s` made fit to stand between single quotes in a bash script
/// (what `s.replace('\'', "'\\''")` gives).
pub open spec fn sq_escape(s: Seq<char>) -> Seq<char>
    decreases s.len(),
{
    if s.len() == 0 {
        seq![]
    } else {
        sq_piece(s[0]) + sq_escape(s.drop_first())
    }
}

/// A character as it is written inside an AppleScript string: a double
/// quote gets a backslash before it.
pub open spec fn dq_piece(c: char) -> Seq<char> {
    if c == '"' {
        seq!['\\', '"']
    } else {
        seq![c]
    }
}

/// `s` with a backslash before each double quote
/// (what `s.replace('"', "\\\"")` gives).
pub open spec fn dq_escape(s: Seq<char>) -> Seq<char>
    decreases s.len(),
{
    if s.len() == 0 {
        seq![]
    } else {
        dq_piece(s[0]) + dq_escape(s.drop_first())
    }
}

pub proof fn lemma_sq_escape_push(s: Seq<char>, c: char)
    ensures
        sq_escape(s.push(c)) == sq_escape(s) + sq_piece(c),
    decreases s.len(),
{
    if s.len() == 0 {
        assert(s.push(c).drop_first() =~= seq![]);
        assert(s.push(c)[0] == c);
        assert(sq_escape(Seq::<char>::empty()) == Seq::<char>::empty());
        assert(sq_escape(s.push(c)) =~= sq_piece(c));
    } else {
        assert(s.push(c).drop_first() =~= s.drop_first().push(c));
        lemma_sq_escape_push(s.drop_first(), c);
        assert(sq_escape(s.push(c)) =~= sq_escape(s) + sq_piece(c));
    }
}

pub proof fn lemma_dq_escape_push(s: Seq<char>, c: char)
    ensures
        dq_escape(s.push(c)) == dq_escape(s) + dq_piece(c),
    decreases s.len(),
{
    if s.len() == 0 {
        assert(s.push(c).drop_first() =~= seq![]);
        assert(s.push(c)[0] == c);
        assert(dq_escape(Seq::<char>::empty()) == Seq::<char>::empty());
        assert(dq_escape(s.push(c)) =~= dq_piece(c));
    } else {
        assert(s.push(c).drop_first() =~= s.drop_first().push(c));
        lemma_dq_escape_push(s.drop_first(), c);
        assert(dq_escape(s.push(c)) =~= dq_escape(s) + dq_piece(c));
    }
}

/// `s` made fit to stand between single quotes in a bash script.
pub fn shell_single_quote(s: &str) -> (r: String)
    ensures
        r@ == sq_escape(s@),
{
    let v = chars_of(s);
    let n = v.len();
    let mut r = String::new();
    let mut i: usize = 0;
    while i < n
        invariant
            n == v@.len(),
            v@ == s@,
            i <= n,
            r@ == sq_escape(s@.take(i as int)),
        decreases n - i,
    {
        let c = v[i];
        if c == '\'' {
            r.append("'\\''");
            proof {
                reveal_strlit("'\\''");
                assert("'\\''"@ =~= sq_piece(c));
            }
        } else {
            push_char(&mut r, c);
        }
        proof {
            lemma_sq_escape_push(s@.take(i as int), c);
            assert(s@.take(i + 1) =~= s@.take(i as int).push(c));
        }
        i = i + 1;
    }
    assert(s@.take(n as int) =~= s@);
    r
}

/// `s` with a backslash before each double quote.
pub fn applescript_quote(s: &str) -> (r: String)
    ensures
        r@ == dq_escape(s@),
{
    let v = chars_of(s);
    let n = v.len();
    let mut r = String::new();
    let mut i: usize = 0;
    while i < n
        invariant
            n == v@.len(),
            v@ == s@,
            i <= n,
            r@ == dq_escape(s@.take(i as int)),
        decreases n - i,
    {
        let c = v[i];
        if c == '"' {
            push_char(&mut r, '\\');
            push_char(&mut r, '"');
            assert(seq!['\\', '"'] =~= dq_piece(c));
        } else {
            push_char(&mut r, c);
        }
        proof {
            lemma_dq_escape_push(s@.take(i as int), c);
            assert(s@.take(i + 1) =~= s@.take(i as int).push(c));
            assert(r@ =~= dq_escape(s@.take(i as int)) + dq_piece(c));
        }
        i = i + 1;
    }
    assert(s@.take(n as int) =~= s@);
    r
}

/// How bash reads a word made of single-quoted parts and backslash-escaped
/// characters: `quoted` tells whether a single quote is open. `None` when
/// the word is cut off inside quotes or holds anything else unquoted.
pub open spec fn bash_read(w: Seq<char>, quoted: bool) -> Option<Seq<char>>
    decreases w.len(),
{
    if w.len() == 0 {
        if quoted {
            None
        } else {
            Some(seq![])
        }
    } else if quoted {
        if w[0] == '\'' {
            bash_read(w.drop_first(), false)
        } else {
            match bash_read(w.drop_first(), true) {
                Some(r) => Some(seq![w[0]] + r),
                None => None,
            }
        }
    } else if w[0] == '\'' {
        bash_read(w.drop_first(), true)
    } else if w[0] == '\\' && w.len() >= 2 {
        match bash_read(w.skip(2), false) {
            Some(r) => Some(seq![w[1]] + r),
            None => None,
        }
    } else {
        None
    }
}

proof fn lemma_bash_reads_escaped(s: Seq<char>)
    ensures
        bash_read(sq_escape(s) + seq!['\''], true) == Some(s),
    decreases s.len(),
{
    let w = sq_escape(s) + seq!['\''];
    if s.len() == 0 {
        assert(sq_escape(s) == Seq::<char>::empty());
        assert(w =~= seq!['\'']);
        assert(w[0] == '\'');
        assert(w.drop_first() =~= Seq::<char>::empty());
        assert(bash_read(Seq::<char>::empty(), false) == Some(Seq::<char>::empty()));
        assert(bash_read(w, true) == bash_read(w.drop_first(), false));
        assert(s =~= Seq::<char>::empty());
    } else {
        let rest = sq_escape(s.drop_first()) + seq!['\''];
        lemma_bash_reads_escaped(s.drop_first());
        assert(seq![s[0]] + s.drop_first() =~= s);
        if s[0] == '\'' {
            let w1 = seq!['\\', '\''] + (seq!['\''] + rest);
            let w2 = seq!['\''] + rest;
            assert(w =~= seq!['\''] + w1);
            assert(w[0] == '\'');
            assert(w.drop_first() =~= w1);
            assert(bash_read(w, true) == bash_read(w1, false));
            assert(w1[0] == '\\' && w1[1] == '\'');
            assert(w1.skip(2) =~= w2);
            assert(w2[0] == '\'');
            assert(w2.drop_first() =~= rest);
            assert(bash_read(w2, false) == bash_read(rest, true));
            assert(bash_read(w1, false) == Some(seq!['\''] + s.drop_first()));
        } else {
            assert(w =~= seq![s[0]] + rest);
            assert(w[0] == s[0]);
            assert(w.drop_first() =~= rest);
            assert(bash_read(w, true) == Some(seq![s[0]] + s.drop_first()));
        }
    }
}

/// Whatever the path, bash reads `'` + the quoted path + `'` as exactly
/// that path: the path cannot break out of its quotes.
pub proof fn law_single_quoting_is_exact(s: Seq<char>)
    ensures
        bash_read(seq!['\''] + sq_escape(s) + seq!['\''], false) == Some(s),
{
    lemma_bash_reads_escaped(s);
    let w = seq!['\''] + sq_escape(s) + seq!['\''];
    assert(w.drop_first() =~= sq_escape(s) + seq!['\'']);
}

/// How AppleScript reads the inside of a string literal up to its closing
/// double quote: `\"` and `\\` stand for `"` and `\`. `None` for any other
/// escape or a literal that is not closed.
pub open spec fn applescript_read(w: Seq<char>) -> Option<Seq<char>>
    decreases w.len(),
{
    if w.len() == 0 {
        None
    } else if w[0] == '"' {
        Some(seq![])
    } else if w[0] == '\\' {
        if w.len() >= 2 && (w[1] == '"' || w[1] == '\\') {
            match applescript_read(w.skip(2)) {
                Some(r) => Some(seq![w[1]] + r),
                None => None,
            }
        } else {
            None
        }
    } else {
        match applescript_read(w.drop_first()) {
            Some(r) => Some(seq![w[0]] + r),
            None => None,
        }
    }
}

/// For a path without backslashes, AppleScript reads the quoted path
/// followed by `"` as exactly that path.
pub proof fn law_applescript_quoting_is_exact(s: Seq<char>, rest: Seq<char>)
    requires
        !s.contains('\\'),
    ensures
        applescript_read(dq_escape(s) + seq!['"'] + rest) == Some(s),
    decreases s.len(),
{
    let w = dq_escape(s) + seq!['"'] + rest;
    if s.len() == 0 {
        assert(w =~= seq!['"'] + rest);
    } else {
        let t = s.drop_first();
        assert(!t.contains('\\')) by {
            if t.contains('\\') {
                let j = choose|j: int| 0 <= j < t.len() && t[j] == '\\';
                assert(s[j + 1] == '\\');
            }
        }
        assert(s[0] != '\\') by {
            if s[0] == '\\' {
                assert(s.contains('\\'));
            }
        }
        law_applescript_quoting_is_exact(t, rest);
        let tail = dq_escape(t) + seq!['"'] + rest;
        if s[0] == '"' {
            assert(w =~= seq!['\\', '"'] + tail);
            assert(w.skip(2) =~= tail);
        } else {
            assert(w =~= seq![s[0]] + tail);
            assert(w.drop_first() =~= tail);
        }
        assert(seq![s[0]] + t =~= s);
    }
}

/// The install script, before the quoted helper path.
pub open spec fn script_head() -> Seq<char> {
    "#!/bin/bash\nset -e\ncd /\nmkdir -p /Library/PrivilegedHelperTools\ncp '"@
}

/// The install script, between the quoted helper and launchd plist paths.
pub open spec fn script_middle() -> Seq<char> {
    "' /Library/PrivilegedHelperTools/cryptdoor-helper\nchown root:wheel /Library/PrivilegedHelperTools/cryptdoor-helper\nchmod 755 /Library/PrivilegedHelperTools/cryptdoor-helper\nxattr -d -r com.apple.quarantine /Library/PrivilegedHelperTools/cryptdoor-helper 2>/dev/null || true\ncp '"@
}

/// The install script, after the quoted launchd plist path.
pub open spec fn script_tail() -> Seq<char> {
    "' /Library/LaunchDaemons/online.cryptdoor.helper.plist\nchown root:wheel /Library/LaunchDaemons/online.cryptdoor.helper.plist\nchmod 644 /Library/LaunchDaemons/online.cryptdoor.helper.plist\nlaunchctl unload /Library/LaunchDaemons/online.cryptdoor.helper.plist 2>/dev/null || true\nlaunchctl load -w /Library/LaunchDaemons/online.cryptdoor.helper.plist\n"@
}

/// The script that copies the staged helper and plist into place, owned by
/// root, and (re)loads the launchd daemon.
pub fn install_script(helper_src: &str, plist_src: &str) -> (r: String)
    ensures
        r@ == script_head() + sq_escape(helper_src@) + script_middle() + sq_escape(plist_src@)
            + script_tail(),
{
    let h = shell_single_quote(helper_src);
    let p = shell_single_quote(plist_src);
    let a = str_concat(
        "#!/bin/bash\nset -e\ncd /\nmkdir -p /Library/PrivilegedHelperTools\ncp '",
        h.as_str(),
    );
    let b = str_concat(
        a.as_str(),
        "' /Library/PrivilegedHelperTools/cryptdoor-helper\nchown root:wheel /Library/PrivilegedHelperTools/cryptdoor-helper\nchmod 755 /Library/PrivilegedHelperTools/cryptdoor-helper\nxattr -d -r com.apple.quarantine /Library/PrivilegedHelperTools/cryptdoor-helper 2>/dev/null || true\ncp '",
    );
    let c = str_concat(b.as_str(), p.as_str());
    str_concat(
        c.as_str(),
        "' /Library/LaunchDaemons/online.cryptdoor.helper.plist\nchown root:wheel /Library/LaunchDaemons/online.cryptdoor.helper.plist\nchmod 644 /Library/LaunchDaemons/online.cryptdoor.helper.plist\nlaunchctl unload /Library/LaunchDaemons/online.cryptdoor.helper.plist 2>/dev/null || true\nlaunchctl load -w /Library/LaunchDaemons/online.cryptdoor.helper.plist\n",
    )
}

/// The AppleScript before the quoted script path.
pub open spec fn osa_head() -> Seq<char> {
    "do shell script \"cd / && /bin/bash '"@
}

/// The AppleScript after the quoted script path.
pub open spec fn osa_tail() -> Seq<char> {
    "'\" with prompt \"CryptDoor needs to install a VPN component\" with administrator privileges"@
}

/// The AppleScript that runs the install script with administrator rights,
/// asking the user for them.
pub fn osascript_source(script_path: &str) -> (r: String)
    ensures
        r@ == osa_head() + dq_escape(script_path@) + osa_tail(),
{
    let q = applescript_quote(script_path);
    let a = str_concat("do shell script \"cd / && /bin/bash '", q.as_str());
    str_concat(
        a.as_str(),
        "'\" with prompt \"CryptDoor needs to install a VPN component\" with administrator privileges",
    )
}

/// The `osascript` command that runs the given AppleScript.
pub fn osascript_command(source: String) -> (c: Command)
    ensures
        c@ == (CommandView { program: "osascript"@, args: seq!["-e"@, source@] }),
{
    let mut args: Vec<String> = Vec::new();
    args.push(owned("-e"));
    args.push(source);
    assert(views(args@) =~= seq!["-e"@, args@[1]@]);
    Command { program: owned("osascript"), args }
}

/// The name of the staging directory for a process id.
pub fn staging_dir_name(pid: u32) -> (r: String)
    ensures
        r@ == "cryptdoor-install-"@ + dec(pid as nat),
{
    let d = decimal(pid as u64);
    str_concat("cryptdoor-install-", d.as_str())
}

/// The failure reported when the install script did not succeed: the
/// script's error output, trimmed.
pub fn install_failed(stderr: &str) -> (f: Failure)
    ensures
        f@ == seq!["install cancelled or failed: "@ + trim_seq(stderr@)],
{
    let t = trim(stderr);
    Failure::msg(str_concat("install cancelled or failed: ", t.as_str()))
}

/// Where an installation of the helper stands.
#[derive(PartialEq, Eq, Structural, Clone, Copy, Debug)]
pub enum InstallStage {
    LocateHelper,
    LocatePlist,
    MakeStaging,
    CopyHelper,
    CopyPlist,
    SetModes,
    WriteScript,
    RunScript,
    Cleanup,
    Settle,
    Ping,
    Finished,
}

/// An installation of the helper under way.
pub struct InstallFlow {
    pub stage: InstallStage,
    /// The id of the running process, which names the staging directory.
    pub pid: u32,
    /// Which helper candidate was found.
    pub helper: Option<usize>,
    /// Which plist candidate was found.
    pub plist: Option<usize>,
    /// Whether the script succeeded, and its error output.
    pub outcome: Option<(bool, String)>,
}

/// What came back from the last action.
pub enum InstallEvent {
    /// Which of the candidates, in order, exist.
    Candidates(Vec<bool>),
    /// The action succeeded.
    Done,
    /// The action failed.
    Failed(Failure),
    /// Waiting for a blocking task failed; reported as it is.
    Aborted(Failure),
    /// The helper and plist were staged at these paths.
    Staged(String, String),
    /// The script was written, and made executable, at this path.
    ScriptWritten(String),
    /// The script ran: whether it succeeded, and its error output.
    Ran(bool, String),
}

/// What to do next.
pub enum InstallAction {
    /// Tell which helper binary candidates exist.
    LookForHelper,
    /// Tell which launchd plist candidates exist.
    LookForPlist,
    /// Create the staging directory with this name in the temporary directory.
    MakeStaging(String),
    /// Copy the helper candidate with this index into the staging directory.
    CopyHelper(usize),
    /// Copy the plist candidate with this index into the staging directory.
    CopyPlist(usize),
    /// Make the staged helper executable (0755) and the plist readable (0644).
    SetModes,
    /// Write this script into the staging directory, executable.
    WriteScript(String),
    /// Run this command from `/`.
    Run(Command),
    /// Remove the staging directory, ignoring the outcome.
    RemoveStaging,
    /// Pause for this many milliseconds.
    Sleep(u64),
    /// Ping the helper with this many attempts.
    Ping(u32),
    /// Stop with this result.
    Finish(Result<(), Failure>),
    /// Nothing: the event was not expected.
    Ignore,
}

/// The failure when no helper binary is found.
pub open spec fn no_helper_text() -> Seq<char> {
    "helper binary not found. Build it: cd src-tauri && cargo build --bin cryptdoor-helper && cp target/debug/cryptdoor-helper sidecar/"@
}

pub open spec fn install_err(a: InstallAction, f: Seq<Seq<char>>) -> bool {
    a matches InstallAction::Finish(Err(e)) && e@ == f
}

/// Starts installing the helper: the helper binary is looked for first.
pub fn install_helper(pid: u32) -> (r: (InstallFlow, InstallAction))
    ensures
        r.0.stage == InstallStage::LocateHelper,
        r.0.pid == pid,
        r.1 is LookForHelper,
{
    (
        InstallFlow { stage: InstallStage::LocateHelper, pid, helper: None, plist: None, outcome: None },
        InstallAction::LookForHelper,
    )
}

/// Takes an installation one step.
pub fn install_step(flow: InstallFlow, ev: InstallEvent) -> (r: (InstallFlow, InstallAction))
    ensures
        r.0.pid == flow.pid,
        match (flow.stage, ev) {
            (InstallStage::Finished, _) => r.0 == flow && r.1 is Ignore,
            (_, InstallEvent::Aborted(f)) => r.0.stage == InstallStage::Finished && install_err(r.1, f@),
            (InstallStage::LocateHelper, InstallEvent::Candidates(found)) => match first_true(found@) {
                Some(i) => r.0.stage == InstallStage::LocatePlist && r.0.helper == Some(i as usize)
                    && r.1 is LookForPlist,
                None => r.0.stage == InstallStage::Finished && install_err(r.1, seq![no_helper_text()]),
            },
            (InstallStage::LocatePlist, InstallEvent::Candidates(found)) => match first_true(found@) {
                Some(i) => r.0.stage == InstallStage::MakeStaging && r.0.helper == flow.helper
                    && r.0.plist == Some(i as usize) && (r.1 matches InstallAction::MakeStaging(d)
                    && d@ == "cryptdoor-install-"@ + dec(flow.pid as nat)),
                None => r.0.stage == InstallStage::Finished && install_err(
                    r.1,
                    seq!["helper plist not found"@],
                ),
            },
            (InstallStage::MakeStaging, InstallEvent::Done) => match flow.helper {
                Some(h) => r.0.stage == InstallStage::CopyHelper && r.0.plist == flow.plist && r.1
                    == InstallAction::CopyHelper(h),
                None => r.0 == flow && r.1 is Ignore,
            },
            (InstallStage::MakeStaging, InstallEvent::Failed(f)) => r.0.stage == InstallStage::Finished
                && install_err(r.1, seq!["create staging dir"@] + f@),
            (InstallStage::CopyHelper, InstallEvent::Done) => match flow.plist {
                Some(p) => r.0.stage == InstallStage::CopyPlist && r.1 == InstallAction::CopyPlist(p),
                None => r.0 == flow && r.1 is Ignore,
            },
            (InstallStage::CopyHelper, InstallEvent::Failed(f)) => r.0.stage == InstallStage::Finished
                && install_err(r.1, seq!["copy helper to staging"@] + f@),
            (InstallStage::CopyPlist, InstallEvent::Done) => r.0.stage == InstallStage::SetModes
                && r.1 is SetModes,
            (InstallStage::CopyPlist, InstallEvent::Failed(f)) => r.0.stage == InstallStage::Finished
                && install_err(r.1, seq!["copy plist to staging"@] + f@),
            (InstallStage::SetModes, InstallEvent::Staged(h, p)) => r.0.stage
                == InstallStage::WriteScript && (r.1 matches InstallAction::WriteScript(t) && t@
                == script_head() + sq_escape(h@) + script_middle() + sq_escape(p@) + script_tail()),
            (InstallStage::SetModes, InstallEvent::Failed(f)) => r.0.stage == InstallStage::Finished
                && install_err(r.1, f@),
            (InstallStage::WriteScript, InstallEvent::ScriptWritten(path)) => r.0.stage
                == InstallStage::RunScript && (r.1 matches InstallAction::Run(c) && c@ == (CommandView {
                program: "osascript"@,
                args: seq!["-e"@, osa_head() + dq_escape(path@) + osa_tail()],
            })),
            (InstallStage::WriteScript, InstallEvent::Failed(f)) => r.0.stage == InstallStage::Finished
                && install_err(r.1, f@),
            (InstallStage::RunScript, InstallEvent::Ran(ok, err)) => r.0.stage == InstallStage::Cleanup
                && r.0.outcome == Some((ok, err)) && r.1 is RemoveStaging,
            (InstallStage::RunScript, InstallEvent::Failed(f)) => r.0.stage == InstallStage::Finished
                && install_err(r.1, f@),
            (InstallStage::Cleanup, InstallEvent::Done) => match flow.outcome {
                Some((true, _)) => r.0.stage == InstallStage::Settle && r.1 == InstallAction::Sleep(500),
                Some((false, err)) => r.0.stage == InstallStage::Finished && install_err(
                    r.1,
                    seq!["install cancelled or failed: "@ + trim_seq(err@)],
                ),
                None => r.0 == flow && r.1 is Ignore,
            },
            (InstallStage::Settle, InstallEvent::Done) => r.0.stage == InstallStage::Ping && r.1
                == InstallAction::Ping(20),
            (InstallStage::Ping, InstallEvent::Done) => r.0.stage == InstallStage::Finished && r.1
                == InstallAction::Finish(Ok(())),
            (InstallStage::Ping, InstallEvent::Failed(f)) => r.0.stage == InstallStage::Finished
                && install_err(r.1, seq!["helper not responding after install"@] + f@),
            _ => r.0 == flow && r.1 is Ignore,
        },
{
    let pid = flow.pid;
    match (flow.stage, ev) {
        (InstallStage::Finished, _) => (flow, InstallAction::Ignore),
        (_, InstallEvent::Aborted(f)) => (
            InstallFlow { stage: InstallStage::Finished, ..flow },
            InstallAction::Finish(Err(f)),
        ),
        (InstallStage::LocateHelper, InstallEvent::Candidates(found)) => match first_present(&found) {
            Some(i) => (
                InstallFlow { stage: InstallStage::LocatePlist, helper: Some(i), ..flow },
                InstallAction::LookForPlist,
            ),
            None => (
                InstallFlow { stage: InstallStage::Finished, ..flow },
                InstallAction::Finish(Err(Failure::msg(owned(
                    "helper binary not found. Build it: cd src-tauri && cargo build --bin cryptdoor-helper && cp target/debug/cryptdoor-helper sidecar/",
                )))),
            ),
        },
        (InstallStage::LocatePlist, InstallEvent::Candidates(found)) => match first_present(&found) {
            Some(i) => (
                InstallFlow { stage: InstallStage::MakeStaging, plist: Some(i), ..flow },
                InstallAction::MakeStaging(staging_dir_name(pid)),
            ),
            None => (
                InstallFlow { stage: InstallStage::Finished, ..flow },
                InstallAction::Finish(Err(Failure::msg(owned("helper plist not found")))),
            ),
        },
        (InstallStage::MakeStaging, InstallEvent::Done) => match flow.helper {
            Some(h) => (
                InstallFlow { stage: InstallStage::CopyHelper, ..flow },
                InstallAction::CopyHelper(h),
            ),
            None => (flow, InstallAction::Ignore),
        },
        (InstallStage::MakeStaging, InstallEvent::Failed(f)) => (
            InstallFlow { stage: InstallStage::Finished, ..flow },
            InstallAction::Finish(Err(f.context(owned("create staging dir")))),
        ),
        (InstallStage::CopyHelper, InstallEvent::Done) => match flow.plist {
            Some(p) => (
                InstallFlow { stage: InstallStage::CopyPlist, ..flow },
                InstallAction::CopyPlist(p),
            ),
            None => (flow, InstallAction::Ignore),
        },
        (InstallStage::CopyHelper, InstallEvent::Failed(f)) => (
            InstallFlow { stage: InstallStage::Finished, ..flow },
            InstallAction::Finish(Err(f.context(owned("copy helper to staging")))),
        ),
        (InstallStage::CopyPlist, InstallEvent::Done) => (
            InstallFlow { stage: InstallStage::SetModes, ..flow },
            InstallAction::SetModes,
        ),
        (InstallStage::CopyPlist, InstallEvent::Failed(f)) => (
            InstallFlow { stage: InstallStage::Finished, ..flow },
            InstallAction::Finish(Err(f.context(owned("copy plist to staging")))),
        ),
        (InstallStage::SetModes, InstallEvent::Staged(h, p)) => (
            InstallFlow { stage: InstallStage::WriteScript, ..flow },
            InstallAction::WriteScript(install_script(h.as_str(), p.as_str())),
        ),
        (InstallStage::WriteScript, InstallEvent::ScriptWritten(path)) => (
            InstallFlow { stage: InstallStage::RunScript, ..flow },
            InstallAction::Run(osascript_command(osascript_source(path.as_str()))),
        ),
        (InstallStage::RunScript, InstallEvent::Ran(ok, err)) => (
            InstallFlow { stage: InstallStage::Cleanup, outcome: Some((ok, err)), ..flow },
            InstallAction::RemoveStaging,
        ),
        (InstallStage::Cleanup, InstallEvent::Done) => match flow.outcome {
            Some((true, e)) => (
                InstallFlow {
                    stage: InstallStage::Settle,
                    pid,
                    helper: flow.helper,
                    plist: flow.plist,
                    outcome: Some((true, e)),
                },
                InstallAction::Sleep(500),
            ),
            Some((false, e)) => {
                let f = install_failed(e.as_str());
                (
                    InstallFlow {
                        stage: InstallStage::Finished,
                        pid,
                        helper: flow.helper,
                        plist: flow.plist,
                        outcome: Some((false, e)),
                    },
                    InstallAction::Finish(Err(f)),
                )
            },
            None => (
                InstallFlow { stage: InstallStage::Cleanup, pid, helper: flow.helper, plist: flow.plist, outcome: None },
                InstallAction::Ignore,
            ),
        },
        (InstallStage::Settle, InstallEvent::Done) => (
            InstallFlow { stage: InstallStage::Ping, ..flow },
            InstallAction::Ping(20),
        ),
        (InstallStage::Ping, InstallEvent::Done) => (
            InstallFlow { stage: InstallStage::Finished, ..flow },
            InstallAction::Finish(Ok(())),
        ),
        (InstallStage::Ping, InstallEvent::Failed(f)) => (
            InstallFlow { stage: InstallStage::Finished, ..flow },
            InstallAction::Finish(Err(f.context(owned("helper not responding after install")))),
        ),
        (InstallStage::SetModes, InstallEvent::Failed(f)) => (
            InstallFlow { stage: InstallStage::Finished, ..flow },
            InstallAction::Finish(Err(f)),
        ),
        (InstallStage::WriteScript, InstallEvent::Failed(f)) => (
            InstallFlow { stage: InstallStage::Finished, ..flow },
            InstallAction::Finish(Err(f)),
        ),
        (InstallStage::RunScript, InstallEvent::Failed(f)) => (
            InstallFlow { stage: InstallStage::Finished, ..flow },
            InstallAction::Finish(Err(f)),
        ),
        (_, ev) => (flow, InstallAction::Ignore),
    }
}

} // verus!
