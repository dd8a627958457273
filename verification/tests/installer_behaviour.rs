use cryptdoor::failure::fail_chain;
use cryptdoor::installer::{
    applescript_quote, install_failed, install_script, osascript_command, osascript_source,
    shell_single_quote, staging_dir_name,
};

fn expected_script(helper: &str, plist: &str) -> String {
    format!(
        r#"#!/bin/bash
set -e
cd /
mkdir -p /Library/PrivilegedHelperTools
cp '{helper_src}' /Library/PrivilegedHelperTools/cryptdoor-helper
chown root:wheel /Library/PrivilegedHelperTools/cryptdoor-helper
chmod 755 /Library/PrivilegedHelperTools/cryptdoor-helper
xattr -d -r com.apple.quarantine /Library/PrivilegedHelperTools/cryptdoor-helper 2>/dev/null || true
cp '{plist_src}' /Library/LaunchDaemons/online.cryptdoor.helper.plist
chown root:wheel /Library/LaunchDaemons/online.cryptdoor.helper.plist
chmod 644 /Library/LaunchDaemons/online.cryptdoor.helper.plist
launchctl unload /Library/LaunchDaemons/online.cryptdoor.helper.plist 2>/dev/null || true
launchctl load -w /Library/LaunchDaemons/online.cryptdoor.helper.plist
"#,
        helper_src = helper.replace('\'', "'\\''"),
        plist_src = plist.replace('\'', "'\\''"),
    )
}

#[test]
fn script_matches_expected_text() {
    for (h, p) in [
        ("/tmp/cryptdoor-install-1/cryptdoor-helper", "/tmp/cryptdoor-install-1/online.cryptdoor.helper.plist"),
        ("/var/folders/it's/helper", "/a'b'c/plist"),
        ("", ""),
    ] {
        assert_eq!(install_script(h, p), expected_script(h, p));
    }
}

#[test]
fn single_quote_escaping() {
    assert_eq!(shell_single_quote("plain"), "plain");
    assert_eq!(shell_single_quote("it's"), "it'\\''s");
    assert_eq!(shell_single_quote("''"), "'\\'''\\''");
}

#[test]
fn applescript_source_matches_expected() {
    for path in ["/tmp/cryptdoor-install-7/install.sh", "/tmp/we\"ird/install.sh"] {
        let tmp_str = path.replace('"', "\\\"");
        let expected = format!(
            r#"do shell script "cd / && /bin/bash '{tmp_str}'" with prompt "CryptDoor needs to install a VPN component" with administrator privileges"#
        );
        assert_eq!(osascript_source(path), expected);
    }
    assert_eq!(applescript_quote("a\"b"), "a\\\"b");
    let c = osascript_command("display dialog \"x\"".to_string());
    assert_eq!(c.program, "osascript");
    assert_eq!(c.args, vec!["-e", "display dialog \"x\""]);
}

#[test]
fn staging_and_failure_messages() {
    assert_eq!(staging_dir_name(4321), "cryptdoor-install-4321");
    let f = install_failed("0:1: execution error: User canceled. (-128)\n");
    assert_eq!(fail_chain(&f), "install cancelled or failed: 0:1: execution error: User canceled. (-128)");
}

use cryptdoor::installer::{install_helper, install_step, InstallAction, InstallEvent, InstallFlow, InstallStage};

fn step(flow: InstallFlow, ev: InstallEvent) -> (InstallFlow, InstallAction) {
    install_step(flow, ev)
}

fn finished_with(a: InstallAction) -> String {
    match a {
        InstallAction::Finish(Err(f)) => fail_chain(&f),
        _ => panic!("expected a failure"),
    }
}

fn staged(pid: u32) -> InstallFlow {
    let (f, _) = install_helper(pid);
    let (f, _) = step(f, InstallEvent::Candidates(vec![false, true, true]));
    let (f, _) = step(f, InstallEvent::Candidates(vec![true, false]));
    f
}

#[test]
fn install_runs_every_step_in_order() {
    let (f, a) = install_helper(77);
    assert!(matches!(a, InstallAction::LookForHelper));
    let (f, a) = step(f, InstallEvent::Candidates(vec![false, true, true]));
    assert!(matches!(a, InstallAction::LookForPlist));
    assert_eq!(f.helper, Some(1));
    let (f, a) = step(f, InstallEvent::Candidates(vec![false, true]));
    match a {
        InstallAction::MakeStaging(d) => assert_eq!(d, "cryptdoor-install-77"),
        _ => panic!("expected staging"),
    }
    let (f, a) = step(f, InstallEvent::Done);
    assert!(matches!(a, InstallAction::CopyHelper(1)));
    let (f, a) = step(f, InstallEvent::Done);
    assert!(matches!(a, InstallAction::CopyPlist(1)));
    let (f, a) = step(f, InstallEvent::Done);
    assert!(matches!(a, InstallAction::SetModes));
    let (h, p) = ("/tmp/cryptdoor-install-77/cryptdoor-helper", "/tmp/cryptdoor-install-77/online.cryptdoor.helper.plist");
    let (f, a) = step(f, InstallEvent::Staged(h.to_string(), p.to_string()));
    match a {
        InstallAction::WriteScript(s) => assert_eq!(s, expected_script(h, p)),
        _ => panic!("expected a script"),
    }
    let (f, a) = step(f, InstallEvent::ScriptWritten("/tmp/cryptdoor-install-77/install.sh".to_string()));
    match a {
        InstallAction::Run(c) => {
            assert_eq!(c.program, "osascript");
            assert_eq!(c.args[0], "-e");
            assert_eq!(c.args[1], osascript_source("/tmp/cryptdoor-install-77/install.sh"));
        }
        _ => panic!("expected a command"),
    }
    let (f, a) = step(f, InstallEvent::Ran(true, String::new()));
    assert!(matches!(a, InstallAction::RemoveStaging));
    let (f, a) = step(f, InstallEvent::Done);
    assert!(matches!(a, InstallAction::Sleep(500)));
    let (f, a) = step(f, InstallEvent::Done);
    assert!(matches!(a, InstallAction::Ping(20)));
    let (f, a) = step(f, InstallEvent::Done);
    assert!(matches!(a, InstallAction::Finish(Ok(()))));
    assert_eq!(f.stage, InstallStage::Finished);
    let (_, a) = step(f, InstallEvent::Done);
    assert!(matches!(a, InstallAction::Ignore));
}

#[test]
fn install_reports_missing_files() {
    let (f, _) = install_helper(1);
    let (_, a) = step(f, InstallEvent::Candidates(vec![false, false, false]));
    assert_eq!(
        finished_with(a),
        "helper binary not found. Build it: cd src-tauri && cargo build --bin cryptdoor-helper && cp target/debug/cryptdoor-helper sidecar/"
    );
    let (f, _) = install_helper(1);
    let (f, _) = step(f, InstallEvent::Candidates(vec![true, false, false]));
    let (_, a) = step(f, InstallEvent::Candidates(vec![false, false]));
    assert_eq!(finished_with(a), "helper plist not found");
}

#[test]
fn install_failures_carry_their_context() {
    let io = || cryptdoor::failure::Failure::msg("Permission denied (os error 13)".to_string());
    let (_, a) = step(staged(5), InstallEvent::Failed(io()));
    assert_eq!(finished_with(a), "create staging dir: Permission denied (os error 13)");
    let (f, _) = step(staged(5), InstallEvent::Done);
    let (_, a) = step(f, InstallEvent::Failed(io()));
    assert_eq!(finished_with(a), "copy helper to staging: Permission denied (os error 13)");
    let (f, _) = step(staged(5), InstallEvent::Done);
    let (f, _) = step(f, InstallEvent::Done);
    let (_, a) = step(f, InstallEvent::Failed(io()));
    assert_eq!(finished_with(a), "copy plist to staging: Permission denied (os error 13)");
    let (f, _) = step(staged(5), InstallEvent::Done);
    let (f, _) = step(f, InstallEvent::Done);
    let (f, _) = step(f, InstallEvent::Done);
    let (_, a) = step(f, InstallEvent::Failed(io()));
    assert_eq!(finished_with(a), "Permission denied (os error 13)");
}

#[test]
fn install_refused_script_and_silent_helper() {
    let (f, _) = step(staged(5), InstallEvent::Done);
    let (f, _) = step(f, InstallEvent::Done);
    let (f, _) = step(f, InstallEvent::Done);
    let (f, _) = step(f, InstallEvent::Staged("/h".to_string(), "/p".to_string()));
    let (f, _) = step(f, InstallEvent::ScriptWritten("/s".to_string()));
    let (g, a) = step(f, InstallEvent::Ran(false, "  User canceled. (-128)\n".to_string()));
    assert!(matches!(a, InstallAction::RemoveStaging));
    let (_, a) = step(g, InstallEvent::Done);
    assert_eq!(finished_with(a), "install cancelled or failed: User canceled. (-128)");

    let (f, _) = step(staged(6), InstallEvent::Done);
    let (f, _) = step(f, InstallEvent::Done);
    let (f, _) = step(f, InstallEvent::Done);
    let (f, _) = step(f, InstallEvent::Staged("/h".to_string(), "/p".to_string()));
    let (f, _) = step(f, InstallEvent::ScriptWritten("/s".to_string()));
    let (f, _) = step(f, InstallEvent::Ran(true, String::new()));
    let (f, _) = step(f, InstallEvent::Done);
    let (f, _) = step(f, InstallEvent::Done);
    let (_, a) = step(f, InstallEvent::Failed(cryptdoor::failure::Failure::msg("ping attempts exhausted".to_string())));
    assert_eq!(finished_with(a), "helper not responding after install: ping attempts exhausted");

    let (_, a) = step(staged(7), InstallEvent::Aborted(cryptdoor::failure::Failure::msg("join error: task panicked".to_string())));
    assert_eq!(finished_with(a), "join error: task panicked");
}
