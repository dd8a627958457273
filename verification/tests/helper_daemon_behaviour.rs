use cryptdoor::daemon::{
    chrono_now, handle, log_line, stop_inner, stray_kill_commands, timestamp_text, ChildExit,
    DaemonAction, DaemonEvent, Phase, StartStage, Supervisor,
};
use cryptdoor::json::JsonValue;
use cryptdoor::protocol::{frame, reply_running, reply_version, Request, Response};

fn sup(child: Option<u32>) -> Supervisor {
    Supervisor { child, version: "0.3.1".to_string() }
}

fn sent(a: DaemonAction) -> Response {
    match a {
        DaemonAction::Send(r) => r,
        _ => panic!("expected a response"),
    }
}

fn single(r: &Response) -> (String, &JsonValue) {
    match r.data.as_ref() {
        Some(JsonValue::Object(m)) if m.len() == 1 => (m[0].0.clone(), &m[0].1),
        _ => panic!("expected one member"),
    }
}

#[test]
fn blank_lines_are_skipped_and_others_parsed() {
    let mut s = sup(None);
    let (p, a) = handle(Phase::Reading, &mut s, DaemonEvent::Line("   \t".to_string()));
    assert!(matches!(p, Phase::Reading));
    assert!(matches!(a, DaemonAction::ReadLine));
    let (p, a) = handle(Phase::Reading, &mut s, DaemonEvent::Line("{\"cmd\":\"status\"}".to_string()));
    assert!(matches!(p, Phase::Parsing));
    match a {
        DaemonAction::Parse(l) => assert_eq!(l, "{\"cmd\":\"status\"}"),
        _ => panic!("expected parse"),
    }
    let (p, a) = handle(Phase::Reading, &mut s, DaemonEvent::InputEnded);
    assert!(matches!(p, Phase::Closed));
    assert!(matches!(a, DaemonAction::Close));
}

#[test]
fn invalid_request_gets_error_reply() {
    let mut s = sup(None);
    let (p, a) = handle(Phase::Parsing, &mut s, DaemonEvent::Unparsable("missing field `cmd`".to_string()));
    assert!(matches!(p, Phase::Replying));
    let r = sent(a);
    assert!(!r.ok);
    assert_eq!(r.error.as_deref(), Some("invalid request: missing field `cmd`"));
    let (p, a) = handle(p, &mut s, DaemonEvent::Written);
    assert!(matches!(p, Phase::Reading));
    assert!(matches!(a, DaemonAction::ReadLine));
}

#[test]
fn version_reports_helper_version() {
    let mut s = sup(Some(5));
    let (_, a) = handle(Phase::Parsing, &mut s, DaemonEvent::Parsed(Request::Version));
    let r = sent(a);
    assert!(r.ok);
    let (k, v) = single(&r);
    assert_eq!(k, "version");
    assert!(matches!(v, JsonValue::Str(x) if x == "0.3.1"));
    assert_eq!(s.child, Some(5));
}

#[test]
fn status_probes_child_and_forgets_exited_one() {
    let mut s = sup(None);
    let (_, a) = handle(Phase::Parsing, &mut s, DaemonEvent::Parsed(Request::Status));
    let r = sent(a);
    assert!(matches!(single(&r).1, JsonValue::Bool(false)));

    let mut s = sup(Some(77));
    let (p, a) = handle(Phase::Parsing, &mut s, DaemonEvent::Parsed(Request::Status));
    assert!(matches!(a, DaemonAction::Probe));
    let (_, a) = handle(p, &mut s, DaemonEvent::Probed(ChildExit::Running));
    assert!(matches!(single(&sent(a)).1, JsonValue::Bool(true)));
    assert_eq!(s.child, Some(77));

    let (p, _) = handle(Phase::Parsing, &mut s, DaemonEvent::Parsed(Request::Status));
    let (_, a) = handle(p, &mut s, DaemonEvent::Probed(ChildExit::Exited));
    assert!(matches!(single(&sent(a)).1, JsonValue::Bool(false)));
    assert_eq!(s.child, None);
}

#[test]
fn stop_kills_child_then_replies() {
    let mut s = sup(Some(9));
    let (p, a) = handle(Phase::Parsing, &mut s, DaemonEvent::Parsed(Request::Stop));
    assert!(matches!(a, DaemonAction::KillChild(9)));
    assert_eq!(s.child, None);
    let (p, a) = handle(p, &mut s, DaemonEvent::Done);
    assert!(matches!(p, Phase::Replying));
    let r = sent(a);
    assert!(r.ok && r.error.is_none() && r.data.is_none());

    let mut s = sup(None);
    let (_, a) = handle(Phase::Parsing, &mut s, DaemonEvent::Parsed(Request::Stop));
    assert!(sent(a).ok);
}

fn start_request() -> Request {
    Request::Start {
        mihomo: "/opt/mihomo".to_string(),
        config: "mode: rule\n".to_string(),
        workdir: "/Users/me/Library/Application Support/CryptDoor".to_string(),
    }
}

#[test]
fn start_runs_every_step_and_records_child() {
    let mut s = sup(Some(3));
    let (p, a) = handle(Phase::Parsing, &mut s, DaemonEvent::Parsed(start_request()));
    assert!(matches!(a, DaemonAction::KillChild(3)));
    assert!(matches!(p, Phase::Starting(_, StartStage::StopOld)));
    let (p, a) = handle(p, &mut s, DaemonEvent::Done);
    match a {
        DaemonAction::KillStrays(cmds) => {
            assert_eq!(cmds.len(), 3);
            assert_eq!(cmds[0].program, "/usr/bin/pkill");
            assert_eq!(cmds[0].args, vec!["-9", "-f", "cryptdoor-app/src-tauri/target/.*/mihomo"]);
        }
        _ => panic!("expected stray kill"),
    }
    let (p, a) = handle(p, &mut s, DaemonEvent::Done);
    assert!(matches!(a, DaemonAction::CreateDir(ref d) if d == "/Users/me/Library/Application Support/CryptDoor"));
    let (p, a) = handle(p, &mut s, DaemonEvent::Done);
    match a {
        DaemonAction::WriteFile { path, contents } => {
            assert_eq!(path, "/Users/me/Library/Application Support/CryptDoor/config.yaml");
            assert_eq!(contents, "mode: rule\n");
        }
        _ => panic!("expected write"),
    }
    let (p, a) = handle(p, &mut s, DaemonEvent::Done);
    assert!(matches!(a, DaemonAction::OpenLog(ref l) if l == "/Users/me/Library/Application Support/CryptDoor/mihomo.log"));
    let (p, a) = handle(p, &mut s, DaemonEvent::Done);
    assert!(matches!(a, DaemonAction::CloneLog));
    let (p, a) = handle(p, &mut s, DaemonEvent::Done);
    match a {
        DaemonAction::Spawn(c) => {
            assert_eq!(c.program, "/opt/mihomo");
            assert_eq!(
                c.args,
                vec![
                    "-d",
                    "/Users/me/Library/Application Support/CryptDoor",
                    "-f",
                    "/Users/me/Library/Application Support/CryptDoor/config.yaml"
                ]
            );
        }
        _ => panic!("expected spawn"),
    }
    let (p, a) = handle(p, &mut s, DaemonEvent::Spawned(4242));
    assert!(matches!(p, Phase::Replying));
    assert_eq!(s.child, Some(4242));
    let r = sent(a);
    assert!(r.ok);
    let (k, v) = single(&r);
    assert_eq!(k, "pid");
    assert!(matches!(v, JsonValue::Null));
}

#[test]
fn failed_start_steps_report_their_cause() {
    let cases = [
        (1, "create workdir failed: Permission denied (os error 13)"),
        (2, "write config failed: Permission denied (os error 13)"),
        (3, "open log failed: Permission denied (os error 13)"),
        (4, "clone log failed: Permission denied (os error 13)"),
        (5, "spawn mihomo failed: Permission denied (os error 13)"),
    ];
    for (done_steps, expected) in cases {
        let mut s = sup(None);
        let (mut p, a) = handle(Phase::Parsing, &mut s, DaemonEvent::Parsed(start_request()));
        assert!(matches!(a, DaemonAction::KillStrays(_)));
        for _ in 0..done_steps {
            let (np, _) = handle(p, &mut s, DaemonEvent::Done);
            p = np;
        }
        let (p, a) = handle(p, &mut s, DaemonEvent::Failed("Permission denied (os error 13)".to_string()));
        assert!(matches!(p, Phase::Replying));
        let r = sent(a);
        assert!(!r.ok);
        assert_eq!(r.error.as_deref(), Some(expected));
        assert_eq!(s.child, None);
    }
}

#[test]
fn unexpected_events_are_ignored() {
    let mut s = sup(Some(1));
    let (p, a) = handle(Phase::Reading, &mut s, DaemonEvent::Done);
    assert!(matches!(p, Phase::Reading));
    assert!(matches!(a, DaemonAction::Ignore));
    let (p, a) = handle(Phase::Closed, &mut s, DaemonEvent::Line("x".to_string()));
    assert!(matches!(p, Phase::Closed));
    assert!(matches!(a, DaemonAction::Ignore));
    let (p, a) = handle(Phase::Replying, &mut s, DaemonEvent::WriteFailed);
    assert!(matches!(p, Phase::Closed));
    assert!(matches!(a, DaemonAction::Close));
    assert_eq!(s.child, Some(1));
}

#[test]
fn stop_inner_releases_child() {
    let mut s = sup(Some(12));
    assert_eq!(stop_inner(&mut s), Some(12));
    assert_eq!(stop_inner(&mut s), None);
}

#[test]
fn stray_commands_cover_all_patterns() {
    let cmds = stray_kill_commands();
    let patterns: Vec<&str> = cmds.iter().map(|c| c.args[2].as_str()).collect();
    assert_eq!(
        patterns,
        vec![
            "cryptdoor-app/src-tauri/target/.*/mihomo",
            "cursor-sandbox-cache/.*/mihomo",
            "cryptdoor-app/.*sidecar/mihomo"
        ]
    );
}

#[test]
fn log_lines_and_time_stamps() {
    assert_eq!(log_line("1700000000", "listening"), "[1700000000] listening\n");
    assert_eq!(timestamp_text(Some(1_700_000_000)), "1700000000");
    assert_eq!(timestamp_text(None), "0");
    let now = chrono_now();
    assert!(!now.is_empty() && now.chars().all(|c| c.is_ascii_digit()));
}

#[test]
fn frame_appends_newline() {
    assert_eq!(frame(b"{\"ok\":true}".to_vec()), b"{\"ok\":true}\n".to_vec());
}

#[test]
fn client_reads_back_what_the_helper_replies() {
    let mut s = sup(None);
    let (_, a) = handle(Phase::Parsing, &mut s, DaemonEvent::Parsed(Request::Version));
    assert_eq!(reply_version(&sent(a).data), "0.3.1");
    let mut s = sup(Some(8));
    let (p, _) = handle(Phase::Parsing, &mut s, DaemonEvent::Parsed(Request::Status));
    let (_, a) = handle(p, &mut s, DaemonEvent::Probed(ChildExit::Running));
    assert!(reply_running(&sent(a).data));
}

#[test]
fn status_after_stop_reports_not_running() {
    let mut s = sup(Some(21));
    let (p, _) = handle(Phase::Parsing, &mut s, DaemonEvent::Parsed(Request::Stop));
    let (p, _) = handle(p, &mut s, DaemonEvent::Done);
    let (p, a) = handle(p, &mut s, DaemonEvent::Written);
    assert!(matches!(a, DaemonAction::ReadLine));
    let (p, _) = handle(p, &mut s, DaemonEvent::Line("{\"cmd\":\"status\"}".to_string()));
    let (_, a) = handle(p, &mut s, DaemonEvent::Parsed(Request::Status));
    let r = sent(a);
    assert!(matches!(single(&r).1, JsonValue::Bool(false)));
}

fn run(s: &mut Supervisor, mut p: Phase, events: Vec<DaemonEvent>) -> (Phase, Vec<DaemonAction>) {
    let mut actions = Vec::new();
    for ev in events {
        let (next, a) = handle(p, s, ev);
        p = next;
        actions.push(a);
    }
    (p, actions)
}

#[test]
fn not_running_stays_until_a_start_spawns() {
    let mut s = sup(None);
    let status = || DaemonEvent::Line("{\"cmd\":\"status\"}".to_string());
    let (_, actions) = run(
        &mut s,
        Phase::Reading,
        vec![
            status(),
            DaemonEvent::Parsed(Request::Status),
            DaemonEvent::Written,
            DaemonEvent::Line("{\"cmd\":\"version\"}".to_string()),
            DaemonEvent::Parsed(Request::Version),
            DaemonEvent::Written,
            status(),
            DaemonEvent::Parsed(Request::Status),
            DaemonEvent::Written,
            DaemonEvent::Line("{\"cmd\":\"stop\"}".to_string()),
            DaemonEvent::Parsed(Request::Stop),
            DaemonEvent::Written,
            status(),
            DaemonEvent::Parsed(Request::Status),
        ],
    );
    assert_eq!(s.child, None);
    let running: Vec<bool> = actions
        .iter()
        .filter_map(|a| match a {
            DaemonAction::Send(r) => match r.data.as_ref() {
                Some(JsonValue::Object(m)) if m[0].0 == "running" => Some(matches!(m[0].1, JsonValue::Bool(true))),
                _ => None,
            },
            _ => None,
        })
        .collect();
    assert_eq!(running, vec![false, false, false]);
}

#[test]
fn every_reply_has_the_shape_of_its_outcome() {
    let cases: Vec<(Option<u32>, DaemonEvent)> = vec![
        (None, DaemonEvent::Parsed(Request::Version)),
        (None, DaemonEvent::Parsed(Request::Status)),
        (None, DaemonEvent::Parsed(Request::Stop)),
        (None, DaemonEvent::Unparsable("expected value".to_string())),
    ];
    for (child, ev) in cases {
        let mut s = sup(child);
        let r = sent(handle(Phase::Parsing, &mut s, ev).1);
        assert_eq!(r.ok, r.error.is_none());
        if !r.ok {
            assert!(r.data.is_none());
            assert!(!r.error.as_deref().unwrap().is_empty());
        }
    }
    let mut s = sup(None);
    let (p, _) = handle(Phase::Parsing, &mut s, DaemonEvent::Parsed(start_request()));
    let (p, _) = handle(p, &mut s, DaemonEvent::Done);
    let (p, _) = handle(p, &mut s, DaemonEvent::Done);
    let r = sent(handle(p, &mut s, DaemonEvent::Failed("permission denied".to_string())).1);
    assert!(!r.ok && r.data.is_none() && !r.error.unwrap().is_empty());
    let mut s = sup(Some(4));
    let (p, _) = handle(Phase::Parsing, &mut s, DaemonEvent::Parsed(Request::Stop));
    let r = sent(handle(p, &mut s, DaemonEvent::Done).1);
    assert!(r.ok && r.data.is_none());
}
