use cryptdoor::client::{
    connect_proxy, connect_step, ping_step, ping_with_retry, ConnectAction, ConnectEvent,
    ConnectStage, PingAction, PingEvent, PingPhase,
};
use cryptdoor::failure::{fail_chain, Failure};
use cryptdoor::json::JsonValue;
use cryptdoor::platform::Os;
use cryptdoor::protocol::{reply_running, reply_version, Request, Response};

fn version_reply(v: &str) -> Response {
    Response::ok(JsonValue::Object(vec![("version".to_string(), JsonValue::Str(v.to_string()))]))
}

#[test]
fn ping_returns_version_on_first_success() {
    let (st, a) = ping_with_retry(3);
    assert!(matches!(a, PingAction::SendVersion));
    let (st, a) = ping_step(st, PingEvent::Replied(version_reply("1.2.3")));
    assert_eq!(st.phase, PingPhase::Finished);
    match a {
        PingAction::Finish(Ok(v)) => assert_eq!(v, "1.2.3"),
        _ => panic!("expected version"),
    }
}

#[test]
fn ping_retries_with_growing_pauses_then_fails() {
    let (mut st, mut a) = ping_with_retry(3);
    let mut pauses = Vec::new();
    let mut sends = 0;
    loop {
        match a {
            PingAction::SendVersion => {
                sends += 1;
                let r = ping_step(st, PingEvent::SendFailed(Failure::msg("connection refused".to_string())));
                st = r.0;
                a = r.1;
            }
            PingAction::Sleep(ms) => {
                pauses.push(ms);
                let r = ping_step(st, PingEvent::Slept);
                st = r.0;
                a = r.1;
            }
            PingAction::Finish(Err(f)) => {
                assert_eq!(fail_chain(&f), "connection refused");
                break;
            }
            _ => panic!("unexpected"),
        }
    }
    assert_eq!(sends, 3);
    assert_eq!(pauses, vec![200, 300, 400]);
}

#[test]
fn ping_error_reply_is_recorded_with_debug_text() {
    let (st, _) = ping_with_retry(1);
    let refused = Response::err("busy".to_string());
    let (st, a) = ping_step(st, PingEvent::Replied(refused));
    assert!(matches!(a, PingAction::Sleep(200)));
    let (_, a) = ping_step(st, PingEvent::Slept);
    match a {
        PingAction::Finish(Err(f)) => assert_eq!(fail_chain(&f), "helper returned error: Some(\"busy\")"),
        _ => panic!("expected failure"),
    }
}

#[test]
fn ping_without_attempts_is_not_attempted() {
    let (st, a) = ping_with_retry(0);
    assert_eq!(st.phase, PingPhase::Finished);
    match a {
        PingAction::Finish(Err(f)) => assert_eq!(fail_chain(&f), "not attempted"),
        _ => panic!("expected failure"),
    }
}

#[test]
fn reply_fields_default_when_missing() {
    assert_eq!(reply_version(&None), "");
    assert_eq!(reply_version(&Some(JsonValue::Object(vec![("version".into(), JsonValue::Bool(true))]))), "");
    assert!(!reply_running(&Some(JsonValue::Null)));
    assert!(reply_running(&Some(JsonValue::Object(vec![("running".into(), JsonValue::Bool(true))]))));
}

fn drive_to_workdir(os: Os, config: &str) -> (cryptdoor::client::ConnectFlow, ConnectAction) {
    let (f, a) = connect_proxy(true, os, config.to_string());
    assert!(matches!(a, ConnectAction::Ping(30)));
    let (f, a) = connect_step(f, ConnectEvent::Done);
    assert!(matches!(a, ConnectAction::LocateMihomo));
    let (f, a) = connect_step(f, ConnectEvent::Located("/app/mihomo".into()));
    assert!(matches!(a, ConnectAction::PrepareWorkdir));
    connect_step(f, ConnectEvent::WorkdirReady("/data/CryptDoor".into()))
}

fn drive_to_start(os: Os) -> (cryptdoor::client::ConnectFlow, ConnectAction) {
    drive_to_workdir(os, "proxies: []\n")
}

#[test]
fn connect_sends_start_then_waits_for_port() {
    let (f, a) = drive_to_start(Os::Windows);
    match a {
        ConnectAction::Send(Request::Start { mihomo, config, workdir }) => {
            assert_eq!(mihomo, "/app/mihomo");
            let v: serde_yaml::Value = serde_yaml::from_str(&config).unwrap();
            let keys: Vec<&str> = v.as_mapping().unwrap().keys().map(|k| k.as_str().unwrap()).collect();
            assert_eq!(keys, vec!["proxies", "tun", "mode", "log-level", "ipv6"]);
            assert_eq!(v["tun"]["stack"].as_str(), Some("system"));
            assert_eq!(workdir, "/data/CryptDoor");
        }
        _ => panic!("expected start"),
    }
    let (f, a) = connect_step(f, ConnectEvent::Replied(Response::ok_empty()));
    assert!(matches!(a, ConnectAction::WaitForPort { port: 7899, timeout_secs: 12 }));
    let (f, a) = connect_step(f, ConnectEvent::Done);
    assert_eq!(f.stage, ConnectStage::Finished);
    match a {
        ConnectAction::Finish(Ok(s)) => {
            assert!(s.running && s.helper_installed);
            assert_eq!(s.port, 7899);
            assert_eq!(s.mode, "tun");
        }
        _ => panic!("expected success"),
    }
}

#[test]
fn connect_on_macos_disables_ipv6_last() {
    let (f, _) = drive_to_start(Os::MacOs);
    let (f, _) = connect_step(f, ConnectEvent::Replied(Response::ok_empty()));
    let (f, a) = connect_step(f, ConnectEvent::Done);
    assert!(matches!(a, ConnectAction::DisableIpv6));
    let (_, a) = connect_step(f, ConnectEvent::Failed(Failure::msg("networksetup failed".into())));
    assert!(matches!(a, ConnectAction::Finish(Ok(_))));
}

#[test]
fn connect_stops_helper_when_port_never_opens() {
    let (f, _) = drive_to_start(Os::Linux);
    let (f, _) = connect_step(f, ConnectEvent::Replied(Response::ok_empty()));
    let timeout = Failure::msg("mihomo didn't open port 7899 within 12s — check your VLESS key".into());
    let (f, a) = connect_step(f, ConnectEvent::Failed(timeout));
    assert!(matches!(a, ConnectAction::SendStop));
    let (_, a) = connect_step(f, ConnectEvent::Done);
    match a {
        ConnectAction::Finish(Err(e)) => {
            assert_eq!(fail_chain(&e), "mihomo didn't open port 7899 within 12s — check your VLESS key")
        }
        _ => panic!("expected failure"),
    }
}

#[test]
fn connect_reports_refused_start() {
    let (f, _) = drive_to_start(Os::Windows);
    let (_, a) = connect_step(f, ConnectEvent::Replied(Response::err("spawn mihomo failed: nope".into())));
    match a {
        ConnectAction::Finish(Err(e)) => assert_eq!(fail_chain(&e), "helper returned error: spawn mihomo failed: nope"),
        _ => panic!("expected failure"),
    }
    let (f, _) = drive_to_start(Os::Windows);
    let (_, a) = connect_step(f, ConnectEvent::Replied(Response { ok: false, error: None, data: None }));
    match a {
        ConnectAction::Finish(Err(e)) => assert_eq!(fail_chain(&e), "helper returned error: "),
        _ => panic!("expected failure"),
    }
}

#[test]
fn connect_failures_carry_context() {
    let (f, a) = connect_proxy(false, Os::MacOs, String::new());
    assert!(matches!(a, ConnectAction::InstallHelper));
    let (_, a) = connect_step(f, ConnectEvent::Failed(Failure::msg("install cancelled or failed: User canceled.".into())));
    match a {
        ConnectAction::Finish(Err(e)) => assert_eq!(
            fail_chain(&e),
            "installing TUN component: install cancelled or failed: User canceled."
        ),
        _ => panic!("expected failure"),
    }
    let (f, _) = connect_proxy(true, Os::MacOs, String::new());
    let (_, a) = connect_step(f, ConnectEvent::Failed(Failure::msg("not attempted".into())));
    match a {
        ConnectAction::Finish(Err(e)) => assert_eq!(fail_chain(&e), "helper not responding: not attempted"),
        _ => panic!("expected failure"),
    }
}

#[test]
fn connect_refuses_config_that_is_not_a_mapping() {
    let (f, a) = drive_to_workdir(Os::Windows, "oops");
    assert_eq!(f.stage, ConnectStage::Finished);
    match a {
        ConnectAction::Finish(Err(e)) => assert_eq!(fail_chain(&e), "config root is not a mapping"),
        _ => panic!("expected failure"),
    }
    let (_, a) = connect_step(f, ConnectEvent::Done);
    assert!(matches!(a, ConnectAction::Ignore));
}

#[test]
fn connect_reports_unreadable_config() {
    let text = "proxies: [a, b\n";
    let expected = serde_yaml::from_str::<serde_yaml::Value>(text).unwrap_err().to_string();
    let (f, a) = drive_to_workdir(Os::Linux, text);
    assert_eq!(f.stage, ConnectStage::Finished);
    match a {
        ConnectAction::Finish(Err(e)) => assert_eq!(fail_chain(&e), expected),
        _ => panic!("expected failure"),
    }
}

fn run_ping(max: u32, mut outcomes: Vec<Result<Response, Failure>>) -> (Result<String, String>, usize) {
    outcomes.reverse();
    let (mut st, mut a) = ping_with_retry(max);
    let mut sends = 0;
    loop {
        let ev = match a {
            PingAction::SendVersion => {
                sends += 1;
                match outcomes.pop().expect("an outcome per attempt") {
                    Ok(r) => PingEvent::Replied(r),
                    Err(f) => PingEvent::SendFailed(f),
                }
            }
            PingAction::Sleep(_) => PingEvent::Slept,
            PingAction::Finish(r) => return (r.map_err(|f| fail_chain(&f)), sends),
            PingAction::Ignore => panic!("unexpected"),
        };
        let (next, act) = ping_step(st, ev);
        st = next;
        a = act;
    }
}

#[test]
fn ping_stops_at_the_first_good_reply_or_reports_the_last_failure() {
    let refused = || Failure::msg("connection refused".to_string());
    let (r, sends) = run_ping(
        4,
        vec![Err(refused()), Ok(Response::err("busy".to_string())), Ok(version_reply("0.3.1")), Err(refused())],
    );
    assert_eq!(r, Ok("0.3.1".to_string()));
    assert_eq!(sends, 3);
    let (r, sends) = run_ping(3, vec![Err(refused()), Err(refused()), Ok(Response::err("busy".to_string()))]);
    assert_eq!(r, Err("helper returned error: Some(\"busy\")".to_string()));
    assert_eq!(sends, 3);
}
