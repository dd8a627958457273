use cryptdoor::commands::{
    build_menu, connection_status, disconnect_proxy, handle_menu_event, helper_status,
    ipv6_commands, keep_waiting, launched_at_login, list_network_services, port_timeout_message,
    service_listed, status, toggle_main_window, tray_set_status, ConnectArgs, MenuCommand,
};
use cryptdoor::daemon::ChildExit;
use cryptdoor::json::JsonValue;
use cryptdoor::mihomo::{
    default_mixed_port, first_present, is_running, join_path_for, local_start_plan, mihomo_binary_places,
    mihomo_candidates, sidecar_binary_name, start, started, stop, stop_blocking, BinaryBase, MihomoState,
    StartDecision,
};
use cryptdoor::platform::{current_triple, Arch, Os};
use cryptdoor::protocol::Response;

fn running_reply(b: bool) -> Response {
    Response::ok(JsonValue::Object(vec![("running".to_string(), JsonValue::Bool(b))]))
}

#[test]
fn connection_status_needs_helper_socket_and_running_reply() {
    let s = connection_status(true, true, Some(running_reply(true)));
    assert!(s.running && s.helper_installed);
    assert_eq!((s.port, s.mode.as_str()), (7899, "tun"));
    let s = connection_status(true, true, Some(running_reply(false)));
    assert!(!s.running);
    assert_eq!(s.mode, "off");
    assert!(!connection_status(false, true, Some(running_reply(true))).running);
    assert!(!connection_status(true, false, Some(running_reply(true))).running);
    assert!(!connection_status(true, true, None).running);
    let refused = Response { ok: false, error: None, data: running_reply(true).data };
    assert!(!connection_status(true, true, Some(refused)).running);
    assert!(!connection_status(false, false, None).helper_installed);
}

#[test]
fn disconnect_reports_off() {
    let d = disconnect_proxy(true, true);
    assert!(d.send_stop);
    assert!(!d.status.running);
    assert_eq!(d.status.mode, "off");
    assert_eq!(d.status.port, 7899);
    let d = disconnect_proxy(false, false);
    assert!(!d.send_stop && !d.status.helper_installed);
    let s = status(true, false);
    assert!(s.running && !s.helper_installed);
    let args = ConnectArgs { config_yaml: "proxies: []".to_string() };
    assert_eq!(args.config_yaml, "proxies: []");
}

#[test]
fn helper_status_object() {
    let j = helper_status(true, true, Some("0.3.1".to_string()));
    match j {
        JsonValue::Object(m) => {
            let keys: Vec<&str> = m.iter().map(|(k, _)| k.as_str()).collect();
            assert_eq!(keys, vec!["installed", "socketReady", "version"]);
            assert!(matches!(m[2].1, JsonValue::Str(ref v) if v == "0.3.1"));
        }
        _ => panic!("expected object"),
    }
    match helper_status(true, false, Some("0.3.1".to_string())) {
        JsonValue::Object(m) => assert!(matches!(m[2].1, JsonValue::Null)),
        _ => panic!("expected object"),
    }
    match helper_status(false, true, None) {
        JsonValue::Object(m) => {
            assert!(matches!(m[0].1, JsonValue::Bool(false)));
            assert!(matches!(m[2].1, JsonValue::Null));
        }
        _ => panic!("expected object"),
    }
}

#[test]
fn windows_service_query() {
    assert!(service_listed(true, "\nSERVICE_NAME: CryptDoorHelper\n        TYPE : 10\n"));
    assert!(!service_listed(false, "SERVICE_NAME: CryptDoorHelper"));
    assert!(!service_listed(true, "[SC] EnumQueryServicesStatus:OpenService FAILED 1060"));
}

#[test]
fn tray_and_menu() {
    let m = build_menu(true);
    assert_eq!(m.len(), 3);
    assert_eq!((m[0].id.as_str(), m[0].label.as_str()), ("disconnect", "Disconnect"));
    assert_eq!(m[0].accelerator.as_deref(), Some("Cmd+D"));
    assert_eq!((m[1].id.as_str(), m[1].label.as_str(), m[1].accelerator.clone()), ("show", "Open CryptDoor", None));
    assert_eq!(m[2].accelerator.as_deref(), Some("Cmd+Q"));
    assert!(m.iter().all(|e| e.enabled));
    let m = build_menu(false);
    assert_eq!((m[0].id.as_str(), m[0].accelerator.as_deref()), ("connect", Some("Cmd+K")));
    assert!(m.iter().all(|e| e.enabled));
    let t = tray_set_status("Amsterdam", true);
    assert_eq!(t.tooltip, "CryptDoor — Amsterdam");
    assert!(t.connected_icon);
    let t = tray_set_status("Amsterdam", false);
    assert_eq!(t.tooltip, "CryptDoor");
    assert!(!t.connected_icon);
    assert_eq!(handle_menu_event("show"), MenuCommand::ShowWindow);
    assert_eq!(handle_menu_event("quit"), MenuCommand::Quit);
    assert_eq!(handle_menu_event("connect"), MenuCommand::EmitConnect);
    assert_eq!(handle_menu_event("disconnect"), MenuCommand::EmitDisconnect);
    assert_eq!(handle_menu_event("other"), MenuCommand::Nothing);
    assert!(toggle_main_window(Some(true)));
    assert!(!toggle_main_window(Some(false)));
    assert!(!toggle_main_window(None));
}

#[test]
fn autostart_flag() {
    let args = vec!["/Applications/CryptDoor.app".to_string(), "--autostart".to_string()];
    assert!(launched_at_login(&args));
    assert!(!launched_at_login(&vec!["app".to_string(), "--autostart=1".to_string()]));
    assert!(!launched_at_login(&Vec::new()));
}

#[test]
fn network_services_are_parsed_like_networksetup_lists_them() {
    let out = "An asterisk (*) denotes that a network service is disabled.\nWi-Fi\n*Thunderbolt Bridge\n  USB 10/100/1000 LAN \nBluetooth PAN (en5)\n\n";
    let expected: Vec<String> = out
        .lines()
        .skip(1)
        .map(|l| l.trim().trim_start_matches('*').trim().to_string())
        .filter(|s| !s.is_empty() && !s.contains('('))
        .collect();
    assert_eq!(list_network_services(out), expected);
    assert_eq!(expected, vec!["Wi-Fi", "Thunderbolt Bridge", "USB 10/100/1000 LAN"]);
    assert!(list_network_services("").is_empty());
    assert!(list_network_services("header only").is_empty());
}

#[test]
fn ipv6_commands_per_service() {
    let services = vec!["Wi-Fi".to_string(), "Ethernet".to_string()];
    let off = ipv6_commands(&services, true);
    assert_eq!(off.len(), 2);
    assert_eq!(off[0].program, "networksetup");
    assert_eq!(off[1].args, vec!["-setv6off", "Ethernet"]);
    let on = ipv6_commands(&services, false);
    assert_eq!(on[0].args, vec!["-setv6automatic", "Wi-Fi"]);
}

#[test]
fn port_wait_message_and_deadline() {
    for d in [
        std::time::Duration::from_secs(12),
        std::time::Duration::ZERO,
        std::time::Duration::from_millis(500),
        std::time::Duration::from_millis(1500),
    ] {
        let msg = port_timeout_message(7899, d.as_secs(), d.subsec_nanos());
        let expected = format!("mihomo didn't open port {} within {:?} — check your VLESS key", 7899, d);
        assert_eq!(msg, expected);
    }
    assert_eq!(
        port_timeout_message(7899, 0, 0),
        "mihomo didn't open port 7899 within 0ns — check your VLESS key"
    );
    assert!(keep_waiting(10, 11));
    assert!(!keep_waiting(11, 11));
    assert!(!keep_waiting(0, 0));
}

#[test]
fn durations_are_written_like_debug() {
    let secs = [0u64, 1, 12, 59, 3600, u64::MAX];
    let nanos = [
        0u32, 1, 9, 10, 999, 1_000, 1_001, 1_500, 999_999, 1_000_000, 1_000_001, 1_230_000, 500_000_000,
        999_999_999, 100_000_000, 10,
    ];
    for s in secs {
        for n in nanos {
            let d = std::time::Duration::new(s, n);
            assert_eq!(cryptdoor::text::duration_text(s, n), format!("{:?}", d), "{} {}", s, n);
        }
    }
}

#[test]
fn mihomo_supervision() {
    assert_eq!(default_mixed_port(), 7899);
    let mut st = MihomoState { child: Some(10), config_path: Some("/d/config.yaml".to_string()) };
    assert!(is_running(&mut st, ChildExit::Running));
    assert!(matches!(start(&mut st, ChildExit::Running), StartDecision::AlreadyRunning(7899)));
    assert_eq!(st.child, Some(10));
    assert!(!is_running(&mut st, ChildExit::Exited));
    assert_eq!(st.child, None);
    assert_eq!(st.config_path.as_deref(), Some("/d/config.yaml"));
    assert_eq!(started(&mut st, 11, "/e/config.yaml".to_string()), 7899);
    assert!(matches!(start(&mut st, ChildExit::Exited), StartDecision::Launch { kill: Some(11) }));
    assert_eq!(st.child, None);
    started(&mut st, 12, "/e/config.yaml".to_string());
    assert_eq!(stop(&mut st), Some(12));
    assert_eq!(stop_blocking(&mut st), None);
    assert!(!is_running(&mut st, ChildExit::Running));
}

#[test]
fn binary_candidates_and_triples() {
    assert_eq!(current_triple(Os::MacOs, Arch::Aarch64), "aarch64-apple-darwin");
    assert_eq!(current_triple(Os::MacOs, Arch::X86_64), "x86_64-apple-darwin");
    assert_eq!(current_triple(Os::Windows, Arch::X86_64), "x86_64-pc-windows-msvc");
    assert_eq!(current_triple(Os::Linux, Arch::X86_64), "x86_64-unknown-linux-gnu");
    let c = mihomo_candidates(Os::MacOs, Arch::Aarch64);
    let names: Vec<(BinaryBase, &str)> = c.iter().map(|(b, n)| (*b, n.as_str())).collect();
    assert_eq!(
        names,
        vec![
            (BinaryBase::ExeDir, "mihomo"),
            (BinaryBase::ExeDir, "mihomo-aarch64-apple-darwin"),
            (BinaryBase::DevSidecar, "mihomo-aarch64-apple-darwin"),
            (BinaryBase::DevSidecar, "mihomo"),
        ]
    );
    assert_eq!(first_present(&vec![false, true, true]), Some(1));
    assert_eq!(first_present(&vec![false, false]), None);
    assert_eq!(first_present(&Vec::new()), None);
    assert_eq!(sidecar_binary_name(Os::Windows), "mihomo.exe");
    assert_eq!(sidecar_binary_name(Os::MacOs), "mihomo");
}

#[test]
fn local_binary_places_and_start_plan() {
    let places: Vec<(BinaryBase, String)> = mihomo_binary_places(Os::MacOs);
    assert_eq!(
        places,
        vec![
            (BinaryBase::Resource, "sidecar/mihomo".to_string()),
            (BinaryBase::ExeDir, "mihomo".to_string()),
            (BinaryBase::DevSidecar, "mihomo".to_string()),
        ]
    );
    assert_eq!(mihomo_binary_places(Os::Windows)[2].1, "mihomo.exe");

    let dir = "/Users/me/Library/Application Support/CryptDoor";
    let plan = local_start_plan(Os::MacOs, "/Applications/CryptDoor.app/Contents/Resources/sidecar/mihomo", dir);
    let config = std::path::Path::new(dir).join("config.yaml");
    assert_eq!(plan.config_path, config.to_string_lossy());
    assert_eq!(plan.log_path, std::path::Path::new(dir).join("mihomo.log").to_string_lossy());
    assert_eq!(plan.command.program, "/Applications/CryptDoor.app/Contents/Resources/sidecar/mihomo");
    assert_eq!(plan.command.args, vec!["-d".to_string(), dir.to_string(), "-f".to_string(), config.to_string_lossy().to_string()]);

    for base in ["/a/b", "/a/b/", "", "rel"] {
        assert_eq!(join_path_for(Os::Linux, base, "config.yaml"), std::path::Path::new(base).join("config.yaml").to_string_lossy());
    }
    assert_eq!(join_path_for(Os::Windows, "C:\\Users\\me\\CryptDoor", "config.yaml"), "C:\\Users\\me\\CryptDoor\\config.yaml");
    assert_eq!(join_path_for(Os::Windows, "C:", "config.yaml"), "C:config.yaml");
    assert_eq!(join_path_for(Os::Windows, "C:/data/", "config.yaml"), "C:/data/config.yaml");
    for (base, joined) in [
        (r"\\?\C:\Users\me\CryptDoor", r"\\?\C:\Users\me\CryptDoor\config.yaml"),
        (r"\\?\C:\Users\\me\", r"\\?\C:\Users\me\config.yaml"),
        (r"\\?\C:", r"\\?\C:\config.yaml"),
        (r"\\?\C:\", r"\\?\C:\config.yaml"),
        (r"\\?\UNC\srv\share\data", r"\\?\UNC\srv\share\data\config.yaml"),
        (r"\\?\UNC\srv", r"\\?\UNC\srv\config.yaml"),
        (r"\\?\Volume{x}\dir", r"\\?\Volume{x}\dir\config.yaml"),
    ] {
        assert_eq!(join_path_for(Os::Windows, base, "config.yaml"), joined);
    }
    let plan = local_start_plan(Os::Windows, "mihomo.exe", r"\\?\C:\Data\CryptDoor");
    assert_eq!(plan.config_path, r"\\?\C:\Data\CryptDoor\config.yaml");
    assert_eq!(plan.log_path, r"\\?\C:\Data\CryptDoor\mihomo.log");
}
