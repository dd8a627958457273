use cryptdoor::platform::Os;
use cryptdoor::failure::fail_chain;
use cryptdoor::tun_config::{tun_block, wrap_with_tun, wrap_with_tun_text, ConfigError};
use cryptdoor::yaml::YamlValue;
use serde_yaml::Value;

const TUN_MAC: &str = r#"
enable: true
stack: system
dns-hijack:
  - any:53
  - tcp://any:53
auto-route: true
auto-redirect: true
auto-detect-interface: true
mtu: 9000
inet4-address:
  - 198.18.0.1/16
inet6-address:
  - "fdfe:dcba:9876::1/126"
"#;

const TUN_WIN: &str = r#"
enable: true
stack: system
dns-hijack:
  - any:53
  - tcp://any:53
auto-route: true
auto-detect-interface: true
mtu: 1500
inet4-address:
  - 198.18.0.1/16
inet6-address:
  - "fdfe:dcba:9876::1/126"
"#;

const TUN_OTHER: &str = r#"
enable: true
stack: system
dns-hijack:
  - any:53
auto-route: true
auto-detect-interface: true
mtu: 1500
inet4-address:
  - 198.18.0.1/16
"#;

fn from_lib(v: YamlValue) -> Value {
    match v {
        YamlValue::Null => Value::Null,
        YamlValue::Bool(b) => Value::Bool(b),
        YamlValue::Number(n) => serde_yaml::from_str(&n).unwrap(),
        YamlValue::Str(s) => Value::String(s),
        YamlValue::List(items) => Value::Sequence(items.into_iter().map(from_lib).collect()),
        YamlValue::Mapping(m) => {
            let mut out = serde_yaml::Mapping::new();
            for (k, v) in m {
                out.insert(from_lib(k), from_lib(v));
            }
            Value::Mapping(out)
        }
        YamlValue::Tagged(t, inner) => Value::Tagged(Box::new(serde_yaml::value::TaggedValue {
            tag: serde_yaml::value::Tag::new(t),
            value: from_lib(*inner),
        })),
    }
}

// The wrapping as the application originally performed it with serde_yaml.
fn serde_yaml_wrap(user_yaml: &str, tun_yaml: &str) -> Result<String, String> {
    let mut root: Value = serde_yaml::from_str(user_yaml).map_err(|e| e.to_string())?;
    let map = root.as_mapping_mut().ok_or_else(|| "config root is not a mapping".to_string())?;
    map.insert(Value::String("tun".into()), serde_yaml::from_str(tun_yaml).unwrap());
    map.insert(Value::String("mode".into()), Value::String("rule".into()));
    map.insert(Value::String("log-level".into()), Value::String("info".into()));
    map.insert(Value::String("ipv6".into()), Value::Bool(true));
    if let Some(dns_val) = map.get_mut(&Value::String("dns".into())) {
        if let Some(dns_map) = dns_val.as_mapping_mut() {
            dns_map.insert(Value::String("ipv6".into()), Value::Bool(true));
        }
    }
    Ok(serde_yaml::to_string(&root).unwrap())
}

fn library_wrap(user_yaml: &str, os: Os) -> Result<String, String> {
    wrap_with_tun_text(user_yaml, os).map_err(|f| fail_chain(&f))
}

const USER: &str = r#"
mixed-port: 7899
mode: global
proxies:
  - name: vless-node
    type: vless
    server: example.com
    port: 443
    uuid: 00000000-0000-0000-0000-000000000000
    reality-opts:
      public-key: abc
dns:
  enable: true
  nameserver:
    - 1.1.1.1
proxy-groups:
  - name: PROXY
    type: select
    proxies: [vless-node]
rules:
  - MATCH,PROXY
"#;

#[test]
fn wrapping_matches_serde_yaml_for_each_os() {
    for (os, tun) in [(Os::MacOs, TUN_MAC), (Os::Windows, TUN_WIN), (Os::Linux, TUN_OTHER), (Os::Other, TUN_OTHER)] {
        assert_eq!(library_wrap(USER, os), serde_yaml_wrap(USER, tun));
    }
}

#[test]
fn existing_settings_are_replaced_in_place() {
    let user = "ipv6: false\nlog-level: debug\nmode: direct\ntun:\n  enable: false\nextra: 1\n";
    let out = library_wrap(user, Os::Windows).unwrap();
    assert_eq!(out, serde_yaml_wrap(user, TUN_WIN).unwrap());
    assert!(out.starts_with("ipv6: true\nlog-level: info\nmode: rule\ntun:\n"));
    assert!(out.ends_with("extra: 1\n"));
}

#[test]
fn dns_that_is_not_a_mapping_is_left_alone() {
    let user = "dns: 8.8.8.8\nproxies: []\n";
    assert_eq!(library_wrap(user, Os::MacOs), serde_yaml_wrap(user, TUN_MAC));
    let user = "dns: {ipv6: false, enable: true}\n";
    let out = library_wrap(user, Os::MacOs).unwrap();
    assert_eq!(Ok(out.clone()), serde_yaml_wrap(user, TUN_MAC));
    assert!(out.starts_with("dns:\n  ipv6: true\n  enable: true\n"));
}

#[test]
fn tagged_root_keeps_its_tag() {
    let user = "!custom\nproxies: []\n";
    assert_eq!(library_wrap(user, Os::Linux), serde_yaml_wrap(user, TUN_OTHER));
}

#[test]
fn root_that_is_not_a_mapping_is_refused() {
    assert_eq!(library_wrap("", Os::MacOs), serde_yaml_wrap("", TUN_MAC));
    for user in ["- a\n- b\n", "just text", "42"] {
        assert_eq!(library_wrap(user, Os::MacOs), Err("config root is not a mapping".to_string()));
        assert_eq!(serde_yaml_wrap(user, TUN_MAC), Err("config root is not a mapping".to_string()));
    }
    let r = wrap_with_tun(YamlValue::List(vec![]), Os::MacOs);
    assert!(matches!(r, Err(ConfigError::RootNotMapping)));
}

#[test]
fn wrapping_twice_changes_nothing() {
    let once = library_wrap(USER, Os::MacOs).unwrap();
    let twice = library_wrap(&once, Os::MacOs).unwrap();
    assert_eq!(once, twice);
}

#[test]
fn tun_block_matches_platform_text() {
    for (os, tun) in [(Os::MacOs, TUN_MAC), (Os::Windows, TUN_WIN), (Os::Other, TUN_OTHER)] {
        let expected: Value = serde_yaml::from_str(tun).unwrap();
        assert_eq!(from_lib(tun_block(os)), expected);
    }
}

#[test]
fn unreadable_text_is_refused_with_the_reader_message() {
    for user in ["proxies: [a, b\n", "key: \"open\n", "a: b\n  c: d\n"] {
        let expected = serde_yaml::from_str::<Value>(user).unwrap_err().to_string();
        assert_eq!(library_wrap(user, Os::Linux), Err(expected.clone()));
        assert_eq!(serde_yaml_wrap(user, TUN_OTHER), Err(expected));
    }
}

#[test]
fn numbers_tags_and_nesting_survive_the_round_trip() {
    let user = "port: 7890\nratio: 1.5\nbig: 18446744073709551615\nneg: -3\nnan: .nan\nt: !foo bar\nnested:\n  - [1, [2, {x: y}]]\n";
    assert_eq!(library_wrap(user, Os::Windows), serde_yaml_wrap(user, TUN_WIN));
}
