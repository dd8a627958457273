use cryptdoor::daemon::join_path;
use cryptdoor::failure::{fail, fail_chain, Failure};
use cryptdoor::protocol::debug_option;
use cryptdoor::text::{
    chars_of, str_concat, contains_char, contains_str, decimal, is_whitespace, join, split_lines,
    string_of, trim,
};

#[test]
fn whitespace_matches_std_for_every_char() {
    for code in 0u32..=0x10FFFF {
        if let Some(c) = char::from_u32(code) {
            assert_eq!(is_whitespace(c), c.is_whitespace(), "U+{:04X}", code);
        }
    }
}

#[test]
fn trim_matches_std() {
    let samples = [
        "",
        "   ",
        "abc",
        "  abc  ",
        "\t\n x y \r\n",
        "\u{3000}full width\u{2003}",
        "\u{85}next line\u{a0}",
        "*Wi-Fi",
        " a\u{200b} ",
    ];
    for s in samples {
        assert_eq!(trim(s), s.trim(), "{:?}", s);
    }
}

#[test]
fn split_lines_matches_std() {
    let samples = [
        "",
        "\n",
        "one",
        "one\n",
        "one\ntwo",
        "one\r\ntwo\r\n",
        "a\n\nb\n",
        "trailing cr\r",
        "mid\rcr\nx",
        "\r\n\r\n",
        "An asterisk (*) denotes that a network service is disabled.\nWi-Fi\n*Ethernet\n",
    ];
    for s in samples {
        let expected: Vec<String> = s.lines().map(String::from).collect();
        assert_eq!(split_lines(s), expected, "{:?}", s);
    }
}

#[test]
fn decimal_matches_display() {
    for n in [0u64, 7, 9, 10, 42, 99, 100, 7899, 1_700_000_000, u64::MAX] {
        assert_eq!(decimal(n), n.to_string());
    }
}

#[test]
fn chars_and_slices() {
    let v = chars_of("héllo");
    assert_eq!(v, vec!['h', 'é', 'l', 'l', 'o']);
    assert_eq!(string_of(&v, 1, 4), "éll");
    assert_eq!(str_concat("ab", "cd"), "abcd");
    assert!(contains_char("Bluetooth PAN (en3)", '('));
    assert!(!contains_char("Wi-Fi", '('));
    assert!(contains_str("SERVICE_NAME: CryptDoorHelper", "SERVICE_NAME"));
    assert!(!contains_str("service_name", "SERVICE_NAME"));
    assert!(contains_str("abc", ""));
    assert!(!contains_str("ab", "abc"));
}

#[test]
fn join_puts_separator_between_parts() {
    let parts = vec!["a".to_string(), "b".to_string(), "c".to_string()];
    assert_eq!(join(&parts, ": "), "a: b: c");
    assert_eq!(join(&Vec::new(), ": "), "");
    assert_eq!(join(&vec!["only".to_string()], ", "), "only");
}

#[test]
fn join_path_matches_std_path_join() {
    for base in ["", "/", "/tmp", "/tmp/", "work dir", "a/b"] {
        for name in ["config.yaml", "mihomo.log"] {
            let expected = std::path::Path::new(base).join(name);
            assert_eq!(join_path(base, name), expected.to_string_lossy(), "{:?} {:?}", base, name);
        }
    }
}

#[test]
fn fail_chain_matches_alternate_display_of_context_chain() {
    let inner = anyhow::Error::msg("connection refused");
    let outer = inner.context("send Start to helper").context("connecting");
    let chain: Vec<String> = outer.chain().map(|e| e.to_string()).collect();
    let f = Failure { chain };
    assert_eq!(fail_chain(&f), format!("{outer:#}"));
    assert_eq!(fail_chain(&f), "connecting: send Start to helper: connection refused");
}

#[test]
fn failure_context_puts_message_first() {
    let f = Failure::msg("timeout".to_string()).context("helper not responding".to_string());
    assert_eq!(f.chain, vec!["helper not responding".to_string(), "timeout".to_string()]);
    assert_eq!(fail("plain"), "plain");
}

#[test]
fn debug_option_matches_std_debug() {
    let cases = [None, Some("boom".to_string()), Some("quote \" and \\ and\nnewline".to_string())];
    for c in cases {
        assert_eq!(debug_option(&c), format!("{:?}", c));
    }
}
