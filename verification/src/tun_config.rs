//! Wraps the user's proxy configuration with the TUN-mode top-level settings,
//! so that mihomo creates a tun device, hijacks DNS and routes all traffic
//! through the proxy.
use vstd::prelude::*;
use crate::platform::Os;
use crate::failure::Failure;
use crate::yaml_text::{emit_yaml, parse_yaml, yaml_emit, yaml_parse};
use crate::yaml::{
    lemma_find_key_at, lemma_find_key_none,
    YamlValue, YamlView, entries_view, find_key, find_str_key, lemma_find_key, lemma_untag_is_untagged,
    lemma_untag_wrap, map_get, map_insert, mapping_insert, retag, skey, tags_of, untag,
    untag_value, with_untagged, ylist, ymap, ynum, ystr, items_view,
    lemma_mapping_view, yaml_wf, entries_wf, keys_unique, lemma_mapping_wf, lemma_tags_wf,
    lemma_untag_wf, lemma_insert_wf,
};

verus! {

/// Why a configuration cannot be wrapped.
#[derive(PartialEq, Eq, Structural, Clone, Copy, Debug)]
pub enum ConfigError {
    /// The document's top level is no mapping.
    RootNotMapping,
}

impl ConfigError {
    /// The message shown for this error.
    pub fn message(&self) -> (m: String)
        ensures
            m@ == "config root is not a mapping"@,
    {
        crate::text::owned("config root is not a mapping")
    }
}

pub open spec fn sv(s: Seq<char>) -> YamlView {
    YamlView::Str(s)
}

/// The `tun` section for the given operating system.
pub open spec fn tun_entries(os: Os) -> Seq<(YamlView, YamlView)> {
    let mac = os == Os::MacOs;
    let win = os == Os::Windows;
    let hijack = if mac || win {
        seq![sv("any:53"@), sv("tcp://any:53"@)]
    } else {
        seq![sv("any:53"@)]
    };
    let head = seq![
        (skey("enable"@), YamlView::Bool(true)),
        (skey("stack"@), sv("system"@)),
        (skey("dns-hijack"@), YamlView::List(hijack)),
        (skey("auto-route"@), YamlView::Bool(true)),
    ];
    let redirect = if mac {
        seq![(skey("auto-redirect"@), YamlView::Bool(true))]
    } else {
        seq![]
    };
    let mtu = if mac {
        "9000"@
    } else {
        "1500"@
    };
    let middle = seq![
        (skey("auto-detect-interface"@), YamlView::Bool(true)),
        (skey("mtu"@), YamlView::Number(mtu)),
        (skey("inet4-address"@), YamlView::List(seq![sv("198.18.0.1/16"@)])),
    ];
    let v6 = if mac || win {
        seq![(skey("inet6-address"@), YamlView::List(seq![sv("fdfe:dcba:9876::1/126"@)]))]
    } else {
        seq![]
    };
    head + redirect + middle + v6
}

/// The `tun` section as a YAML value.
pub open spec fn tun_section(os: Os) -> YamlView {
    YamlView::Mapping(tun_entries(os))
}

/// Sets `ipv6: true` inside the `dns` section, when there is one and it is a mapping.
pub open spec fn dns_ipv6(e: Seq<(YamlView, YamlView)>) -> Seq<(YamlView, YamlView)> {
    let i = find_key(e, skey("dns"@));
    if i >= 0 && untag(e[i].1) is Mapping {
        e.update(
            i,
            (
                e[i].0,
                with_untagged(
                    e[i].1,
                    YamlView::Mapping(
                        map_insert(untag(e[i].1)->Mapping_0, skey("ipv6"@), YamlView::Bool(true)),
                    ),
                ),
            ),
        )
    } else {
        e
    }
}

/// The top-level entries after the TUN settings are applied.
pub open spec fn wrap_entries(e: Seq<(YamlView, YamlView)>, os: Os) -> Seq<(YamlView, YamlView)> {
    let e1 = map_insert(e, skey("tun"@), tun_section(os));
    let e2 = map_insert(e1, skey("mode"@), sv("rule"@));
    let e3 = map_insert(e2, skey("log-level"@), sv("info"@));
    let e4 = map_insert(e3, skey("ipv6"@), YamlView::Bool(true));
    dns_ipv6(e4)
}

/// The wrapped document, or `None` when the top level is no mapping.
pub open spec fn wrap_spec(root: YamlView, os: Os) -> Option<YamlView> {
    if untag(root) is Mapping {
        Some(with_untagged(root, YamlView::Mapping(wrap_entries(untag(root)->Mapping_0, os))))
    } else {
        None
    }
}

/// The `tun` section for the given operating system.
pub fn tun_block(os: Os) -> (r: YamlValue)
    ensures
        r@ == tun_section(os),
{
    let mac = os == Os::MacOs;
    let win = os == Os::Windows;
    let mut hijack: Vec<YamlValue> = Vec::new();
    hijack.push(ystr("any:53"));
    if mac || win {
        hijack.push(ystr("tcp://any:53"));
    }
    let ghost hv = items_view(hijack@);
    let mut e: Vec<(YamlValue, YamlValue)> = Vec::new();
    e.push((ystr("enable"), YamlValue::Bool(true)));
    e.push((ystr("stack"), ystr("system")));
    e.push((ystr("dns-hijack"), ylist(hijack)));
    e.push((ystr("auto-route"), YamlValue::Bool(true)));
    if mac {
        e.push((ystr("auto-redirect"), YamlValue::Bool(true)));
    }
    e.push((ystr("auto-detect-interface"), YamlValue::Bool(true)));
    if mac {
        e.push((ystr("mtu"), ynum("9000")));
    } else {
        e.push((ystr("mtu"), ynum("1500")));
    }
    let mut v4: Vec<YamlValue> = Vec::new();
    v4.push(ystr("198.18.0.1/16"));
    let ghost v4v = items_view(v4@);
    e.push((ystr("inet4-address"), ylist(v4)));
    let mut v6: Vec<YamlValue> = Vec::new();
    v6.push(ystr("fdfe:dcba:9876::1/126"));
    let ghost v6v = items_view(v6@);
    if mac || win {
        e.push((ystr("inet6-address"), ylist(v6)));
    }
    proof {
        if mac || win {
            assert(hv =~= seq![sv("any:53"@), sv("tcp://any:53"@)]);
        } else {
            assert(hv =~= seq![sv("any:53"@)]);
        }
        assert(v4v =~= seq![sv("198.18.0.1/16"@)]);
        assert(v6v =~= seq![sv("fdfe:dcba:9876::1/126"@)]);
        assert(entries_view(e@) =~= tun_entries(os));
    }
    ymap(e)
}

/// Sets `ipv6: true` in the `dns` section of the top-level entries.
fn set_dns_ipv6(e: &mut Vec<(YamlValue, YamlValue)>)
    ensures
        entries_view(final(e)@) == dns_ipv6(entries_view(old(e)@)),
{
    let ghost ev = entries_view(e@);
    match find_str_key(e, "dns") {
        None => {},
        Some(i) => {
            proof {
                lemma_find_key(ev, skey("dns"@));
            }
            let mut entry = (YamlValue::Null, YamlValue::Null);
            e.set_and_swap(i, &mut entry);
            let (k, v) = entry;
            let ghost vv = v@;
            let (tags, inner) = untag_value(v);
            match inner {
                YamlValue::Mapping(mut m) => {
                    proof {
                        lemma_mapping_view(m);
                    }
                    mapping_insert(&mut m, "ipv6", YamlValue::Bool(true));
                    let nv = retag(&tags, ymap(m));
                    e.set(i, (k, nv));
                    assert(entries_view(e@) =~= dns_ipv6(ev));
                },
                other => {
                    proof {
                        lemma_untag_is_untagged(vv);
                    }
                    let nv = retag(&tags, other);
                    e.set(i, (k, nv));
                    assert(entries_view(e@) =~= dns_ipv6(ev));
                },
            }
        },
    }
}

/// Applies the TUN-mode settings to a parsed configuration: the `tun`
/// section, `mode: rule`, `log-level: info`, `ipv6: true`, and `ipv6: true`
/// inside an existing `dns` section. Fails when the top level is no mapping.
pub fn wrap_with_tun(root: YamlValue, os: Os) -> (r: Result<YamlValue, ConfigError>)
    ensures
        match r {
            Ok(v) => wrap_spec(root@, os) == Some(v@),
            Err(err) => wrap_spec(root@, os) is None && err == ConfigError::RootNotMapping,
        },
{
    let ghost rv = root@;
    let (tags, inner) = untag_value(root);
    match inner {
        YamlValue::Mapping(mut e) => {
            proof {
                lemma_mapping_view(e);
            }
            mapping_insert(&mut e, "tun", tun_block(os));
            mapping_insert(&mut e, "mode", ystr("rule"));
            mapping_insert(&mut e, "log-level", ystr("info"));
            mapping_insert(&mut e, "ipv6", YamlValue::Bool(true));
            set_dns_ipv6(&mut e);
            Ok(retag(&tags, ymap(e)))
        },
        _ => Err(ConfigError::RootNotMapping),
    }
}

/// After inserting `k: v`, `k` is there and holds `v`.
pub proof fn lemma_insert_get(e: Seq<(YamlView, YamlView)>, k: YamlView, v: YamlView)
    ensures
        find_key(map_insert(e, k, v), k) >= 0,
        map_get(map_insert(e, k, v), k) == Some(v),
{
    lemma_find_key(e, k);
    let i = find_key(e, k);
    let e2 = map_insert(e, k, v);
    if i >= 0 {
        lemma_same_keys(e, e2, k);
    } else {
        lemma_find_key_at(e2, k, e.len() as int);
    }
}

/// Two entry lists with the same keys at the same places find keys alike.
pub proof fn lemma_same_keys(e1: Seq<(YamlView, YamlView)>, e2: Seq<(YamlView, YamlView)>, k: YamlView)
    requires
        e1.len() == e2.len(),
        forall|j: int| 0 <= j < e1.len() ==> #[trigger] e1[j].0 == e2[j].0,
    ensures
        find_key(e1, k) == find_key(e2, k),
{
    lemma_find_key(e1, k);
    let i = find_key(e1, k);
    if i >= 0 {
        assert forall|j: int| 0 <= j < i implies #[trigger] e2[j].0 != k by {
            assert(e1[j].0 != k);
        }
        lemma_find_key_at(e2, k, i);
    } else {
        assert forall|j: int| 0 <= j < e2.len() implies #[trigger] e2[j].0 != k by {
            assert(e1[j].0 != k);
        }
        lemma_find_key_none(e2, k);
    }
}

/// Inserting `k` leaves every other key where it was, with its value.
pub proof fn lemma_insert_other(e: Seq<(YamlView, YamlView)>, k: YamlView, v: YamlView, k2: YamlView)
    requires
        k2 != k,
    ensures
        find_key(map_insert(e, k, v), k2) == find_key(e, k2),
        map_get(map_insert(e, k, v), k2) == map_get(e, k2),
{
    lemma_find_key(e, k);
    lemma_find_key(e, k2);
    let i = find_key(e, k);
    let j = find_key(e, k2);
    let e2 = map_insert(e, k, v);
    if i >= 0 {
        lemma_same_keys(e, e2, k2);
    } else {
        if j >= 0 {
            lemma_find_key_at(e2, k2, j);
        } else {
            assert forall|m: int| 0 <= m < e2.len() implies #[trigger] e2[m].0 != k2 by {
                if m < e.len() {
                    assert(e2[m] == e[m]);
                }
            }
            lemma_find_key_none(e2, k2);
        }
    }
}

/// Inserting a key with the value it already has changes nothing.
pub proof fn lemma_insert_same(e: Seq<(YamlView, YamlView)>, k: YamlView, v: YamlView)
    requires
        map_get(e, k) == Some(v),
    ensures
        map_insert(e, k, v) == e,
{
    lemma_find_key(e, k);
    let i = find_key(e, k);
    assert(map_insert(e, k, v) =~= e);
}

/// The `dns` update keeps every key where it was.
pub proof fn lemma_dns_keys(e: Seq<(YamlView, YamlView)>)
    ensures
        dns_ipv6(e).len() == e.len(),
        forall|j: int| 0 <= j < e.len() ==> #[trigger] dns_ipv6(e)[j].0 == e[j].0,
        forall|j: int| 0 <= j < e.len() && j != find_key(e, skey("dns"@)) ==> #[trigger] dns_ipv6(e)[j] == e[j],
{
    lemma_find_key(e, skey("dns"@));
}

/// The `dns` update leaves the value of every other key as it was.
pub proof fn lemma_dns_other(e: Seq<(YamlView, YamlView)>, k: YamlView)
    requires
        k != skey("dns"@),
    ensures
        find_key(dns_ipv6(e), k) == find_key(e, k),
        map_get(dns_ipv6(e), k) == map_get(e, k),
{
    lemma_dns_keys(e);
    lemma_same_keys(e, dns_ipv6(e), k);
    lemma_find_key(e, k);
    lemma_find_key(e, skey("dns"@));
}

proof fn lemma_key_literals_differ()
    ensures
        skey("tun"@) != skey("mode"@),
        skey("tun"@) != skey("log-level"@),
        skey("tun"@) != skey("ipv6"@),
        skey("tun"@) != skey("dns"@),
        skey("mode"@) != skey("log-level"@),
        skey("mode"@) != skey("ipv6"@),
        skey("mode"@) != skey("dns"@),
        skey("log-level"@) != skey("ipv6"@),
        skey("log-level"@) != skey("dns"@),
        skey("ipv6"@) != skey("dns"@),
{
    reveal_strlit("tun");
    reveal_strlit("mode");
    reveal_strlit("log-level");
    reveal_strlit("ipv6");
    reveal_strlit("dns");
    assert("tun"@[0] != "dns"@[0]);
    assert("mode"@[0] != "ipv6"@[0]);
}

/// The wrapped top level sets `tun`, `mode: rule`, `log-level: info` and
/// `ipv6: true`, and keeps every other key at its place with its value.
pub proof fn law_wrap_entries(e: Seq<(YamlView, YamlView)>, os: Os, k: YamlView)
    ensures
        map_get(wrap_entries(e, os), skey("tun"@)) == Some(tun_section(os)),
        map_get(wrap_entries(e, os), skey("mode"@)) == Some(sv("rule"@)),
        map_get(wrap_entries(e, os), skey("log-level"@)) == Some(sv("info"@)),
        map_get(wrap_entries(e, os), skey("ipv6"@)) == Some(YamlView::Bool(true)),
        k != skey("tun"@) && k != skey("mode"@) && k != skey("log-level"@) && k != skey("ipv6"@)
            && k != skey("dns"@) ==> find_key(wrap_entries(e, os), k) == find_key(e, k)
            && map_get(wrap_entries(e, os), k) == map_get(e, k),
{
    lemma_key_literals_differ();
    let tun = skey("tun"@);
    let mode = skey("mode"@);
    let ll = skey("log-level"@);
    let v6 = skey("ipv6"@);
    let e1 = map_insert(e, tun, tun_section(os));
    let e2 = map_insert(e1, mode, sv("rule"@));
    let e3 = map_insert(e2, ll, sv("info"@));
    let e4 = map_insert(e3, v6, YamlView::Bool(true));
    lemma_insert_get(e, tun, tun_section(os));
    lemma_insert_other(e1, mode, sv("rule"@), tun);
    lemma_insert_other(e2, ll, sv("info"@), tun);
    lemma_insert_other(e3, v6, YamlView::Bool(true), tun);
    lemma_dns_other(e4, tun);
    lemma_insert_get(e1, mode, sv("rule"@));
    lemma_insert_other(e2, ll, sv("info"@), mode);
    lemma_insert_other(e3, v6, YamlView::Bool(true), mode);
    lemma_dns_other(e4, mode);
    lemma_insert_get(e2, ll, sv("info"@));
    lemma_insert_other(e3, v6, YamlView::Bool(true), ll);
    lemma_dns_other(e4, ll);
    lemma_insert_get(e3, v6, YamlView::Bool(true));
    lemma_dns_other(e4, v6);
    if k != tun && k != mode && k != ll && k != v6 && k != skey("dns"@) {
        lemma_insert_other(e, tun, tun_section(os), k);
        lemma_insert_other(e1, mode, sv("rule"@), k);
        lemma_insert_other(e2, ll, sv("info"@), k);
        lemma_insert_other(e3, v6, YamlView::Bool(true), k);
        lemma_dns_other(e4, k);
    }
}

/// Wrapping an already wrapped configuration gives it back unchanged.
pub proof fn law_wrap_idempotent(root: YamlView, os: Os)
    requires
        wrap_spec(root, os) is Some,
    ensures
        wrap_spec(wrap_spec(root, os)->0, os) == wrap_spec(root, os),
{
    lemma_key_literals_differ();
    let m = untag(root)->Mapping_0;
    let ee = wrap_entries(m, os);
    let w = with_untagged(root, YamlView::Mapping(ee));
    lemma_untag_wrap(tags_of(root), YamlView::Mapping(ee));
    assert(untag(w) == YamlView::Mapping(ee));
    assert(tags_of(w) == tags_of(root));
    law_wrap_entries(m, os, skey("dns"@));
    let tun = skey("tun"@);
    let mode = skey("mode"@);
    let ll = skey("log-level"@);
    let v6 = skey("ipv6"@);
    lemma_insert_same(ee, tun, tun_section(os));
    lemma_insert_same(ee, mode, sv("rule"@));
    lemma_insert_same(ee, ll, sv("info"@));
    lemma_insert_same(ee, v6, YamlView::Bool(true));
    assert(wrap_entries(ee, os) == dns_ipv6(ee));
    // the dns section
    let e1 = map_insert(m, tun, tun_section(os));
    let e2 = map_insert(e1, mode, sv("rule"@));
    let e3 = map_insert(e2, ll, sv("info"@));
    let e4 = map_insert(e3, v6, YamlView::Bool(true));
    assert(ee == dns_ipv6(e4));
    lemma_dns_keys(e4);
    lemma_same_keys(e4, ee, skey("dns"@));
    let i = find_key(e4, skey("dns"@));
    lemma_find_key(e4, skey("dns"@));
    if i >= 0 && untag(e4[i].1) is Mapping {
        let inner = untag(e4[i].1)->Mapping_0;
        let inner2 = map_insert(inner, skey("ipv6"@), YamlView::Bool(true));
        lemma_untag_wrap(tags_of(e4[i].1), YamlView::Mapping(inner2));
        assert(untag(ee[i].1) == YamlView::Mapping(inner2));
        assert(tags_of(ee[i].1) == tags_of(e4[i].1));
        lemma_insert_get(inner, skey("ipv6"@), YamlView::Bool(true));
        lemma_insert_same(inner2, skey("ipv6"@), YamlView::Bool(true));
        assert(dns_ipv6(ee) =~= ee);
    } else {
        assert(dns_ipv6(ee) =~= ee);
    }
}

proof fn lemma_tun_wf(os: Os)
    ensures
        entries_wf(tun_entries(os)),
{
    reveal_strlit("enable");
    reveal_strlit("stack");
    reveal_strlit("dns-hijack");
    reveal_strlit("auto-route");
    reveal_strlit("auto-redirect");
    reveal_strlit("auto-detect-interface");
    reveal_strlit("mtu");
    reveal_strlit("inet4-address");
    reveal_strlit("inet6-address");
    assert("dns-hijack"@[0] != "auto-route"@[0]);
    assert("auto-redirect"@[0] != "inet4-address"@[0]);
    assert("auto-redirect"@[0] != "inet6-address"@[0]);
    assert("inet4-address"@[4] != "inet6-address"@[4]);
    let e = tun_entries(os);
    let mac = os == Os::MacOs;
    let win = os == Os::Windows;
    let names: Seq<Seq<char>> = if mac {
        seq![
            "enable"@, "stack"@, "dns-hijack"@, "auto-route"@, "auto-redirect"@,
            "auto-detect-interface"@, "mtu"@, "inet4-address"@, "inet6-address"@,
        ]
    } else if win {
        seq![
            "enable"@, "stack"@, "dns-hijack"@, "auto-route"@, "auto-detect-interface"@, "mtu"@,
            "inet4-address"@, "inet6-address"@,
        ]
    } else {
        seq![
            "enable"@, "stack"@, "dns-hijack"@, "auto-route"@, "auto-detect-interface"@, "mtu"@,
            "inet4-address"@,
        ]
    };
    assert(e.len() == names.len());
    assert forall|i: int| 0 <= i < e.len() implies #[trigger] e[i].0 == skey(names[i]) by {}
    assert forall|a: int, b: int| 0 <= a < b < names.len() implies #[trigger] names[a] != #[trigger] names[b] by {
        if names[a] == names[b] {
            assert(names[a].len() == names[b].len());
            assert(names[a][0] == names[b][0]);
            assert(names[a][4] == names[b][4]);
        }
    }
    assert forall|a: int, b: int| 0 <= a < b < e.len() implies #[trigger] e[a].0 != #[trigger] e[b].0 by {
        assert(e[a].0 == skey(names[a]));
        assert(e[b].0 == skey(names[b]));
    }
    assert forall|i: int| 0 <= i < e.len() implies yaml_wf(#[trigger] e[i].0) && yaml_wf(e[i].1) by {
        assert(e[i].0 is Str);
        match e[i].1 {
            YamlView::List(items) => {
                assert forall|j: int| 0 <= j < items.len() implies yaml_wf(#[trigger] items[j]) by {
                    assert(items[j] is Str);
                }
            },
            _ => {},
        }
    }
}

/// Wrapping keeps a configuration well formed: when no mapping in it has a
/// key twice, none has after wrapping either.
pub proof fn law_wrap_keeps_keys_unique(root: YamlView, os: Os)
    requires
        yaml_wf(root),
        wrap_spec(root, os) is Some,
    ensures
        yaml_wf(wrap_spec(root, os)->0),
{
    let m = untag(root)->Mapping_0;
    lemma_untag_wf(root);
    lemma_mapping_wf(m);
    lemma_tun_wf(os);
    lemma_mapping_wf(tun_entries(os));
    let tun = skey("tun"@);
    let mode = skey("mode"@);
    let ll = skey("log-level"@);
    let v6 = skey("ipv6"@);
    let e1 = map_insert(m, tun, tun_section(os));
    let e2 = map_insert(e1, mode, sv("rule"@));
    let e3 = map_insert(e2, ll, sv("info"@));
    let e4 = map_insert(e3, v6, YamlView::Bool(true));
    lemma_insert_wf(m, tun, tun_section(os));
    lemma_insert_wf(e1, mode, sv("rule"@));
    lemma_insert_wf(e2, ll, sv("info"@));
    lemma_insert_wf(e3, v6, YamlView::Bool(true));
    let ee = dns_ipv6(e4);
    lemma_dns_keys(e4);
    lemma_find_key(e4, skey("dns"@));
    let i = find_key(e4, skey("dns"@));
    if i >= 0 && untag(e4[i].1) is Mapping {
        let val = e4[i].1;
        let inner = untag(val)->Mapping_0;
        lemma_untag_wf(val);
        lemma_mapping_wf(inner);
        lemma_insert_wf(inner, skey("ipv6"@), YamlView::Bool(true));
        let inner2 = map_insert(inner, skey("ipv6"@), YamlView::Bool(true));
        lemma_mapping_wf(inner2);
        lemma_tags_wf(tags_of(val), YamlView::Mapping(inner2));
        assert(ee[i].1 == with_untagged(val, YamlView::Mapping(inner2)));
    }
    assert forall|a: int, b: int| 0 <= a < b < ee.len() implies #[trigger] ee[a].0 != #[trigger] ee[b].0 by {
        assert(ee[a].0 == e4[a].0);
        assert(ee[b].0 == e4[b].0);
    }
    assert forall|a: int| 0 <= a < ee.len() implies yaml_wf(#[trigger] ee[a].0) && yaml_wf(ee[a].1) by {
        assert(ee[a].0 == e4[a].0);
        if a != i {
            assert(ee[a] == e4[a]);
        }
    }
    assert(entries_wf(ee));
    lemma_mapping_wf(ee);
    lemma_tags_wf(tags_of(root), YamlView::Mapping(ee));
}

/// The configuration text mihomo is started with for the user's text: the
/// user's YAML as serde_yaml reads it, wrapped, and written back by
/// serde_yaml; or the failure, one message long.
pub open spec fn wrap_text(text: Seq<char>, os: Os) -> Result<Seq<char>, Seq<Seq<char>>> {
    match yaml_parse(text) {
        Err(e) => Err(seq![e]),
        Ok(root) => match wrap_spec(root, os) {
            None => Err(seq!["config root is not a mapping"@]),
            Some(w) => match yaml_emit(w) {
                Ok(t) => Ok(t),
                Err(e) => Err(seq![e]),
            },
        },
    }
}

/// Wraps the user's YAML text with the TUN-mode settings: reads it, applies
/// `wrap_with_tun`, and writes the result. A text that does not read, or
/// whose top level is no mapping, is refused with the reason.
pub fn wrap_with_tun_text(user_yaml: &str, os: Os) -> (r: Result<String, Failure>)
    ensures
        match r {
            Ok(s) => wrap_text(user_yaml@, os) == Ok::<Seq<char>, Seq<Seq<char>>>(s@),
            Err(f) => wrap_text(user_yaml@, os) == Err::<Seq<char>, Seq<Seq<char>>>(f@),
        },
{
    let root = match parse_yaml(user_yaml) {
        Ok(v) => v,
        Err(e) => return Err(Failure::msg(e)),
    };
    let wrapped = match wrap_with_tun(root, os) {
        Ok(w) => w,
        Err(e) => return Err(Failure::msg(e.message())),
    };
    match emit_yaml(&wrapped) {
        Ok(t) => Ok(t),
        Err(e) => Err(Failure::msg(e)),
    }
}

} // verus!
