//! What the app's commands decide: the connection status it reports, the
//! helper status, the tray and its menu, and the macOS network services
//! whose IPv6 setting a connection switches.
use vstd::prelude::*;
use crate::daemon::{Command, CommandView};
use crate::json::{JsonValue, JsonView, jobject, json_get, member_index, members_view, names_unique};
use crate::protocol::{Response, opt_json_view, running_of, reply_running};
use crate::text::{
    chars_of, str_concat, contains_char, contains_str, dec, decimal, has_infix, lines_spec, owned,
    split_lines, string_of, trim, trim_seq, views, duration_debug, duration_text,
};

verus! {

/// What the app reports about the connection.
pub struct ConnectionStatus {
    pub running: bool,
    pub port: u16,
    pub mode: String,
    pub helper_installed: bool,
}

/// The arguments of a connect command: the user's proxy configuration.
pub struct ConnectArgs {
    pub config_yaml: String,
}

/// The mode reported for a connection that runs or not.
pub open spec fn mode_of(running: bool) -> Seq<char> {
    if running {
        "tun"@
    } else {
        "off"@
    }
}

/// A status whose fields are `running`, the mixed port, the matching mode
/// and `installed`.
pub open spec fn is_status(s: ConnectionStatus, running: bool, installed: bool) -> bool {
    &&& s.running == running
    &&& s.port == 7899
    &&& s.mode@ == mode_of(running)
    &&& s.helper_installed == installed
}

/// The status for a connection that runs or not.
pub fn status(running: bool, installed: bool) -> (s: ConnectionStatus)
    ensures
        is_status(s, running, installed),
{
    let mode = if running {
        owned("tun")
    } else {
        owned("off")
    };
    ConnectionStatus {
        running,
        port: crate::mihomo::default_mixed_port(),
        mode,
        helper_installed: installed,
    }
}

/// The connection status: mihomo runs when the helper is installed, its
/// socket is ready, and its reply to `Status` (when one came) is a success
/// saying so.
pub fn connection_status(installed: bool, socket_ready: bool, reply: Option<Response>) -> (s: ConnectionStatus)
    ensures
        is_status(
            s,
            installed && socket_ready && match reply {
                Some(r) => r.ok && running_of(opt_json_view(r.data)),
                None => false,
            },
            installed,
        ),
{
    let mut running = false;
    if installed && socket_ready {
        if let Some(r) = reply {
            if r.ok {
                running = reply_running(&r.data);
            }
        }
    }
    status(running, installed)
}

/// What disconnecting does: whether a `Stop` goes to the helper, and the
/// status reported afterwards.
pub struct Disconnect {
    pub send_stop: bool,
    pub status: ConnectionStatus,
}

/// Disconnecting: a `Stop` goes to the helper when its socket is ready,
/// the app's own mihomo is stopped, and the status says nothing runs.
pub fn disconnect_proxy(socket_ready: bool, installed: bool) -> (d: Disconnect)
    ensures
        d.send_stop == socket_ready,
        is_status(d.status, false, installed),
{
    Disconnect { send_stop: socket_ready, status: status(false, installed) }
}

/// The helper status object: whether it is installed, whether its socket
/// answers, and its version when the socket is ready and a ping gave one.
pub open spec fn helper_status_view(installed: bool, socket_ready: bool, version: Option<Seq<char>>) -> JsonView {
    JsonView::Object(
        seq![
            ("installed"@, JsonView::Bool(installed)),
            ("socketReady"@, JsonView::Bool(socket_ready)),
            ("version"@, match version {
                Some(v) if socket_ready => JsonView::Str(v),
                _ => JsonView::Null,
            }),
        ],
    )
}

/// The helper status object.
pub fn helper_status(installed: bool, socket_ready: bool, version: Option<String>) -> (j: JsonValue)
    ensures
        j@ == helper_status_view(
            installed,
            socket_ready,
            match version {
                Some(v) => Some(v@),
                None => None,
            },
        ),
        names_unique(j@->Object_0),
        json_get(j@, "installed"@) == Some(JsonView::Bool(installed)),
        json_get(j@, "socketReady"@) == Some(JsonView::Bool(socket_ready)),
        (socket_ready && version is Some) ==> json_get(j@, "version"@) == Some(
            JsonView::Str(version->0@),
        ),
        !(socket_ready && version is Some) ==> json_get(j@, "version"@) == Some(JsonView::Null),
{
    let ghost vv = match &version {
        Some(v) => Some(v@),
        None => None::<Seq<char>>,
    };
    let v = match version {
        Some(v) => if socket_ready {
            JsonValue::Str(v)
        } else {
            JsonValue::Null
        },
        None => JsonValue::Null,
    };
    let mut e: Vec<(String, JsonValue)> = Vec::new();
    e.push((owned("installed"), JsonValue::Bool(installed)));
    e.push((owned("socketReady"), JsonValue::Bool(socket_ready)));
    e.push((owned("version"), v));
    let j = jobject(e);
    assert(members_view(e@) =~= helper_status_view(installed, socket_ready, vv)->Object_0);
    proof {
        reveal_strlit("installed");
        reveal_strlit("socketReady");
        reveal_strlit("version");
        let o = j@->Object_0;
        assert(o.len() == 3);
        assert(o[0].0 == "installed"@ && o[1].0 == "socketReady"@ && o[2].0 == "version"@);
        assert("installed"@.len() != "socketReady"@.len());
        assert("installed"@.len() != "version"@.len());
        assert("socketReady"@.len() != "version"@.len());
        assert forall|a: int, b: int| 0 <= a < b < o.len() implies #[trigger] o[a].0 != #[trigger] o[b].0 by {}
        law_helper_status_members(installed, socket_ready, vv);
    }
    j
}

/// The helper status object reports its inputs: `installed` is whether the
/// helper is installed, `socketReady` whether its socket answers, and
/// `version` the version a ping gave when the socket is ready, null
/// otherwise.
pub proof fn law_helper_status_members(installed: bool, socket_ready: bool, version: Option<Seq<char>>)
    ensures
        json_get(helper_status_view(installed, socket_ready, version), "installed"@) == Some(
            JsonView::Bool(installed),
        ),
        json_get(helper_status_view(installed, socket_ready, version), "socketReady"@) == Some(
            JsonView::Bool(socket_ready),
        ),
        (socket_ready && version is Some) ==> json_get(
            helper_status_view(installed, socket_ready, version),
            "version"@,
        ) == Some(JsonView::Str(version->0)),
        !(socket_ready && version is Some) ==> json_get(
            helper_status_view(installed, socket_ready, version),
            "version"@,
        ) == Some(JsonView::Null),
{
    reveal_strlit("installed");
    reveal_strlit("socketReady");
    reveal_strlit("version");
    let e = helper_status_view(installed, socket_ready, version)->Object_0;
    assert("installed"@.len() != "socketReady"@.len());
    assert("installed"@.len() != "version"@.len());
    assert("socketReady"@.len() != "version"@.len());
    let e1 = e.drop_first();
    let e2 = e1.drop_first();
    let e3 = e2.drop_first();
    assert(e3.len() == 0);
    assert(member_index(e3, "version"@) == -1);
    assert(member_index(e2, "version"@) == 0);
    assert(member_index(e1, "version"@) == 1);
    assert(member_index(e, "version"@) == 2);
    assert(member_index(e1, "socketReady"@) == 0);
    assert(member_index(e, "socketReady"@) == 1);
    assert(member_index(e, "installed"@) == 0);
}

/// Whether `sc query` output says the helper service exists.
pub fn service_listed(success: bool, stdout: &str) -> (r: bool)
    ensures
        r == (success && has_infix(stdout@, "SERVICE_NAME"@)),
{
    success && contains_str(stdout, "SERVICE_NAME")
}

/// A menu item: its id, label, whether it can be chosen, and its accelerator.
pub struct MenuEntry {
    pub id: String,
    pub label: String,
    pub enabled: bool,
    pub accelerator: Option<String>,
}

/// An enabled item with the given id, label and accelerator.
pub open spec fn entry_is(e: MenuEntry, id: Seq<char>, label: Seq<char>, accel: Option<Seq<char>>) -> bool {
    &&& e.enabled
    &&& e.id@ == id
    &&& e.label@ == label
    &&& match e.accelerator {
        Some(a) => accel == Some(a@),
        None => accel is None,
    }
}

fn entry(id: &str, label: &str, accel: Option<&str>) -> (e: MenuEntry)
    ensures
        entry_is(
            e,
            id@,
            label@,
            match accel {
                Some(a) => Some(a@),
                None => None,
            },
        ),
{
    MenuEntry {
        id: owned(id),
        label: owned(label),
        enabled: true,
        accelerator: match accel {
            Some(a) => Some(owned(a)),
            None => None,
        },
    }
}

/// The tray menu for a connection state: connect or disconnect, open the
/// window, quit, every item enabled.
pub open spec fn menu_is(m: Seq<MenuEntry>, connected: bool) -> bool {
    &&& m.len() == 3
    &&& connected ==> entry_is(m[0], "disconnect"@, "Disconnect"@, Some("Cmd+D"@))
    &&& !connected ==> entry_is(m[0], "connect"@, "Connect"@, Some("Cmd+K"@))
    &&& entry_is(m[1], "show"@, "Open CryptDoor"@, None)
    &&& entry_is(m[2], "quit"@, "Quit CryptDoor"@, Some("Cmd+Q"@))
}

/// Each tray item does what its label says: the first connects or
/// disconnects as the state asks, the second opens the window, the third
/// quits; no two items share an id, so no item does another's work.
pub proof fn law_menu_items_do_what_they_say(m: Seq<MenuEntry>, connected: bool)
    requires
        menu_is(m, connected),
    ensures
        connected ==> menu_command(m[0].id@) == MenuCommand::EmitDisconnect,
        !connected ==> menu_command(m[0].id@) == MenuCommand::EmitConnect,
        menu_command(m[1].id@) == MenuCommand::ShowWindow,
        menu_command(m[2].id@) == MenuCommand::Quit,
        m[0].id@ != m[1].id@ && m[0].id@ != m[2].id@ && m[1].id@ != m[2].id@,
{
    reveal_strlit("show");
    reveal_strlit("quit");
    reveal_strlit("connect");
    reveal_strlit("disconnect");
    assert("show"@[0] != "quit"@[0]);
    assert("connect"@.len() != "show"@.len() && "connect"@.len() != "quit"@.len());
    assert("disconnect"@.len() != "show"@.len() && "disconnect"@.len() != "quit"@.len());
    assert("disconnect"@.len() != "connect"@.len());
}

/// The tray menu: connect or disconnect, open the window, quit.
pub fn build_menu(connected: bool) -> (m: Vec<MenuEntry>)
    ensures
        menu_is(m@, connected),
        connected ==> menu_command(m@[0].id@) == MenuCommand::EmitDisconnect,
        !connected ==> menu_command(m@[0].id@) == MenuCommand::EmitConnect,
        menu_command(m@[1].id@) == MenuCommand::ShowWindow,
        menu_command(m@[2].id@) == MenuCommand::Quit,
{
    let mut m: Vec<MenuEntry> = Vec::new();
    if connected {
        m.push(entry("disconnect", "Disconnect", Some("Cmd+D")));
    } else {
        m.push(entry("connect", "Connect", Some("Cmd+K")));
    }
    m.push(entry("show", "Open CryptDoor", None));
    m.push(entry("quit", "Quit CryptDoor", Some("Cmd+Q")));
    proof {
        law_menu_items_do_what_they_say(m@, connected);
    }
    m
}

/// What the tray shows for a connection state.
pub struct TrayUpdate {
    pub menu: Vec<MenuEntry>,
    pub connected_icon: bool,
    pub tooltip: String,
}

/// The tray tooltip: the key's label while connected.
pub open spec fn tooltip_of(label: Seq<char>, connected: bool) -> Seq<char> {
    if connected {
        "CryptDoor — "@ + label
    } else {
        "CryptDoor"@
    }
}

/// What the tray shows: the menu, the icon and the tooltip.
pub fn tray_set_status(label: &str, connected: bool) -> (t: TrayUpdate)
    ensures
        menu_is(t.menu@, connected),
        t.connected_icon == connected,
        t.tooltip@ == tooltip_of(label@, connected),
{
    let tooltip = if connected {
        str_concat("CryptDoor — ", label)
    } else {
        owned("CryptDoor")
    };
    TrayUpdate { menu: build_menu(connected), connected_icon: connected, tooltip }
}

/// What a tray menu item does.
#[derive(PartialEq, Eq, Structural, Clone, Copy, Debug)]
pub enum MenuCommand {
    /// Show, unminimize and focus the main window.
    ShowWindow,
    /// Disconnect, then exit the app.
    Quit,
    /// Tell the window to connect.
    EmitConnect,
    /// Tell the window to disconnect.
    EmitDisconnect,
    /// Nothing.
    Nothing,
}

/// What the menu item with this id does.
pub open spec fn menu_command(id: Seq<char>) -> MenuCommand {
    if id == "show"@ {
        MenuCommand::ShowWindow
    } else if id == "quit"@ {
        MenuCommand::Quit
    } else if id == "connect"@ {
        MenuCommand::EmitConnect
    } else if id == "disconnect"@ {
        MenuCommand::EmitDisconnect
    } else {
        MenuCommand::Nothing
    }
}

/// What the menu item with this id does.
pub fn handle_menu_event(id: &str) -> (c: MenuCommand)
    ensures
        c == menu_command(id@),
{
    if crate::yaml::str_eq(id, "show") {
        MenuCommand::ShowWindow
    } else if crate::yaml::str_eq(id, "quit") {
        MenuCommand::Quit
    } else if crate::yaml::str_eq(id, "connect") {
        MenuCommand::EmitConnect
    } else if crate::yaml::str_eq(id, "disconnect") {
        MenuCommand::EmitDisconnect
    } else {
        MenuCommand::Nothing
    }
}

/// A click on the tray icon hides a visible window and shows and focuses
/// it otherwise (also when its visibility cannot be told).
pub fn toggle_main_window(visible: Option<bool>) -> (hide: bool)
    ensures
        hide == (visible == Some(true)),
{
    match visible {
        Some(true) => true,
        _ => false,
    }
}

/// Whether the app was started by the login item.
pub fn launched_at_login(args: &Vec<String>) -> (r: bool)
    ensures
        r == exists|i: int| 0 <= i < args@.len() && #[trigger] args@[i]@ == "--autostart"@,
{
    let n = args.len();
    let mut i: usize = 0;
    while i < n
        invariant
            n == args@.len(),
            i <= n,
            forall|j: int| 0 <= j < i ==> #[trigger] args@[j]@ != "--autostart"@,
        decreases n - i,
    {
        if crate::yaml::str_eq(args[i].as_str(), "--autostart") {
            return true;
        }
        i = i + 1;
    }
    false
}

/// `l` without the stars at its start (what `trim_start_matches('*')` gives).
pub open spec fn strip_stars(l: Seq<char>) -> Seq<char>
    decreases l.len(),
{
    if l.len() > 0 && l[0] == '*' {
        strip_stars(l.drop_first())
    } else {
        l
    }
}

/// A line of `networksetup -listallnetworkservices` as a service name: the
/// star that marks a disabled service and the white space around removed.
pub open spec fn service_name(l: Seq<char>) -> Seq<char> {
    trim_seq(strip_stars(trim_seq(l)))
}

/// Whether a cleaned line names a service: not empty, no parenthesis.
pub open spec fn is_service(n: Seq<char>) -> bool {
    n.len() > 0 && !n.contains('(')
}

/// The service names among the given lines, in order.
pub open spec fn services_in(lines: Seq<Seq<char>>) -> Seq<Seq<char>>
    decreases lines.len(),
{
    if lines.len() == 0 {
        seq![]
    } else {
        let rest = services_in(lines.drop_last());
        let n = service_name(lines.last());
        if is_service(n) {
            rest.push(n)
        } else {
            rest
        }
    }
}

/// The service names in the output of `networksetup -listallnetworkservices`:
/// every line after the first, cleaned, when it names a service.
pub open spec fn network_services(out: Seq<char>) -> Seq<Seq<char>> {
    let ls = lines_spec(out);
    if ls.len() == 0 {
        seq![]
    } else {
        services_in(ls.drop_first())
    }
}

fn strip_leading_stars(s: &str) -> (r: String)
    ensures
        r@ == strip_stars(s@),
{
    let v = chars_of(s);
    let n = v.len();
    let mut i: usize = 0;
    assert(s@.skip(0) =~= s@);
    while i < n && v[i] == '*'
        invariant
            n == v@.len(),
            v@ == s@,
            i <= n,
            strip_stars(s@) == strip_stars(s@.skip(i as int)),
        decreases n - i,
    {
        proof {
            let t = s@.skip(i as int);
            assert(t.drop_first() =~= s@.skip(i + 1));
        }
        i = i + 1;
    }
    proof {
        let t = s@.skip(i as int);
        assert(t =~= v@.subrange(i as int, n as int));
        if i < n {
            assert(t[0] == v@[i as int]);
        }
    }
    assert(s@.skip(0) =~= s@);
    string_of(&v, i, n)
}

/// The service name of one output line.
pub fn clean_service_line(l: &str) -> (r: String)
    ensures
        r@ == service_name(l@),
{
    let a = trim(l);
    let b = strip_leading_stars(a.as_str());
    trim(b.as_str())
}

/// The services listed by `networksetup -listallnetworkservices`.
pub fn list_network_services(out: &str) -> (r: Vec<String>)
    ensures
        views(r@) == network_services(out@),
{
    let lines = split_lines(out);
    let ghost ls = views(lines@);
    let n = lines.len();
    let mut r: Vec<String> = Vec::new();
    if n == 0 {
        assert(views(r@) =~= Seq::<Seq<char>>::empty());
        return r;
    }
    let mut i: usize = 1;
    assert(ls.drop_first().take(0) =~= Seq::<Seq<char>>::empty());
    assert(views(r@) =~= Seq::<Seq<char>>::empty());
    while i < n
        invariant
            n == lines@.len(),
            ls == views(lines@),
            1 <= i <= n,
            views(r@) == services_in(ls.drop_first().take(i - 1)),
        decreases n - i,
    {
        let name = clean_service_line(lines[i].as_str());
        let ghost before = views(r@);
        proof {
            let t = ls.drop_first().take(i as int);
            assert(t.drop_last() =~= ls.drop_first().take(i - 1));
            assert(t.last() == lines@[i as int]@);
        }
        if !name.as_str().is_empty() && !contains_char(name.as_str(), '(') {
            r.push(name);
            assert(views(r@) =~= before.push(name@));
        }
        i = i + 1;
    }
    assert(ls.drop_first().take(n - 1) =~= ls.drop_first());
    r
}

/// The `networksetup` command that turns IPv6 off, or back to automatic,
/// for a service.
pub open spec fn ipv6_command(service: Seq<char>, disable: bool) -> CommandView {
    CommandView {
        program: "networksetup"@,
        args: seq![if disable { "-setv6off"@ } else { "-setv6automatic"@ }, service],
    }
}

/// The `networksetup` commands for all services, in order.
pub fn ipv6_commands(services: &Vec<String>, disable: bool) -> (c: Vec<Command>)
    ensures
        c@.len() == services@.len(),
        forall|i: int| 0 <= i < c@.len() ==> #[trigger] c@[i]@ == ipv6_command(services@[i]@, disable),
{
    let n = services.len();
    let mut c: Vec<Command> = Vec::new();
    let mut i: usize = 0;
    while i < n
        invariant
            n == services@.len(),
            i <= n,
            c@.len() == i,
            forall|j: int| 0 <= j < i ==> #[trigger] c@[j]@ == ipv6_command(services@[j]@, disable),
        decreases n - i,
    {
        let mut args: Vec<String> = Vec::new();
        if disable {
            args.push(owned("-setv6off"));
        } else {
            args.push(owned("-setv6automatic"));
        }
        args.push(services[i].clone());
        assert(views(args@) =~= ipv6_command(services@[i as int]@, disable).args);
        c.push(Command { program: owned("networksetup"), args });
        i = i + 1;
    }
    c
}

/// The message when mihomo does not open its port in time; the timeout of
/// `secs` seconds and `nanos` nanoseconds is written as `Duration`'s `{:?}`
/// writes it.
pub fn port_timeout_message(port: u16, secs: u64, nanos: u32) -> (m: String)
    requires
        nanos < 1_000_000_000,
    ensures
        m@ == "mihomo didn't open port "@ + dec(port as nat) + " within "@ + duration_debug(
            secs as nat,
            nanos as nat,
        ) + " — check your VLESS key"@,
{
    let p = decimal(port as u64);
    let t = duration_text(secs, nanos);
    let a = str_concat("mihomo didn't open port ", p.as_str());
    let b = str_concat(a.as_str(), " within ");
    let c = str_concat(b.as_str(), t.as_str());
    str_concat(c.as_str(), " — check your VLESS key")
}

/// Whether to try the port again: only while the time elapsed since the
/// wait began is below the timeout (both in nanoseconds).
pub fn keep_waiting(elapsed_ns: u128, timeout_ns: u128) -> (r: bool)
    ensures
        r == (elapsed_ns < timeout_ns),
{
    elapsed_ns < timeout_ns
}

} // verus!
