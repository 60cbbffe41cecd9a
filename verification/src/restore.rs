//! Giving the system its own DNS back.
//!
//! Before the system's DNS is set to the proxy, what it is set to is looked at
//! and kept; when the proxy ends, it is set to that again.

use vstd::prelude::*;

use crate::platform;
use crate::platform::dns_step;
use crate::platform::flush_steps;
use crate::platform::netsh_dns;
use crate::platform::run2;
use crate::platform::Platform;
use crate::platform::Step;
use crate::platform::SystemStep;
use crate::platform::LISTEN_ADDR;
use crate::text;

verus! {

// ── What was found ─────────────────────────────────────────────────────

/// What the DNS of an interface is set to.
#[derive(Debug)]
pub enum DnsSetting {
    /// Nothing of its own: whatever the network says.
    Default,
    /// These servers.
    Servers(Vec<String>),
}

/// The DNS of one interface.
#[derive(Debug)]
pub struct InterfaceDns {
    pub name: String,
    pub setting: DnsSetting,
}

/// What the system's DNS was set to: on Linux the contents of
/// `/etc/resolv.conf`, where there is such a file, elsewhere the setting of each
/// interface.
#[derive(Debug)]
pub struct SavedDns {
    pub file: Option<Vec<u8>>,
    pub interfaces: Vec<InterfaceDns>,
}

/// A `DnsSetting`, by its contents.
pub enum Setting {
    Default,
    Servers(Seq<Seq<char>>),
}

/// A `SavedDns`, by its contents.
pub struct Saved {
    pub file: Option<Seq<u8>>,
    /// Interfaces by name.
    pub interfaces: Seq<(Seq<char>, Setting)>,
}

impl View for DnsSetting {
    type V = Setting;

    open spec fn view(&self) -> Setting {
        match self {
            DnsSetting::Default => Setting::Default,
            DnsSetting::Servers(servers) => Setting::Servers(text::texts(servers@)),
        }
    }
}

/// The contents of a list of interfaces.
pub open spec fn interface_settings(v: Seq<InterfaceDns>) -> Seq<(Seq<char>, Setting)> {
    Seq::new(v.len(), |i: int| (v[i].name@, v[i].setting@))
}

impl View for SavedDns {
    type V = Saved;

    open spec fn view(&self) -> Saved {
        Saved {
            file: match self.file {
                Some(f) => Some(f@),
                None => None,
            },
            interfaces: interface_settings(self.interfaces@),
        }
    }
}

impl SavedDns {
    /// Nothing was looked at yet.
    pub fn new() -> (r: Self)
        ensures
            r@.file is None,
            r@.interfaces == Seq::<(Seq<char>, Setting)>::empty(),
    {
        let r = SavedDns { file: None, interfaces: Vec::new() };
        assert(r@.interfaces =~= Seq::<(Seq<char>, Setting)>::empty());
        r
    }
}

// ── Looking ────────────────────────────────────────────────────────────

/// The command that shows what the DNS of an interface is set to, where the
/// platform sets it by interface.
pub fn show_dns(platform: Platform, name: &str) -> (r: Option<SystemStep>)
    ensures
        match platform {
            Platform::MacOs => r matches Some(s) && s@ == Step::Run(
                "networksetup"@,
                seq!["-getdnsservers"@, name@],
            ),
            Platform::Linux => r is None,
            Platform::Windows => r matches Some(s) && s@ == Step::Run(
                "netsh"@,
                seq!["interface"@, "ip"@, "show"@, "dns"@, name@],
            ),
        },
{
    match platform {
        Platform::MacOs => Some(run2("networksetup", "-getdnsservers", name)),
        Platform::Linux => None,
        Platform::Windows => {
            let mut args: Vec<String> = Vec::new();
            args.push("interface".to_owned());
            args.push("ip".to_owned());
            args.push("show".to_owned());
            args.push("dns".to_owned());
            args.push(name.to_owned());
            assert(text::texts(args@) =~= seq!["interface"@, "ip"@, "show"@, "dns"@, name@]);
            Some(SystemStep::Run("netsh".to_owned(), args))
        },
    }
}

/// Whether a word has the looks of an address: there is a dot or a colon in it
/// and no white space.
pub open spec fn is_address(word: Seq<char>) -> bool {
    &&& word.contains('.') || word.contains(':')
    &&& forall|i: int| 0 <= i < word.len() ==> !text::is_white_space(#[trigger] word[i])
}

/// The addresses among some lines, in order.
pub open spec fn address_lines(lines: Seq<Seq<char>>) -> Seq<Seq<char>>
    decreases lines.len(),
{
    if lines.len() == 0 {
        Seq::empty()
    } else if is_address(text::trimmed(lines.last())) {
        address_lines(lines.drop_last()).push(text::trimmed(lines.last()))
    } else {
        address_lines(lines.drop_last())
    }
}

/// What `networksetup -getdnsservers` shows: one address on each line, or a
/// sentence where there is none.
pub open spec fn networksetup_setting(lines: Seq<Seq<char>>) -> Setting {
    if address_lines(lines).len() == 0 {
        Setting::Default
    } else {
        Setting::Servers(address_lines(lines))
    }
}

/// The first line at or after `from` that introduces servers which were set by
/// hand; the number of lines where there is none.
pub open spec fn static_line(lines: Seq<Seq<char>>, from: int) -> int
    decreases lines.len() - from,
{
    if from >= lines.len() {
        lines.len() as int
    } else if text::contains_text(lines[from], "Statically"@) {
        from
    } else {
        static_line(lines, from + 1)
    }
}

/// The addresses on the lines from `from` on, up to the first line that is not
/// an address.
pub open spec fn address_run(lines: Seq<Seq<char>>, from: int) -> Seq<Seq<char>>
    decreases lines.len() - from,
{
    if from >= lines.len() || !is_address(text::trimmed(lines[from])) {
        Seq::empty()
    } else {
        seq![text::trimmed(lines[from])] + address_run(lines, from + 1)
    }
}

/// What stands behind the first colon of a line.
pub open spec fn after_colon(line: Seq<char>) -> Seq<char> {
    let colon = text::find(line, ':', 0);
    if colon >= line.len() {
        Seq::empty()
    } else {
        text::trimmed(line.skip(colon + 1))
    }
}

/// What `netsh interface ip show dns` shows: servers that were set by hand, the
/// first on the line that introduces them and the others on lines of their own,
/// or else none. The line is told by its English wording.
pub open spec fn netsh_setting(lines: Seq<Seq<char>>) -> Setting {
    let at = static_line(lines, 0);
    if at >= lines.len() {
        Setting::Default
    } else if !is_address(after_colon(lines[at])) {
        Setting::Servers(Seq::empty())
    } else {
        Setting::Servers(seq![after_colon(lines[at])] + address_run(lines, at + 1))
    }
}

/// What the output of `show_dns` says; the default where the command failed.
pub open spec fn shown_setting(platform: Platform, output: Option<&str>) -> Setting {
    match output {
        Some(t) => match platform {
            Platform::Windows => netsh_setting(text::split_lines(t@)),
            _ => networksetup_setting(text::split_lines(t@)),
        },
        None => Setting::Default,
    }
}

fn is_address_word(chars: &[char]) -> (r: bool)
    ensures
        r == is_address(chars@),
{
    let mut marked: bool = false;
    let mut i: usize = 0;
    while i < chars.len()
        invariant
            i <= chars@.len(),
            forall|j: int| 0 <= j < i ==> !text::is_white_space(#[trigger] chars@[j]),
            marked <==> exists|j: int| 0 <= j < i && (#[trigger] chars@[j] == '.' || chars@[j] == ':'),
        decreases chars@.len() - i,
    {
        if text::white_space(chars[i]) {
            return false;
        }
        if chars[i] == '.' || chars[i] == ':' {
            marked = true;
        }
        i = i + 1;
    }
    proof {
        if marked {
            let j = choose|j: int|
                0 <= j < i && (#[trigger] chars@[j] == '.' || chars@[j] == ':');
            assert(chars@.contains(chars@[j]));
        }
    }
    marked
}

/// The address that a line, from `from` on, consists of.
fn address_in(line: &[char], from: usize) -> (r: Option<String>)
    requires
        from <= line@.len(),
    ensures
        match r {
            Some(a) => is_address(a@) && a@ == text::trimmed(line@.skip(from as int)),
            None => !is_address(text::trimmed(line@.skip(from as int))),
        },
{
    let (lo, hi) = text::trim(line, from);
    let word: &[char] = vstd::slice::slice_subrange(line, lo, hi);
    if is_address_word(word) {
        Some(text::from_chars(line, lo, hi))
    } else {
        None
    }
}

fn networksetup_dns(rows: &Vec<Vec<char>>) -> (r: DnsSetting)
    ensures
        r@ == networksetup_setting(text::rows(rows@)),
{
    let ghost all = text::rows(rows@);
    let mut servers: Vec<String> = Vec::new();
    let mut i: usize = 0;
    assert(all.take(0) =~= Seq::<Seq<char>>::empty());
    assert(text::texts(servers@) =~= Seq::<Seq<char>>::empty());
    while i < rows.len()
        invariant
            i <= rows@.len(),
            all == text::rows(rows@),
            text::texts(servers@) == address_lines(all.take(i as int)),
        decreases rows@.len() - i,
    {
        let ghost before = servers@;
        assert(all.take(i + 1).drop_last() =~= all.take(i as int));
        assert(rows@[i as int]@.skip(0) =~= all[i as int]);
        if let Some(a) = address_in(rows[i].as_slice(), 0) {
            servers.push(a);
            assert(text::texts(servers@) =~= text::texts(before).push(a@));
        }
        i = i + 1;
    }
    assert(all.take(i as int) =~= all);
    assert(text::texts(servers@).len() == servers@.len());
    if servers.len() == 0 {
        DnsSetting::Default
    } else {
        DnsSetting::Servers(servers)
    }
}

fn netsh_dns_setting(rows: &Vec<Vec<char>>) -> (r: DnsSetting)
    ensures
        r@ == netsh_setting(text::rows(rows@)),
{
    let ghost all = text::rows(rows@);
    let mut at: usize = 0;
    while at < rows.len() && !text::has_text(rows[at].as_slice(), "Statically")
        invariant
            at <= rows@.len(),
            all == text::rows(rows@),
            static_line(all, 0) == static_line(all, at as int),
        decreases rows@.len() - at,
    {
        assert(rows@[at as int]@ == all[at as int]);
        at = at + 1;
    }
    if at == rows.len() {
        return DnsSetting::Default;
    }
    assert(rows@[at as int]@ == all[at as int]);
    assert(static_line(all, 0) == at);
    let line: &Vec<char> = &rows[at];
    let mut colon: usize = 0;
    while colon < line.len() && line[colon] != ':'
        invariant
            colon <= line@.len(),
            text::find(line@, ':', 0) == text::find(line@, ':', colon as int),
        decreases line@.len() - colon,
    {
        colon = colon + 1;
    }
    let mut servers: Vec<String> = Vec::new();
    if colon == line.len() {
        assert(text::texts(servers@) =~= Seq::<Seq<char>>::empty());
        return DnsSetting::Servers(servers);
    }
    match address_in(line.as_slice(), colon + 1) {
        None => {
            assert(text::texts(servers@) =~= Seq::<Seq<char>>::empty());
            return DnsSetting::Servers(servers);
        },
        Some(first) => {
            servers.push(first);
            assert(text::texts(servers@) =~= seq![after_colon(all[at as int])]);
        },
    }
    let mut i: usize = at + 1;
    let ghost head = seq![after_colon(all[at as int])];
    assert(text::texts(servers@) + address_run(all, i as int) =~= head + address_run(
        all,
        at + 1,
    ));
    while i < rows.len()
        invariant
            at < i <= rows@.len(),
            all == text::rows(rows@),
            static_line(all, 0) == at,
            is_address(after_colon(all[at as int])),
            head == seq![after_colon(all[at as int])],
            text::texts(servers@) + address_run(all, i as int) == head + address_run(all, at + 1),
        decreases rows@.len() - i,
    {
        assert(rows@[i as int]@.skip(0) =~= all[i as int]);
        let ghost before = servers@;
        match address_in(rows[i].as_slice(), 0) {
            Some(a) => {
                servers.push(a);
                assert(text::texts(servers@) =~= text::texts(before).push(a@));
                assert(text::texts(servers@) + address_run(all, i + 1) =~= text::texts(before) + (
                seq![a@] + address_run(all, i + 1)));
            },
            None => {
                assert(text::texts(servers@) =~= head + address_run(all, at + 1));
                return DnsSetting::Servers(servers);
            },
        }
        i = i + 1;
    }
    assert(text::texts(servers@) =~= head + address_run(all, at + 1));
    DnsSetting::Servers(servers)
}

/// What the output of `show_dns` says; the default where the command failed.
pub fn dns_setting(platform: Platform, output: Option<&str>) -> (r: DnsSetting)
    ensures
        r@ == shown_setting(platform, output),
{
    match output {
        Some(t) => {
            let rows: Vec<Vec<char>> = text::lines(t);
            match platform {
                Platform::Windows => netsh_dns_setting(&rows),
                _ => networksetup_dns(&rows),
            }
        },
        None => DnsSetting::Default,
    }
}

// ── Restoring ──────────────────────────────────────────────────────────

/// The step that adds a server to those of an interface.
pub open spec fn netsh_add(name: Seq<char>, server: Seq<char>) -> Step {
    Step::Run("netsh"@, seq!["interface"@, "ip"@, "add"@, "dns"@, name, server])
}

/// The step that sets an interface to one server, or to none.
pub open spec fn netsh_static(name: Seq<char>, server: Seq<char>) -> Step {
    Step::Run("netsh"@, seq!["interface"@, "ip"@, "set"@, "dns"@, name, "static"@, server])
}

/// The steps that give one interface a setting.
pub open spec fn restore_on(platform: Platform, name: Seq<char>, setting: Setting) -> Seq<Step> {
    match (platform, setting) {
        (Platform::Windows, Setting::Servers(s)) => if s.len() == 0 {
            seq![netsh_static(name, "none"@)]
        } else {
            seq![netsh_static(name, s[0])] + s.skip(1).map_values(
                |a: Seq<char>| netsh_add(name, a),
            )
        },
        (_, Setting::Servers(s)) => if s.len() == 0 {
            seq![platform::uninstall_on(platform, name)]
        } else {
            seq![Step::Run("networksetup"@, seq!["-setdnsservers"@, name] + s)]
        },
        (_, Setting::Default) => seq![platform::uninstall_on(platform, name)],
    }
}

/// A setting as far as it is the system's own. One that names the proxy's address
/// is left over from a proxy and stands for the default: nobody listens there
/// once the proxy has ended.
pub open spec fn own(setting: Setting) -> Setting {
    match setting {
        Setting::Servers(s) if s.contains(LISTEN_ADDR@) => Setting::Default,
        _ => setting,
    }
}

/// The contents of `/etc/resolv.conf` as far as they are the system's own. Those
/// that a proxy wrote stand for no file.
pub open spec fn own_file(file: Option<Seq<u8>>) -> Option<Seq<u8>> {
    if file == Some(platform::proxy_resolv_conf()) {
        None
    } else {
        file
    }
}

/// The steps that give all interfaces their settings.
pub open spec fn restore_all(platform: Platform, found: Seq<(Seq<char>, Setting)>) -> Seq<Step>
    decreases found.len(),
{
    if found.len() == 0 {
        Seq::empty()
    } else {
        restore_all(platform, found.drop_last()) + restore_on(
            platform,
            found.last().0,
            own(found.last().1),
        )
    }
}

/// Whether the setting of an interface was found.
pub open spec fn was_found(found: Seq<(Seq<char>, Setting)>, name: Seq<char>) -> bool {
    exists|i: int| 0 <= i < found.len() && (#[trigger] found[i]).0 == name
}

/// The steps that set the interfaces to their defaults which appeared since.
pub open spec fn default_new(
    platform: Platform,
    found: Seq<(Seq<char>, Setting)>,
    names: Seq<Seq<char>>,
) -> Seq<Step>
    decreases names.len(),
{
    if names.len() == 0 {
        Seq::empty()
    } else if was_found(found, names.last()) {
        default_new(platform, found, names.drop_last())
    } else {
        default_new(platform, found, names.drop_last()).push(
            platform::uninstall_on(platform, names.last()),
        )
    }
}

/// How the system's DNS is set to what was found, or to its defaults where a
/// proxy was found; `names` are the interfaces
/// that there are now.
pub open spec fn restore_plan(platform: Platform, saved: Saved, names: Seq<Seq<char>>) -> Seq<
    Step,
> {
    match platform {
        Platform::Linux => seq![
            match own_file(saved.file) {
                Some(contents) => Step::Write("/etc/resolv.conf"@, contents),
                None => Step::Remove("/etc/resolv.conf"@),
            },
        ],
        _ => restore_all(platform, saved.interfaces) + default_new(
            platform,
            saved.interfaces,
            names,
        ) + platform::flush_plan(platform),
    }
}

fn netsh_add_step(name: &str, server: &str) -> (r: SystemStep)
    ensures
        r@ == netsh_add(name@, server@),
{
    let mut args: Vec<String> = Vec::new();
    args.push("interface".to_owned());
    args.push("ip".to_owned());
    args.push("add".to_owned());
    args.push("dns".to_owned());
    args.push(name.to_owned());
    args.push(server.to_owned());
    assert(text::texts(args@) =~= seq!["interface"@, "ip"@, "add"@, "dns"@, name@, server@]);
    SystemStep::Run("netsh".to_owned(), args)
}

fn networksetup_servers(name: &str, servers: &Vec<String>) -> (r: SystemStep)
    ensures
        r@ == Step::Run("networksetup"@, seq!["-setdnsservers"@, name@] + text::texts(servers@)),
{
    let mut args: Vec<String> = Vec::new();
    args.push("-setdnsservers".to_owned());
    args.push(name.to_owned());
    let ghost head = seq!["-setdnsservers"@, name@];
    let mut i: usize = 0;
    assert(text::texts(args@) =~= head + text::texts(servers@).take(0));
    while i < servers.len()
        invariant
            i <= servers@.len(),
            text::texts(args@) == head + text::texts(servers@).take(i as int),
        decreases servers@.len() - i,
    {
        let ghost before = args@;
        args.push(servers[i].clone());
        i = i + 1;
        assert(text::texts(args@) =~= text::texts(before).push(servers@[i - 1]@));
        assert(text::texts(args@) =~= head + text::texts(servers@).take(i as int));
    }
    assert(text::texts(servers@).take(i as int) =~= text::texts(servers@));
    SystemStep::Run("networksetup".to_owned(), args)
}

fn netsh_servers(name: &str, servers: &Vec<String>) -> (r: Vec<SystemStep>)
    ensures
        platform::plan(r@) == restore_on(
            Platform::Windows,
            name@,
            Setting::Servers(text::texts(servers@)),
        ),
{
    let ghost all = text::texts(servers@);
    let mut steps: Vec<SystemStep> = Vec::new();
    if servers.len() == 0 {
        steps.push(netsh_dns(name, Some("none")));
        assert(platform::plan(steps@) =~= seq![netsh_static(name@, "none"@)]);
        return steps;
    }
    steps.push(netsh_dns(name, Some(servers[0].as_str())));
    let ghost addition = |a: Seq<char>| netsh_add(name@, a);
    let ghost rest = all.skip(1);
    assert(platform::plan(steps@) =~= seq![netsh_static(name@, all[0])] + rest.take(0).map_values(
        addition,
    ));
    let mut i: usize = 1;
    while i < servers.len()
        invariant
            1 <= i <= servers@.len(),
            all == text::texts(servers@),
            rest == all.skip(1),
            addition == (|a: Seq<char>| netsh_add(name@, a)),
            platform::plan(steps@) == seq![netsh_static(name@, all[0])] + rest.take(
                i - 1,
            ).map_values(addition),
        decreases servers@.len() - i,
    {
        let ghost before = steps@;
        steps.push(netsh_add_step(name, servers[i].as_str()));
        i = i + 1;
        assert(platform::plan(steps@) =~= platform::plan(before).push(addition(rest[i - 2])));
        assert(rest.take(i - 1).map_values(addition) =~= rest.take(i - 2).map_values(addition).push(
            addition(rest[i - 2]),
        ));
        assert(platform::plan(steps@) =~= seq![netsh_static(name@, all[0])] + rest.take(
            i - 1,
        ).map_values(addition));
    }
    assert(rest.take(i - 1) =~= rest);
    steps
}

/// The steps that give one interface a setting.
fn restore_steps(platform: Platform, name: &str, setting: &DnsSetting) -> (r: Vec<SystemStep>)
    ensures
        platform::plan(r@) == restore_on(platform, name@, setting@),
{
    let mut steps: Vec<SystemStep> = Vec::new();
    match setting {
        DnsSetting::Default => {
            steps.push(dns_step(platform, name, false));
        },
        DnsSetting::Servers(servers) => {
            match platform {
                Platform::Windows => {
                    return netsh_servers(name, servers);
                },
                _ => {
                    assert(text::texts(servers@).len() == servers@.len());
                    if servers.len() == 0 {
                        steps.push(dns_step(platform, name, false));
                    } else {
                        steps.push(networksetup_servers(name, servers));
                    }
                },
            }
        },
    }
    assert(platform::plan(steps@) =~= restore_on(platform, name@, setting@));
    steps
}

/// Whether a list of servers names the proxy's address.
fn names_proxy(servers: &Vec<String>) -> (r: bool)
    ensures
        r == text::texts(servers@).contains(LISTEN_ADDR@),
{
    let ghost all = text::texts(servers@);
    let mut i: usize = 0;
    while i < servers.len()
        invariant
            i <= servers@.len(),
            all == text::texts(servers@),
            forall|j: int| 0 <= j < i ==> #[trigger] all[j] != LISTEN_ADDR@,
        decreases servers@.len() - i,
    {
        if text::same_text(servers[i].as_str(), LISTEN_ADDR) {
            assert(all[i as int] == LISTEN_ADDR@);
            return true;
        }
        i = i + 1;
    }
    false
}

/// The steps that give one interface the setting that was found, where that is
/// the system's own.
fn restore_own_steps(platform: Platform, name: &str, setting: &DnsSetting) -> (r: Vec<SystemStep>)
    ensures
        platform::plan(r@) == restore_on(platform, name@, own(setting@)),
{
    if let DnsSetting::Servers(servers) = setting {
        if names_proxy(servers) {
            return restore_steps(platform, name, &DnsSetting::Default);
        }
    }
    restore_steps(platform, name, setting)
}

/// Whether a file holds what a proxy writes to `/etc/resolv.conf`.
fn written_by_proxy(contents: &[u8]) -> (r: bool)
    ensures
        r == (contents@ == platform::proxy_resolv_conf()),
{
    text::same_bytes(contents, "nameserver 127.0.0.2\n".as_bytes())
}

fn found_before(found: &Vec<InterfaceDns>, name: &str) -> (r: bool)
    ensures
        r == was_found(interface_settings(found@), name@),
{
    let ghost all = interface_settings(found@);
    let mut i: usize = 0;
    while i < found.len()
        invariant
            i <= found@.len(),
            all == interface_settings(found@),
            forall|j: int| 0 <= j < i ==> (#[trigger] all[j]).0 != name@,
        decreases found@.len() - i,
    {
        if text::same_text(found[i].name.as_str(), name) {
            assert(all[i as int].0 == name@);
            return true;
        }
        i = i + 1;
    }
    false
}

/// Set the system's DNS to what was found before it was set to the proxy;
/// `names` are the interfaces that there are now. One that appeared since gets
/// its defaults, and so does one that was found set to a proxy.
pub fn restore_system_dns(platform: Platform, saved: &SavedDns, names: &Vec<String>) -> (r: Vec<
    SystemStep,
>)
    ensures
        platform::plan(r@) == restore_plan(platform, saved@, text::texts(names@)),
{
    let mut steps: Vec<SystemStep> = Vec::new();
    match platform {
        Platform::Linux => {
            match &saved.file {
                Some(contents) => {
                    if written_by_proxy(contents.as_slice()) {
                        steps.push(SystemStep::Remove("/etc/resolv.conf".to_owned()));
                    } else {
                        steps.push(
                            SystemStep::Write(
                                "/etc/resolv.conf".to_owned(),
                                vstd::slice::slice_to_vec(contents.as_slice()),
                            ),
                        );
                    }
                },
                None => {
                    steps.push(SystemStep::Remove("/etc/resolv.conf".to_owned()));
                },
            }
            assert(platform::plan(steps@) =~= restore_plan(platform, saved@, text::texts(names@)));
            return steps;
        },
        _ => {},
    }
    let ghost found = saved@.interfaces;
    let ghost now = text::texts(names@);
    let mut i: usize = 0;
    assert(found.take(0) =~= Seq::<(Seq<char>, Setting)>::empty());
    assert(platform::plan(steps@) =~= restore_all(platform, found.take(0)));
    while i < saved.interfaces.len()
        invariant
            i <= saved.interfaces@.len(),
            found == interface_settings(saved.interfaces@),
            platform::plan(steps@) == restore_all(platform, found.take(i as int)),
        decreases saved.interfaces@.len() - i,
    {
        let ghost before = steps@;
        let mut more: Vec<SystemStep> = restore_own_steps(
            platform,
            saved.interfaces[i].name.as_str(),
            &saved.interfaces[i].setting,
        );
        let ghost added = more@;
        steps.append(&mut more);
        i = i + 1;
        assert(platform::plan(steps@) =~= platform::plan(before) + platform::plan(added));
        assert(found.take(i as int).drop_last() =~= found.take(i - 1));
        assert(found.take(i as int).last() == found[i - 1]);
    }
    assert(found.take(i as int) =~= found);
    let ghost restored = platform::plan(steps@);
    let mut k: usize = 0;
    assert(now.take(0) =~= Seq::<Seq<char>>::empty());
    assert(restored + default_new(platform, found, now.take(0)) =~= restored);
    while k < names.len()
        invariant
            k <= names@.len(),
            found == interface_settings(saved.interfaces@),
            now == text::texts(names@),
            platform::plan(steps@) == restored + default_new(platform, found, now.take(k as int)),
        decreases names@.len() - k,
    {
        let ghost before = steps@;
        assert(now.take(k + 1).drop_last() =~= now.take(k as int));
        assert(now.take(k + 1).last() == names@[k as int]@);
        if !found_before(&saved.interfaces, names[k].as_str()) {
            steps.push(dns_step(platform, names[k].as_str(), false));
            assert(platform::plan(steps@) =~= platform::plan(before).push(
                platform::uninstall_on(platform, names@[k as int]@),
            ));
            assert(platform::plan(steps@) =~= restored + default_new(
                platform,
                found,
                now.take(k + 1),
            ));
        }
        k = k + 1;
    }
    assert(now.take(k as int) =~= now);
    let ghost before = steps@;
    let mut flush: Vec<SystemStep> = flush_steps(platform);
    let ghost tail = flush@;
    steps.append(&mut flush);
    assert(platform::plan(steps@) =~= platform::plan(before) + platform::plan(tail));
    steps
}

// ── Laws ───────────────────────────────────────────────────────────────

/// What a file holds after a plan, where it held `file` before.
pub open spec fn file_after(
    path: Seq<char>,
    file: Option<Seq<u8>>,
    steps: Seq<Step>,
) -> Option<Seq<u8>>
    decreases steps.len(),
{
    if steps.len() == 0 {
        file
    } else {
        let before = file_after(path, file, steps.drop_last());
        match steps.last() {
            Step::Write(p, contents) => if p == path {
                Some(contents)
            } else {
                before
            },
            Step::Remove(p) => if p == path {
                None
            } else {
                before
            },
            Step::Run(_, _) => before,
        }
    }
}

/// On Linux the file is given back: after installing, and after anything else
/// that happened to the file since, restoring leaves it with the contents that
/// it had, or leaves none where there was none. Contents that an earlier proxy
/// left behind are not given back: then there is no file.
pub proof fn law_restore_gives_back_the_file(
    file: Option<Seq<u8>>,
    between: Seq<Step>,
    saved: Saved,
    names: Seq<Seq<char>>,
    later: Seq<Seq<char>>,
)
    requires
        saved.file == file,
    ensures
        file_after(
            "/etc/resolv.conf"@,
            file,
            platform::install_plan(Platform::Linux, names) + between + restore_plan(
                Platform::Linux,
                saved,
                later,
            ),
        ) == own_file(file),
        file != Some(platform::proxy_resolv_conf()) ==> own_file(file) == file,
        file_after(
            "/etc/resolv.conf"@,
            file,
            platform::install_plan(Platform::Linux, names),
        ) == Some(platform::proxy_resolv_conf()),
{
    let install = platform::install_plan(Platform::Linux, names);
    let steps = install + between + restore_plan(Platform::Linux, saved, later);
    assert(steps.drop_last() =~= install + between);
    assert(steps.last() == restore_plan(Platform::Linux, saved, later)[0]);
    assert(install.last() == install[0]);
}

/// What the DNS of the interface `name` is set to after a step, where it was set
/// to `s` before.
pub open spec fn setting_after_step(
    platform: Platform,
    name: Seq<char>,
    s: Setting,
    step: Step,
) -> Setting {
    match (platform, step) {
        (Platform::Windows, Step::Run(program, args)) => if program != "netsh"@ || args.len() < 6
            || args[0] != "interface"@ || args[1] != "ip"@ || args[3] != "dns"@ || args[4]
            != name {
            s
        } else if args[2] == "set"@ && args[5] == "dhcp"@ {
            Setting::Default
        } else if args[2] == "set"@ && args[5] == "static"@ && args.len() == 7 {
            if args[6] == "none"@ {
                Setting::Servers(Seq::empty())
            } else {
                Setting::Servers(seq![args[6]])
            }
        } else if args[2] == "add"@ {
            match s {
                Setting::Servers(servers) => Setting::Servers(servers.push(args[5])),
                Setting::Default => Setting::Servers(seq![args[5]]),
            }
        } else {
            s
        },
        (_, Step::Run(program, args)) => if program != "networksetup"@ || args.len() < 3
            || args[0] != "-setdnsservers"@ || args[1] != name {
            s
        } else if args.skip(2) == seq!["Empty"@] {
            Setting::Default
        } else {
            Setting::Servers(args.skip(2))
        },
        _ => s,
    }
}

/// What the DNS of the interface `name` is set to after a plan.
pub open spec fn setting_after(
    platform: Platform,
    name: Seq<char>,
    s: Setting,
    steps: Seq<Step>,
) -> Setting
    decreases steps.len(),
{
    if steps.len() == 0 {
        s
    } else {
        setting_after_step(
            platform,
            name,
            setting_after(platform, name, s, steps.drop_last()),
            steps.last(),
        )
    }
}

/// Whether a setting can be one that was found: servers are addresses, and on
/// macOS there is at least one where there are any.
pub open spec fn plausible(platform: Platform, setting: Setting) -> bool {
    match setting {
        Setting::Default => true,
        Setting::Servers(s) => {
            &&& platform != Platform::Windows ==> s.len() > 0
            &&& forall|i: int| 0 <= i < s.len() ==> is_address(#[trigger] s[i])
        },
    }
}

proof fn lemma_address_lines(lines: Seq<Seq<char>>)
    ensures
        forall|i: int|
            0 <= i < address_lines(lines).len() ==> is_address(#[trigger] address_lines(lines)[i]),
    decreases lines.len(),
{
    if lines.len() > 0 {
        lemma_address_lines(lines.drop_last());
        let before = address_lines(lines.drop_last());
        assert forall|i: int| 0 <= i < address_lines(lines).len() implies is_address(
            #[trigger] address_lines(lines)[i],
        ) by {
            if i < before.len() {
                assert(address_lines(lines)[i] == before[i]);
            }
        }
    }
}

proof fn lemma_address_run(lines: Seq<Seq<char>>, from: int)
    requires
        0 <= from,
    ensures
        forall|i: int|
            0 <= i < address_run(lines, from).len() ==> is_address(
                #[trigger] address_run(lines, from)[i],
            ),
    decreases lines.len() - from,
{
    if from < lines.len() && is_address(text::trimmed(lines[from])) {
        lemma_address_run(lines, from + 1);
        let rest = address_run(lines, from + 1);
        assert forall|i: int| 0 <= i < address_run(lines, from).len() implies is_address(
            #[trigger] address_run(lines, from)[i],
        ) by {
            if i > 0 {
                assert(address_run(lines, from)[i] == rest[i - 1]);
            }
        }
    }
}

/// What is found is plausible, whatever the commands print.
pub proof fn law_found_is_plausible(platform: Platform, output: Option<&str>)
    ensures
        plausible(platform, shown_setting(platform, output)),
{
    if let Some(t) = output {
        let lines = text::split_lines(t@);
        lemma_address_lines(lines);
        let at = static_line(lines, 0);
        if 0 <= at < lines.len() {
            lemma_address_run(lines, at + 1);
            let rest = address_run(lines, at + 1);
            let all = seq![after_colon(lines[at])] + rest;
            assert forall|i: int|
                0 <= i < all.len() && is_address(after_colon(lines[at])) implies is_address(
                #[trigger] all[i],
            ) by {
                if i > 0 {
                    assert(all[i] == rest[i - 1]);
                }
            }
        }
    }
    lemma_static_line(
        match output {
            Some(t) => text::split_lines(t@),
            None => Seq::empty(),
        },
        0,
    );
}

proof fn lemma_static_line(lines: Seq<Seq<char>>, from: int)
    requires
        0 <= from,
    ensures
        static_line(lines, from) >= 0,
    decreases lines.len() - from,
{
    if from < lines.len() {
        lemma_static_line(lines, from + 1);
    }
}

proof fn lemma_setting_after_both(
    platform: Platform,
    name: Seq<char>,
    s: Setting,
    a: Seq<Step>,
    b: Seq<Step>,
)
    ensures
        setting_after(platform, name, s, a + b) == setting_after(
            platform,
            name,
            setting_after(platform, name, s, a),
            b,
        ),
    decreases b.len(),
{
    if b.len() == 0 {
        assert(a + b =~= a);
    } else {
        assert((a + b).drop_last() =~= a + b.drop_last());
        assert((a + b).last() == b.last());
        lemma_setting_after_both(platform, name, s, a, b.drop_last());
    }
}

/// Whether no step of a plan is about the interface `name`.
spec fn leaves_alone(platform: Platform, name: Seq<char>, steps: Seq<Step>) -> bool {
    forall|i: int, s: Setting|
        0 <= i < steps.len() ==> #[trigger] setting_after_step(platform, name, s, steps[i]) == s
}

proof fn lemma_left_alone(platform: Platform, name: Seq<char>, s: Setting, steps: Seq<Step>)
    requires
        leaves_alone(platform, name, steps),
    ensures
        setting_after(platform, name, s, steps) == s,
    decreases steps.len(),
{
    if steps.len() > 0 {
        let before = steps.drop_last();
        assert forall|i: int, t: Setting| 0 <= i < before.len() implies
            #[trigger] setting_after_step(platform, name, t, before[i]) == t by {
            assert(before[i] == steps[i]);
        }
        lemma_left_alone(platform, name, s, before);
        assert(setting_after_step(platform, name, s, steps[steps.len() - 1]) == s);
    }
}

proof fn lemma_other_left_alone(
    platform: Platform,
    name: Seq<char>,
    other: Seq<char>,
    setting: Setting,
)
    requires
        platform != Platform::Linux,
        name != other,
    ensures
        leaves_alone(platform, name, restore_on(platform, other, setting)),
        leaves_alone(platform, name, seq![platform::uninstall_on(platform, other)]),
{
    let steps = restore_on(platform, other, setting);
    assert forall|i: int, s: Setting| 0 <= i < steps.len() implies
        #[trigger] setting_after_step(platform, name, s, steps[i]) == s by {
        if let Setting::Servers(servers) = setting {
            if platform == Platform::Windows && servers.len() > 0 && i > 0 {
                assert(steps[i] == netsh_add(other, servers.skip(1)[i - 1]));
            }
        }
    }
}

proof fn lemma_restored(platform: Platform, name: Seq<char>, s: Setting, setting: Setting)
    requires
        platform != Platform::Linux,
        plausible(platform, setting),
    ensures
        setting_after(platform, name, s, restore_on(platform, name, setting)) == setting,
{
    reveal_strlit("set");
    reveal_strlit("add");
    reveal_strlit("dhcp");
    reveal_strlit("static");
    reveal_strlit("none");
    reveal_strlit("Empty");
    assert("set"@[0] != "add"@[0]);
    assert("dhcp"@[0] != "static"@[0]);
    let steps = restore_on(platform, name, setting);
    match setting {
        Setting::Servers(servers) => {
            if platform == Platform::Windows {
                if servers.len() > 0 {
                    assert(is_address(servers[0]));
                    lemma_not_a_word(servers[0]);
                    lemma_servers_added(name, s, servers, servers.len() as int);
                    assert(servers.take(servers.len() as int) =~= servers);
                    assert(steps.take(servers.len() as int) =~= steps);
                } else {
                    assert(steps.drop_last() =~= Seq::<Step>::empty());
                    assert(servers =~= Seq::<Seq<char>>::empty());
                }
            } else {
                assert(is_address(servers[0]));
                lemma_not_a_word(servers[0]);
                let args = seq!["-setdnsservers"@, name] + servers;
                assert(args.skip(2) =~= servers);
                assert(servers != seq!["Empty"@]) by {
                    assert(seq!["Empty"@][0] == "Empty"@);
                }
                assert(steps.drop_last() =~= Seq::<Step>::empty());
            }
        },
        Setting::Default => {
            let step = platform::uninstall_on(platform, name);
            if platform == Platform::MacOs {
                let args = seq!["-setdnsservers"@, name, "Empty"@];
                assert(args.skip(2) =~= seq!["Empty"@]);
            }
            assert(steps.drop_last() =~= Seq::<Step>::empty());
        },
    }
}

/// The words that stand for no server have not the looks of an address.
proof fn lemma_not_a_word(word: Seq<char>)
    requires
        is_address(word),
    ensures
        word != "none"@,
        word != "Empty"@,
{
    reveal_strlit("none");
    reveal_strlit("Empty");
    if word == "none"@ {
        assert(word[0] == 'n' && word[1] == 'o' && word[2] == 'n' && word[3] == 'e');
    }
    if word == "Empty"@ {
        assert(word[0] == 'E' && word[1] == 'm' && word[2] == 'p' && word[3] == 't' && word[4]
            == 'y');
    }
}

proof fn lemma_servers_added(name: Seq<char>, s: Setting, servers: Seq<Seq<char>>, n: int)
    requires
        1 <= n <= servers.len(),
        servers[0] != "none"@,
    ensures
        setting_after(
            Platform::Windows,
            name,
            s,
            restore_on(Platform::Windows, name, Setting::Servers(servers)).take(n),
        ) == Setting::Servers(servers.take(n)),
    decreases n,
{
    reveal_strlit("set");
    reveal_strlit("add");
    reveal_strlit("dhcp");
    reveal_strlit("static");
    assert("set"@[0] != "add"@[0]);
    assert("dhcp"@[0] != "static"@[0]);
    let steps = restore_on(Platform::Windows, name, Setting::Servers(servers));
    assert(steps.take(n).drop_last() =~= steps.take(n - 1));
    assert(steps.take(n).last() == steps[n - 1]);
    if n == 1 {
        assert(steps[0] == netsh_static(name, servers[0]));
        assert(servers.take(1) =~= seq![servers[0]]);
    } else {
        lemma_servers_added(name, s, servers, n - 1);
        assert(steps[n - 1] == netsh_add(name, servers.skip(1)[n - 2]));
        assert(servers.take(n) =~= servers.take(n - 1).push(servers[n - 1]));
    }
}

/// Whether an interface that is listed twice is listed with the same setting.
pub open spec fn consistent(found: Seq<(Seq<char>, Setting)>) -> bool {
    forall|i: int, j: int|
        0 <= i < j < found.len() && (#[trigger] found[i]).0 == (#[trigger] found[j]).0
            ==> found[i].1 == found[j].1
}

proof fn lemma_all_restored(
    platform: Platform,
    found: Seq<(Seq<char>, Setting)>,
    i: int,
    s: Setting,
)
    requires
        platform != Platform::Linux,
        0 <= i < found.len(),
        consistent(found),
        plausible(platform, found[i].1),
    ensures
        setting_after(platform, found[i].0, s, restore_all(platform, found)) == own(found[i].1),
    decreases found.len(),
{
    let name = found[i].0;
    let before = restore_all(platform, found.drop_last());
    let last = restore_on(platform, found.last().0, own(found.last().1));
    lemma_setting_after_both(platform, name, s, before, last);
    let t = setting_after(platform, name, s, before);
    if found.last().0 == name {
        assert(found[found.len() - 1].1 == found[i].1);
        lemma_restored(platform, name, t, own(found[i].1));
    } else {
        lemma_all_restored(platform, found.drop_last(), i, s);
        lemma_other_left_alone(platform, name, found.last().0, own(found.last().1));
        lemma_left_alone(platform, name, t, last);
    }
}

proof fn lemma_new_left_alone(
    platform: Platform,
    found: Seq<(Seq<char>, Setting)>,
    names: Seq<Seq<char>>,
    name: Seq<char>,
    s: Setting,
)
    requires
        platform != Platform::Linux,
        was_found(found, name),
    ensures
        setting_after(platform, name, s, default_new(platform, found, names)) == s,
    decreases names.len(),
{
    if names.len() > 0 {
        let before = default_new(platform, found, names.drop_last());
        lemma_new_left_alone(platform, found, names.drop_last(), name, s);
        if !was_found(found, names.last()) {
            let step = seq![platform::uninstall_on(platform, names.last())];
            lemma_other_left_alone(platform, name, names.last(), Setting::Default);
            lemma_setting_after_both(platform, name, s, before, step);
            lemma_left_alone(platform, name, s, step);
            assert(before.push(step[0]) =~= before + step);
        }
    }
}

proof fn lemma_flush_left_alone(platform: Platform, name: Seq<char>, s: Setting)
    requires
        platform != Platform::Linux,
    ensures
        setting_after(platform, name, s, platform::flush_plan(platform)) == s,
{
    reveal_strlit("dscacheutil");
    reveal_strlit("killall");
    reveal_strlit("networksetup");
    assert("dscacheutil"@[0] != "networksetup"@[0]);
    assert("killall"@[0] != "networksetup"@[0]);
    let steps = platform::flush_plan(platform);
    assert forall|i: int, t: Setting| 0 <= i < steps.len() implies
        #[trigger] setting_after_step(platform, name, t, steps[i]) == t by {
    }
    lemma_left_alone(platform, name, s, steps);
}

/// Elsewhere every interface is given back its own: whatever its DNS is set to
/// when the proxy ends, and whatever interfaces there are then, restoring leaves
/// it set to what was found. A setting that an earlier proxy left behind is not
/// given back: then it is the default.
pub proof fn law_restore_gives_back_the_servers(
    platform: Platform,
    saved: Saved,
    i: int,
    now: Setting,
    names: Seq<Seq<char>>,
)
    requires
        platform != Platform::Linux,
        0 <= i < saved.interfaces.len(),
        consistent(saved.interfaces),
        plausible(platform, saved.interfaces[i].1),
    ensures
        setting_after(
            platform,
            saved.interfaces[i].0,
            now,
            restore_plan(platform, saved, names),
        ) == own(saved.interfaces[i].1),
        !(saved.interfaces[i].1 matches Setting::Servers(s) && s.contains(LISTEN_ADDR@)) ==> own(
            saved.interfaces[i].1,
        ) == saved.interfaces[i].1,
{
    let found = saved.interfaces;
    let name = found[i].0;
    let a = restore_all(platform, found);
    let b = default_new(platform, found, names);
    let c = platform::flush_plan(platform);
    lemma_setting_after_both(platform, name, now, a + b, c);
    lemma_setting_after_both(platform, name, now, a, b);
    lemma_all_restored(platform, found, i, now);
    assert(was_found(found, name));
    lemma_new_left_alone(platform, found, names, name, own(found[i].1));
    lemma_flush_left_alone(platform, name, own(found[i].1));
}

/// The system never ends up pointing at a proxy that has ended: whatever was
/// found, restoring an interface leaves the proxy's address out.
pub proof fn law_the_proxy_is_not_restored(setting: Setting, file: Option<Seq<u8>>)
    ensures
        own(setting) matches Setting::Servers(s) ==> !s.contains(LISTEN_ADDR@),
        own_file(file) != Some(platform::proxy_resolv_conf()),
{
}

/// What was found is kept as it is: the file, and every interface under its name
/// with its own setting, in order.
pub proof fn law_found_contents(saved: SavedDns, i: int)
    requires
        0 <= i < saved.interfaces@.len(),
    ensures
        saved@.interfaces.len() == saved.interfaces@.len(),
        saved@.interfaces[i].0 == saved.interfaces@[i].name@,
        saved.interfaces@[i].setting is Default <==> saved@.interfaces[i].1 is Default,
        saved.interfaces@[i].setting matches DnsSetting::Servers(v) ==> (
        saved@.interfaces[i].1 matches Setting::Servers(s) && s.len() == v@.len() && forall|k: int|
            0 <= k < s.len() ==> #[trigger] s[k] == v@[k]@),
        saved.file is None <==> saved@.file is None,
        saved.file matches Some(f) ==> saved@.file == Some(f@),
{
}

/// A word with a dot or a colon and without white space is taken for an address,
/// and no other.
pub proof fn law_addresses(word: Seq<char>)
    ensures
        is_address(word) <==> {
            &&& exists|i: int|
                0 <= i < word.len() && (#[trigger] word[i] == '.' || word[i] == ':')
            &&& forall|i: int| 0 <= i < word.len() ==> !text::is_white_space(#[trigger] word[i])
        },
{
    if exists|i: int| 0 <= i < word.len() && (#[trigger] word[i] == '.' || word[i] == ':') {
        let i = choose|i: int|
            0 <= i < word.len() && (#[trigger] word[i] == '.' || word[i] == ':');
        assert(word.contains(word[i]));
    }
}

/// Addresses are taken from lines one by one and in order: what two parts hold,
/// the whole holds, and a line alone holds the address that it consists of, or
/// none.
pub proof fn law_addresses_are_read_in_order(
    a: Seq<Seq<char>>,
    line: Seq<char>,
    b: Seq<Seq<char>>,
)
    ensures
        address_lines(a + b) == address_lines(a) + address_lines(b),
        is_address(text::trimmed(line)) ==> address_lines(seq![line]) == seq![text::trimmed(line)],
        !is_address(text::trimmed(line)) ==> address_lines(seq![line]).len() == 0,
    decreases b.len(),
{
    let one = seq![line];
    assert(one.drop_last() =~= Seq::<Seq<char>>::empty());
    assert(address_lines(Seq::empty()) =~= Seq::<Seq<char>>::empty());
    if is_address(text::trimmed(line)) {
        assert(address_lines(one) =~= seq![text::trimmed(line)]);
    }
    if b.len() == 0 {
        assert(a + b =~= a);
        assert(address_lines(a) + address_lines(b) =~= address_lines(a));
    } else {
        assert((a + b).drop_last() =~= a + b.drop_last());
        assert((a + b).last() == b.last());
        law_addresses_are_read_in_order(a, line, b.drop_last());
        assert(address_lines(a + b) =~= address_lines(a) + address_lines(b));
    }
}

/// On macOS an output that holds addresses shows these servers, and one that
/// holds none shows the default.
pub proof fn law_networksetup_shows(lines: Seq<Seq<char>>, i: int)
    ensures
        address_lines(lines).len() > 0 ==> networksetup_setting(lines) == Setting::Servers(
            address_lines(lines),
        ),
        address_lines(lines).len() == 0 ==> networksetup_setting(lines) is Default,
        0 <= i < lines.len() && is_address(text::trimmed(lines[i])) ==> (networksetup_setting(
            lines,
        ) matches Setting::Servers(s) && s.contains(text::trimmed(lines[i]))),
{
    if 0 <= i < lines.len() && is_address(text::trimmed(lines[i])) {
        let a = lines.take(i);
        let b = lines.skip(i + 1);
        let line = lines[i];
        assert(lines =~= a + (seq![line] + b));
        law_addresses_are_read_in_order(a, line, seq![line] + b);
        law_addresses_are_read_in_order(seq![line], line, b);
        let all = address_lines(lines);
        assert(all =~= address_lines(a) + (seq![text::trimmed(line)] + address_lines(b)));
        assert(all[address_lines(a).len() as int] == text::trimmed(line));
    }
}

proof fn lemma_static_line_found(lines: Seq<Seq<char>>, from: int, at: int)
    requires
        0 <= from <= at <= lines.len(),
        forall|i: int| from <= i < at ==> !text::contains_text(#[trigger] lines[i], "Statically"@),
        at < lines.len() ==> text::contains_text(lines[at], "Statically"@),
    ensures
        static_line(lines, from) == at,
    decreases at - from,
{
    if from < at {
        assert(!text::contains_text(lines[from], "Statically"@));
        lemma_static_line_found(lines, from + 1, at);
    }
}

proof fn lemma_address_run_found(lines: Seq<Seq<char>>, from: int, to: int)
    requires
        0 <= from <= to <= lines.len(),
        forall|i: int| from <= i < to ==> is_address(text::trimmed(#[trigger] lines[i])),
        to < lines.len() ==> !is_address(text::trimmed(lines[to])),
    ensures
        address_run(lines, from) == Seq::new(
            (to - from) as nat,
            |i: int| text::trimmed(lines[from + i]),
        ),
    decreases to - from,
{
    let all = Seq::new((to - from) as nat, |i: int| text::trimmed(lines[from + i]));
    if from < to {
        assert(is_address(text::trimmed(lines[from])));
        lemma_address_run_found(lines, from + 1, to);
        assert(all =~= seq![text::trimmed(lines[from])] + address_run(lines, from + 1));
    } else {
        assert(all =~= Seq::<Seq<char>>::empty());
    }
}

/// On Windows the first line that speaks of servers set by hand has the first of
/// them behind its first colon, and the lines after it have the others, up to
/// the first line that is none; whatever stands before and behind them does not
/// count. Without such a line the output shows the default, and without an
/// address on it no servers.
pub proof fn law_netsh_shows(
    before: Seq<Seq<char>>,
    head: Seq<char>,
    tail: Seq<char>,
    more: Seq<Seq<char>>,
    rest: Seq<Seq<char>>,
)
    requires
        forall|i: int|
            0 <= i < before.len() ==> !text::contains_text(#[trigger] before[i], "Statically"@),
        !head.contains(':'),
        text::contains_text(head, "Statically"@),
        forall|i: int| 0 <= i < more.len() ==> is_address(text::trimmed(#[trigger] more[i])),
        rest.len() > 0 ==> !is_address(text::trimmed(rest[0])),
    ensures
        ({
            let lines = before + seq![head + seq![':'] + tail] + more + rest;
            &&& netsh_setting(before) is Default
            &&& is_address(text::trimmed(tail)) ==> netsh_setting(lines) == Setting::Servers(
                seq![text::trimmed(tail)] + more.map_values(|l: Seq<char>| text::trimmed(l)),
            )
            &&& !is_address(text::trimmed(tail)) ==> netsh_setting(lines) == Setting::Servers(
                Seq::<Seq<char>>::empty(),
            )
            &&& netsh_setting(before + seq![head] + rest) == Setting::Servers(
                Seq::<Seq<char>>::empty(),
            )
        }),
{
    let intro = head + seq![':'] + tail;
    let lines = before + seq![intro] + more + rest;
    let at = before.len() as int;
    let n = head.len() as int;
    lemma_static_line_found(before, 0, at);
    assert(lines[at] == intro);
    assert(text::contains_text(intro, "Statically"@)) by {
        let i = choose|i: int| text::occurs_at(head, "Statically"@, i);
        let k = "Statically"@.len();
        assert(intro.subrange(i, i + k) =~= head.subrange(i, i + k));
        assert(text::occurs_at(intro, "Statically"@, i));
    }
    assert forall|i: int| 0 <= i < at implies !text::contains_text(
        #[trigger] lines[i],
        "Statically"@,
    ) by {
        assert(lines[i] == before[i]);
    }
    lemma_static_line_found(lines, 0, at);
    text::law_find(head, ':', tail);
    assert(intro.skip(n + 1) =~= tail);
    let to = at + 1 + more.len();
    assert forall|i: int| at + 1 <= i < to implies is_address(text::trimmed(#[trigger] lines[i])) by {
        assert(lines[i] == more[i - at - 1]);
    }
    if to < lines.len() {
        assert(lines[to] == rest[0]);
    }
    lemma_address_run_found(lines, at + 1, to);
    assert(address_run(lines, at + 1) =~= more.map_values(|l: Seq<char>| text::trimmed(l)));
    let bare = before + seq![head] + rest;
    assert(bare[at] == head);
    assert forall|i: int| 0 <= i < at implies !text::contains_text(
        #[trigger] bare[i],
        "Statically"@,
    ) by {
        assert(bare[i] == before[i]);
    }
    lemma_static_line_found(bare, 0, at);
    assert(!is_address(Seq::<char>::empty()));
}

/// A command that failed shows the default, and each platform's output is read
/// its own way.
pub proof fn law_shown(platform: Platform, t: &str)
    ensures
        shown_setting(platform, None) is Default,
        shown_setting(Platform::Windows, Some(t)) == netsh_setting(text::split_lines(t@)),
        shown_setting(Platform::MacOs, Some(t)) == networksetup_setting(text::split_lines(t@)),
{
}

/// A setting is the system's own unless 127.0.0.2 is among its servers, and the
/// file is unless it is what a proxy writes; what is not stands for the default,
/// and for no file.
pub proof fn law_leftovers(servers: Seq<Seq<char>>, i: int, file: Option<Seq<u8>>)
    ensures
        own(Setting::Default) is Default,
        0 <= i < servers.len() && servers[i] == "127.0.0.2"@ ==> own(Setting::Servers(servers))
            is Default,
        (forall|k: int| 0 <= k < servers.len() ==> #[trigger] servers[k] != "127.0.0.2"@) ==> own(
            Setting::Servers(servers),
        ) == Setting::Servers(servers),
        own_file(file) is None <==> file is None || file == Some(platform::proxy_resolv_conf()),
        own_file(file) is Some ==> own_file(file) == file,
{
}

proof fn lemma_each_is_set(
    platform: Platform,
    names: Seq<Seq<char>>,
    name: Seq<char>,
    s: Setting,
)
    requires
        platform != Platform::Linux,
    ensures
        setting_after(
            platform,
            name,
            s,
            names.map_values(|n: Seq<char>| platform::install_on(platform, n)),
        ) == (if names.contains(name) {
            Setting::Servers(seq!["127.0.0.2"@])
        } else {
            s
        }),
        setting_after(
            platform,
            name,
            s,
            names.map_values(|n: Seq<char>| platform::uninstall_on(platform, n)),
        ) == (if names.contains(name) {
            Setting::Default
        } else {
            s
        }),
    decreases names.len(),
{
    let on = names.map_values(|n: Seq<char>| platform::install_on(platform, n));
    let off = names.map_values(|n: Seq<char>| platform::uninstall_on(platform, n));
    if names.len() > 0 {
        let last = names.last();
        let before = names.drop_last();
        lemma_each_is_set(platform, before, name, s);
        assert(on.drop_last() =~= before.map_values(
            |n: Seq<char>| platform::install_on(platform, n),
        ));
        assert(off.drop_last() =~= before.map_values(
            |n: Seq<char>| platform::uninstall_on(platform, n),
        ));
        lemma_one_is_set(platform, last, name, setting_after(platform, name, s, on.drop_last()));
        lemma_one_is_set(platform, last, name, setting_after(platform, name, s, off.drop_last()));
        lemma_contains_last(names, name);
    }
}

proof fn lemma_contains_last(names: Seq<Seq<char>>, name: Seq<char>)
    requires
        names.len() > 0,
    ensures
        names.contains(name) <==> names.drop_last().contains(name) || names.last() == name,
{
    let before = names.drop_last();
    if names.contains(name) {
        let i = choose|i: int| 0 <= i < names.len() && names[i] == name;
        if i < names.len() - 1 {
            assert(before[i] == name);
        }
    }
    if before.contains(name) {
        let i = choose|i: int| 0 <= i < before.len() && before[i] == name;
        assert(names[i] == name);
    }
    assert(names[names.len() - 1] == names.last());
}

proof fn lemma_one_is_set(platform: Platform, last: Seq<char>, name: Seq<char>, s: Setting)
    requires
        platform != Platform::Linux,
    ensures
        setting_after_step(platform, name, s, platform::install_on(platform, last)) == (if last
            == name {
            Setting::Servers(seq!["127.0.0.2"@])
        } else {
            s
        }),
        setting_after_step(platform, name, s, platform::uninstall_on(platform, last)) == (if last
            == name {
            Setting::Default
        } else {
            s
        }),
{
    reveal_strlit("set");
    reveal_strlit("add");
    reveal_strlit("dhcp");
    reveal_strlit("static");
    reveal_strlit("none");
    reveal_strlit("Empty");
    reveal_strlit("127.0.0.2");
    assert("dhcp"@[0] != "static"@[0]);
    assert("127.0.0.2"@.len() == 9 && "none"@.len() == 4 && "Empty"@.len() == 5);
    let installed = seq!["-setdnsservers"@, last, "127.0.0.2"@];
    let emptied = seq!["-setdnsservers"@, last, "Empty"@];
    assert(installed.skip(2) =~= seq!["127.0.0.2"@]);
    assert(emptied.skip(2) =~= seq!["Empty"@]);
    assert(seq!["127.0.0.2"@][0] != seq!["Empty"@][0]);
}

/// Installing sets every interface to the proxy's address and to nothing else,
/// uninstalling sets every interface to its defaults, and neither touches any
/// other, whatever they were set to.
pub proof fn law_install_sets_every_interface(
    platform: Platform,
    names: Seq<Seq<char>>,
    name: Seq<char>,
    s: Setting,
)
    requires
        platform != Platform::Linux,
    ensures
        setting_after(platform, name, s, platform::install_plan(platform, names)) == (
        if names.contains(name) {
            Setting::Servers(seq!["127.0.0.2"@])
        } else {
            s
        }),
        setting_after(platform, name, s, platform::uninstall_plan(platform, names)) == (
        if names.contains(name) {
            Setting::Default
        } else {
            s
        }),
{
    let on = names.map_values(|n: Seq<char>| platform::install_on(platform, n));
    let off = names.map_values(|n: Seq<char>| platform::uninstall_on(platform, n));
    let flush = platform::flush_plan(platform);
    lemma_each_is_set(platform, names, name, s);
    lemma_setting_after_both(platform, name, s, on, flush);
    lemma_setting_after_both(platform, name, s, off, flush);
    lemma_flush_left_alone(platform, name, setting_after(platform, name, s, on));
    lemma_flush_left_alone(platform, name, setting_after(platform, name, s, off));
}

proof fn lemma_restore_all_left_alone(
    platform: Platform,
    found: Seq<(Seq<char>, Setting)>,
    name: Seq<char>,
    s: Setting,
)
    requires
        platform != Platform::Linux,
        !was_found(found, name),
    ensures
        setting_after(platform, name, s, restore_all(platform, found)) == s,
    decreases found.len(),
{
    if found.len() > 0 {
        let before = found.drop_last();
        let last = restore_on(platform, found.last().0, own(found.last().1));
        assert(found[found.len() - 1].0 != name);
        assert(!was_found(before, name)) by {
            if was_found(before, name) {
                let i = choose|i: int| 0 <= i < before.len() && (#[trigger] before[i]).0 == name;
                assert(found[i].0 == name);
            }
        }
        lemma_restore_all_left_alone(platform, before, name, s);
        lemma_other_left_alone(platform, name, found.last().0, own(found.last().1));
        lemma_setting_after_both(platform, name, s, restore_all(platform, before), last);
        lemma_left_alone(platform, name, s, last);
    }
}

proof fn lemma_new_is_default(
    platform: Platform,
    found: Seq<(Seq<char>, Setting)>,
    names: Seq<Seq<char>>,
    name: Seq<char>,
    s: Setting,
)
    requires
        platform != Platform::Linux,
        !was_found(found, name),
    ensures
        setting_after(platform, name, s, default_new(platform, found, names)) == (
        if names.contains(name) {
            Setting::Default
        } else {
            s
        }),
    decreases names.len(),
{
    if names.len() > 0 {
        let last = names.last();
        let before = names.drop_last();
        let steps = default_new(platform, found, before);
        lemma_new_is_default(platform, found, before, name, s);
        lemma_contains_last(names, name);
        if !was_found(found, last) {
            let step = platform::uninstall_on(platform, last);
            assert(steps.push(step).drop_last() =~= steps);
            lemma_one_is_set(platform, last, name, setting_after(platform, name, s, steps));
        }
    }
}

/// An interface that appeared while the proxy ran gets its defaults, and one
/// that is gone and was never looked at is left alone.
pub proof fn law_new_interfaces_get_defaults(
    platform: Platform,
    saved: Saved,
    names: Seq<Seq<char>>,
    name: Seq<char>,
    now: Setting,
)
    requires
        platform != Platform::Linux,
        forall|i: int| 0 <= i < saved.interfaces.len() ==> (#[trigger] saved.interfaces[i]).0 != name,
    ensures
        setting_after(platform, name, now, restore_plan(platform, saved, names)) == (
        if names.contains(name) {
            Setting::Default
        } else {
            now
        }),
{
    let found = saved.interfaces;
    let a = restore_all(platform, found);
    let b = default_new(platform, found, names);
    let c = platform::flush_plan(platform);
    lemma_restore_all_left_alone(platform, found, name, now);
    lemma_new_is_default(platform, found, names, name, now);
    lemma_setting_after_both(platform, name, now, a, b);
    lemma_setting_after_both(platform, name, now, a + b, c);
    lemma_flush_left_alone(platform, name, setting_after(platform, name, now, b));
}

/// Restoring ends, on macOS, with the two commands that make the system forget
/// old answers, and takes one command for a setting, or one for each server on
/// Windows.
pub proof fn law_restore_commands(
    platform: Platform,
    saved: Saved,
    names: Seq<Seq<char>>,
    name: Seq<char>,
    servers: Seq<Seq<char>>,
)
    ensures
        platform == Platform::MacOs ==> {
            let steps = restore_plan(platform, saved, names);
            &&& steps.len() >= 2
            &&& steps[steps.len() - 2] == Step::Run("dscacheutil"@, seq!["-flushcache"@])
            &&& steps[steps.len() - 1] == Step::Run("killall"@, seq!["-HUP"@, "mDNSResponder"@])
        },
        restore_on(platform, name, Setting::Default).len() == 1,
        restore_on(platform, name, Setting::Servers(servers)).len() == (if platform
            == Platform::Windows && servers.len() > 0 {
            servers.len()
        } else {
            1
        }),
        servers.len() > 0 ==> restore_on(Platform::MacOs, name, Setting::Servers(servers)) == seq![
            Step::Run("networksetup"@, seq!["-setdnsservers"@, name] + servers),
        ],
        servers.len() == 0 ==> restore_on(Platform::MacOs, name, Setting::Servers(servers)) == seq![
            Step::Run("networksetup"@, seq!["-setdnsservers"@, name, "Empty"@]),
        ],
        restore_on(Platform::Windows, name, Setting::Default) == seq![
            Step::Run("netsh"@, seq!["interface"@, "ip"@, "set"@, "dns"@, name, "dhcp"@]),
        ],
        servers.len() == 0 ==> restore_on(Platform::Windows, name, Setting::Servers(servers))
            == seq![
            Step::Run(
                "netsh"@,
                seq!["interface"@, "ip"@, "set"@, "dns"@, name, "static"@, "none"@],
            ),
        ],
{
}

} // verus!
