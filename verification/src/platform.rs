//! What the proxy changes on the system, per platform.
//!
//! The loopback alias and the system's DNS servers are managed by commands and
//! files; here they are plans, to be carried out in order. A step that fails
//! does not keep the others from being tried.

use vstd::prelude::*;
use vstd::utf8;

use crate::text;

verus! {

/// Address that the proxy listens on and that the system's DNS is set to.
pub const LISTEN_ADDR: &'static str = "127.0.0.2";

/// Port that the proxy listens on.
pub const LISTEN_PORT: u16 = 53;

#[derive(Debug, Clone, Copy, PartialEq, Eq, Structural)]
pub enum Platform {
    MacOs,
    Linux,
    Windows,
}

/// A step of a plan.
#[derive(Debug)]
pub enum SystemStep {
    /// Run a program with arguments.
    Run(String, Vec<String>),
    /// Write a file: its path and its contents.
    Write(String, Vec<u8>),
    /// Remove a file.
    Remove(String),
}

/// A step of a plan, by its contents.
pub enum Step {
    Run(Seq<char>, Seq<Seq<char>>),
    Write(Seq<char>, Seq<u8>),
    Remove(Seq<char>),
}

impl View for SystemStep {
    type V = Step;

    open spec fn view(&self) -> Step {
        match self {
            SystemStep::Run(program, args) => Step::Run(program@, text::texts(args@)),
            SystemStep::Write(path, contents) => Step::Write(path@, contents@),
            SystemStep::Remove(path) => Step::Remove(path@),
        }
    }
}

/// The steps of a plan, by their contents.
pub open spec fn plan(steps: Seq<SystemStep>) -> Seq<Step> {
    Seq::new(steps.len(), |i: int| steps[i]@)
}

// ── Privileges ─────────────────────────────────────────────────────────

/// The complaint about missing privileges.
pub open spec fn root_complaint(platform: Platform) -> Seq<char> {
    match platform {
        Platform::Windows => "error: must run as Administrator"@,
        _ => "error: must run as root (sudo)"@,
    }
}

/// Whether the process may go on, given whether it has the privileges that
/// port 53 and the DNS configuration take; otherwise the complaint to end with.
pub fn check_root(platform: Platform, privileged: bool) -> (r: Result<(), String>)
    ensures
        r is Ok <==> privileged,
        r matches Err(e) ==> e@ == root_complaint(platform),
{
    if privileged {
        return Ok(());
    }
    match platform {
        Platform::Windows => Err("error: must run as Administrator".to_owned()),
        _ => Err("error: must run as root (sudo)".to_owned()),
    }
}

// ── Building plans ─────────────────────────────────────────────────────

pub(crate) fn run2(program: &str, a: &str, b: &str) -> (r: SystemStep)
    ensures
        r@ == Step::Run(program@, seq![a@, b@]),
{
    let mut args: Vec<String> = Vec::new();
    args.push(a.to_owned());
    args.push(b.to_owned());
    assert(text::texts(args@) =~= seq![a@, b@]);
    SystemStep::Run(program.to_owned(), args)
}

pub(crate) fn run3(program: &str, a: &str, b: &str, c: &str) -> (r: SystemStep)
    ensures
        r@ == Step::Run(program@, seq![a@, b@, c@]),
{
    let mut args: Vec<String> = Vec::new();
    args.push(a.to_owned());
    args.push(b.to_owned());
    args.push(c.to_owned());
    assert(text::texts(args@) =~= seq![a@, b@, c@]);
    SystemStep::Run(program.to_owned(), args)
}

fn run4(program: &str, a: &str, b: &str, c: &str, d: &str) -> (r: SystemStep)
    ensures
        r@ == Step::Run(program@, seq![a@, b@, c@, d@]),
{
    let mut args: Vec<String> = Vec::new();
    args.push(a.to_owned());
    args.push(b.to_owned());
    args.push(c.to_owned());
    args.push(d.to_owned());
    assert(text::texts(args@) =~= seq![a@, b@, c@, d@]);
    SystemStep::Run(program.to_owned(), args)
}

// ── Loopback ───────────────────────────────────────────────────────────

/// How the loopback interface gets the proxy's address.
pub open spec fn setup_plan(platform: Platform) -> Seq<Step> {
    match platform {
        Platform::MacOs => seq![
            Step::Run("ifconfig"@, seq!["lo0"@, "alias"@, LISTEN_ADDR@, "255.255.255.255"@]),
        ],
        Platform::Linux => seq![
            Step::Run("ip"@, seq!["addr"@, "add"@, "127.0.0.2/32"@, "dev"@, "lo"@]),
        ],
        Platform::Windows => Seq::empty(),
    }
}

/// How the loopback interface loses it again.
pub open spec fn teardown_plan(platform: Platform) -> Seq<Step> {
    match platform {
        Platform::MacOs => seq![
            Step::Run("ifconfig"@, seq!["lo0"@, "inet"@, LISTEN_ADDR@, "-alias"@]),
        ],
        Platform::Linux => seq![
            Step::Run("ip"@, seq!["addr"@, "del"@, "127.0.0.2/32"@, "dev"@, "lo"@]),
        ],
        Platform::Windows => Seq::empty(),
    }
}

/// `ip addr <verb> 127.0.0.2/32 dev lo`
fn ip_addr(verb: &str) -> (r: SystemStep)
    ensures
        r@ == Step::Run("ip"@, seq!["addr"@, verb@, "127.0.0.2/32"@, "dev"@, "lo"@]),
{
    let mut args: Vec<String> = Vec::new();
    args.push("addr".to_owned());
    args.push(verb.to_owned());
    args.push("127.0.0.2/32".to_owned());
    args.push("dev".to_owned());
    args.push("lo".to_owned());
    assert(text::texts(args@) =~= seq!["addr"@, verb@, "127.0.0.2/32"@, "dev"@, "lo"@]);
    SystemStep::Run("ip".to_owned(), args)
}

/// Give the loopback interface the proxy's address.
pub fn setup_loopback(platform: Platform) -> (r: Vec<SystemStep>)
    ensures
        plan(r@) == setup_plan(platform),
{
    let mut steps: Vec<SystemStep> = Vec::new();
    match platform {
        Platform::MacOs => {
            steps.push(run4("ifconfig", "lo0", "alias", LISTEN_ADDR, "255.255.255.255"));
        },
        Platform::Linux => {
            steps.push(ip_addr("add"));
        },
        Platform::Windows => {},
    }
    assert(plan(steps@) =~= setup_plan(platform));
    steps
}

/// Take the proxy's address from the loopback interface.
pub fn teardown_loopback(platform: Platform) -> (r: Vec<SystemStep>)
    ensures
        plan(r@) == teardown_plan(platform),
{
    let mut steps: Vec<SystemStep> = Vec::new();
    match platform {
        Platform::MacOs => {
            steps.push(run4("ifconfig", "lo0", "inet", LISTEN_ADDR, "-alias"));
        },
        Platform::Linux => {
            steps.push(ip_addr("del"));
        },
        Platform::Windows => {},
    }
    assert(plan(steps@) =~= teardown_plan(platform));
    steps
}

// ── Network services ───────────────────────────────────────────────────

/// `s` without the asterisks that it begins with.
pub open spec fn without_stars(s: Seq<char>) -> Seq<char>
    decreases s.len(),
{
    if s.len() > 0 && s[0] == '*' {
        without_stars(s.skip(1))
    } else {
        s
    }
}

/// The name of a network service in a line of the listing. An asterisk marks a
/// disabled one.
pub open spec fn service_name(line: Seq<char>) -> Seq<char> {
    text::trimmed(without_stars(line))
}

/// Whether a line of the listing names a service: it is not blank, and not the
/// line that explains the asterisk.
pub open spec fn names_service(line: Seq<char>) -> bool {
    &&& line.len() > 0
    &&& !text::contains_text(line, "asterisk"@)
    &&& !text::contains_text(line, "denotes"@)
    &&& service_name(line).len() > 0
}

/// The names of the network services in a listing, in order.
pub open spec fn service_names(lines: Seq<Seq<char>>) -> Seq<Seq<char>>
    decreases lines.len(),
{
    if lines.len() == 0 {
        Seq::empty()
    } else if names_service(lines.last()) {
        service_names(lines.drop_last()).push(service_name(lines.last()))
    } else {
        service_names(lines.drop_last())
    }
}

/// The name of the service in a line, if it names one.
fn service_of(line: &[char]) -> (r: Option<String>)
    ensures
        match r {
            Some(name) => names_service(line@) && name@ == service_name(line@),
            None => !names_service(line@),
        },
{
    if line.len() == 0 || text::has_text(line, "asterisk") || text::has_text(line, "denotes") {
        return None;
    }
    let mut from: usize = 0;
    assert(line@.skip(0) =~= line@);
    while from < line.len() && line[from] == '*'
        invariant
            from <= line@.len(),
            without_stars(line@) == without_stars(line@.skip(from as int)),
        decreases line@.len() - from,
    {
        assert(line@.skip(from as int).skip(1) =~= line@.skip(from + 1));
        from = from + 1;
    }
    let (lo, hi) = text::trim(line, from);
    if lo == hi {
        None
    } else {
        Some(text::from_chars(line, lo, hi))
    }
}

/// The network services in the output of the command that lists them; none
/// where the command failed.
pub fn get_network_services(output: Option<&str>) -> (r: Vec<String>)
    ensures
        text::texts(r@) == (match output {
            Some(t) => service_names(text::split_lines(t@)),
            None => Seq::empty(),
        }),
{
    let mut names: Vec<String> = Vec::new();
    assert(text::texts(names@) =~= Seq::<Seq<char>>::empty());
    if let Some(t) = output {
        let rows: Vec<Vec<char>> = text::lines(t);
        let ghost all = text::split_lines(t@);
        let mut i: usize = 0;
        while i < rows.len()
            invariant
                i <= rows@.len(),
                text::rows(rows@) == all,
                text::texts(names@) == service_names(all.take(i as int)),
            decreases rows@.len() - i,
        {
            let ghost before = names@;
            assert(rows@[i as int]@ == all[i as int]);
            assert(all.take(i + 1).drop_last() =~= all.take(i as int));
            if let Some(name) = service_of(rows[i].as_slice()) {
                names.push(name);
                assert(text::texts(names@) =~= text::texts(before).push(name@));
            }
            i = i + 1;
        }
        assert(all.take(i as int) =~= all);
    }
    names
}

/// The services that are configured when none can be listed.
pub open spec fn usual_services() -> Seq<Seq<char>> {
    seq!["Wi-Fi"@, "Ethernet"@, "USB 10/100/1000 LAN"@, "Thunderbolt Bridge"@]
}

/// The services to configure: those that were listed, or the usual ones where
/// none was.
pub fn for_each_service(services: Vec<String>) -> (r: Vec<String>)
    ensures
        text::texts(r@) == (if services@.len() == 0 {
            usual_services()
        } else {
            text::texts(services@)
        }),
{
    if services.len() > 0 {
        return services;
    }
    let mut names: Vec<String> = Vec::new();
    names.push("Wi-Fi".to_owned());
    names.push("Ethernet".to_owned());
    names.push("USB 10/100/1000 LAN".to_owned());
    names.push("Thunderbolt Bridge".to_owned());
    assert(text::texts(names@) =~= usual_services());
    names
}

/// The name of an adapter in a line of the listing: its last column, where
/// columns are separated by two spaces or more.
pub open spec fn adapter_name(line: Seq<char>) -> Seq<char> {
    text::trimmed(text::last_piece(text::trimmed(line), "  "@))
}

/// Whether a line of the listing names an adapter other than the loopback.
pub open spec fn names_adapter(line: Seq<char>) -> bool {
    &&& adapter_name(line).len() > 0
    &&& !text::contains_text(adapter_name(line), "Loopback"@)
}

/// The names of the adapters in the lines of a listing, in order.
pub open spec fn adapter_names(lines: Seq<Seq<char>>) -> Seq<Seq<char>>
    decreases lines.len(),
{
    if lines.len() == 0 {
        Seq::empty()
    } else if names_adapter(lines.last()) {
        adapter_names(lines.drop_last()).push(adapter_name(lines.last()))
    } else {
        adapter_names(lines.drop_last())
    }
}

/// The listing without its three header lines.
pub open spec fn listed(lines: Seq<Seq<char>>) -> Seq<Seq<char>> {
    if lines.len() < 3 {
        Seq::empty()
    } else {
        lines.skip(3)
    }
}

/// The part of a line that is left without white space at either end.
fn trimmed_chars(line: &[char]) -> (r: Vec<char>)
    ensures
        r@ == text::trimmed(line@),
{
    let (lo, hi) = text::trim(line, 0);
    assert(line@.skip(0) =~= line@);
    let mut out: Vec<char> = Vec::new();
    let mut i: usize = lo;
    assert(out@ =~= line@.subrange(lo as int, i as int));
    while i < hi
        invariant
            lo <= i <= hi <= line@.len(),
            out@ == line@.subrange(lo as int, i as int),
        decreases hi - i,
    {
        out.push(line[i]);
        i = i + 1;
        assert(out@ =~= line@.subrange(lo as int, i as int));
    }
    out
}

/// The name of the adapter in a line, if it names one.
fn adapter_of(line: &[char]) -> (r: Option<String>)
    ensures
        match r {
            Some(name) => names_adapter(line@) && name@ == adapter_name(line@),
            None => !names_adapter(line@),
        },
{
    let t: Vec<char> = trimmed_chars(line);
    let gap: Vec<char> = text::to_chars("  ");
    proof {
        reveal_strlit("  ");
    }
    let from: usize = text::last_split(t.as_slice(), gap.as_slice());
    let (lo, hi) = text::trim(t.as_slice(), from);
    if lo == hi {
        return None;
    }
    let name: String = text::from_chars(t.as_slice(), lo, hi);
    let chars: Vec<char> = text::to_chars(name.as_str());
    if text::has_text(chars.as_slice(), "Loopback") {
        None
    } else {
        Some(name)
    }
}

/// The adapters in the output of the command that lists them; none where the
/// command failed.
pub fn get_windows_adapters(output: Option<&str>) -> (r: Vec<String>)
    ensures
        text::texts(r@) == (match output {
            Some(t) => adapter_names(listed(text::split_lines(t@))),
            None => Seq::empty(),
        }),
{
    let mut names: Vec<String> = Vec::new();
    assert(text::texts(names@) =~= Seq::<Seq<char>>::empty());
    if let Some(t) = output {
        let rows: Vec<Vec<char>> = text::lines(t);
        let ghost all = listed(text::split_lines(t@));
        let mut i: usize = 3;
        if rows.len() >= 3 {
            assert(all.take(0) =~= Seq::<Seq<char>>::empty());
            while i < rows.len()
                invariant
                    3 <= i <= rows@.len(),
                    all == text::rows(rows@).skip(3),
                    text::texts(names@) == adapter_names(all.take(i - 3)),
                decreases rows@.len() - i,
            {
                let ghost before = names@;
                assert(rows@[i as int]@ == all[i - 3]);
                assert(all.take(i - 2).drop_last() =~= all.take(i - 3));
                if let Some(name) = adapter_of(rows[i].as_slice()) {
                    names.push(name);
                    assert(text::texts(names@) =~= text::texts(before).push(name@));
                }
                i = i + 1;
            }
            assert(all.take(i - 3) =~= all);
        }
    }
    names
}

/// The command that lists what the DNS servers are set on, where the platform
/// has such a list.
pub fn list_interfaces(platform: Platform) -> (r: Option<SystemStep>)
    ensures
        match platform {
            Platform::MacOs => r matches Some(s) && s@ == Step::Run(
                "networksetup"@,
                seq!["-listallnetworkservices"@],
            ),
            Platform::Linux => r is None,
            Platform::Windows => r matches Some(s) && s@ == Step::Run(
                "netsh"@,
                seq!["interface"@, "ip"@, "show"@, "interfaces"@],
            ),
        },
{
    match platform {
        Platform::MacOs => {
            let mut args: Vec<String> = Vec::new();
            args.push("-listallnetworkservices".to_owned());
            assert(text::texts(args@) =~= seq!["-listallnetworkservices"@]);
            Some(SystemStep::Run("networksetup".to_owned(), args))
        },
        Platform::Linux => None,
        Platform::Windows => Some(run4("netsh", "interface", "ip", "show", "interfaces")),
    }
}

/// What the DNS servers are set on, by the output of `list_interfaces`.
pub open spec fn interface_names(platform: Platform, output: Option<&str>) -> Seq<Seq<char>> {
    match platform {
        Platform::MacOs => {
            let services = match output {
                Some(t) => service_names(text::split_lines(t@)),
                None => Seq::empty(),
            };
            if services.len() == 0 {
                usual_services()
            } else {
                services
            }
        },
        Platform::Linux => Seq::empty(),
        Platform::Windows => match output {
            Some(t) => adapter_names(listed(text::split_lines(t@))),
            None => Seq::empty(),
        },
    }
}

/// What the DNS servers are set on.
pub fn interfaces(platform: Platform, output: Option<&str>) -> (r: Vec<String>)
    ensures
        text::texts(r@) == interface_names(platform, output),
{
    match platform {
        Platform::MacOs => {
            let services: Vec<String> = get_network_services(output);
            assert(text::texts(services@).len() == services@.len());
            for_each_service(services)
        },
        Platform::Linux => {
            let none: Vec<String> = Vec::new();
            assert(text::texts(none@) =~= Seq::<Seq<char>>::empty());
            none
        },
        Platform::Windows => get_windows_adapters(output),
    }
}

// ── System DNS ─────────────────────────────────────────────────────────

/// The step that points one interface at the proxy.
pub open spec fn install_on(platform: Platform, name: Seq<char>) -> Step {
    match platform {
        Platform::Windows => Step::Run(
            "netsh"@,
            seq!["interface"@, "ip"@, "set"@, "dns"@, name, "static"@, LISTEN_ADDR@],
        ),
        _ => Step::Run("networksetup"@, seq!["-setdnsservers"@, name, LISTEN_ADDR@]),
    }
}

/// The step that gives one interface its default servers back.
pub open spec fn uninstall_on(platform: Platform, name: Seq<char>) -> Step {
    match platform {
        Platform::Windows => Step::Run(
            "netsh"@,
            seq!["interface"@, "ip"@, "set"@, "dns"@, name, "dhcp"@],
        ),
        _ => Step::Run("networksetup"@, seq!["-setdnsservers"@, name, "Empty"@]),
    }
}

/// The steps after the interfaces were changed: macOS keeps answers of the old
/// servers until it is told to forget them.
pub open spec fn flush_plan(platform: Platform) -> Seq<Step> {
    match platform {
        Platform::MacOs => seq![
            Step::Run("dscacheutil"@, seq!["-flushcache"@]),
            Step::Run("killall"@, seq!["-HUP"@, "mDNSResponder"@]),
        ],
        _ => Seq::empty(),
    }
}

/// What `/etc/resolv.conf` holds when the system's DNS is set to the proxy.
pub open spec fn proxy_resolv_conf() -> Seq<u8> {
    utf8::encode_utf8("nameserver 127.0.0.2\n"@)
}

/// How the system's DNS is set to the proxy.
pub open spec fn install_plan(platform: Platform, names: Seq<Seq<char>>) -> Seq<Step> {
    match platform {
        Platform::Linux => seq![Step::Write("/etc/resolv.conf"@, proxy_resolv_conf())],
        _ => names.map_values(|n: Seq<char>| install_on(platform, n)) + flush_plan(platform),
    }
}

/// How the system's DNS is set to its defaults.
pub open spec fn uninstall_plan(platform: Platform, names: Seq<Seq<char>>) -> Seq<Step> {
    match platform {
        Platform::Linux => seq![Step::Remove("/etc/resolv.conf"@)],
        _ => names.map_values(|n: Seq<char>| uninstall_on(platform, n)) + flush_plan(platform),
    }
}

/// `netsh interface ip set dns <name> static <address>`, or `... dhcp` where
/// there is no address.
pub(crate) fn netsh_dns(name: &str, address: Option<&str>) -> (r: SystemStep)
    ensures
        r@ == Step::Run(
            "netsh"@,
            match address {
                Some(a) => seq!["interface"@, "ip"@, "set"@, "dns"@, name@, "static"@, a@],
                None => seq!["interface"@, "ip"@, "set"@, "dns"@, name@, "dhcp"@],
            },
        ),
{
    let mut args: Vec<String> = Vec::new();
    args.push("interface".to_owned());
    args.push("ip".to_owned());
    args.push("set".to_owned());
    args.push("dns".to_owned());
    args.push(name.to_owned());
    match address {
        Some(a) => {
            args.push("static".to_owned());
            args.push(a.to_owned());
            assert(text::texts(args@) =~= seq![
                "interface"@,
                "ip"@,
                "set"@,
                "dns"@,
                name@,
                "static"@,
                a@,
            ]);
        },
        None => {
            args.push("dhcp".to_owned());
            assert(text::texts(args@) =~= seq!["interface"@, "ip"@, "set"@, "dns"@, name@, "dhcp"@]);
        },
    }
    SystemStep::Run("netsh".to_owned(), args)
}

/// The step that points one interface at the proxy, or back at its defaults.
pub(crate) fn dns_step(platform: Platform, name: &str, install: bool) -> (r: SystemStep)
    ensures
        r@ == (if install {
            install_on(platform, name@)
        } else {
            uninstall_on(platform, name@)
        }),
{
    match platform {
        Platform::Windows => if install {
            netsh_dns(name, Some(LISTEN_ADDR))
        } else {
            netsh_dns(name, None)
        },
        _ => if install {
            run3("networksetup", "-setdnsservers", name, LISTEN_ADDR)
        } else {
            run3("networksetup", "-setdnsservers", name, "Empty")
        },
    }
}

/// The steps after the interfaces were changed.
pub(crate) fn flush_steps(platform: Platform) -> (r: Vec<SystemStep>)
    ensures
        plan(r@) == flush_plan(platform),
{
    let mut steps: Vec<SystemStep> = Vec::new();
    match platform {
        Platform::MacOs => {
            let mut args: Vec<String> = Vec::new();
            args.push("-flushcache".to_owned());
            assert(text::texts(args@) =~= seq!["-flushcache"@]);
            steps.push(SystemStep::Run("dscacheutil".to_owned(), args));
            steps.push(run2("killall", "-HUP", "mDNSResponder"));
        },
        _ => {},
    }
    assert(plan(steps@) =~= flush_plan(platform));
    steps
}

/// The steps for all interfaces, and those that follow them.
fn dns_steps(platform: Platform, names: &Vec<String>, install: bool) -> (r: Vec<SystemStep>)
    ensures
        plan(r@) == text::texts(names@).map_values(
            |n: Seq<char>|
                if install {
                    install_on(platform, n)
                } else {
                    uninstall_on(platform, n)
                },
        ) + flush_plan(platform),
{
    let ghost f = |n: Seq<char>|
        if install {
            install_on(platform, n)
        } else {
            uninstall_on(platform, n)
        };
    let mut steps: Vec<SystemStep> = Vec::new();
    let mut i: usize = 0;
    assert(plan(steps@) =~= text::texts(names@).take(0).map_values(f));
    while i < names.len()
        invariant
            i <= names@.len(),
            f == (|n: Seq<char>|
                if install {
                    install_on(platform, n)
                } else {
                    uninstall_on(platform, n)
                }),
            plan(steps@) == text::texts(names@).take(i as int).map_values(f),
        decreases names@.len() - i,
    {
        let ghost before = steps@;
        steps.push(dns_step(platform, names[i].as_str(), install));
        i = i + 1;
        assert(plan(steps@) =~= plan(before).push(f(text::texts(names@)[i - 1])));
        assert(text::texts(names@).take(i as int).map_values(f) =~= text::texts(names@).take(
            i - 1,
        ).map_values(f).push(f(text::texts(names@)[i - 1])));
    }
    assert(text::texts(names@).take(i as int) =~= text::texts(names@));
    let ghost mapped = steps@;
    let mut flush: Vec<SystemStep> = flush_steps(platform);
    let ghost tail = flush@;
    steps.append(&mut flush);
    assert(plan(steps@) =~= plan(mapped) + plan(tail));
    steps
}

/// Point the system's DNS at the proxy; `names` are the `interfaces`.
pub fn install_system_dns(platform: Platform, names: &Vec<String>) -> (r: Vec<SystemStep>)
    ensures
        plan(r@) == install_plan(platform, text::texts(names@)),
{
    match platform {
        Platform::Linux => {
            let mut steps: Vec<SystemStep> = Vec::new();
            steps.push(
                SystemStep::Write(
                    "/etc/resolv.conf".to_owned(),
                    vstd::slice::slice_to_vec("nameserver 127.0.0.2\n".as_bytes()),
                ),
            );
            assert(plan(steps@) =~= install_plan(platform, text::texts(names@)));
            steps
        },
        _ => {
            let steps = dns_steps(platform, names, true);
            assert(plan(steps@) =~= install_plan(platform, text::texts(names@)));
            steps
        },
    }
}

/// Set the system's DNS to its defaults; `names` are the `interfaces`.
pub fn uninstall_system_dns(platform: Platform, names: &Vec<String>) -> (r: Vec<SystemStep>)
    ensures
        plan(r@) == uninstall_plan(platform, text::texts(names@)),
{
    match platform {
        Platform::Linux => {
            let mut steps: Vec<SystemStep> = Vec::new();
            steps.push(SystemStep::Remove("/etc/resolv.conf".to_owned()));
            assert(plan(steps@) =~= uninstall_plan(platform, text::texts(names@)));
            steps
        },
        _ => {
            let steps = dns_steps(platform, names, false);
            assert(plan(steps@) =~= uninstall_plan(platform, text::texts(names@)));
            steps
        },
    }
}

// ── Network watcher ────────────────────────────────────────────────────

/// What the network watcher does next.
#[derive(Debug, Clone, Copy, PartialEq, Eq, Structural)]
pub enum WatchStep {
    /// Wait for a change of the network, for a second at most.
    Wait,
    /// Set the system's DNS again.
    Reapply,
    Stop,
}

/// Go on after waiting: `running` says whether the proxy is to go on, `polled`
/// is what the wait returned, negative for a failure and positive where
/// something happened, and `readable` whether that was a change of the network.
/// A change sets the system's DNS again before anything else is looked at.
pub fn watch_next(running: bool, polled: i32, readable: bool) -> (r: WatchStep)
    ensures
        r == (if polled < 0 {
            WatchStep::Stop
        } else if polled > 0 && readable {
            WatchStep::Reapply
        } else if running {
            WatchStep::Wait
        } else {
            WatchStep::Stop
        }),
{
    if polled < 0 {
        WatchStep::Stop
    } else if polled > 0 && readable {
        WatchStep::Reapply
    } else if running {
        WatchStep::Wait
    } else {
        WatchStep::Stop
    }
}

// ── Laws ───────────────────────────────────────────────────────────────

/// Setting defaults reaches everything that installing changed: where installing
/// points an interface at the proxy, uninstalling gives the same interface its
/// default servers, by the same program; on Linux both are about the same file.
pub proof fn law_uninstall_covers_install(platform: Platform, names: Seq<Seq<char>>, i: int)
    requires
        0 <= i < names.len(),
    ensures
        install_plan(platform, names).len() == uninstall_plan(platform, names).len(),
        platform != Platform::Linux ==> {
            &&& install_plan(platform, names)[i] == install_on(platform, names[i])
            &&& uninstall_plan(platform, names)[i] == uninstall_on(platform, names[i])
            &&& install_on(platform, names[i])->Run_0 == uninstall_on(platform, names[i])->Run_0
        },
        platform == Platform::Linux ==> install_plan(platform, names)[0]->Write_0
            == uninstall_plan(platform, names)[0]->Remove_0,
{
}

/// No service of a listing is left out.
pub proof fn law_every_service_is_named(lines: Seq<Seq<char>>, i: int)
    requires
        0 <= i < lines.len(),
        names_service(lines[i]),
    ensures
        service_names(lines).contains(service_name(lines[i])),
    decreases lines.len(),
{
    if i < lines.len() - 1 {
        law_every_service_is_named(lines.drop_last(), i);
        let prev = service_names(lines.drop_last());
        let k = choose|k: int| 0 <= k < prev.len() && prev[k] == service_name(lines[i]);
        assert(service_names(lines)[k] == service_name(lines[i]));
    } else {
        let all = service_names(lines);
        assert(all[all.len() - 1] == service_name(lines[i]));
    }
}

/// A plan is its steps, in order.
pub proof fn law_plan(steps: Seq<SystemStep>, i: int)
    requires
        0 <= i < steps.len(),
    ensures
        plan(steps).len() == steps.len(),
        match steps[i] {
            SystemStep::Run(program, args) => plan(steps)[i] matches Step::Run(p, a) && p
                == program@ && a.len() == args@.len() && forall|k: int|
                0 <= k < a.len() ==> #[trigger] a[k] == args@[k]@,
            SystemStep::Write(path, contents) => plan(steps)[i] == Step::Write(path@, contents@),
            SystemStep::Remove(path) => plan(steps)[i] == Step::Remove(path@),
        },
{
}

/// The proxy's address is 127.0.0.2: it is what the loopback interface gets and
/// loses again, by one command each, where that takes a command, and it is what
/// the file of a system that has one names as its server.
pub proof fn law_proxy_address()
    ensures
        LISTEN_ADDR@ == "127.0.0.2"@,
        setup_plan(Platform::MacOs) == seq![
            Step::Run("ifconfig"@, seq!["lo0"@, "alias"@, "127.0.0.2"@, "255.255.255.255"@]),
        ],
        teardown_plan(Platform::MacOs) == seq![
            Step::Run("ifconfig"@, seq!["lo0"@, "inet"@, "127.0.0.2"@, "-alias"@]),
        ],
        setup_plan(Platform::Linux) == seq![
            Step::Run("ip"@, seq!["addr"@, "add"@, "127.0.0.2"@ + "/32"@, "dev"@, "lo"@]),
        ],
        teardown_plan(Platform::Linux) == seq![
            Step::Run("ip"@, seq!["addr"@, "del"@, "127.0.0.2"@ + "/32"@, "dev"@, "lo"@]),
        ],
        setup_plan(Platform::Windows).len() == 0,
        teardown_plan(Platform::Windows).len() == 0,
        proxy_resolv_conf() == utf8::encode_utf8("nameserver "@ + "127.0.0.2"@ + "\n"@),
        root_complaint(Platform::Windows) == "error: must run as Administrator"@,
        root_complaint(Platform::MacOs) == "error: must run as root (sudo)"@,
        root_complaint(Platform::Linux) == "error: must run as root (sudo)"@,
{
    reveal_strlit("127.0.0.2");
    reveal_strlit("127.0.0.2/32");
    reveal_strlit("/32");
    reveal_strlit("nameserver 127.0.0.2\n");
    reveal_strlit("nameserver ");
    reveal_strlit("\n");
    assert("127.0.0.2/32"@ =~= "127.0.0.2"@ + "/32"@);
    assert("nameserver 127.0.0.2\n"@ =~= "nameserver "@ + "127.0.0.2"@ + "\n"@);
}

proof fn lemma_stars_skipped(stars: Seq<char>, rest: Seq<char>)
    requires
        forall|i: int| 0 <= i < stars.len() ==> #[trigger] stars[i] == '*',
        rest.len() > 0 ==> rest[0] != '*',
    ensures
        without_stars(stars + rest) == rest,
    decreases stars.len(),
{
    if stars.len() == 0 {
        assert(stars + rest =~= rest);
    } else {
        assert(stars[0] == '*');
        assert((stars + rest).skip(1) =~= stars.skip(1) + rest);
        lemma_stars_skipped(stars.skip(1), rest);
    }
}

/// A line names the service that is left without the asterisks in front and the
/// white space around it, enabled or disabled. A line that speaks of the
/// asterisk, and one with nothing but asterisks and white space, names none.
pub proof fn law_service_lines(
    stars: Seq<char>,
    front: Seq<char>,
    name: Seq<char>,
    back: Seq<char>,
)
    requires
        forall|i: int| 0 <= i < stars.len() ==> #[trigger] stars[i] == '*',
        forall|i: int| 0 <= i < front.len() ==> text::is_white_space(#[trigger] front[i]),
        forall|i: int| 0 <= i < back.len() ==> text::is_white_space(#[trigger] back[i]),
        name.len() > 0 ==> !text::is_white_space(name[0]) && !text::is_white_space(name.last()),
        name.len() > 0 && front.len() == 0 ==> name[0] != '*',
    ensures
        ({
            let line = stars + front + name + back;
            &&& service_name(line) == name
            &&& names_service(line) <==> name.len() > 0 && !text::contains_text(line, "asterisk"@)
                && !text::contains_text(line, "denotes"@)
        }),
{
    let line = stars + front + name + back;
    let rest = front + name + back;
    assert(line =~= stars + rest);
    if rest.len() > 0 {
        assert(rest[0] != '*') by {
            if front.len() > 0 {
                assert(text::is_white_space(front[0]));
            } else if name.len() == 0 {
                assert(text::is_white_space(back[0]));
            }
        }
    }
    lemma_stars_skipped(stars, rest);
    text::law_trimming_undoes_padding(front, name, back);
}

/// Listings are read line by line and in order: what two parts name, the whole
/// names, and a line alone names its service or adapter, or nothing.
pub proof fn law_listings_are_read_in_order(
    a: Seq<Seq<char>>,
    line: Seq<char>,
    b: Seq<Seq<char>>,
)
    ensures
        service_names(a + b) == service_names(a) + service_names(b),
        names_service(line) ==> service_names(seq![line]) == seq![service_name(line)],
        !names_service(line) ==> service_names(seq![line]).len() == 0,
        adapter_names(a + b) == adapter_names(a) + adapter_names(b),
        names_adapter(line) ==> adapter_names(seq![line]) == seq![adapter_name(line)],
        !names_adapter(line) ==> adapter_names(seq![line]).len() == 0,
    decreases b.len(),
{
    let one = seq![line];
    assert(one.drop_last() =~= Seq::<Seq<char>>::empty());
    assert(service_names(Seq::empty()) =~= Seq::<Seq<char>>::empty());
    assert(adapter_names(Seq::empty()) =~= Seq::<Seq<char>>::empty());
    if names_service(line) {
        assert(service_names(one) =~= seq![service_name(line)]);
    }
    if names_adapter(line) {
        assert(adapter_names(one) =~= seq![adapter_name(line)]);
    }
    if b.len() == 0 {
        assert(a + b =~= a);
        assert(service_names(a) + service_names(b) =~= service_names(a));
        assert(adapter_names(a) + adapter_names(b) =~= adapter_names(a));
    } else {
        assert((a + b).drop_last() =~= a + b.drop_last());
        assert((a + b).last() == b.last());
        law_listings_are_read_in_order(a, line, b.drop_last());
        assert(service_names(a + b) =~= service_names(a) + service_names(b));
        assert(adapter_names(a + b) =~= adapter_names(a) + adapter_names(b));
    }
}

proof fn lemma_cut_at_first_gap(s: Seq<char>, n: int) -> (k: int)
    requires
        text::occurs_at(s, "  "@, n),
    ensures
        0 <= k <= n,
        k + 2 <= s.len(),
        text::last_piece(s, "  "@) == text::last_piece(s.skip(k + 2), "  "@),
{
    reveal_strlit("  ");
    let gap = "  "@;
    let k = lemma_first_gap(s, n);
    let before = s.take(k);
    let after = s.skip(k + 2);
    assert(s =~= before + gap + after);
    let head = (before + gap).drop_last();
    if text::contains_text(head, gap) {
        let j = choose|j: int| text::occurs_at(head, gap, j);
        assert(s.subrange(j, j + 2) =~= head.subrange(j, j + 2));
        assert(text::occurs_at(s, gap, j));
        assert(false);
    }
    text::law_last_piece(before, gap, after);
    k
}

proof fn lemma_no_gap(name: Seq<char>)
    requires
        name.len() > 0,
        name[0] != ' ',
        !text::contains_text(name, "  "@),
    ensures
        text::last_piece(name, "  "@) == name,
        text::last_piece(seq![' '] + name, "  "@) == seq![' '] + name,
{
    reveal_strlit("  ");
    let gap = "  "@;
    let spaced = seq![' '] + name;
    if text::contains_text(spaced, gap) {
        let j = choose|j: int| text::occurs_at(spaced, gap, j);
        assert(spaced.subrange(j, j + 2)[1] == ' ');
        if j == 0 {
            assert(spaced[1] == name[0]);
        } else {
            assert(name.subrange(j - 1, j + 1) =~= spaced.subrange(j, j + 2));
            assert(text::occurs_at(name, gap, j - 1));
        }
        assert(false);
    }
    text::law_last_piece(name, gap, name);
    text::law_last_piece(spaced, gap, name);
}

proof fn lemma_last_column(columns: Seq<char>, name: Seq<char>)
    requires
        name.len() > 0,
        name[0] != ' ',
        !text::contains_text(name, "  "@),
    ensures
        text::last_piece(columns + "  "@ + name, "  "@) == name || text::last_piece(
            columns + "  "@ + name,
            "  "@,
        ) == seq![' '] + name,
    decreases columns.len(),
{
    let s = columns + "  "@ + name;
    let n = columns.len() as int;
    assert("  "@.len() == 2 && "  "@[0] == ' ' && "  "@[1] == ' ') by {
        reveal_strlit("  ");
    }
    assert(s.subrange(n, n + 2) =~= "  "@);
    let k = lemma_cut_at_first_gap(s, n);
    if k + 2 <= n {
        assert(s.skip(k + 2) =~= columns.skip(k + 2) + "  "@ + name);
        lemma_last_column(columns.skip(k + 2), name);
    } else {
        lemma_no_gap(name);
        if k == n {
            assert(s.skip(k + 2) =~= name);
        } else {
            assert(s.skip(k + 2) =~= seq![' '] + name);
        }
    }
}

proof fn lemma_first_gap(s: Seq<char>, n: int) -> (k: int)
    requires
        text::occurs_at(s, "  "@, n),
    ensures
        k <= n,
        text::occurs_at(s, "  "@, k),
        forall|j: int| j < k ==> !text::occurs_at(s, "  "@, j),
    decreases n,
{
    if exists|j: int| j < n && text::occurs_at(s, "  "@, j) {
        let j = choose|j: int| j < n && text::occurs_at(s, "  "@, j);
        lemma_first_gap(s, j)
    } else {
        n
    }
}

/// The adapter in a line is its last column: what stands behind the last gap of
/// two spaces or more, whatever the columns before it hold, and the whole line
/// where there is no gap. White space around the line does not count. The
/// loopback is left out, and so is a line with nothing in it.
pub proof fn law_adapter_lines(
    front: Seq<char>,
    columns: Seq<char>,
    name: Seq<char>,
    back: Seq<char>,
)
    requires
        forall|i: int| 0 <= i < front.len() ==> text::is_white_space(#[trigger] front[i]),
        forall|i: int| 0 <= i < back.len() ==> text::is_white_space(#[trigger] back[i]),
        name.len() > 0,
        !text::is_white_space(name[0]),
        !text::is_white_space(name.last()),
        !text::contains_text(name, "  "@),
        columns.len() > 0 ==> !text::is_white_space(columns[0]),
    ensures
        adapter_name(front + name + back) == name,
        names_adapter(front + name + back) <==> !text::contains_text(name, "Loopback"@),
        columns.len() > 0 ==> adapter_name(front + (columns + "  "@ + name) + back) == name,
        adapter_name(front + back).len() == 0,
        !names_adapter(front + back),
{
    reveal_strlit("  ");
    let none = Seq::<char>::empty();
    let gap = "  "@;
    assert(text::is_white_space(' '));
    text::law_trimming_undoes_padding(front, name, back);
    text::law_trimming_undoes_padding(none, name, none);
    assert(none + name + none =~= name);
    text::law_last_piece(name, gap, name);
    text::law_trimming_undoes_padding(front, none, back);
    assert(front + none + back =~= front + back);
    assert(!text::contains_text(none, gap)) by {
        if text::contains_text(none, gap) {
            let j = choose|j: int| text::occurs_at(none, gap, j);
        }
    }
    text::law_last_piece(none, gap, none);
    text::law_trimming_undoes_padding(none, none, none);
    assert(none + none + none =~= none);
    if columns.len() > 0 {
        let word = columns + gap + name;
        assert(word[0] == columns[0]);
        assert(word.last() == name.last());
        text::law_trimming_undoes_padding(front, word, back);
        lemma_last_column(columns, name);
        text::law_trimming_undoes_padding(seq![' '], name, none);
        assert(seq![' '] + name + none =~= seq![' '] + name);
    }
}

/// A listing of adapters begins with three header lines, which are passed over.
pub proof fn law_headers_are_passed_over(headers: Seq<Seq<char>>, lines: Seq<Seq<char>>)
    ensures
        headers.len() == 3 ==> listed(headers + lines) == lines,
        headers.len() < 3 ==> listed(headers).len() == 0,
{
    if headers.len() == 3 {
        assert((headers + lines).skip(3) =~= lines);
    }
}

/// What the DNS servers are set on: on macOS the services of the listing, or
/// four usual ones where it names none or failed; on Windows the adapters of
/// the listing; on Linux nothing but the file.
pub proof fn law_interfaces(output: Option<&str>)
    ensures
        ({
            let lines = match output {
                Some(t) => text::split_lines(t@),
                None => Seq::empty(),
            };
            &&& interface_names(Platform::Linux, output).len() == 0
            &&& service_names(lines).len() > 0 ==> interface_names(Platform::MacOs, output)
                == service_names(lines)
            &&& service_names(lines).len() == 0 ==> interface_names(Platform::MacOs, output)
                == seq!["Wi-Fi"@, "Ethernet"@, "USB 10/100/1000 LAN"@, "Thunderbolt Bridge"@]
            &&& interface_names(Platform::Windows, output) == (if lines.len() <= 3 {
                Seq::<Seq<char>>::empty()
            } else {
                adapter_names(lines.subrange(3, lines.len() as int))
            })
        }),
{
    if let Some(t) = output {
        let lines = text::split_lines(t@);
        if lines.len() > 3 {
            assert(lines.skip(3) =~= lines.subrange(3, lines.len() as int));
        } else if lines.len() == 3 {
            assert(lines.skip(3) =~= Seq::<Seq<char>>::empty());
        }
    }
}

/// Pointing an interface at the proxy, and giving it its defaults back: the
/// commands, each with the interface's own name.
pub proof fn law_interface_commands(name: Seq<char>)
    ensures
        install_on(Platform::MacOs, name) == Step::Run(
            "networksetup"@,
            seq!["-setdnsservers"@, name, "127.0.0.2"@],
        ),
        uninstall_on(Platform::MacOs, name) == Step::Run(
            "networksetup"@,
            seq!["-setdnsservers"@, name, "Empty"@],
        ),
        install_on(Platform::Windows, name) == Step::Run(
            "netsh"@,
            seq!["interface"@, "ip"@, "set"@, "dns"@, name, "static"@, "127.0.0.2"@],
        ),
        uninstall_on(Platform::Windows, name) == Step::Run(
            "netsh"@,
            seq!["interface"@, "ip"@, "set"@, "dns"@, name, "dhcp"@],
        ),
{
}

/// A plan for the system's DNS has one step for each interface, in order, and on
/// macOS two more at the end that make the system forget old answers. On Linux
/// it has one step, which writes or removes the file.
pub proof fn law_plans_reach_every_interface(platform: Platform, names: Seq<Seq<char>>)
    ensures
        ({
            let install = install_plan(platform, names);
            let uninstall = uninstall_plan(platform, names);
            let n = names.len() as int;
            &&& platform == Platform::Linux ==> install == seq![
                Step::Write(
                    "/etc/resolv.conf"@,
                    utf8::encode_utf8("nameserver "@ + "127.0.0.2"@ + "\n"@),
                ),
            ]
            &&& platform == Platform::Linux ==> uninstall == seq![Step::Remove("/etc/resolv.conf"@)]
            &&& platform != Platform::Linux ==> forall|i: int|
                0 <= i < n ==> install[i] == install_on(platform, #[trigger] names[i])
                    && uninstall[i] == uninstall_on(platform, names[i])
            &&& platform == Platform::Windows ==> install.len() == n && uninstall.len() == n
            &&& platform == Platform::MacOs ==> {
                &&& install.len() == n + 2 && uninstall.len() == n + 2
                &&& install[n] == Step::Run("dscacheutil"@, seq!["-flushcache"@])
                &&& install[n + 1] == Step::Run("killall"@, seq!["-HUP"@, "mDNSResponder"@])
                &&& uninstall[n] == Step::Run("dscacheutil"@, seq!["-flushcache"@])
                &&& uninstall[n + 1] == Step::Run("killall"@, seq!["-HUP"@, "mDNSResponder"@])
            }
        }),
{
    law_proxy_address();
}

} // verus!
