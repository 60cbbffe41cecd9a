//! Laws of the calls that change the system: the loopback interface, its DNS
//! servers, and giving both back; and of the text functions below them.

use vstd::prelude::*;
use vstd::utf8;

use crate::platform;
use crate::platform::Platform;
use crate::platform::Step;
use crate::platform::SystemStep;
use crate::platform::WatchStep;
use crate::platform::check_root;
use crate::platform::for_each_service;
use crate::platform::get_network_services;
use crate::platform::get_windows_adapters;
use crate::platform::install_system_dns;
use crate::platform::interfaces;
use crate::platform::list_interfaces;
use crate::platform::setup_loopback;
use crate::platform::teardown_loopback;
use crate::platform::uninstall_system_dns;
use crate::platform::watch_next;
use crate::restore;
use crate::restore::DnsSetting;
use crate::restore::SavedDns;
use crate::restore::Setting;
use crate::restore::dns_setting;
use crate::restore::restore_system_dns;
use crate::restore::show_dns;
use crate::text;

verus! {

// ── Text ───────────────────────────────────────────────────────────────

/// The lines of a text that is made of a line, a line break and a rest are that
/// line and the lines of the rest.
pub proof fn law_lines(
    t: &str,
    r: Vec<Vec<char>>,
    line: Seq<char>,
    tail: &str,
    s: Vec<Vec<char>>,
)
    requires
        call_ensures(text::lines, (t,), r),
        call_ensures(text::lines, (tail,), s),
        !line.contains('\n'),
        line.len() > 0 ==> line.last() != '\r',
        t@ == line + seq!['\n'] + tail@ || t@ == line + seq!['\r', '\n'] + tail@,
    ensures
        r@.len() == s@.len() + 1,
        r@[0]@ == line,
        forall|i: int| 0 <= i < s@.len() ==> r@[i + 1]@ == (#[trigger] s@[i])@,
{
    text::law_lines(line, tail@);
    let a = text::rows(r@);
    let b = text::rows(s@);
    assert(a == seq![line] + b);
    assert(a.len() == r@.len() && b.len() == s@.len());
    assert(a[0] == r@[0]@);
    assert forall|i: int| 0 <= i < s@.len() implies r@[i + 1]@ == (#[trigger] s@[i])@ by {
        assert(a[i + 1] == b[i]);
    }
}

/// Trimming finds the text between the white space around it.
pub proof fn law_trim(
    chars: &[char],
    from: usize,
    r: (usize, usize),
    front: Seq<char>,
    word: Seq<char>,
    back: Seq<char>,
)
    requires
        call_ensures(text::trim, (chars, from), r),
        from <= chars@.len(),
        chars@.skip(from as int) == front + word + back,
        forall|i: int| 0 <= i < front.len() ==> text::is_white_space(#[trigger] front[i]),
        forall|i: int| 0 <= i < back.len() ==> text::is_white_space(#[trigger] back[i]),
        word.len() > 0 ==> !text::is_white_space(word[0]) && !text::is_white_space(word.last()),
    ensures
        from <= r.0 <= r.1 <= chars@.len(),
        chars@.subrange(r.0 as int, r.1 as int) == word,
{
    text::law_trimming_undoes_padding(front, word, back);
}

/// A 16-bit number is read back from its decimal digits, and what has a
/// character that is neither a digit nor a plus sign in front is no number.
pub proof fn law_numbers(n: u32, d: String, chars: &[char], r: Option<u16>)
    requires
        call_ensures(text::decimal, (n,), d),
        call_ensures(text::parse_u16, (chars,), r),
    ensures
        n <= 65535 && chars@ == d@ ==> r == Some(n as u16),
        n <= 65535 && chars@ == seq!['+'] + d@ ==> r == Some(n as u16),
        chars@.len() == 0 ==> r is None,
        chars@.len() > 0 && !('0' <= chars@.last() <= '9') ==> r is None,
{
    if n <= 65535 {
        text::law_decimal_round_trip(n as u16);
    }
    text::law_spelled_numbers(chars@, '0', 0);
    if chars@.len() == 0 {
        assert(chars@ =~= Seq::<char>::empty());
    } else {
        let c = chars@.last();
        assert(chars@ =~= chars@.drop_last().push(c));
        if !('0' <= c <= '9') {
            assert forall|k: int| 0 <= k < 10 implies c != #[trigger] text::digit(k) by {
                assert('0' <= text::digit(k) <= '9');
            }
            text::law_spelled_numbers(chars@.drop_last(), c, 0);
        }
    }
}

// ── Privileges and loopback ────────────────────────────────────────────

/// Without privileges there is a complaint, in the words of the platform.
pub proof fn law_check_root(p: Platform, privileged: bool, r: Result<(), String>)
    requires
        call_ensures(check_root, (p, privileged), r),
    ensures
        r is Ok <==> privileged,
        r matches Err(e) ==> e@ == (if p == Platform::Windows {
            "error: must run as Administrator"@
        } else {
            "error: must run as root (sudo)"@
        }),
{
}

/// The loopback interface gets the proxy's address by one command and loses it
/// by another; on Windows neither is needed.
pub proof fn law_loopback(p: Platform, a: Vec<SystemStep>, b: Vec<SystemStep>)
    requires
        call_ensures(setup_loopback, (p,), a),
        call_ensures(teardown_loopback, (p,), b),
    ensures
        p == Platform::MacOs ==> platform::plan(a@) == seq![
            Step::Run("ifconfig"@, seq!["lo0"@, "alias"@, "127.0.0.2"@, "255.255.255.255"@]),
        ] && platform::plan(b@) == seq![
            Step::Run("ifconfig"@, seq!["lo0"@, "inet"@, "127.0.0.2"@, "-alias"@]),
        ],
        p == Platform::Linux ==> platform::plan(a@) == seq![
            Step::Run("ip"@, seq!["addr"@, "add"@, "127.0.0.2/32"@, "dev"@, "lo"@]),
        ] && platform::plan(b@) == seq![
            Step::Run("ip"@, seq!["addr"@, "del"@, "127.0.0.2/32"@, "dev"@, "lo"@]),
        ],
        p == Platform::Windows ==> a@.len() == 0 && b@.len() == 0,
{
    assert(platform::plan(a@).len() == a@.len());
    assert(platform::plan(b@).len() == b@.len());
}

// ── Interfaces ─────────────────────────────────────────────────────────

/// Services and adapters are those that the lines of a listing name, and none
/// where the listing failed. Where no service is named, four usual ones are
/// configured; what is named is configured as it is.
pub proof fn law_interfaces(
    output: Option<&str>,
    services: Vec<String>,
    adapters: Vec<String>,
    given: Vec<String>,
    used: Vec<String>,
    p: Platform,
    names: Vec<String>,
)
    requires
        call_ensures(get_network_services, (output,), services),
        call_ensures(get_windows_adapters, (output,), adapters),
        call_ensures(for_each_service, (given,), used),
        call_ensures(interfaces, (p, output), names),
    ensures
        output is None ==> services@.len() == 0 && adapters@.len() == 0,
        output matches Some(t) ==> text::texts(services@) == platform::service_names(
            text::split_lines(t@),
        ),
        given@.len() > 0 ==> text::texts(used@) == text::texts(given@),
        given@.len() == 0 ==> text::texts(used@) == seq![
            "Wi-Fi"@,
            "Ethernet"@,
            "USB 10/100/1000 LAN"@,
            "Thunderbolt Bridge"@,
        ],
        p == Platform::Linux ==> names@.len() == 0,
        p == Platform::Windows ==> text::texts(names@) == text::texts(adapters@),
        p == Platform::MacOs && services@.len() > 0 ==> text::texts(names@) == text::texts(
            services@,
        ),
        p == Platform::MacOs && services@.len() == 0 ==> names@.len() == 4,
{
    assert(text::texts(services@).len() == services@.len());
    assert(text::texts(adapters@).len() == adapters@.len());
    assert(text::texts(names@).len() == names@.len());
    platform::law_interfaces(output);
    if output is None {
        assert(services@.len() == 0);
        assert(platform::service_names(Seq::empty()).len() == 0);
    }
}

/// The commands that list interfaces and that show what one is set to.
pub proof fn law_listing_commands(
    p: Platform,
    list: Option<SystemStep>,
    name: &str,
    show: Option<SystemStep>,
)
    requires
        call_ensures(list_interfaces, (p,), list),
        call_ensures(show_dns, (p, name), show),
    ensures
        p == Platform::Linux ==> list is None && show is None,
        p == Platform::MacOs ==> (list matches Some(l) && l@ == Step::Run(
            "networksetup"@,
            seq!["-listallnetworkservices"@],
        )) && (show matches Some(s) && s@ == Step::Run(
            "networksetup"@,
            seq!["-getdnsservers"@, name@],
        )),
        p == Platform::Windows ==> (list matches Some(l) && l@ == Step::Run(
            "netsh"@,
            seq!["interface"@, "ip"@, "show"@, "interfaces"@],
        )) && (show matches Some(s) && s@ == Step::Run(
            "netsh"@,
            seq!["interface"@, "ip"@, "show"@, "dns"@, name@],
        )),
{
}

// ── DNS servers ────────────────────────────────────────────────────────

/// Installing sets every interface to the proxy and uninstalling every interface
/// to its defaults, whatever it was set to; other interfaces are left alone. On
/// Linux the file names the proxy, or is gone.
pub proof fn law_install(
    p: Platform,
    names: &Vec<String>,
    a: Vec<SystemStep>,
    b: Vec<SystemStep>,
    name: Seq<char>,
    s: Setting,
    file: Option<Seq<u8>>,
)
    requires
        call_ensures(install_system_dns, (p, names), a),
        call_ensures(uninstall_system_dns, (p, names), b),
    ensures
        p != Platform::Linux && text::texts(names@).contains(name) ==> restore::setting_after(
            p,
            name,
            s,
            platform::plan(a@),
        ) == Setting::Servers(seq!["127.0.0.2"@]) && restore::setting_after(
            p,
            name,
            s,
            platform::plan(b@),
        ) == Setting::Default,
        p != Platform::Linux && !text::texts(names@).contains(name) ==> restore::setting_after(
            p,
            name,
            s,
            platform::plan(a@),
        ) == s && restore::setting_after(p, name, s, platform::plan(b@)) == s,
        p == Platform::Linux ==> restore::file_after("/etc/resolv.conf"@, file, platform::plan(a@))
            == Some(utf8::encode_utf8("nameserver "@ + "127.0.0.2"@ + "\n"@))
            && restore::file_after("/etc/resolv.conf"@, file, platform::plan(b@)) is None,
{
    if p != Platform::Linux {
        restore::law_install_sets_every_interface(p, text::texts(names@), name, s);
    } else {
        platform::law_plans_reach_every_interface(p, text::texts(names@));
        let x = platform::plan(a@);
        let y = platform::plan(b@);
        assert(x.drop_last() =~= Seq::<Step>::empty());
        assert(y.drop_last() =~= Seq::<Step>::empty());
        assert(x.last() == x[0] && y.last() == y[0]);
    }
}

/// Restoring gives every interface that was looked at what was found, unless that
/// was a proxy's address; what appeared since gets its defaults, and what is gone
/// is left alone. On Linux the file is as it was, unless a proxy had written it.
pub proof fn law_restore(
    p: Platform,
    saved: &SavedDns,
    names: &Vec<String>,
    r: Vec<SystemStep>,
    i: int,
    new: Seq<char>,
    now: Setting,
    file: Option<Seq<u8>>,
)
    requires
        call_ensures(restore_system_dns, (p, saved, names), r),
        0 <= i < saved@.interfaces.len(),
        restore::consistent(saved@.interfaces),
        restore::plausible(p, saved@.interfaces[i].1),
        forall|k: int| 0 <= k < saved@.interfaces.len() ==> (#[trigger] saved@.interfaces[k]).0 != new,
    ensures
        p != Platform::Linux ==> ({
            let after = restore::setting_after(
                p,
                saved@.interfaces[i].0,
                now,
                platform::plan(r@),
            );
            match saved@.interfaces[i].1 {
                Setting::Default => after is Default,
                Setting::Servers(s) => if s.contains("127.0.0.2"@) {
                    after is Default
                } else {
                    after == Setting::Servers(s)
                },
            }
        }),
        p != Platform::Linux ==> restore::setting_after(p, new, now, platform::plan(r@)) == (
        if text::texts(names@).contains(new) {
            Setting::Default
        } else {
            now
        }),
        p == Platform::Linux ==> restore::file_after("/etc/resolv.conf"@, file, platform::plan(r@))
            == (if saved@.file == Some(utf8::encode_utf8("nameserver "@ + "127.0.0.2"@ + "\n"@)) {
            None
        } else {
            saved@.file
        }),
{
    platform::law_proxy_address();
    if p != Platform::Linux {
        restore::law_restore_gives_back_the_servers(p, saved@, i, now, text::texts(names@));
        restore::law_new_interfaces_get_defaults(p, saved@, text::texts(names@), new, now);
        if let Setting::Servers(s) = saved@.interfaces[i].1 {
            if s.contains("127.0.0.2"@) {
                let k = choose|k: int| 0 <= k < s.len() && s[k] == "127.0.0.2"@;
                restore::law_leftovers(s, k, None);
            } else {
                assert forall|k: int| 0 <= k < s.len() implies #[trigger] s[k]
                    != "127.0.0.2"@ by {}
                restore::law_leftovers(s, 0, None);
            }
        }
    } else {
        let x = platform::plan(r@);
        assert(x.drop_last() =~= Seq::<Step>::empty());
        assert(x.last() == x[0]);
    }
}

/// What is shown is read by the platform's own rules, and is the default where
/// the command failed.
pub proof fn law_dns_setting(output: Option<&str>, a: DnsSetting, b: DnsSetting, line: int)
    requires
        call_ensures(dns_setting, (Platform::MacOs, output), a),
        call_ensures(dns_setting, (Platform::Windows, output), b),
    ensures
        output is None ==> a is Default && b is Default,
        output matches Some(t) ==> (0 <= line < text::split_lines(t@).len() && restore::is_address(
            text::trimmed(text::split_lines(t@)[line]),
        ) ==> (a@ matches Setting::Servers(s) && s.contains(
            text::trimmed(text::split_lines(t@)[line]),
        ))),
        output matches Some(t) ==> b@ == restore::netsh_setting(text::split_lines(t@)),
{
    if let Some(t) = output {
        restore::law_networksetup_shows(text::split_lines(t@), line);
    }
}

/// A change of the network sets the system's DNS again; a failure to wait, and a
/// request to stop with no change, end the watcher.
pub proof fn law_watch(running: bool, polled: i32, readable: bool, r: WatchStep)
    requires
        call_ensures(watch_next, (running, polled, readable), r),
    ensures
        r == WatchStep::Reapply <==> polled > 0 && readable,
        r == WatchStep::Stop <==> polled < 0 || (!running && !(polled > 0 && readable)),
{
}

} // verus!
