//! System plans and the life of a standalone proxy.

use dns_guard::config::Config;
use dns_guard::platform::{
    check_root, for_each_service, get_network_services, get_windows_adapters, install_system_dns,
    interfaces, list_interfaces, setup_loopback, teardown_loopback, uninstall_system_dns,
    watch_next, Platform, SystemStep, WatchStep, LISTEN_ADDR, LISTEN_PORT,
};
use dns_guard::restore::{
    dns_setting, restore_system_dns, show_dns, DnsSetting, InterfaceDns, SavedDns,
};
use dns_guard::standalone::{daemonize, Daemonize, Flags, Phase, PhaseEvent, Standalone, Task};

/// A plan, one line per step.
fn shown(steps: &[SystemStep]) -> Vec<String> {
    steps
        .iter()
        .map(|s| match s {
            SystemStep::Run(p, args) => format!("{p}|{}", args.join("|")),
            SystemStep::Write(p, c) => format!("{p} <- {}", String::from_utf8_lossy(c)),
            SystemStep::Remove(p) => format!("rm {p}"),
        })
        .collect()
}

#[test]
fn loopback_plans() {
    assert_eq!((LISTEN_ADDR, LISTEN_PORT), ("127.0.0.2", 53));
    assert_eq!(
        shown(&setup_loopback(Platform::MacOs)),
        vec!["ifconfig|lo0|alias|127.0.0.2|255.255.255.255"]
    );
    assert_eq!(
        shown(&teardown_loopback(Platform::MacOs)),
        vec!["ifconfig|lo0|inet|127.0.0.2|-alias"]
    );
    assert_eq!(shown(&setup_loopback(Platform::Linux)), vec!["ip|addr|add|127.0.0.2/32|dev|lo"]);
    assert_eq!(shown(&teardown_loopback(Platform::Linux)), vec!["ip|addr|del|127.0.0.2/32|dev|lo"]);
    assert!(setup_loopback(Platform::Windows).is_empty());
    assert!(teardown_loopback(Platform::Windows).is_empty());
}

#[test]
fn network_services_are_parsed() {
    let out = "An asterisk (*) denotes that a network service is disabled.\n\
               Wi-Fi\n*Thunderbolt Bridge\n\n  iPhone USB \n**\n* *x\n";
    assert_eq!(
        get_network_services(Some(out)),
        vec!["Wi-Fi", "Thunderbolt Bridge", "iPhone USB", "*x"]
    );
    assert!(get_network_services(None).is_empty());
    assert_eq!(
        for_each_service(vec![]),
        vec!["Wi-Fi", "Ethernet", "USB 10/100/1000 LAN", "Thunderbolt Bridge"]
    );
    assert_eq!(for_each_service(vec!["A".to_string()]), vec!["A"]);
}

#[test]
fn windows_adapters_are_parsed() {
    let out = "\r\nIdx     Met         MTU          State                Name\r\n\
               ---  ----------  ----------  ------------  ---------------------------\r\n  \
               1          75  4294967295  connected     Loopback Pseudo-Interface 1\r\n \
               12          25        1500  connected     Ethernet 2\r\n \
               14          25        1500  disconnected   Wi-Fi   \r\n\r\n";
    assert_eq!(get_windows_adapters(Some(out)), vec!["Ethernet 2", "Wi-Fi"]);
    assert!(get_windows_adapters(Some("a\nb")).is_empty());
    assert!(get_windows_adapters(None).is_empty());
}

#[test]
fn adapter_columns_as_the_standard_library_splits_them() {
    for line in ["a  b", "a   b", "a    b  ", "one", " x  y z ", "  ", "\ta \t b  c\t"] {
        let expected: Vec<String> = line
            .trim()
            .split("  ")
            .last()
            .map(|n| n.trim().to_string())
            .filter(|n| !n.is_empty())
            .into_iter()
            .collect();
        let listing = format!("h\nh\nh\n{line}\n");
        assert_eq!(get_windows_adapters(Some(&listing)), expected, "{line:?}");
    }
}

#[test]
fn interfaces_per_platform() {
    assert_eq!(
        shown(&[list_interfaces(Platform::MacOs).unwrap()]),
        vec!["networksetup|-listallnetworkservices"]
    );
    assert_eq!(
        shown(&[list_interfaces(Platform::Windows).unwrap()]),
        vec!["netsh|interface|ip|show|interfaces"]
    );
    assert!(list_interfaces(Platform::Linux).is_none());
    assert_eq!(interfaces(Platform::MacOs, Some("Wi-Fi\n")), vec!["Wi-Fi"]);
    assert_eq!(interfaces(Platform::MacOs, None).len(), 4);
    assert!(interfaces(Platform::Linux, Some("Wi-Fi\n")).is_empty());
    assert_eq!(interfaces(Platform::Windows, Some("1\n2\n3\nEthernet")), vec!["Ethernet"]);
}

#[test]
fn dns_plans() {
    let names = vec!["Wi-Fi".to_string(), "LAN".to_string()];
    assert_eq!(
        shown(&install_system_dns(Platform::MacOs, &names)),
        vec![
            "networksetup|-setdnsservers|Wi-Fi|127.0.0.2",
            "networksetup|-setdnsservers|LAN|127.0.0.2",
            "dscacheutil|-flushcache",
            "killall|-HUP|mDNSResponder",
        ]
    );
    assert_eq!(
        shown(&uninstall_system_dns(Platform::MacOs, &names)),
        vec![
            "networksetup|-setdnsservers|Wi-Fi|Empty",
            "networksetup|-setdnsservers|LAN|Empty",
            "dscacheutil|-flushcache",
            "killall|-HUP|mDNSResponder",
        ]
    );
    assert_eq!(
        shown(&install_system_dns(Platform::Windows, &names)),
        vec![
            "netsh|interface|ip|set|dns|Wi-Fi|static|127.0.0.2",
            "netsh|interface|ip|set|dns|LAN|static|127.0.0.2",
        ]
    );
    assert_eq!(
        shown(&uninstall_system_dns(Platform::Windows, &names)),
        vec![
            "netsh|interface|ip|set|dns|Wi-Fi|dhcp",
            "netsh|interface|ip|set|dns|LAN|dhcp",
        ]
    );
    assert_eq!(
        shown(&install_system_dns(Platform::Linux, &names)),
        vec!["/etc/resolv.conf <- nameserver 127.0.0.2\n"]
    );
    assert_eq!(shown(&uninstall_system_dns(Platform::Linux, &names)), vec!["rm /etc/resolv.conf"]);
}

#[test]
fn privileges_and_watching() {
    assert_eq!(check_root(Platform::Linux, true), Ok(()));
    assert_eq!(
        check_root(Platform::MacOs, false),
        Err("error: must run as root (sudo)".to_string())
    );
    assert_eq!(
        check_root(Platform::Windows, false),
        Err("error: must run as Administrator".to_string())
    );
    assert_eq!(watch_next(true, 0, false), WatchStep::Wait);
    assert_eq!(watch_next(true, 1, true), WatchStep::Reapply);
    assert_eq!(watch_next(true, 1, false), WatchStep::Wait);
    assert_eq!(watch_next(true, -1, true), WatchStep::Stop);
    assert_eq!(watch_next(false, 0, false), WatchStep::Stop);
}

#[test]
fn going_into_the_background() {
    assert_eq!(daemonize(Some(true), true, false, false, false), Daemonize::Server);
    assert_eq!(daemonize(Some(false), true, true, false, false), Daemonize::No);
    assert_eq!(daemonize(None, false, true, false, false), Daemonize::Proxy);
    assert_eq!(daemonize(None, false, true, true, false), Daemonize::No);
    assert_eq!(daemonize(None, false, true, false, true), Daemonize::No);
    assert_eq!(daemonize(None, true, true, false, false), Daemonize::No);
    assert_eq!(daemonize(None, false, false, false, false), Daemonize::No);
}

fn flags() -> Flags {
    Flags {
        uninstall: false,
        install: false,
        background: false,
        mode: None,
        provider: None,
        strategy: None,
    }
}

fn config(mode: &str) -> Config {
    Config {
        mode: mode.to_string(),
        provider: "google".to_string(),
        strategy: "single".to_string(),
    }
}

#[test]
fn one_shot_commands() {
    let mut f = flags();
    f.install = true;
    let mut s = Standalone::cmd_standalone(f, 1);
    assert_eq!(s.phase, Phase::CheckRoot(Task::Install));
    s.step(PhaseEvent::Privileged(true));
    assert_eq!(s.phase, Phase::InstallOnly);
    s.step(PhaseEvent::Done);
    assert_eq!(s.phase, Phase::Exit(0));

    let mut f = flags();
    f.install = true;
    f.uninstall = true;
    let mut s = Standalone::cmd_standalone(f, 1);
    assert_eq!(s.phase, Phase::CheckRoot(Task::Uninstall));
    s.step(PhaseEvent::Privileged(true));
    assert_eq!(s.phase, Phase::UninstallOnly);
    s.step(PhaseEvent::Done);
    assert_eq!(s.phase, Phase::Exit(0));
}

#[test]
fn a_run_restores_what_it_changed() {
    let mut s = Standalone::cmd_standalone(flags(), 77);
    assert_eq!(s.phase, Phase::LoadConfig);
    s.step(PhaseEvent::Loaded(Some(config("dot"))));
    assert_eq!(s.phase, Phase::CheckRoot(Task::Run));
    s.step(PhaseEvent::Privileged(true));
    assert_eq!(s.phase, Phase::SetupLoopback);
    s.step(PhaseEvent::Done);
    assert_eq!(s.phase, Phase::RememberDns);
    let found = SavedDns { file: Some(b"nameserver 192.0.2.1\n".to_vec()), interfaces: vec![] };
    s.step(PhaseEvent::DnsFound(found));
    for p in [Phase::InstallDns, Phase::SaveState, Phase::Watch] {
        assert_eq!(s.phase, p);
        s.step(PhaseEvent::Done);
    }
    assert_eq!(s.phase, Phase::CheckRunning);
    s.step(PhaseEvent::Running(true));
    assert_eq!(s.phase, Phase::Serve);
    s.step(PhaseEvent::Swap(config("doh")));
    assert_eq!(s.phase, Phase::SaveSwap);
    let state = s.state();
    assert_eq!(state.claimed(), Some(77));
    assert_eq!(state.mode, "doh");
    s.step(PhaseEvent::Done);
    s.step(PhaseEvent::Running(true));
    let mut last = config("doh");
    last.provider = "quad9".to_string();
    s.step(PhaseEvent::Served(last));
    assert_eq!(s.config.provider, "quad9");
    assert_eq!(s.phase, Phase::CheckRunning);
    s.step(PhaseEvent::Running(false));
    for p in [Phase::SaveConfig, Phase::RestoreDns, Phase::TeardownLoopback, Phase::ClearState] {
        assert_eq!(s.phase, p);
        if p == Phase::RestoreDns {
            assert_eq!(
                shown(&restore_system_dns(Platform::Linux, &s.saved, &vec![])),
                vec!["/etc/resolv.conf <- nameserver 192.0.2.1\n"]
            );
        }
        s.step(PhaseEvent::Done);
    }
    assert_eq!(s.phase, Phase::Exit(0));
}

#[test]
fn flags_are_saved_first() {
    let mut f = flags();
    f.background = true;
    f.mode = Some("dot".to_string());
    let mut s = Standalone::cmd_standalone(f, 1);
    s.step(PhaseEvent::Loaded(None));
    assert_eq!(s.phase, Phase::SaveFlags);
    assert_eq!(s.config.mode, "dot");
    assert_eq!(s.config.provider, "cloudflare");
    s.step(PhaseEvent::Done);
    assert_eq!(s.phase, Phase::SetupLoopback);
}

#[test]
fn without_privileges_the_run_ends() {
    let mut s = Standalone::cmd_standalone(flags(), 1);
    s.step(PhaseEvent::Loaded(None));
    s.step(PhaseEvent::Privileged(false));
    assert_eq!(s.phase, Phase::Exit(1));
}

fn servers(s: DnsSetting) -> Option<Vec<String>> {
    match s {
        DnsSetting::Default => None,
        DnsSetting::Servers(v) => Some(v),
    }
}

#[test]
fn dns_settings_are_looked_at() {
    assert_eq!(
        shown(&[show_dns(Platform::MacOs, "Wi-Fi").unwrap()]),
        vec!["networksetup|-getdnsservers|Wi-Fi"]
    );
    assert_eq!(
        shown(&[show_dns(Platform::Windows, "LAN 2").unwrap()]),
        vec!["netsh|interface|ip|show|dns|LAN 2"]
    );
    assert!(show_dns(Platform::Linux, "x").is_none());

    let none = "There aren't any DNS Servers set on Wi-Fi.\n";
    assert_eq!(servers(dns_setting(Platform::MacOs, Some(none))), None);
    assert_eq!(servers(dns_setting(Platform::MacOs, None)), None);
    assert_eq!(
        servers(dns_setting(Platform::MacOs, Some("192.0.2.1\n 2001:db8::1 \n\n"))).unwrap(),
        vec!["192.0.2.1", "2001:db8::1"]
    );

    let dhcp = "\r\nConfiguration for interface \"Ethernet\"\r\n    \
                DNS servers configured through DHCP:  192.168.1.1\r\n    \
                Register with which suffix:           Primary only\r\n\r\n";
    assert_eq!(servers(dns_setting(Platform::Windows, Some(dhcp))), None);
    let fixed = "\r\nConfiguration for interface \"Ethernet\"\r\n    \
                 Statically Configured DNS Servers:    192.0.2.1\r\n                     \
                 192.0.2.2\r\n    \
                 Register with which suffix:           Primary only\r\n\r\n";
    assert_eq!(
        servers(dns_setting(Platform::Windows, Some(fixed))).unwrap(),
        vec!["192.0.2.1", "192.0.2.2"]
    );
    let empty = "    Statically Configured DNS Servers:    None\r\n    192.0.2.9\r\n";
    assert!(servers(dns_setting(Platform::Windows, Some(empty))).unwrap().is_empty());
    assert!(servers(dns_setting(Platform::Windows, Some("Statically"))).unwrap().is_empty());
}

fn interface(name: &str, servers: Option<&[&str]>) -> InterfaceDns {
    InterfaceDns {
        name: name.to_string(),
        setting: match servers {
            Some(v) => DnsSetting::Servers(v.iter().map(|s| s.to_string()).collect()),
            None => DnsSetting::Default,
        },
    }
}

#[test]
fn dns_is_given_back() {
    let mut saved = SavedDns {
        file: None,
        interfaces: vec![
            interface("Wi-Fi", Some(&["192.0.2.1", "192.0.2.2"])),
            interface("LAN", None),
        ],
    };
    let names = vec!["LAN".to_string(), "USB".to_string(), "Wi-Fi".to_string()];
    assert_eq!(
        shown(&restore_system_dns(Platform::MacOs, &saved, &names)),
        vec![
            "networksetup|-setdnsservers|Wi-Fi|192.0.2.1|192.0.2.2",
            "networksetup|-setdnsservers|LAN|Empty",
            "networksetup|-setdnsservers|USB|Empty",
            "dscacheutil|-flushcache",
            "killall|-HUP|mDNSResponder",
        ]
    );
    saved.interfaces.push(interface("VPN", Some(&[])));
    assert_eq!(
        shown(&restore_system_dns(Platform::Windows, &saved, &names)),
        vec![
            "netsh|interface|ip|set|dns|Wi-Fi|static|192.0.2.1",
            "netsh|interface|ip|add|dns|Wi-Fi|192.0.2.2",
            "netsh|interface|ip|set|dns|LAN|dhcp",
            "netsh|interface|ip|set|dns|VPN|static|none",
            "netsh|interface|ip|set|dns|USB|dhcp",
        ]
    );
    // A file comes back byte for byte; one that was not there goes away again.
    saved.file = Some(vec![0xFF, b'#', b'\n']);
    match restore_system_dns(Platform::Linux, &saved, &names).as_slice() {
        [SystemStep::Write(p, c)] => {
            assert_eq!(p, "/etc/resolv.conf");
            assert_eq!(c, &[0xFF, b'#', b'\n']);
        }
        _ => panic!("expected one file to be written"),
    }
    assert_eq!(
        shown(&restore_system_dns(Platform::Linux, &SavedDns::new(), &names)),
        vec!["rm /etc/resolv.conf"]
    );
}

#[test]
fn a_leftover_proxy_is_not_given_back() {
    let saved = SavedDns {
        file: Some(b"nameserver 127.0.0.2\n".to_vec()),
        interfaces: vec![
            interface("Wi-Fi", Some(&["127.0.0.2"])),
            interface("LAN", Some(&["192.0.2.1", "127.0.0.2"])),
            interface("USB", Some(&["127.0.0.22"])),
        ],
    };
    let names = vec![];
    assert_eq!(
        shown(&restore_system_dns(Platform::Linux, &saved, &names)),
        vec!["rm /etc/resolv.conf"]
    );
    assert_eq!(
        &shown(&restore_system_dns(Platform::MacOs, &saved, &names))[..3],
        &[
            "networksetup|-setdnsservers|Wi-Fi|Empty",
            "networksetup|-setdnsservers|LAN|Empty",
            "networksetup|-setdnsservers|USB|127.0.0.22",
        ]
    );
    assert_eq!(
        shown(&restore_system_dns(Platform::Windows, &saved, &names)),
        vec![
            "netsh|interface|ip|set|dns|Wi-Fi|dhcp",
            "netsh|interface|ip|set|dns|LAN|dhcp",
            "netsh|interface|ip|set|dns|USB|static|127.0.0.22",
        ]
    );
    // Anything else in the file is the system's own.
    let other = SavedDns { file: Some(b"nameserver 127.0.0.2".to_vec()), interfaces: vec![] };
    assert_eq!(
        shown(&restore_system_dns(Platform::Linux, &other, &names)),
        vec!["/etc/resolv.conf <- nameserver 127.0.0.2"]
    );
}
