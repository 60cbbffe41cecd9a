//! Settings, the settings file, stored state and paths.

use dns_guard::config::{
    check_reload, load_config_json, save_config, save_policy, write_config_json, Config,
    ConfigWrite,
};
use dns_guard::provider::{DnsMode, DnsProvider, DnsStrategy};
use dns_guard::rest::{policy_rules, PolicyRule};
use dns_guard::state::{
    clear, config_path, dir, is_process_alive, load, path, proxy_log_path, query_log_path,
    server_log_path, server_pid_path, socket_path, DirEnv, State,
};

fn config(mode: &str, provider: &str, strategy: &str) -> Config {
    Config {
        mode: mode.to_string(),
        provider: provider.to_string(),
        strategy: strategy.to_string(),
    }
}

fn fields(c: &Config) -> (&str, &str, &str) {
    (&c.mode, &c.provider, &c.strategy)
}

fn written(w: ConfigWrite) -> String {
    match w {
        ConfigWrite::Write(s) => s,
        _ => panic!("expected a document"),
    }
}

#[test]
fn defaults_and_overrides() {
    let c = Config::load(None);
    assert_eq!(fields(&c), ("doh", "cloudflare", "single"));
    let c = Config::load(Some(config("dot", "quad9", "failover")));
    assert_eq!(fields(&c), ("dot", "quad9", "failover"));
    let c = c.with_flags(Some("doh".to_string()), None, None);
    assert_eq!(fields(&c), ("doh", "quad9", "failover"));
    let c = c.with_flags(None, Some("google".to_string()), Some("single".to_string()));
    assert_eq!(fields(&c), ("doh", "google", "single"));
    let c = c.merged(String::new(), String::new(), "round-robin".to_string());
    assert_eq!(fields(&c), ("doh", "google", "round-robin"));
    let c = c.merged("dot".to_string(), "quad9".to_string(), String::new());
    assert_eq!(fields(&c), ("dot", "quad9", "round-robin"));
}

#[test]
fn reload_follows_or_hands_back() {
    let mut p = DnsProvider::Cloudflare;
    let mut s = DnsStrategy::Single;
    assert!(check_reload(config("doh", "google", "failover"), DnsMode::DoH, &mut p, &mut s).is_none());
    assert_eq!((p, s), (DnsProvider::Google, DnsStrategy::Failover));
    let swap = check_reload(config("dot", "quad9", "single"), DnsMode::DoH, &mut p, &mut s);
    assert_eq!(fields(&swap.unwrap()), ("dot", "quad9", "single"));
    assert_eq!((p, s), (DnsProvider::Google, DnsStrategy::Failover));
}

#[test]
fn saving_settings_keeps_the_policy() {
    let file = r#"{"policy":[{"pattern":"ads.*","action":"block"}],"mode":"doh","extra":1}"#;
    let text = written(save_config(Some(file), "dot", "google", "failover"));
    let v: serde_json::Value = serde_json::from_str(&text).unwrap();
    assert_eq!(v["mode"], "dot");
    assert_eq!(v["provider"], "google");
    assert_eq!(v["strategy"], "failover");
    assert_eq!(v["extra"], 1);
    assert_eq!(v["policy"][0]["pattern"], "ads.*");
    assert_eq!(v.as_object().unwrap().len(), 5);
}

#[test]
fn saving_the_policy_keeps_the_settings() {
    let policy: serde_json::Value = serde_json::from_str("[1, 2]").unwrap();
    let file = r#"{"mode":"dot","policy":[]}"#;
    let text = written(save_policy(Some(file), &policy));
    assert_eq!(text, "{\n  \"mode\": \"dot\",\n  \"policy\": [\n    1,\n    2\n  ]\n}");
}

#[test]
fn settings_and_policy_in_either_order() {
    let policy: serde_json::Value = serde_json::from_str("[true]").unwrap();
    let a = written(save_config(None, "dot", "quad9", "single"));
    let a = written(save_policy(Some(&a), &policy));
    let b = written(save_policy(None, &policy));
    let b = written(save_config(Some(&b), "dot", "quad9", "single"));
    assert_eq!(a, b);
}

#[test]
fn settings_files_that_are_missing_or_broken() {
    for file in [None, Some("not json"), Some("null"), Some("{}")] {
        let text = written(save_config(file, "doh", "google", "single"));
        assert_eq!(
            text,
            "{\n  \"mode\": \"doh\",\n  \"provider\": \"google\",\n  \"strategy\": \"single\"\n}"
        );
    }
    assert!(matches!(save_config(Some("[1]"), "a", "b", "c"), ConfigWrite::NotAnObject));
    let null = serde_json::Value::Null;
    assert!(matches!(save_policy(Some("3"), &null), ConfigWrite::NotAnObject));
    assert!(load_config_json(None).is_object());
    assert!(load_config_json(Some("{")).is_object());
    assert_eq!(load_config_json(Some("[1]"))[0], 1);
    assert_eq!(written(write_config_json(&load_config_json(Some("7")))), "7");
}

#[test]
fn settings_alone_make_up_the_file() {
    assert_eq!(
        written(config("dot", "quad9", "failover").save()),
        "{\n  \"mode\": \"dot\",\n  \"provider\": \"quad9\",\n  \"strategy\": \"failover\"\n}"
    );
}

#[test]
fn initial_state_claims_nothing() {
    let s = State::new();
    assert!(!s.running);
    assert_eq!(s.pid, 0);
    assert_eq!((s.mode.as_str(), s.provider.as_str(), s.strategy.as_str()), ("doh", "cloudflare", "single"));
    assert_eq!(s.claimed(), None);
    assert_eq!(clear().claimed(), None);
    assert_eq!(load(None).mode, "doh");
    let empty = State::default();
    assert_eq!(empty.mode, "");
    let mut live = State::new();
    live.running = true;
    assert_eq!(live.claimed(), None);
    live.pid = 77;
    assert_eq!(live.clone().claimed(), Some(77));
    assert_eq!(load(Some(live)).pid, 77);
}

fn env() -> DirEnv {
    DirEnv {
        windows: false,
        dns_guard_dir: None,
        dns_guard_socket: None,
        xdg_config_home: None,
        home: None,
        appdata: None,
    }
}

#[test]
fn directories() {
    let mut e = env();
    assert_eq!(dir(&e), vec!["/etc/dns-guard"]);
    e.home = Some("/home/u".to_string());
    assert_eq!(dir(&e), vec!["/home/u", ".config", "dns-guard"]);
    e.xdg_config_home = Some("/xdg".to_string());
    assert_eq!(dir(&e), vec!["/xdg", "dns-guard"]);
    e.windows = true;
    assert_eq!(dir(&e), vec!["C:\\ProgramData\\dns-guard"]);
    e.appdata = Some("A".to_string());
    assert_eq!(dir(&e), vec!["A", "dns-guard"]);
    e.dns_guard_dir = Some("/d".to_string());
    assert_eq!(dir(&e), vec!["/d"]);
}

#[test]
fn files_in_the_directory() {
    let mut e = env();
    e.dns_guard_dir = Some("/d".to_string());
    assert_eq!(path(&e), vec!["/d", "state.json"]);
    assert_eq!(config_path(&e), vec!["/d", "config.json"]);
    assert_eq!(server_pid_path(&e), vec!["/d", "server.pid"]);
    assert_eq!(server_log_path(&e), vec!["/d", "server.log"]);
    assert_eq!(proxy_log_path(&e), vec!["/d", "proxy.log"]);
    assert_eq!(query_log_path(&e), vec!["/d", "query.log"]);
    assert_eq!(socket_path(&e), vec!["/d", "dns-guard.sock"]);
    e.dns_guard_socket = Some("/tmp/s".to_string());
    assert_eq!(socket_path(&e), vec!["/tmp/s"]);
}

#[test]
fn liveness() {
    let esrch = 3;
    assert!(is_process_alive(0, None, esrch));
    assert!(is_process_alive(-1, Some(1), esrch)); // not permitted: it exists
    assert!(!is_process_alive(-1, Some(3), esrch));
    assert!(is_process_alive(-1, None, esrch));
}

#[test]
fn settings_are_read_back_as_written() {
    let odd = config("do\"h\\", "\u{1}\n\u{20ac}", "");
    let v = load_config_json(Some(&written(odd.save())));
    assert_eq!(v["mode"], "do\"h\\");
    assert_eq!(v["provider"], "\u{1}\n\u{20ac}");
    assert_eq!(v["strategy"], "");
    // Repeating a request changes nothing more.
    let c = config("doh", "google", "single");
    let once = c.merged("dot".to_string(), String::new(), String::new());
    let twice = once.merged("dot".to_string(), String::new(), String::new());
    assert_eq!(fields(&once), fields(&twice));
}

#[test]
fn a_policy_survives_a_change_of_settings() {
    let rules = vec![PolicyRule { pattern: "ads.*".to_string(), action: 1 }];
    let first = written(save_policy(Some("{\"mode\":\"doh\"}"), &policy_rules(&rules)));
    let second = written(save_config(Some(&first), "dot", "google", "single"));
    let v = load_config_json(Some(&second));
    assert_eq!(v["policy"], policy_rules(&rules));
    assert_eq!(v["policy"][0]["action"], "block");
    assert_eq!(v["mode"], "dot");
}

#[test]
fn settings_are_saved_into_the_file() {
    let c = config("dot", "quad9", "failover");
    let v = load_config_json(Some(&written(c.save_into(Some("{\"policy\":[1],\"mode\":\"x\"}")))));
    assert_eq!(v["policy"][0], 1);
    assert_eq!(v["mode"], "dot");
    // A file without sections is replaced.
    assert_eq!(written(c.save_into(Some("[1]"))), written(c.save()));
    assert_eq!(written(c.save_into(None)), written(c.save()));
}

#[test]
fn a_stored_strategy_may_be_missing() {
    let c = Config::stored("dot".to_string(), "google".to_string(), None);
    assert_eq!(fields(&c), ("dot", "google", "single"));
    let c = Config::stored("dot".to_string(), "google".to_string(), Some("failover".to_string()));
    assert_eq!(fields(&c), ("dot", "google", "failover"));
}

#[test]
fn sections_are_kept_whatever_they_hold() {
    // Negative numbers, unusual keys, and as much nesting as can be read.
    let deep = format!("{}{}", "[".repeat(126), "]".repeat(126));
    let file = format!(
        "{{\"a\":-9223372036854775808,\"$b\":[18446744073709551615,null,true],\"c\":{deep}}}"
    );
    let policy = serde_json::Value::from(-5);
    let one = written(save_policy(Some(&file), &policy));
    let one = written(save_config(Some(&one), "doh", "google", "single"));
    let two = written(save_config(Some(&file), "doh", "google", "single"));
    let two = written(save_policy(Some(&two), &policy));
    assert_eq!(one, two);
    let v = load_config_json(Some(&one));
    assert_eq!(v["a"], i64::MIN);
    assert_eq!(v["$b"][0], u64::MAX);
    assert_eq!(v["policy"], -5);
    assert!(v["c"][0].is_array());
    assert_eq!(v.as_object().unwrap().len(), 7);
}
