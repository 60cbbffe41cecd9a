//! Persistent runtime state.
//!
//! Lets the control daemon and the GUI survive crashes and restarts while
//! still knowing whether a proxy process is running, what mode it is in, and
//! its PID.

use vstd::prelude::*;

use crate::text;

verus! {

/// What is known of the proxy process across restarts.
#[derive(Debug)]
pub struct State {
    pub running: bool,
    pub pid: u32,
    pub mode: String,
    pub provider: String,
    pub strategy: String,
}

impl State {
    /// No proxy is running, and the settings are the initial ones.
    pub open spec fn is_initial(self) -> bool {
        &&& !self.running
        &&& self.pid == 0
        &&& self.mode@ == "doh"@
        &&& self.provider@ == "cloudflare"@
        &&& self.strategy@ == "single"@
    }

    /// The PID that claims to be a running proxy.
    pub open spec fn claimed_pid(self) -> Option<u32> {
        if self.running && self.pid != 0 {
            Some(self.pid)
        } else {
            None
        }
    }

    /// No proxy, with the initial settings.
    pub fn new() -> (r: Self)
        ensures
            r.is_initial(),
    {
        State {
            running: false,
            pid: 0,
            mode: "doh".to_owned(),
            provider: "cloudflare".to_owned(),
            strategy: "single".to_owned(),
        }
    }

    /// The PID that claims to be a running proxy, to be checked for life.
    pub fn claimed(&self) -> (r: Option<u32>)
        ensures
            r == self.claimed_pid(),
    {
        if self.running && self.pid != 0 {
            Some(self.pid)
        } else {
            None
        }
    }
}

impl Clone for State {
    fn clone(&self) -> (r: Self)
        ensures
            r == *self,
    {
        State {
            running: self.running,
            pid: self.pid,
            mode: self.mode.clone(),
            provider: self.provider.clone(),
            strategy: self.strategy.clone(),
        }
    }
}

impl Default for State {
    fn default() -> (r: Self)
        ensures
            !r.running,
            r.pid == 0,
            r.mode@ == Seq::<char>::empty(),
            r.provider@ == Seq::<char>::empty(),
            r.strategy@ == Seq::<char>::empty(),
    {
        State {
            running: false,
            pid: 0,
            mode: String::new(),
            provider: String::new(),
            strategy: String::new(),
        }
    }
}

/// The state to go on with: the stored one where it could be read and parsed,
/// the initial one otherwise.
pub fn load(stored: Option<State>) -> (r: State)
    ensures
        match stored {
            Some(s) => r == s,
            None => r.is_initial(),
        },
{
    match stored {
        Some(s) => s,
        None => State::new(),
    }
}

/// The state to store when no proxy is running any more.
pub fn clear() -> (r: State)
    ensures
        r.is_initial(),
{
    State::new()
}

// ── Paths ──────────────────────────────────────────────────────────────

/// The environment variables that decide where files live.
pub struct DirEnv {
    /// Whether the platform is Windows rather than a Unix.
    pub windows: bool,
    /// `DNS_GUARD_DIR`
    pub dns_guard_dir: Option<String>,
    /// `DNS_GUARD_SOCKET`
    pub dns_guard_socket: Option<String>,
    /// `XDG_CONFIG_HOME`
    pub xdg_config_home: Option<String>,
    /// `HOME`
    pub home: Option<String>,
    /// `APPDATA`
    pub appdata: Option<String>,
}

/// The configuration directory, as the pieces of its path.
pub open spec fn dir_parts(env: DirEnv) -> Seq<Seq<char>> {
    if env.dns_guard_dir is Some {
        seq![env.dns_guard_dir->0@]
    } else if env.windows {
        match env.appdata {
            Some(base) => seq![base@, "dns-guard"@],
            None => seq!["C:\\ProgramData\\dns-guard"@],
        }
    } else if env.xdg_config_home is Some {
        seq![env.xdg_config_home->0@, "dns-guard"@]
    } else if env.home is Some {
        seq![env.home->0@, ".config"@, "dns-guard"@]
    } else {
        seq!["/etc/dns-guard"@]
    }
}

/// Configuration and state directory, as path pieces to be joined in order.
///
/// `DNS_GUARD_DIR` overrides everything, so that a proxy spawned as root can
/// be pointed at the user's directory whatever `HOME` it sees.
pub fn dir(env: &DirEnv) -> (r: Vec<String>)
    ensures
        text::texts(r@) == dir_parts(*env),
{
    let mut parts: Vec<String> = Vec::new();
    if let Some(d) = &env.dns_guard_dir {
        parts.push(d.clone());
    } else if env.windows {
        if let Some(base) = &env.appdata {
            parts.push(base.clone());
            parts.push("dns-guard".to_owned());
        } else {
            parts.push("C:\\ProgramData\\dns-guard".to_owned());
        }
    } else if let Some(base) = &env.xdg_config_home {
        parts.push(base.clone());
        parts.push("dns-guard".to_owned());
    } else if let Some(home) = &env.home {
        parts.push(home.clone());
        parts.push(".config".to_owned());
        parts.push("dns-guard".to_owned());
    } else {
        parts.push("/etc/dns-guard".to_owned());
    }
    assert(text::texts(parts@) =~= dir_parts(*env));
    parts
}

/// A file in the configuration directory.
fn in_dir(env: &DirEnv, name: &str) -> (r: Vec<String>)
    ensures
        text::texts(r@) == dir_parts(*env).push(name@),
{
    let mut parts: Vec<String> = dir(env);
    parts.push(name.to_owned());
    assert(text::texts(parts@) =~= dir_parts(*env).push(name@));
    parts
}

/// The stored state.
pub fn path(env: &DirEnv) -> (r: Vec<String>)
    ensures
        text::texts(r@) == dir_parts(*env).push("state.json"@),
{
    in_dir(env, "state.json")
}

/// The stored settings.
pub fn config_path(env: &DirEnv) -> (r: Vec<String>)
    ensures
        text::texts(r@) == dir_parts(*env).push("config.json"@),
{
    in_dir(env, "config.json")
}

/// PID file of the control daemon.
pub fn server_pid_path(env: &DirEnv) -> (r: Vec<String>)
    ensures
        text::texts(r@) == dir_parts(*env).push("server.pid"@),
{
    in_dir(env, "server.pid")
}

/// Unix socket of the control daemon. It lives in the user's configuration
/// directory so that only the owner can reach it. `DNS_GUARD_SOCKET`
/// overrides it.
pub fn socket_path(env: &DirEnv) -> (r: Vec<String>)
    ensures
        text::texts(r@) == (match env.dns_guard_socket {
            Some(p) => seq![p@],
            None => dir_parts(*env).push("dns-guard.sock"@),
        }),
{
    if let Some(p) = &env.dns_guard_socket {
        let mut parts: Vec<String> = Vec::new();
        parts.push(p.clone());
        assert(text::texts(parts@) =~= seq![p@]);
        parts
    } else {
        in_dir(env, "dns-guard.sock")
    }
}

/// Log of the control daemon.
pub fn server_log_path(env: &DirEnv) -> (r: Vec<String>)
    ensures
        text::texts(r@) == dir_parts(*env).push("server.log"@),
{
    in_dir(env, "server.log")
}

/// Log of the proxy.
pub fn proxy_log_path(env: &DirEnv) -> (r: Vec<String>)
    ensures
        text::texts(r@) == dir_parts(*env).push("proxy.log"@),
{
    in_dir(env, "proxy.log")
}

/// Per-query event log, written by the proxy and tailed by the daemon.
pub fn query_log_path(env: &DirEnv) -> (r: Vec<String>)
    ensures
        text::texts(r@) == dir_parts(*env).push("query.log"@),
{
    in_dir(env, "query.log")
}

// ── Processes ──────────────────────────────────────────────────────────

/// Whether a process exists, by what sending it signal 0 gave: the return
/// value and the error number. A refusal for lack of permission means that
/// the process is there; only `esrch`, "no such process", means that it is
/// not.
pub fn is_process_alive(kill_ret: i32, errno: Option<i32>, esrch: i32) -> (r: bool)
    ensures
        r == (kill_ret == 0 || errno != Some(esrch)),
{
    if kill_ret == 0 {
        return true;
    }
    match errno {
        Some(e) => e != esrch,
        None => true,
    }
}

// ── Laws ───────────────────────────────────────────────────────────────

/// With `DNS_GUARD_DIR` set, the directory is that one, whatever else the
/// environment says.
pub proof fn law_dir_override(a: DirEnv, b: DirEnv)
    requires
        a.dns_guard_dir is Some,
        b.dns_guard_dir is Some,
        a.dns_guard_dir->0@ == b.dns_guard_dir->0@,
    ensures
        dir_parts(a) == dir_parts(b),
        dir_parts(a) == seq![a.dns_guard_dir->0@],
{
}

/// A cleared state claims no process, so that a later start adopts none.
pub proof fn law_cleared_state_claims_nothing(s: State)
    requires
        s.is_initial(),
    ensures
        s.claimed_pid() is None,
{
}

/// A state claims its PID where it says that a proxy is running and the PID is
/// one of a process; the initial state says that none is, and names DNS over
/// HTTPS, Cloudflare and a single provider.
pub proof fn law_claims(s: State)
    ensures
        s.claimed_pid() is Some <==> s.running && s.pid > 0,
        s.claimed_pid() matches Some(pid) ==> pid == s.pid,
        s.is_initial() ==> !s.running && s.pid == 0 && s.mode@ == seq!['d', 'o', 'h']
            && s.provider@ == seq!['c', 'l', 'o', 'u', 'd', 'f', 'l', 'a', 'r', 'e']
            && s.strategy@ == seq!['s', 'i', 'n', 'g', 'l', 'e'],
{
    reveal_strlit("doh");
    reveal_strlit("cloudflare");
    reveal_strlit("single");
    assert("doh"@ =~= seq!['d', 'o', 'h']);
    assert("cloudflare"@ =~= seq!['c', 'l', 'o', 'u', 'd', 'f', 'l', 'a', 'r', 'e']);
    assert("single"@ =~= seq!['s', 'i', 'n', 'g', 'l', 'e']);
}

/// Where files live without `DNS_GUARD_DIR`: on Windows under `APPDATA`; on a
/// Unix under `XDG_CONFIG_HOME`, or else under `.config` of `HOME`; and without
/// these in a directory of the system. Each platform goes by its own variables.
pub proof fn law_dir_by_platform(env: DirEnv, other: DirEnv)
    requires
        env.dns_guard_dir is None,
        other.dns_guard_dir is None,
        other.windows == env.windows,
    ensures
        env.windows ==> (env.appdata matches Some(base) ==> dir_parts(env) == seq![
            base@,
            "dns-guard"@,
        ]),
        env.windows && env.appdata is None ==> dir_parts(env) == seq![
            "C:\\ProgramData\\dns-guard"@,
        ],
        !env.windows ==> (env.xdg_config_home matches Some(base) ==> dir_parts(env) == seq![
            base@,
            "dns-guard"@,
        ]),
        !env.windows && env.xdg_config_home is None ==> (env.home matches Some(home) ==> dir_parts(
            env,
        ) == seq![home@, ".config"@, "dns-guard"@]),
        !env.windows && env.xdg_config_home is None && env.home is None ==> dir_parts(env) == seq![
            "/etc/dns-guard"@,
        ],
        env.windows && env.appdata == other.appdata ==> dir_parts(env) == dir_parts(other),
        !env.windows && env.xdg_config_home == other.xdg_config_home && env.home == other.home
            ==> dir_parts(env) == dir_parts(other),
{
}

} // verus!
