//! The control daemon: starting, stopping and watching the proxy process.
//!
//! The daemon runs as the user and starts the proxy through `sudo`. It also
//! adopts a proxy that somebody else started. Each operation is a function of
//! what the service holds and of what the system reported; besides its reply
//! it says what is to be stored and whether the proxy's log is to be followed.

use vstd::prelude::*;

use crate::config::Config;
use crate::logs::LogHistory;
use crate::state::State;
use crate::stop;
use crate::stop::StopPhase;
use crate::stop::StopRun;
use crate::text;

verus! {

/// Time that a new proxy gets to fail visibly, in milliseconds.
pub const EARLY_EXIT_MILLIS: u64 = 200;

/// Time that a new proxy gets to report its PID, in nanoseconds.
pub const START_TIMEOUT: u128 = 3_000_000_000;

/// Time between two looks for the PID of a new proxy, in milliseconds.
pub const PID_POLL_MILLIS: u64 = 100;

// ── The proxy process ──────────────────────────────────────────────────

/// Tracked proxy process. `Managed` holds the handle of the `sudo` child,
/// of type `C`, and the PID of the proxy itself.
pub enum RunningProxy<C> {
    Managed { child: C, proxy_pid: u32 },
    Adopted(u32),
}

impl<C> RunningProxy<C> {
    /// The PID of the proxy itself, not of `sudo`.
    pub open spec fn pid(self) -> u32 {
        match self {
            RunningProxy::Managed { child, proxy_pid } => proxy_pid,
            RunningProxy::Adopted(pid) => pid,
        }
    }

    /// The PID of the proxy itself, not of `sudo`.
    pub fn proxy_pid(&self) -> (r: u32)
        ensures
            r == self.pid(),
    {
        match self {
            RunningProxy::Managed { proxy_pid, .. } => *proxy_pid,
            RunningProxy::Adopted(pid) => *pid,
        }
    }
}

/// What happens to following the proxy's log file.
#[derive(Debug, Clone, Copy, PartialEq, Eq, Structural)]
pub enum TailOrder {
    Keep,
    Start,
    Stop,
}

/// What an operation asks for besides its reply.
pub struct Effects {
    /// The state to store.
    pub store: Option<State>,
    pub tail: TailOrder,
}

impl Effects {
    /// Whether these effects are `tail` and, where `cleared`, storing the state
    /// of no proxy, otherwise storing nothing.
    pub open spec fn are(self, cleared: bool, tail: TailOrder) -> bool {
        &&& self.tail == tail
        &&& if cleared {
            self.store matches Some(s) && s.is_initial()
        } else {
            self.store is None
        }
    }

    fn new(cleared: bool, tail: TailOrder) -> (r: Self)
        ensures
            r.are(cleared, tail),
    {
        if cleared {
            Effects { store: Some(State::new()), tail }
        } else {
            Effects { store: None, tail }
        }
    }
}

/// What comes of a stored claim that a proxy is running.
#[derive(Debug, Clone, Copy, PartialEq, Eq, Structural)]
pub enum Adoption {
    /// There is no claim.
    Nothing,
    /// The process is alive: it is adopted.
    Adopted(u32),
    /// The process is gone.
    Stale(u32),
}

/// What comes of a claim, given whether the process is alive.
pub open spec fn adoption_of(claimed: Option<u32>, alive: bool) -> Adoption {
    match claimed {
        Some(pid) => if alive {
            Adoption::Adopted(pid)
        } else {
            Adoption::Stale(pid)
        },
        None => Adoption::Nothing,
    }
}

fn adoption(state: &State, alive: bool) -> (r: Adoption)
    ensures
        r == adoption_of(state.claimed_pid(), alive),
{
    match state.claimed() {
        Some(pid) => if alive {
            Adoption::Adopted(pid)
        } else {
            Adoption::Stale(pid)
        },
        None => Adoption::Nothing,
    }
}

/// The effects of an adoption: an adopted proxy's log is followed, and a stale
/// claim is cleared.
pub open spec fn adoption_effects(e: Effects, a: Adoption) -> bool {
    e.are(
        a is Stale,
        if a is Adopted {
            TailOrder::Start
        } else {
            TailOrder::Keep
        },
    )
}

fn effects_of(a: Adoption) -> (r: Effects)
    ensures
        adoption_effects(r, a),
{
    match a {
        Adoption::Adopted(_) => Effects::new(false, TailOrder::Start),
        Adoption::Stale(_) => Effects::new(true, TailOrder::Keep),
        Adoption::Nothing => Effects::new(false, TailOrder::Keep),
    }
}

// ── Replies ────────────────────────────────────────────────────────────

/// The reply to a request to start the proxy.
#[derive(Debug)]
pub enum StartReply {
    AlreadyRunning,
    NoPassword,
    /// The process could not be created, for this reason.
    SpawnFailed(String),
    WrongPassword,
    /// The proxy ended at once, with this on its error output.
    ProxyFailed(String),
    TimedOut,
    Started,
}

impl StartReply {
    pub open spec fn text(self) -> Seq<char> {
        match self {
            StartReply::AlreadyRunning => "proxy already running"@,
            StartReply::NoPassword => "no sudo password set — click Authenticate first"@,
            StartReply::SpawnFailed(e) => "spawn: "@ + e@,
            StartReply::WrongPassword => "wrong password — click Authenticate"@,
            StartReply::ProxyFailed(e) => "proxy failed: "@ + e@,
            StartReply::TimedOut => "proxy did not start in time"@,
            StartReply::Started => "proxy started"@,
        }
    }

    /// Whether the proxy was started.
    pub fn ok(&self) -> (r: bool)
        ensures
            r == (*self is Started),
    {
        match self {
            StartReply::Started => true,
            _ => false,
        }
    }

    /// Whether the request failed inside the daemon, rather than being refused.
    pub fn is_internal(&self) -> (r: bool)
        ensures
            r == (*self is SpawnFailed),
    {
        match self {
            StartReply::SpawnFailed(_) => true,
            _ => false,
        }
    }

    /// The reply in words.
    pub fn message(&self) -> (r: String)
        ensures
            r@ == self.text(),
    {
        match self {
            StartReply::AlreadyRunning => "proxy already running".to_owned(),
            StartReply::NoPassword => "no sudo password set — click Authenticate first".to_owned(),
            StartReply::SpawnFailed(e) => text::joined("spawn: ", e.as_str()),
            StartReply::WrongPassword => "wrong password — click Authenticate".to_owned(),
            StartReply::ProxyFailed(e) => text::joined("proxy failed: ", e.as_str()),
            StartReply::TimedOut => "proxy did not start in time".to_owned(),
            StartReply::Started => "proxy started".to_owned(),
        }
    }
}

/// The reply to a request to stop the proxy.
#[derive(Debug, Clone, Copy, PartialEq, Eq, Structural)]
pub enum StopReply {
    StillRunning,
    Stopped,
}

impl StopReply {
    pub open spec fn text(self) -> Seq<char> {
        match self {
            StopReply::StillRunning => "proxy still running — authorize in the app to stop it"@,
            StopReply::Stopped => "proxy stopped"@,
        }
    }

    /// Whether no proxy is running any more.
    pub fn ok(&self) -> (r: bool)
        ensures
            r == (*self is Stopped),
    {
        match self {
            StopReply::Stopped => true,
            StopReply::StillRunning => false,
        }
    }

    /// The reply in words.
    pub fn message(&self) -> (r: String)
        ensures
            r@ == self.text(),
    {
        match self {
            StopReply::StillRunning =>
                "proxy still running — authorize in the app to stop it".to_owned(),
            StopReply::Stopped => "proxy stopped".to_owned(),
        }
    }
}

/// The words of the reply to a password.
pub open spec fn password_text(ok: bool) -> Seq<char> {
    if ok {
        "authenticated"@
    } else {
        "wrong password"@
    }
}

/// The reply to a password, in words.
pub fn password_message(ok: bool) -> (r: String)
    ensures
        r@ == password_text(ok),
{
    if ok {
        "authenticated".to_owned()
    } else {
        "wrong password".to_owned()
    }
}

/// The reply to a request for the status.
#[derive(Debug)]
pub struct StatusReply {
    pub running: bool,
    pub pid: u32,
    pub mode: String,
    pub provider: String,
    pub strategy: String,
}

/// The next step of starting the proxy.
pub enum StartStep<C> {
    /// Create the process, with these settings and this password.
    Spawn(Config, String),
    /// Wait a moment and see whether the process has ended.
    CheckEarlyExit(C),
    /// Wait for the proxy to report its PID.
    WaitForPid(C),
    /// Kill the process, then reply.
    Abandon(C, StartReply),
    Reply(StartReply),
}

/// The next step of waiting for the PID of a new proxy.
#[derive(Debug, Clone, Copy, PartialEq, Eq, Structural)]
pub enum PidPoll {
    Found(u32),
    Again,
    TimedOut,
}

/// Look for the PID of a new proxy in the stored state, at time `now`. A PID
/// counts even when the time is up.
pub fn wait_for_proxy_pid(state: &State, now: u128, deadline: u128) -> (r: PidPoll)
    ensures
        r == (match state.claimed_pid() {
            Some(pid) => PidPoll::Found(pid),
            None => if now >= deadline {
                PidPoll::TimedOut
            } else {
                PidPoll::Again
            },
        }),
{
    match state.claimed() {
        Some(pid) => PidPoll::Found(pid),
        None => if now >= deadline {
            PidPoll::TimedOut
        } else {
            PidPoll::Again
        },
    }
}

// ── The service ────────────────────────────────────────────────────────

/// What the daemon holds. `C` is the handle of a child process.
pub struct ProxyService<C> {
    pub child: Option<RunningProxy<C>>,
    pub config: Config,
    /// The password for `sudo`; empty where none was set.
    pub password: String,
    /// Recent log lines, so that a newly connected client gets some history.
    pub log_history: LogHistory,
}

impl<C> ProxyService<C> {
    /// The PID to probe for life.
    pub open spec fn watched(self) -> Option<u32> {
        match self.child {
            Some(proxy) => if proxy.pid() != 0 {
                Some(proxy.pid())
            } else {
                None
            },
            None => None,
        }
    }

    /// Whether a proxy is tracked and alive, given whether the tracked PID is.
    pub open spec fn running(self, alive: bool) -> bool {
        self.watched() is Some && alive
    }

    /// Begin with the stored state; `alive` says whether the process that it
    /// claims to be a running proxy is alive.
    pub fn load_or_new(state: State, alive: bool) -> (r: (Self, Effects))
        ensures
            r.0.child == (match adoption_of(state.claimed_pid(), alive) {
                Adoption::Adopted(pid) => Some(RunningProxy::<C>::Adopted(pid)),
                _ => None,
            }),
            r.0.config == (Config {
                mode: state.mode,
                provider: state.provider,
                strategy: state.strategy,
            }),
            r.0.password@ == Seq::<char>::empty(),
            r.0.log_history@ == Seq::<Seq<char>>::empty(),
            adoption_effects(r.1, adoption_of(state.claimed_pid(), alive)),
    {
        let a: Adoption = adoption(&state, alive);
        let child: Option<RunningProxy<C>> = match a {
            Adoption::Adopted(pid) => Some(RunningProxy::Adopted(pid)),
            _ => None,
        };
        let service = ProxyService {
            child,
            config: Config {
                mode: state.mode,
                provider: state.provider,
                strategy: state.strategy,
            },
            password: String::new(),
            log_history: LogHistory::new(),
        };
        (service, effects_of(a))
    }

    /// The PID to probe for life, where a proxy is tracked.
    pub fn tracked_pid(&self) -> (r: Option<u32>)
        ensures
            r == self.watched(),
    {
        match &self.child {
            Some(proxy) => {
                let pid: u32 = proxy.proxy_pid();
                if pid != 0 {
                    Some(pid)
                } else {
                    None
                }
            },
            None => None,
        }
    }

    /// Adopt a proxy that is running but that this daemon did not start, by the
    /// stored state and whether the process that it names is alive. Nothing
    /// happens where a proxy is tracked already.
    pub fn adopt_if_present(&mut self, state: &State, alive: bool) -> (r: Effects)
        ensures
            if old(self).child is Some {
                &&& *final(self) == *old(self)
                &&& r.are(false, TailOrder::Keep)
            } else {
                &&& final(self).child == (match adoption_of(state.claimed_pid(), alive) {
                    Adoption::Adopted(pid) => Some(RunningProxy::<C>::Adopted(pid)),
                    _ => None,
                })
                &&& final(self).config == old(self).config
                &&& final(self).password == old(self).password
                &&& final(self).log_history == old(self).log_history
                &&& adoption_effects(r, adoption_of(state.claimed_pid(), alive))
            },
    {
        if self.child.is_some() {
            return Effects::new(false, TailOrder::Keep);
        }
        let a: Adoption = adoption(state, alive);
        if let Adoption::Adopted(pid) = a {
            self.child = Some(RunningProxy::Adopted(pid));
        }
        effects_of(a)
    }

    /// Begin to start the proxy; `alive` says whether the tracked PID is alive.
    /// The non-empty fields of the request become the settings. A proxy that
    /// turns out to be dead is forgotten, together with its stored PID, so that
    /// it cannot be mistaken for the new one.
    pub fn start(
        &mut self,
        mode: String,
        provider: String,
        strategy: String,
        alive: bool,
    ) -> (r: (StartStep<C>, Effects))
        ensures
            final(self).password == old(self).password,
            final(self).log_history == old(self).log_history,
            if old(self).running(alive) {
                &&& r.0 == StartStep::<C>::Reply(StartReply::AlreadyRunning)
                &&& r.1.are(false, TailOrder::Stop)
                &&& final(self).child == old(self).child
                &&& final(self).config == old(self).config
            } else {
                &&& final(self).child is None
                &&& final(self).config == old(self).config.merged_spec(mode, provider, strategy)
                &&& r.1.are(old(self).child is Some, TailOrder::Stop)
                &&& r.0 == (if old(self).password@.len() == 0 {
                    StartStep::<C>::Reply(StartReply::NoPassword)
                } else {
                    StartStep::<C>::Spawn(final(self).config, old(self).password)
                })
            },
    {
        let mut cleared: bool = false;
        if self.child.is_some() {
            if self.tracked_pid().is_some() && alive {
                return (
                    StartStep::Reply(StartReply::AlreadyRunning),
                    Effects::new(false, TailOrder::Stop),
                );
            }
            self.child = None;
            cleared = true;
        }
        self.config = self.config.merged(mode, provider, strategy);
        let effects = Effects::new(cleared, TailOrder::Stop);
        if self.password.as_str().is_empty() {
            (StartStep::Reply(StartReply::NoPassword), effects)
        } else {
            (StartStep::Spawn(self.config.clone(), self.password.clone()), effects)
        }
    }

    /// Go on after the process was to be created.
    pub fn spawned(outcome: Result<C, String>) -> (r: StartStep<C>)
        ensures
            r == (match outcome {
                Ok(child) => StartStep::CheckEarlyExit(child),
                Err(e) => StartStep::<C>::Reply(StartReply::SpawnFailed(e)),
            }),
    {
        match outcome {
            Ok(child) => StartStep::CheckEarlyExit(child),
            Err(e) => StartStep::Reply(StartReply::SpawnFailed(e)),
        }
    }

    /// Go on after a moment: where the process has ended, `exit` says whether
    /// successfully and what it wrote to its error output. An unsuccessful end
    /// whose output speaks of a password is taken for a wrong one.
    pub fn check_early_exit(child: C, exit: Option<(bool, String)>) -> (r: StartStep<C>)
        ensures
            match exit {
                Some((false, err)) => if text::contains_text(err@, "password"@) {
                    r == StartStep::<C>::Reply(StartReply::WrongPassword)
                } else {
                    r == StartStep::<C>::Reply(StartReply::ProxyFailed(err))
                },
                _ => r == StartStep::WaitForPid(child),
            },
    {
        if let Some((success, err)) = exit {
            if !success {
                let chars: Vec<char> = text::to_chars(err.as_str());
                if text::has_text(chars.as_slice(), "password") {
                    return StartStep::Reply(StartReply::WrongPassword);
                } else {
                    return StartStep::Reply(StartReply::ProxyFailed(err));
                }
            }
        }
        StartStep::WaitForPid(child)
    }

    /// Go on after waiting for the PID of the new proxy. From then on the proxy
    /// is tracked; one that did not report in time is given up.
    pub fn pid_reported(&mut self, child: C, pid: Option<u32>) -> (r: StartStep<C>)
        ensures
            final(self).config == old(self).config,
            final(self).password == old(self).password,
            final(self).log_history == old(self).log_history,
            match pid {
                Some(proxy_pid) => {
                    &&& final(self).child == Some(RunningProxy::Managed { child, proxy_pid })
                    &&& r == StartStep::<C>::Reply(StartReply::Started)
                },
                None => {
                    &&& final(self).child == old(self).child
                    &&& r == StartStep::Abandon(child, StartReply::TimedOut)
                },
            },
    {
        match pid {
            Some(proxy_pid) => {
                self.child = Some(RunningProxy::Managed { child, proxy_pid });
                StartStep::Reply(StartReply::Started)
            },
            None => StartStep::Abandon(child, StartReply::TimedOut),
        }
    }

    /// Begin to stop the proxy. Where one is tracked, it leaves the service for
    /// the attempt, together with the handle of its process if there is one.
    pub fn stop(&mut self) -> (r: Option<(StopRun, Option<C>)>)
        ensures
            final(self).child is None,
            final(self).config == old(self).config,
            final(self).password == old(self).password,
            final(self).log_history == old(self).log_history,
            match old(self).child {
                None => r is None,
                Some(proxy) => {
                    &&& r matches Some((run, handle))
                    &&& run.wf()
                    &&& run.pid == proxy.pid()
                    &&& run.managed == (proxy is Managed)
                    &&& run.has_password == (old(self).password@.len() > 0)
                    &&& run.phase == (if old(self).password@.len() > 0 {
                        StopPhase::Interrupt
                    } else {
                        stop::first_poll(proxy is Managed)
                    })
                    &&& handle == (match proxy {
                        RunningProxy::Managed { child, proxy_pid } => Some(child),
                        RunningProxy::Adopted(_) => None,
                    })
                },
            },
    {
        let has_password: bool = !self.password.as_str().is_empty();
        let mut child: Option<RunningProxy<C>> = None;
        std::mem::swap(&mut child, &mut self.child);
        match child {
            None => None,
            Some(RunningProxy::Managed { child, proxy_pid }) => Some(
                (StopRun::begin(proxy_pid, true, has_password), Some(child)),
            ),
            Some(RunningProxy::Adopted(pid)) => Some(
                (StopRun::begin(pid, false, has_password), None),
            ),
        }
    }

    /// End an attempt to stop the proxy; `None` where none was tracked. A proxy
    /// that is still alive is adopted, and stored as running, so that neither
    /// this daemon nor the next one loses track of it.
    pub fn stopped(&mut self, run: Option<StopRun>) -> (r: (StopReply, Effects))
        requires
            run matches Some(a) ==> a.phase is Finished,
        ensures
            final(self).config == old(self).config,
            final(self).password == old(self).password,
            final(self).log_history == old(self).log_history,
            match run {
                Some(a) if a.phase == StopPhase::Finished(false) => {
                    &&& r.0 is StillRunning
                    &&& final(self).child == Some(RunningProxy::<C>::Adopted(a.pid))
                    &&& r.1.tail == TailOrder::Keep
                    &&& r.1.store == Some(
                        State {
                            running: true,
                            pid: a.pid,
                            mode: old(self).config.mode,
                            provider: old(self).config.provider,
                            strategy: old(self).config.strategy,
                        },
                    )
                },
                _ => {
                    &&& r.0 is Stopped
                    &&& final(self).child == old(self).child
                    &&& r.1.are(true, TailOrder::Stop)
                },
            },
    {
        if let Some(attempt) = run {
            if attempt.phase == StopPhase::Finished(false) {
                self.child = Some(RunningProxy::Adopted(attempt.pid));
                let state = State {
                    running: true,
                    pid: attempt.pid,
                    mode: self.config.mode.clone(),
                    provider: self.config.provider.clone(),
                    strategy: self.config.strategy.clone(),
                };
                return (
                    StopReply::StillRunning,
                    Effects { store: Some(state), tail: TailOrder::Keep },
                );
            }
        }
        (StopReply::Stopped, Effects::new(true, TailOrder::Stop))
    }

    /// Report the status; `alive` says whether the tracked PID is alive. A
    /// proxy that is not is forgotten.
    pub fn status(&mut self, alive: bool) -> (r: (StatusReply, Effects))
        ensures
            r.0 == (StatusReply {
                running: old(self).running(alive),
                pid: if old(self).running(alive) {
                    old(self).watched()->0
                } else {
                    0
                },
                mode: old(self).config.mode,
                provider: old(self).config.provider,
                strategy: old(self).config.strategy,
            }),
            final(self).child == (if old(self).running(alive) {
                old(self).child
            } else {
                None
            }),
            final(self).config == old(self).config,
            final(self).password == old(self).password,
            final(self).log_history == old(self).log_history,
            r.1.are(
                old(self).child is Some && !old(self).running(alive),
                if old(self).running(alive) {
                    TailOrder::Keep
                } else {
                    TailOrder::Stop
                },
            ),
    {
        let probed: Option<u32> = self.tracked_pid();
        let mut running: bool = false;
        let mut pid: u32 = 0;
        let mut cleared: bool = false;
        if self.child.is_some() {
            if probed.is_some() && alive {
                running = true;
                if let Some(p) = probed {
                    pid = p;
                }
            } else {
                self.child = None;
                cleared = true;
            }
        }
        let reply = StatusReply {
            running,
            pid,
            mode: self.config.mode.clone(),
            provider: self.config.provider.clone(),
            strategy: self.config.strategy.clone(),
        };
        let tail: TailOrder = if running {
            TailOrder::Keep
        } else {
            TailOrder::Stop
        };
        (reply, Effects::new(cleared, tail))
    }

    /// Change the settings: the non-empty fields of the request take effect.
    /// Returns the settings to save and the PID of the proxy to nudge, where
    /// one is tracked and there is a password to signal it with.
    pub fn set_config(&mut self, mode: String, provider: String, strategy: String) -> (r: (
        Config,
        Option<u32>,
    ))
        ensures
            final(self).config == old(self).config.merged_spec(mode, provider, strategy),
            final(self).child == old(self).child,
            final(self).password == old(self).password,
            final(self).log_history == old(self).log_history,
            r.0 == final(self).config,
            r.1 == (match old(self).child {
                Some(proxy) if old(self).password@.len() > 0 => Some(proxy.pid()),
                _ => None,
            }),
    {
        self.config = self.config.merged(mode, provider, strategy);
        let mut nudge: Option<u32> = None;
        if !self.password.as_str().is_empty() {
            if let Some(proxy) = &self.child {
                nudge = Some(proxy.proxy_pid());
            }
        }
        (self.config.clone(), nudge)
    }

    /// Keep a password that `sudo` accepted; drop one that it refused. Returns
    /// whether the password was kept.
    pub fn set_password(&mut self, password: String, accepted: bool) -> (r: bool)
        ensures
            r == accepted,
            final(self).password == (if accepted {
                password
            } else {
                old(self).password
            }),
            final(self).child == old(self).child,
            final(self).config == old(self).config,
            final(self).log_history == old(self).log_history,
    {
        if accepted {
            self.password = password;
        }
        accepted
    }

    /// Shut the daemon down after an attempt to stop the proxy. The stored
    /// state is cleared only where the proxy has stopped: otherwise the next
    /// daemon must be able to adopt the live proxy.
    pub fn shutdown(stop: StopReply) -> (r: (bool, Effects))
        ensures
            r.0 == (stop is Stopped),
            r.1.are(stop is Stopped, TailOrder::Keep),
    {
        (stop.ok(), Effects::new(stop.ok(), TailOrder::Keep))
    }
}

// ── Commands ───────────────────────────────────────────────────────────

/// Signals that the daemon sends to a proxy.
#[derive(Debug, Clone, Copy, PartialEq, Eq, Structural)]
pub enum ProxySignal {
    /// Shut down gracefully.
    Interrupt,
    Kill,
    /// Look at the settings.
    Hangup,
}

/// The option of `kill` for a signal.
pub open spec fn signal_flag(signal: ProxySignal) -> Seq<char> {
    match signal {
        ProxySignal::Interrupt => "-INT"@,
        ProxySignal::Kill => "-KILL"@,
        ProxySignal::Hangup => "-HUP"@,
    }
}

/// The next step of signalling a proxy.
pub enum SignalStep {
    /// Run `sudo` with these arguments, relying on cached credentials.
    Cached(Vec<String>),
    /// Run `sudo` with these arguments and write the password to its input.
    WithPassword(Vec<String>),
    /// The signal was sent, or could not be.
    Done(bool),
}

/// The arguments of `sudo` that signal the process `pid`.
pub open spec fn kill_args(option: Seq<char>, pid: u32, signal: ProxySignal) -> Seq<Seq<char>> {
    seq![option, "kill"@, signal_flag(signal), text::decimal_text(pid as nat)]
}

fn kill_command(option: &str, pid: u32, signal: ProxySignal) -> (r: Vec<String>)
    ensures
        text::texts(r@) == kill_args(option@, pid, signal),
{
    let flag: &str = match signal {
        ProxySignal::Interrupt => "-INT",
        ProxySignal::Kill => "-KILL",
        ProxySignal::Hangup => "-HUP",
    };
    let mut args: Vec<String> = Vec::new();
    args.push(option.to_owned());
    args.push("kill".to_owned());
    args.push(flag.to_owned());
    args.push(text::decimal(pid));
    assert(text::texts(args@) =~= kill_args(option@, pid, signal));
    args
}

/// Begin to signal a proxy: by the credentials that `sudo` has cached.
pub fn signal_proxy(pid: u32, signal: ProxySignal) -> (r: SignalStep)
    ensures
        r matches SignalStep::Cached(args) && text::texts(args@) == kill_args(
            "-n"@,
            pid,
            signal,
        ),
{
    SignalStep::Cached(kill_command("-n", pid, signal))
}

/// Go on after a step succeeded or not. The password is used only where the
/// cached credentials did not do.
pub fn signal_next(step: &SignalStep, ok: bool, pid: u32, signal: ProxySignal) -> (r: SignalStep)
    requires
        !(*step is Done),
    ensures
        if ok || *step is WithPassword {
            r == SignalStep::Done(ok)
        } else {
            r matches SignalStep::WithPassword(args) && text::texts(args@) == kill_args(
                "-S"@,
                pid,
                signal,
            )
        },
{
    if ok {
        return SignalStep::Done(true);
    }
    match step {
        SignalStep::Cached(_) => SignalStep::WithPassword(kill_command("-S", pid, signal)),
        _ => SignalStep::Done(false),
    }
}

/// The arguments of `sudo` that start the proxy.
pub open spec fn proxy_args(bin: Seq<char>, cfg: Config) -> Seq<Seq<char>> {
    seq![
        "-S"@,
        bin,
        "--mode"@,
        cfg.mode@,
        "--provider"@,
        cfg.provider@,
        "--strategy"@,
        cfg.strategy@,
    ]
}

/// The arguments of `sudo` that start the proxy at `bin` with the settings
/// `cfg`.
pub fn spawn_proxy_child(bin: &str, cfg: &Config) -> (r: Vec<String>)
    ensures
        text::texts(r@) == proxy_args(bin@, *cfg),
{
    let mut args: Vec<String> = Vec::new();
    args.push("-S".to_owned());
    args.push(bin.to_owned());
    args.push("--mode".to_owned());
    args.push(cfg.mode.clone());
    args.push("--provider".to_owned());
    args.push(cfg.provider.clone());
    args.push("--strategy".to_owned());
    args.push(cfg.strategy.clone());
    assert(text::texts(args@) =~= proxy_args(bin@, *cfg));
    args
}

/// What `sudo` reads as the password.
pub fn password_input(password: &str) -> (r: String)
    ensures
        r@ == password@ + "\n"@,
{
    text::joined(password, "\n")
}

// ── Laws ───────────────────────────────────────────────────────────────

/// A proxy that survived an attempt to stop it is what the next daemon adopts
/// from the stored state, as long as it is alive.
pub proof fn law_survivor_is_adopted_again(run: StopRun, config: Config, state: State)
    requires
        run.pid != 0,
        state == (State {
            running: true,
            pid: run.pid,
            mode: config.mode,
            provider: config.provider,
            strategy: config.strategy,
        }),
    ensures
        adoption_of(state.claimed_pid(), true) == Adoption::Adopted(run.pid),
        adoption_of(state.claimed_pid(), false) == Adoption::Stale(run.pid),
{
}

/// After a proxy was stopped or found dead, the stored state claims nothing: a
/// later look, whatever PIDs are alive, adopts nothing, and waiting for a new
/// proxy does not find the old PID.
pub proof fn law_cleared_state_is_not_adopted(e: Effects, tail: TailOrder, alive: bool)
    requires
        e.are(true, tail),
    ensures
        e.store matches Some(s) && s.claimed_pid() is None && adoption_of(s.claimed_pid(), alive)
            is Nothing,
{
}

/// What an operation stores: the state of no proxy where it clears it, and
/// nothing otherwise.
pub proof fn law_effects(e: Effects, cleared: bool, tail: TailOrder)
    requires
        e.are(cleared, tail),
    ensures
        e.tail == tail,
        e.store is Some <==> cleared,
        e.store matches Some(s) ==> !s.running && s.pid == 0 && s.is_initial(),
{
}

/// A new proxy gets a fifth of a second to fail and three seconds to report its
/// PID, which is looked for ten times a second.
pub proof fn law_start_limits()
    ensures
        EARLY_EXIT_MILLIS == 200,
        START_TIMEOUT == 3_000_000_000,
        PID_POLL_MILLIS == 100,
{
}

/// A claim is adopted where its process is alive and stale where it is not;
/// without a claim nothing happens. An adopted proxy's log is followed, a stale
/// claim is cleared, and neither happens otherwise.
pub proof fn law_adoption(state: State, alive: bool, e: Effects)
    requires
        adoption_effects(e, adoption_of(state.claimed_pid(), alive)),
    ensures
        ({
            let a = adoption_of(state.claimed_pid(), alive);
            let claims = state.running && state.pid != 0;
            &&& claims && alive ==> a == Adoption::Adopted(state.pid) && e.tail == TailOrder::Start
                && e.store is None
            &&& claims && !alive ==> a == Adoption::Stale(state.pid) && e.tail == TailOrder::Keep
                && (e.store matches Some(s) && !s.running && s.pid == 0)
            &&& !claims ==> a is Nothing && e.tail == TailOrder::Keep && e.store is None
        }),
{
}

/// The process to watch is the tracked proxy, started or adopted, unless its
/// PID is zero; the proxy is running where that process is alive.
pub proof fn law_watching<C>(s: ProxyService<C>, alive: bool)
    ensures
        s.child is None ==> s.watched() is None,
        s.child matches Some(RunningProxy::Managed { child, proxy_pid }) ==> s.watched() == (
        if proxy_pid == 0 {
            None
        } else {
            Some(proxy_pid)
        }),
        s.child matches Some(RunningProxy::Adopted(pid)) ==> s.watched() == (if pid == 0 {
            None
        } else {
            Some(pid)
        }),
        s.running(alive) <==> alive && s.watched() is Some,
        s.child matches Some(RunningProxy::Managed { child, proxy_pid }) ==> s.child->0.pid()
            == proxy_pid,
        s.child matches Some(RunningProxy::Adopted(pid)) ==> s.child->0.pid() == pid,
{
}

/// The words of the replies.
pub proof fn law_replies_in_words(e: String)
    ensures
        StartReply::AlreadyRunning.text() == "proxy already running"@,
        StartReply::NoPassword.text() == "no sudo password set — click Authenticate first"@,
        StartReply::SpawnFailed(e).text() == "spawn: "@ + e@,
        StartReply::WrongPassword.text() == "wrong password — click Authenticate"@,
        StartReply::ProxyFailed(e).text() == "proxy failed: "@ + e@,
        StartReply::TimedOut.text() == "proxy did not start in time"@,
        StartReply::Started.text() == "proxy started"@,
        StopReply::StillRunning.text()
            == "proxy still running — authorize in the app to stop it"@,
        StopReply::Stopped.text() == "proxy stopped"@,
        password_text(true) == "authenticated"@,
        password_text(false) == "wrong password"@,
{
}

/// A signal is sent by `kill`, with the option that names it and the PID in
/// decimal, and different signals have different options.
pub proof fn law_kill_command(option: Seq<char>, pid: u32, a: ProxySignal, b: ProxySignal)
    ensures
        kill_args(option, pid, a).len() == 4,
        kill_args(option, pid, a)[0] == option,
        kill_args(option, pid, a)[1] == seq!['k', 'i', 'l', 'l'],
        kill_args(option, pid, a)[3] == text::decimal_text(pid as nat),
        kill_args(option, pid, ProxySignal::Interrupt)[2] == seq!['-', 'I', 'N', 'T'],
        kill_args(option, pid, ProxySignal::Kill)[2] == seq!['-', 'K', 'I', 'L', 'L'],
        kill_args(option, pid, ProxySignal::Hangup)[2] == seq!['-', 'H', 'U', 'P'],
        a == b <==> kill_args(option, pid, a) == kill_args(option, pid, b),
{
    reveal_strlit("kill");
    reveal_strlit("-INT");
    reveal_strlit("-KILL");
    reveal_strlit("-HUP");
    assert("kill"@ =~= seq!['k', 'i', 'l', 'l']);
    assert("-INT"@ =~= seq!['-', 'I', 'N', 'T']);
    assert("-KILL"@ =~= seq!['-', 'K', 'I', 'L', 'L']);
    assert("-HUP"@ =~= seq!['-', 'H', 'U', 'P']);
    assert("-INT"@[1] != "-HUP"@[1]);
    let x = kill_args(option, pid, a);
    let y = kill_args(option, pid, b);
    assert(x[2] == signal_flag(a) && y[2] == signal_flag(b));
}

/// The proxy is started with each setting behind the flag of its name, so that
/// it runs with the settings that it was started for.
pub proof fn law_proxy_command(bin: Seq<char>, cfg: Config)
    ensures
        ({
            let args = proxy_args(bin, cfg);
            &&& args.len() == 8
            &&& args[0] == "-S"@
            &&& args[1] == bin
            &&& args[2] == "--mode"@ && args[3] == cfg.mode@
            &&& args[4] == "--provider"@ && args[5] == cfg.provider@
            &&& args[6] == "--strategy"@ && args[7] == cfg.strategy@
        }),
{
}

} // verus!
