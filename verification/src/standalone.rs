//! The life of a standalone proxy: from the command line to the cleanup.
//!
//! The proxy sets the system's DNS to itself, serves until it is told to stop,
//! and restores what it changed. When the settings ask for another mode while
//! it runs, it goes on in that mode.

use vstd::prelude::*;

use crate::config::Config;
use crate::restore::SavedDns;
use crate::state::State;

verus! {

// ── Command line ───────────────────────────────────────────────────────

/// What the command line asks for.
#[derive(Debug)]
pub struct Flags {
    pub uninstall: bool,
    pub install: bool,
    /// The process is in the background already.
    pub background: bool,
    pub mode: Option<String>,
    pub provider: Option<String>,
    pub strategy: Option<String>,
}

impl Flags {
    /// Whether a setting is given on the command line.
    pub open spec fn any_setting(self) -> bool {
        self.mode is Some || self.provider is Some || self.strategy is Some
    }
}

/// Whether the process goes into the background, and which log its output goes
/// to then.
#[derive(Debug, Clone, Copy, PartialEq, Eq, Structural)]
pub enum Daemonize {
    No,
    /// The control daemon: the server log, and its PID goes into a file.
    Server,
    /// The proxy: the proxy log.
    Proxy,
}

/// Decide on going into the background. `serve` is whether the control daemon
/// is to be started, and if so whether in the background; `command` whether any
/// command is given.
pub fn daemonize(
    serve: Option<bool>,
    command: bool,
    background: bool,
    install: bool,
    uninstall: bool,
) -> (r: Daemonize)
    ensures
        r == (if serve == Some(true) {
            Daemonize::Server
        } else if !command && background && !install && !uninstall {
            Daemonize::Proxy
        } else {
            Daemonize::No
        }),
{
    if let Some(true) = serve {
        Daemonize::Server
    } else if !command && background && !install && !uninstall {
        Daemonize::Proxy
    } else {
        Daemonize::No
    }
}

// ── Life of the proxy ──────────────────────────────────────────────────

/// What the privileges are needed for.
#[derive(Debug, Clone, Copy, PartialEq, Eq, Structural)]
pub enum Task {
    Uninstall,
    Install,
    Run,
}

/// What to do next.
#[derive(Debug, Clone, Copy, PartialEq, Eq, Structural)]
pub enum Phase {
    /// Read the settings.
    LoadConfig,
    /// See whether the process has the privileges for a task.
    CheckRoot(Task),
    /// Set the system's DNS to its defaults, and nothing else.
    UninstallOnly,
    /// Set the system's DNS to the proxy, and nothing else.
    InstallOnly,
    /// Save the settings, which the command line changed.
    SaveFlags,
    /// Give the loopback interface its alias.
    SetupLoopback,
    /// Look at what the system's DNS is set to.
    RememberDns,
    /// Set the system's DNS to the proxy.
    InstallDns,
    /// Store that the proxy is running.
    SaveState,
    /// React to Ctrl-C and to changes of the network.
    Watch,
    /// See whether a shutdown was requested.
    CheckRunning,
    /// Serve queries in the mode of the settings.
    Serve,
    /// Store that the proxy is running with other settings.
    SaveSwap,
    /// Save the settings.
    SaveConfig,
    /// Set the system's DNS to what it was set to before.
    RestoreDns,
    /// Take the alias from the loopback interface.
    TeardownLoopback,
    /// Store that no proxy is running.
    ClearState,
    /// End the process with this code.
    Exit(i32),
}

/// What came of a phase.
pub enum PhaseEvent {
    /// Of `LoadConfig`: the stored settings, where they could be read.
    Loaded(Option<Config>),
    /// Of `CheckRoot`.
    Privileged(bool),
    /// Of `RememberDns`: what the system's DNS is set to.
    DnsFound(SavedDns),
    /// Of `CheckRunning`.
    Running(bool),
    /// Of `Serve`: the settings ask for another mode.
    Swap(Config),
    /// Of `Serve`: serving ended, and these settings were in use last.
    Served(Config),
    /// Of every other phase: it is done.
    Done,
}

/// Whether `event` can come of `phase`.
pub open spec fn phase_event_fits(phase: Phase, event: PhaseEvent) -> bool {
    match phase {
        Phase::LoadConfig => event is Loaded,
        Phase::CheckRoot(_) => event is Privileged,
        Phase::RememberDns => event is DnsFound,
        Phase::CheckRunning => event is Running,
        Phase::Serve => event is Swap || event is Served,
        Phase::Exit(_) => false,
        _ => event is Done,
    }
}

/// A standalone proxy.
pub struct Standalone {
    pub flags: Flags,
    pub pid: u32,
    pub config: Config,
    /// What the system's DNS was set to before it was set to the proxy.
    pub saved: SavedDns,
    pub phase: Phase,
}

impl Standalone {
    /// The phase that the set-up begins with, once the settings are known and
    /// the privileges are there. Settings from the command line are saved, so
    /// that looking at the settings later confirms them.
    pub open spec fn boot(self) -> Phase {
        if self.flags.any_setting() {
            Phase::SaveFlags
        } else {
            Phase::SetupLoopback
        }
    }

    /// The phase that follows the current one and `event`.
    pub open spec fn next_phase(self, event: PhaseEvent) -> Phase {
        match (self.phase, event) {
            (Phase::LoadConfig, _) => if self.flags.background {
                self.boot()
            } else {
                Phase::CheckRoot(Task::Run)
            },
            (Phase::CheckRoot(_), PhaseEvent::Privileged(false)) => Phase::Exit(1),
            (Phase::CheckRoot(Task::Uninstall), _) => Phase::UninstallOnly,
            (Phase::CheckRoot(Task::Install), _) => Phase::InstallOnly,
            (Phase::CheckRoot(Task::Run), _) => self.boot(),
            (Phase::UninstallOnly, _) => Phase::Exit(0),
            (Phase::InstallOnly, _) => Phase::Exit(0),
            (Phase::SaveFlags, _) => Phase::SetupLoopback,
            (Phase::SetupLoopback, _) => Phase::RememberDns,
            (Phase::RememberDns, _) => Phase::InstallDns,
            (Phase::InstallDns, _) => Phase::SaveState,
            (Phase::SaveState, _) => Phase::Watch,
            (Phase::Watch, _) => Phase::CheckRunning,
            (Phase::CheckRunning, PhaseEvent::Running(true)) => Phase::Serve,
            (Phase::CheckRunning, _) => Phase::SaveConfig,
            (Phase::Serve, PhaseEvent::Swap(_)) => Phase::SaveSwap,
            (Phase::Serve, _) => Phase::CheckRunning,
            (Phase::SaveSwap, _) => Phase::CheckRunning,
            (Phase::SaveConfig, _) => Phase::RestoreDns,
            (Phase::RestoreDns, _) => Phase::TeardownLoopback,
            (Phase::TeardownLoopback, _) => Phase::ClearState,
            (Phase::ClearState, _) => Phase::Exit(0),
            (Phase::Exit(code), _) => Phase::Exit(code),
        }
    }

    /// Whether `config` is what the settings are after `event`.
    pub open spec fn config_after(self, event: PhaseEvent, config: Config) -> bool {
        match event {
            PhaseEvent::Loaded(stored) => exists|c: Config|
                (match stored {
                    Some(s) => c == s,
                    None => c.is_default(),
                }) && config == #[trigger] c.with_flags_spec(
                    self.flags.mode,
                    self.flags.provider,
                    self.flags.strategy,
                ),
            PhaseEvent::Swap(c) => config == c,
            PhaseEvent::Served(c) => config == c,
            _ => config == self.config,
        }
    }

    /// What is kept of the system's DNS after `event`.
    pub open spec fn saved_after(self, event: PhaseEvent) -> SavedDns {
        match event {
            PhaseEvent::DnsFound(found) => found,
            _ => self.saved,
        }
    }

    /// Begin. Restoring the system's DNS goes before setting it where both are
    /// asked for.
    pub fn cmd_standalone(flags: Flags, pid: u32) -> (r: Self)
        ensures
            r.flags == flags,
            r.pid == pid,
            r.config.is_default(),
            r.saved@.file is None,
            r.saved@.interfaces.len() == 0,
            r.phase == (if flags.uninstall {
                Phase::CheckRoot(Task::Uninstall)
            } else if flags.install {
                Phase::CheckRoot(Task::Install)
            } else {
                Phase::LoadConfig
            }),
    {
        let phase: Phase = if flags.uninstall {
            Phase::CheckRoot(Task::Uninstall)
        } else if flags.install {
            Phase::CheckRoot(Task::Install)
        } else {
            Phase::LoadConfig
        };
        Standalone { flags, pid, config: Config::default(), saved: SavedDns::new(), phase }
    }

    fn boot_phase(&self) -> (r: Phase)
        ensures
            r == self.boot(),
    {
        if self.flags.mode.is_some() || self.flags.provider.is_some()
            || self.flags.strategy.is_some() {
            Phase::SaveFlags
        } else {
            Phase::SetupLoopback
        }
    }

    /// Go on after the current phase gave `event`.
    pub fn step(&mut self, event: PhaseEvent)
        requires
            phase_event_fits(old(self).phase, event),
        ensures
            final(self).flags == old(self).flags,
            final(self).pid == old(self).pid,
            final(self).phase == old(self).next_phase(event),
            old(self).config_after(event, final(self).config),
            final(self).saved == old(self).saved_after(event),
    {
        let phase: Phase = match self.phase {
            Phase::LoadConfig => if self.flags.background {
                self.boot_phase()
            } else {
                Phase::CheckRoot(Task::Run)
            },
            Phase::CheckRoot(task) => {
                let mut privileged: bool = false;
                if let PhaseEvent::Privileged(p) = &event {
                    privileged = *p;
                }
                if !privileged {
                    Phase::Exit(1)
                } else {
                    match task {
                        Task::Uninstall => Phase::UninstallOnly,
                        Task::Install => Phase::InstallOnly,
                        Task::Run => self.boot_phase(),
                    }
                }
            },
            Phase::UninstallOnly => Phase::Exit(0),
            Phase::InstallOnly => Phase::Exit(0),
            Phase::SaveFlags => Phase::SetupLoopback,
            Phase::SetupLoopback => Phase::RememberDns,
            Phase::RememberDns => Phase::InstallDns,
            Phase::InstallDns => Phase::SaveState,
            Phase::SaveState => Phase::Watch,
            Phase::Watch => Phase::CheckRunning,
            Phase::CheckRunning => {
                let mut running: bool = false;
                if let PhaseEvent::Running(r) = &event {
                    running = *r;
                }
                if running {
                    Phase::Serve
                } else {
                    Phase::SaveConfig
                }
            },
            Phase::Serve => match &event {
                PhaseEvent::Swap(_) => Phase::SaveSwap,
                _ => Phase::CheckRunning,
            },
            Phase::SaveSwap => Phase::CheckRunning,
            Phase::SaveConfig => Phase::RestoreDns,
            Phase::RestoreDns => Phase::TeardownLoopback,
            Phase::TeardownLoopback => Phase::ClearState,
            Phase::ClearState => Phase::Exit(0),
            Phase::Exit(code) => Phase::Exit(code),
        };
        match event {
            PhaseEvent::Loaded(stored) => {
                let base: Config = Config::load(stored);
                let mode: Option<String> = self.flags.mode.clone();
                let provider: Option<String> = self.flags.provider.clone();
                let strategy: Option<String> = self.flags.strategy.clone();
                self.config = base.with_flags(mode, provider, strategy);
            },
            PhaseEvent::Swap(c) => {
                self.config = c;
            },
            PhaseEvent::Served(c) => {
                self.config = c;
            },
            PhaseEvent::DnsFound(found) => {
                self.saved = found;
            },
            _ => {},
        }
        self.phase = phase;
    }

    /// The state to store while the proxy runs.
    pub fn state(&self) -> (r: State)
        ensures
            r == (State {
                running: true,
                pid: self.pid,
                mode: self.config.mode,
                provider: self.config.provider,
                strategy: self.config.strategy,
            }),
    {
        State {
            running: true,
            pid: self.pid,
            mode: self.config.mode.clone(),
            provider: self.config.provider.clone(),
            strategy: self.config.strategy.clone(),
        }
    }
}

// ── Laws ───────────────────────────────────────────────────────────────

/// Whether the system's DNS points at the proxy when a phase begins.
pub open spec fn dns_installed(phase: Phase) -> bool {
    match phase {
        Phase::SaveState
        | Phase::Watch
        | Phase::CheckRunning
        | Phase::Serve
        | Phase::SaveSwap
        | Phase::SaveConfig
        | Phase::RestoreDns => true,
        _ => false,
    }
}

/// Whether the loopback interface has its alias when a phase begins.
pub open spec fn alias_up(phase: Phase) -> bool {
    ||| dns_installed(phase)
    ||| phase == Phase::RememberDns
    ||| phase == Phase::InstallDns
    ||| phase == Phase::TeardownLoopback
}

/// DNS restores automatically: the only way out of the phases in which the
/// system's DNS points at a running proxy restores it, and the only way out of
/// those in which the loopback alias is up takes it down. In particular the
/// process never ends in between.
pub proof fn law_cleanup_undoes_setup(s: Standalone, event: PhaseEvent)
    requires
        phase_event_fits(s.phase, event),
    ensures
        dns_installed(s.phase) && !dns_installed(s.next_phase(event)) ==> s.phase
            == Phase::RestoreDns,
        !dns_installed(s.phase) && dns_installed(s.next_phase(event)) ==> s.phase
            == Phase::InstallDns,
        alias_up(s.phase) && !alias_up(s.next_phase(event)) ==> s.phase == Phase::TeardownLoopback,
        s.next_phase(event) is Exit ==> !dns_installed(s.phase) && !alias_up(s.phase),
{
}

/// The system's DNS is looked at right before it is set to the proxy, and what
/// was found then is kept as long as the proxy runs: it is what is restored.
pub proof fn law_found_dns_is_kept(s: Standalone, event: PhaseEvent)
    requires
        phase_event_fits(s.phase, event),
    ensures
        s.next_phase(event) == Phase::InstallDns <==> s.phase == Phase::RememberDns,
        s.phase == Phase::RememberDns ==> event == PhaseEvent::DnsFound(s.saved_after(event)),
        dns_installed(s.phase) || s.phase == Phase::InstallDns ==> s.saved_after(event) == s.saved,
{
}

/// The proxy after a series of events.
pub open spec fn phases_after(s: Standalone, events: Seq<PhaseEvent>) -> Phase
    decreases events.len(),
{
    if events.len() == 0 {
        s.phase
    } else {
        (Standalone { phase: phases_after(s, events.drop_last()), ..s }).next_phase(events.last())
    }
}

/// A request to stop leads, step by step and whatever else happens, to saved
/// settings, restored DNS, no alias, and a state that claims no proxy.
pub proof fn law_shutdown_sequence(s: Standalone)
    requires
        s.phase == Phase::CheckRunning,
    ensures
        phases_after(s, seq![PhaseEvent::Running(false)]) == Phase::SaveConfig,
        phases_after(s, seq![PhaseEvent::Running(false), PhaseEvent::Done]) == Phase::RestoreDns,
        phases_after(s, seq![PhaseEvent::Running(false), PhaseEvent::Done, PhaseEvent::Done])
            == Phase::TeardownLoopback,
        phases_after(
            s,
            seq![PhaseEvent::Running(false), PhaseEvent::Done, PhaseEvent::Done, PhaseEvent::Done],
        ) == Phase::ClearState,
        phases_after(
            s,
            seq![
                PhaseEvent::Running(false),
                PhaseEvent::Done,
                PhaseEvent::Done,
                PhaseEvent::Done,
                PhaseEvent::Done,
            ],
        ) == Phase::Exit(0),
{
    let e1 = seq![PhaseEvent::Running(false)];
    let e2 = e1.push(PhaseEvent::Done);
    let e3 = e2.push(PhaseEvent::Done);
    let e4 = e3.push(PhaseEvent::Done);
    let e5 = e4.push(PhaseEvent::Done);
    assert(e1.drop_last() =~= Seq::<PhaseEvent>::empty());
    assert(e2.drop_last() =~= e1);
    assert(e3.drop_last() =~= e2);
    assert(e4.drop_last() =~= e3);
    assert(e5.drop_last() =~= e4);
    assert(phases_after(s, Seq::<PhaseEvent>::empty()) == s.phase);
    assert(phases_after(s, e1) == Phase::SaveConfig);
    assert(phases_after(s, e2) == Phase::RestoreDns);
    assert(phases_after(s, e3) == Phase::TeardownLoopback);
    assert(phases_after(s, e4) == Phase::ClearState);
    assert(e2 =~= seq![PhaseEvent::Running(false), PhaseEvent::Done]);
    assert(e3 =~= seq![PhaseEvent::Running(false), PhaseEvent::Done, PhaseEvent::Done]);
    assert(e4 =~= seq![
        PhaseEvent::Running(false),
        PhaseEvent::Done,
        PhaseEvent::Done,
        PhaseEvent::Done,
    ]);
    assert(e5 =~= seq![
        PhaseEvent::Running(false),
        PhaseEvent::Done,
        PhaseEvent::Done,
        PhaseEvent::Done,
        PhaseEvent::Done,
    ]);
}

/// Without privileges nothing is changed: the process ends right away.
pub proof fn law_no_privileges_no_changes(s: Standalone, task: Task)
    requires
        s.phase == Phase::CheckRoot(task),
    ensures
        s.next_phase(PhaseEvent::Privileged(false)) == Phase::Exit(1),
{
}

/// Flags are used once and kept: settings that come from the command line are
/// saved before the system is touched, a look at the saved settings confirms
/// mode, provider and strategy, and a later run without flags uses them.
pub proof fn law_flags_are_kept(s: Standalone, c: Config, event: PhaseEvent)
    requires
        s.phase == Phase::LoadConfig || s.phase == Phase::CheckRoot(Task::Run),
        s.flags.any_setting(),
        phase_event_fits(s.phase, event),
        s.next_phase(event) != Phase::Exit(1),
        s.next_phase(event) != Phase::CheckRoot(Task::Run),
    ensures
        s.next_phase(event) == Phase::SaveFlags,
        c.with_flags_spec(s.flags.mode, s.flags.provider, s.flags.strategy).with_flags_spec(
            None,
            None,
            None,
        ) == c.with_flags_spec(s.flags.mode, s.flags.provider, s.flags.strategy),
        s.flags.mode matches Some(m) ==> c.with_flags_spec(
            s.flags.mode,
            s.flags.provider,
            s.flags.strategy,
        ).mode == m,
{
}

/// A start leads, step by step, to a proxy that serves: the settings, the
/// privileges unless the process is in the background already, the settings
/// saved where the command line gave any, the alias, a look at the system's
/// DNS, the system's DNS set, the state stored.
pub proof fn law_start_sequence(s: Standalone, stored: Option<Config>, found: SavedDns)
    ensures
        ({
            let given = s.flags.mode is Some || s.flags.provider is Some || s.flags.strategy
                is Some;
            let boot = if given {
                Phase::SaveFlags
            } else {
                Phase::SetupLoopback
            };
            &&& s.phase == Phase::LoadConfig && s.flags.background ==> s.next_phase(
                PhaseEvent::Loaded(stored),
            ) == boot
            &&& s.phase == Phase::LoadConfig && !s.flags.background ==> s.next_phase(
                PhaseEvent::Loaded(stored),
            ) == Phase::CheckRoot(Task::Run)
            &&& s.phase == Phase::CheckRoot(Task::Run) ==> s.next_phase(
                PhaseEvent::Privileged(true),
            ) == boot
            &&& s.phase == Phase::SaveFlags ==> s.next_phase(PhaseEvent::Done)
                == Phase::SetupLoopback
            &&& s.phase == Phase::SetupLoopback ==> s.next_phase(PhaseEvent::Done)
                == Phase::RememberDns
            &&& s.phase == Phase::RememberDns ==> s.next_phase(PhaseEvent::DnsFound(found))
                == Phase::InstallDns
            &&& s.phase == Phase::InstallDns ==> s.next_phase(PhaseEvent::Done)
                == Phase::SaveState
            &&& s.phase == Phase::SaveState ==> s.next_phase(PhaseEvent::Done) == Phase::Watch
            &&& s.phase == Phase::Watch ==> s.next_phase(PhaseEvent::Done) == Phase::CheckRunning
        }),
{
}

/// As long as no stop is requested the proxy serves, and goes on serving after
/// a change of mode, which is stored first. Setting or restoring the system's
/// DNS alone does that and ends.
pub proof fn law_serving_goes_on(s: Standalone, c: Config)
    ensures
        s.phase == Phase::CheckRunning ==> s.next_phase(PhaseEvent::Running(true)) == Phase::Serve,
        s.phase == Phase::Serve ==> s.next_phase(PhaseEvent::Swap(c)) == Phase::SaveSwap
            && s.next_phase(PhaseEvent::Served(c)) == Phase::CheckRunning,
        s.phase == Phase::SaveSwap ==> s.next_phase(PhaseEvent::Done) == Phase::CheckRunning,
        s.phase == Phase::CheckRoot(Task::Uninstall) ==> s.next_phase(PhaseEvent::Privileged(true))
            == Phase::UninstallOnly,
        s.phase == Phase::CheckRoot(Task::Install) ==> s.next_phase(PhaseEvent::Privileged(true))
            == Phase::InstallOnly,
        s.phase == Phase::UninstallOnly || s.phase == Phase::InstallOnly ==> s.next_phase(
            PhaseEvent::Done,
        ) == Phase::Exit(0),
{
}

/// The settings after they were loaded: each is its own flag where that is
/// given, and otherwise the stored one, or the default where none is stored.
/// Settings that a running proxy was given take the place of its own. Nothing
/// else changes them, and only a look at the system's DNS changes what is kept
/// of it.
pub proof fn law_settings_in_use(s: Standalone, event: PhaseEvent, config: Config)
    requires
        s.config_after(event, config),
    ensures
        event matches PhaseEvent::Loaded(stored) ==> {
            &&& s.flags.mode matches Some(m) ==> config.mode == m
            &&& s.flags.provider matches Some(p) ==> config.provider == p
            &&& s.flags.strategy matches Some(t) ==> config.strategy == t
            &&& stored matches Some(c) ==> {
                &&& s.flags.mode is None ==> config.mode == c.mode
                &&& s.flags.provider is None ==> config.provider == c.provider
                &&& s.flags.strategy is None ==> config.strategy == c.strategy
            }
            &&& stored is None ==> {
                &&& s.flags.mode is None ==> config.mode@ == "doh"@
                &&& s.flags.provider is None ==> config.provider@ == "cloudflare"@
                &&& s.flags.strategy is None ==> config.strategy@ == "single"@
            }
        },
        event matches PhaseEvent::Swap(c) ==> config == c,
        event matches PhaseEvent::Served(c) ==> config == c,
        !(event is Loaded) && !(event is Swap) && !(event is Served) ==> config == s.config,
        event matches PhaseEvent::DnsFound(found) ==> s.saved_after(event) == found,
        !(event is DnsFound) ==> s.saved_after(event) == s.saved,
{
}

/// Every outcome of a phase is an event of it: settings or none, privileges or
/// none, whatever the system's DNS is set to, and so on. Nothing comes of the
/// end.
pub proof fn law_outcomes_of_phases(
    stored: Option<Config>,
    c: Config,
    b: bool,
    task: Task,
    found: SavedDns,
    code: i32,
    event: PhaseEvent,
)
    ensures
        phase_event_fits(Phase::LoadConfig, PhaseEvent::Loaded(stored)),
        phase_event_fits(Phase::CheckRoot(task), PhaseEvent::Privileged(b)),
        phase_event_fits(Phase::RememberDns, PhaseEvent::DnsFound(found)),
        phase_event_fits(Phase::CheckRunning, PhaseEvent::Running(b)),
        phase_event_fits(Phase::Serve, PhaseEvent::Swap(c)),
        phase_event_fits(Phase::Serve, PhaseEvent::Served(c)),
        phase_event_fits(Phase::UninstallOnly, PhaseEvent::Done),
        phase_event_fits(Phase::InstallOnly, PhaseEvent::Done),
        phase_event_fits(Phase::SaveFlags, PhaseEvent::Done),
        phase_event_fits(Phase::SetupLoopback, PhaseEvent::Done),
        phase_event_fits(Phase::InstallDns, PhaseEvent::Done),
        phase_event_fits(Phase::SaveState, PhaseEvent::Done),
        phase_event_fits(Phase::Watch, PhaseEvent::Done),
        phase_event_fits(Phase::SaveSwap, PhaseEvent::Done),
        phase_event_fits(Phase::SaveConfig, PhaseEvent::Done),
        phase_event_fits(Phase::RestoreDns, PhaseEvent::Done),
        phase_event_fits(Phase::TeardownLoopback, PhaseEvent::Done),
        phase_event_fits(Phase::ClearState, PhaseEvent::Done),
        !phase_event_fits(Phase::Exit(code), event),
{
}

} // verus!
