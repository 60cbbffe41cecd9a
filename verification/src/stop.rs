//! Stopping a proxy process: ask, wait, and where it does not go away, kill.

use vstd::prelude::*;

verus! {

/// Polls, a tenth of a second apart, that a proxy gets to react to SIGINT.
pub const STOP_POLLS: u8 = 30;

/// Polls, a tenth of a second apart, that an adopted proxy gets to vanish
/// after SIGKILL.
pub const KILL_POLLS: u8 = 10;

/// Time between two polls, in milliseconds.
pub const STOP_POLL_MILLIS: u64 = 100;

/// What to do next.
#[derive(Debug, Clone, Copy, PartialEq, Eq, Structural)]
pub enum StopPhase {
    /// Send SIGINT.
    Interrupt,
    /// See whether the child has exited; this many tries are left.
    PollExit(u8),
    /// Sleep, then poll the child again.
    NapExit(u8),
    /// See whether the adopted process is alive; this many tries are left.
    ProbeAlive(u8),
    /// Sleep, then probe the adopted process again.
    NapAlive(u8),
    /// See whether the adopted process outlived the wait.
    ProbeStubborn,
    /// Send SIGKILL.
    Kill,
    /// Wait for the killed child.
    WaitChild,
    /// See whether the killed process is alive; this many tries are left.
    ProbeKilled(u8),
    /// Sleep, then probe the killed process again.
    NapKilled(u8),
    /// See, for the last time, whether the process is alive.
    ProbeFinal,
    /// It is over, and the process is dead or not.
    Finished(bool),
}

/// What came of a phase.
#[derive(Debug, Clone, Copy, PartialEq, Eq, Structural)]
pub enum StopEvent {
    /// The signal was sent, or could not be.
    Signaled(bool),
    /// The child has exited.
    Exited,
    /// The child is still running.
    Running,
    /// The child could not be polled.
    PollFailed,
    /// The process is alive, or not.
    Alive(bool),
    /// The sleep, or the wait for the child, is over.
    Waited,
}

/// The attempt to stop one proxy.
#[derive(Debug, Clone, Copy, PartialEq, Eq, Structural)]
pub struct StopRun {
    pub pid: u32,
    /// Whether the proxy is a child of this process rather than adopted.
    pub managed: bool,
    /// Whether there is a password to signal the proxy with.
    pub has_password: bool,
    pub phase: StopPhase,
}

/// Whether `event` can come of `phase`.
pub open spec fn stop_event_fits(phase: StopPhase, event: StopEvent) -> bool {
    match phase {
        StopPhase::Interrupt | StopPhase::Kill => event is Signaled,
        StopPhase::PollExit(_) => event is Exited || event is Running || event is PollFailed,
        StopPhase::ProbeAlive(_)
        | StopPhase::ProbeStubborn
        | StopPhase::ProbeKilled(_)
        | StopPhase::ProbeFinal => event is Alive,
        StopPhase::NapExit(_)
        | StopPhase::NapAlive(_)
        | StopPhase::NapKilled(_)
        | StopPhase::WaitChild => event is Waited,
        StopPhase::Finished(_) => false,
    }
}

/// Where polling begins.
pub open spec fn first_poll(managed: bool) -> StopPhase {
    if managed {
        StopPhase::PollExit(STOP_POLLS)
    } else {
        StopPhase::ProbeAlive(STOP_POLLS)
    }
}

/// Where the attempt goes when a child did not exit in time. Without a
/// password it cannot be killed and counts as alive.
pub open spec fn child_stays(has_password: bool) -> StopPhase {
    if has_password {
        StopPhase::Kill
    } else {
        StopPhase::Finished(false)
    }
}

impl StopRun {
    /// The phase that follows `self.phase` and `event`.
    pub open spec fn next_phase(self, event: StopEvent) -> StopPhase {
        match (self.phase, event) {
            (StopPhase::Interrupt, _) => first_poll(self.managed),
            // A child: dead once it has exited.
            (StopPhase::PollExit(_), StopEvent::Exited) => StopPhase::Finished(true),
            (StopPhase::PollExit(n), StopEvent::Running) => StopPhase::NapExit((n - 1) as u8),
            (StopPhase::PollExit(_), _) => child_stays(self.has_password),
            (StopPhase::NapExit(n), _) => if n > 0 {
                StopPhase::PollExit(n)
            } else {
                child_stays(self.has_password)
            },
            // An adopted process: dead once it cannot be signalled.
            (StopPhase::ProbeAlive(n), StopEvent::Alive(true)) => StopPhase::NapAlive((n - 1) as u8),
            (StopPhase::ProbeAlive(_), _) => StopPhase::ProbeStubborn,
            (StopPhase::NapAlive(n), _) => if n > 0 {
                StopPhase::ProbeAlive(n)
            } else {
                StopPhase::ProbeStubborn
            },
            (StopPhase::ProbeStubborn, StopEvent::Alive(true)) => if self.has_password {
                StopPhase::Kill
            } else {
                StopPhase::ProbeFinal
            },
            (StopPhase::ProbeStubborn, _) => StopPhase::ProbeFinal,
            // Killing.
            (StopPhase::Kill, StopEvent::Signaled(true)) => if self.managed {
                StopPhase::WaitChild
            } else {
                StopPhase::ProbeKilled(KILL_POLLS)
            },
            (StopPhase::Kill, _) => if self.managed {
                StopPhase::Finished(false)
            } else {
                StopPhase::ProbeFinal
            },
            (StopPhase::WaitChild, _) => StopPhase::ProbeFinal,
            (StopPhase::ProbeKilled(n), StopEvent::Alive(true)) => StopPhase::NapKilled(
                (n - 1) as u8,
            ),
            (StopPhase::ProbeKilled(_), _) => StopPhase::ProbeFinal,
            (StopPhase::NapKilled(n), _) => if n > 0 {
                StopPhase::ProbeKilled(n)
            } else {
                StopPhase::ProbeFinal
            },
            (StopPhase::ProbeFinal, StopEvent::Alive(alive)) => StopPhase::Finished(!alive),
            (StopPhase::ProbeFinal, _) => StopPhase::Finished(false),
            (StopPhase::Finished(dead), _) => StopPhase::Finished(dead),
        }
    }

    /// What holds of every attempt under way: signals are sent only with a
    /// password, a child is polled and an adopted process probed, and a poll
    /// has tries left.
    pub open spec fn wf(self) -> bool {
        match self.phase {
            StopPhase::Interrupt | StopPhase::Kill => self.has_password,
            StopPhase::PollExit(n) => self.managed && 0 < n <= STOP_POLLS,
            StopPhase::NapExit(n) => self.managed && n < STOP_POLLS,
            StopPhase::ProbeAlive(n) => !self.managed && 0 < n <= STOP_POLLS,
            StopPhase::NapAlive(n) => !self.managed && n < STOP_POLLS,
            StopPhase::ProbeStubborn => !self.managed,
            StopPhase::WaitChild => self.managed && self.has_password,
            StopPhase::ProbeKilled(n) => !self.managed && self.has_password && 0 < n <= KILL_POLLS,
            StopPhase::NapKilled(n) => !self.managed && self.has_password && n < KILL_POLLS,
            StopPhase::ProbeFinal => true,
            StopPhase::Finished(_) => true,
        }
    }

    /// An upper bound on the number of phases that can still follow.
    pub open spec fn phases_left(self) -> nat {
        match self.phase {
            StopPhase::Interrupt => 200,
            StopPhase::PollExit(n) | StopPhase::ProbeAlive(n) => (60 + 2 * n) as nat,
            StopPhase::NapExit(n) | StopPhase::NapAlive(n) => (61 + 2 * n) as nat,
            StopPhase::ProbeStubborn => 60,
            StopPhase::Kill => 50,
            StopPhase::WaitChild => 40,
            StopPhase::ProbeKilled(n) => (10 + 2 * n) as nat,
            StopPhase::NapKilled(n) => (11 + 2 * n) as nat,
            StopPhase::ProbeFinal => 1,
            StopPhase::Finished(_) => 0,
        }
    }

    /// Begin to stop a proxy. It is signalled only where there is a password;
    /// otherwise whoever supervises it does that.
    pub fn begin(pid: u32, managed: bool, has_password: bool) -> (r: Self)
        ensures
            r == (StopRun {
                pid,
                managed,
                has_password,
                phase: if has_password {
                    StopPhase::Interrupt
                } else {
                    first_poll(managed)
                },
            }),
            r.wf(),
    {
        let phase: StopPhase = if has_password {
            StopPhase::Interrupt
        } else if managed {
            StopPhase::PollExit(STOP_POLLS)
        } else {
            StopPhase::ProbeAlive(STOP_POLLS)
        };
        StopRun { pid, managed, has_password, phase }
    }

    fn child_stays_phase(self) -> (r: StopPhase)
        ensures
            r == child_stays(self.has_password),
    {
        if self.has_password {
            StopPhase::Kill
        } else {
            StopPhase::Finished(false)
        }
    }

    /// Go on after `self.phase` gave `event`.
    pub fn step(self, event: StopEvent) -> (r: Self)
        requires
            self.wf(),
            stop_event_fits(self.phase, event),
        ensures
            r == (StopRun { phase: self.next_phase(event), ..self }),
            r.wf(),
            r.phases_left() < self.phases_left(),
    {
        let phase: StopPhase = match self.phase {
            StopPhase::Interrupt => if self.managed {
                StopPhase::PollExit(STOP_POLLS)
            } else {
                StopPhase::ProbeAlive(STOP_POLLS)
            },
            StopPhase::PollExit(n) => match event {
                StopEvent::Exited => StopPhase::Finished(true),
                StopEvent::Running => StopPhase::NapExit(n - 1),
                _ => self.child_stays_phase(),
            },
            StopPhase::NapExit(n) => if n > 0 {
                StopPhase::PollExit(n)
            } else {
                self.child_stays_phase()
            },
            StopPhase::ProbeAlive(n) => if event == StopEvent::Alive(true) {
                StopPhase::NapAlive(n - 1)
            } else {
                StopPhase::ProbeStubborn
            },
            StopPhase::NapAlive(n) => if n > 0 {
                StopPhase::ProbeAlive(n)
            } else {
                StopPhase::ProbeStubborn
            },
            StopPhase::ProbeStubborn => if event == StopEvent::Alive(true) && self.has_password {
                StopPhase::Kill
            } else {
                StopPhase::ProbeFinal
            },
            StopPhase::Kill => match (event == StopEvent::Signaled(true), self.managed) {
                (true, true) => StopPhase::WaitChild,
                (true, false) => StopPhase::ProbeKilled(KILL_POLLS),
                (false, true) => StopPhase::Finished(false),
                (false, false) => StopPhase::ProbeFinal,
            },
            StopPhase::WaitChild => StopPhase::ProbeFinal,
            StopPhase::ProbeKilled(n) => if event == StopEvent::Alive(true) {
                StopPhase::NapKilled(n - 1)
            } else {
                StopPhase::ProbeFinal
            },
            StopPhase::NapKilled(n) => if n > 0 {
                StopPhase::ProbeKilled(n)
            } else {
                StopPhase::ProbeFinal
            },
            StopPhase::ProbeFinal => StopPhase::Finished(event == StopEvent::Alive(false)),
            StopPhase::Finished(dead) => StopPhase::Finished(dead),
        };
        StopRun { phase, ..self }
    }
}

// ── Laws ───────────────────────────────────────────────────────────────

/// A process is reported dead only on evidence: its exit was seen, or the last
/// probe did not find it.
pub proof fn law_dead_only_on_evidence(run: StopRun, event: StopEvent)
    requires
        run.wf(),
        stop_event_fits(run.phase, event),
        run.next_phase(event) == StopPhase::Finished(true),
    ensures
        event == StopEvent::Exited || event == StopEvent::Alive(false),
{
}

/// Without a password the proxy is never signalled.
pub proof fn law_no_signal_without_password(run: StopRun)
    requires
        run.wf(),
        !run.has_password,
    ensures
        run.phase != StopPhase::Interrupt,
        run.phase != StopPhase::Kill,
{
}

/// A proxy is killed only after it failed to react: SIGKILL never comes right
/// after SIGINT.
pub proof fn law_kill_is_the_last_resort(run: StopRun, event: StopEvent)
    requires
        run.wf(),
        stop_event_fits(run.phase, event),
        run.next_phase(event) == StopPhase::Kill,
    ensures
        match run.phase {
            StopPhase::PollExit(_) => event is PollFailed,
            StopPhase::NapExit(n) => n == 0,
            StopPhase::ProbeStubborn => event == StopEvent::Alive(true),
            _ => false,
        },
{
}

/// The attempt after a series of events.
pub open spec fn stop_after(run: StopRun, events: Seq<StopEvent>) -> StopRun
    decreases events.len(),
{
    if events.len() == 0 {
        run
    } else {
        let before = stop_after(run, events.drop_last());
        StopRun { phase: before.next_phase(events.last()), ..before }
    }
}

/// Whether each event of a series can come of the phase that it meets.
pub open spec fn stop_events_fit(run: StopRun, events: Seq<StopEvent>) -> bool
    decreases events.len(),
{
    events.len() == 0 || {
        &&& stop_events_fit(run, events.drop_last())
        &&& stop_event_fits(stop_after(run, events.drop_last()).phase, events.last())
    }
}

/// An attempt ends: no series of events is longer than the bound that it began
/// with, which is two hundred at most.
pub proof fn law_stop_is_bounded(run: StopRun, events: Seq<StopEvent>)
    requires
        run.wf(),
        stop_events_fit(run, events),
    ensures
        stop_after(run, events).wf(),
        stop_after(run, events).pid == run.pid,
        stop_after(run, events).phases_left() + events.len() <= run.phases_left() <= 200,
    decreases events.len(),
{
    if events.len() > 0 {
        law_stop_is_bounded(run, events.drop_last());
    }
}

/// The number of polls in a series of events that found the child running.
pub open spec fn polls_running(events: Seq<StopEvent>) -> nat
    decreases events.len(),
{
    if events.len() == 0 {
        0
    } else if events.last() == StopEvent::Running {
        polls_running(events.drop_last()) + 1
    } else {
        polls_running(events.drop_last())
    }
}

proof fn lemma_polls_are_counted(run: StopRun, events: Seq<StopEvent>)
    requires
        run.wf(),
        run.managed,
        run.phase == StopPhase::Interrupt || run.phase == StopPhase::PollExit(STOP_POLLS),
        stop_events_fit(run, events),
    ensures
        stop_after(run, events).managed,
        match stop_after(run, events).phase {
            StopPhase::Interrupt => polls_running(events) == 0,
            StopPhase::PollExit(n) => polls_running(events) + n == STOP_POLLS,
            StopPhase::NapExit(n) => polls_running(events) + n == STOP_POLLS,
            StopPhase::Kill => polls_running(events) == STOP_POLLS || events.contains(
                StopEvent::PollFailed,
            ),
            _ => true,
        },
    decreases events.len(),
{
    if events.len() > 0 {
        let before = events.drop_last();
        lemma_polls_are_counted(run, before);
        law_stop_is_bounded(run, before);
        if events.last() == StopEvent::PollFailed {
            assert(events[events.len() - 1] == StopEvent::PollFailed);
        }
    }
}

/// A child is killed only after thirty polls found it running, or when it could
/// not be polled at all: it had its three seconds to shut down gracefully.
pub proof fn law_kill_needs_patience(
    pid: u32,
    has_password: bool,
    run: StopRun,
    events: Seq<StopEvent>,
)
    requires
        run == (StopRun {
            pid,
            managed: true,
            has_password,
            phase: if has_password {
                StopPhase::Interrupt
            } else {
                first_poll(true)
            },
        }),
        stop_events_fit(run, events),
        stop_after(run, events).phase == StopPhase::Kill,
    ensures
        has_password,
        polls_running(events) == STOP_POLLS || events.contains(StopEvent::PollFailed),
{
    lemma_polls_are_counted(run, events);
    law_stop_is_bounded(run, events);
    lemma_attempt_stays_the_same(run, events);
}

proof fn lemma_attempt_stays_the_same(run: StopRun, events: Seq<StopEvent>)
    ensures
        stop_after(run, events).has_password == run.has_password,
    decreases events.len(),
{
    if events.len() > 0 {
        lemma_attempt_stays_the_same(run, events.drop_last());
    }
}

/// `k` times in a row the process was looked at and `seen`, and a sleep passed.
pub open spec fn looks(seen: StopEvent, k: nat) -> Seq<StopEvent>
    decreases k,
{
    if k == 0 {
        Seq::empty()
    } else {
        looks(seen, (k - 1) as nat).push(seen).push(StopEvent::Waited)
    }
}

proof fn lemma_two_more(run: StopRun, events: Seq<StopEvent>, a: StopEvent, b: StopEvent)
    ensures
        ({
            let before = stop_after(run, events);
            let mid = StopRun { phase: before.next_phase(a), ..before };
            &&& stop_after(run, events.push(a)) == mid
            &&& stop_after(run, events.push(a).push(b)) == (StopRun {
                phase: mid.next_phase(b),
                ..mid
            })
        }),
{
    assert(events.push(a).drop_last() =~= events);
    assert(events.push(a).push(b).drop_last() =~= events.push(a));
}

proof fn lemma_child_runs_on(run: StopRun, k: nat)
    requires
        run.managed,
        run.phase == StopPhase::PollExit(STOP_POLLS),
        k <= STOP_POLLS,
    ensures
        stop_after(run, looks(StopEvent::Running, k)) == (StopRun {
            phase: if k < STOP_POLLS {
                StopPhase::PollExit((STOP_POLLS - k) as u8)
            } else {
                child_stays(run.has_password)
            },
            ..run
        }),
    decreases k,
{
    if k > 0 {
        let j = (k - 1) as nat;
        lemma_child_runs_on(run, j);
        lemma_two_more(run, looks(StopEvent::Running, j), StopEvent::Running, StopEvent::Waited);
    }
}

/// A child is polled up to thirty times. One that exits before that is dead.
/// One that does not is killed where there is a password, then waited for and
/// looked for a last time; without a password, or where it cannot be killed, it
/// is alive.
pub proof fn law_stopping_a_child(run: StopRun, signaled: bool, k: nat, alive: bool)
    requires
        run.managed,
        run.phase == StopPhase::Interrupt,
    ensures
        ({
            let polled = StopRun { phase: run.next_phase(StopEvent::Signaled(signaled)), ..run };
            let late = stop_after(polled, looks(StopEvent::Running, 30));
            let killed = StopRun { phase: late.next_phase(StopEvent::Signaled(true)), ..late };
            let waited = StopRun { phase: killed.next_phase(StopEvent::Waited), ..killed };
            &&& polled.phase == first_poll(true)
            &&& k < 30 ==> stop_after(
                polled,
                looks(StopEvent::Running, k).push(StopEvent::Exited),
            ).phase == StopPhase::Finished(true)
            &&& k < 30 && !run.has_password ==> stop_after(
                polled,
                looks(StopEvent::Running, k).push(StopEvent::PollFailed),
            ).phase == StopPhase::Finished(false)
            &&& k < 30 && run.has_password ==> stop_after(
                polled,
                looks(StopEvent::Running, k).push(StopEvent::PollFailed),
            ).phase == StopPhase::Kill
            &&& !run.has_password ==> late.phase == StopPhase::Finished(false)
            &&& run.has_password ==> {
                &&& late.phase == StopPhase::Kill
                &&& late.next_phase(StopEvent::Signaled(false)) == StopPhase::Finished(false)
                &&& killed.phase == StopPhase::WaitChild
                &&& waited.phase == StopPhase::ProbeFinal
                &&& waited.next_phase(StopEvent::Alive(alive)) == StopPhase::Finished(!alive)
            }
        }),
{
    let polled = StopRun { phase: run.next_phase(StopEvent::Signaled(signaled)), ..run };
    lemma_child_runs_on(polled, 30);
    if k < 30 {
        lemma_child_runs_on(polled, k);
        lemma_two_more(
            polled,
            looks(StopEvent::Running, k),
            StopEvent::Exited,
            StopEvent::Waited,
        );
        lemma_two_more(
            polled,
            looks(StopEvent::Running, k),
            StopEvent::PollFailed,
            StopEvent::Waited,
        );
    }
}

proof fn lemma_adopted_lives_on(run: StopRun, k: nat)
    requires
        run.phase == StopPhase::ProbeAlive(STOP_POLLS),
        k <= STOP_POLLS,
    ensures
        stop_after(run, looks(StopEvent::Alive(true), k)) == (StopRun {
            phase: if k < STOP_POLLS {
                StopPhase::ProbeAlive((STOP_POLLS - k) as u8)
            } else {
                StopPhase::ProbeStubborn
            },
            ..run
        }),
    decreases k,
{
    if k > 0 {
        let j = (k - 1) as nat;
        lemma_adopted_lives_on(run, j);
        lemma_two_more(
            run,
            looks(StopEvent::Alive(true), j),
            StopEvent::Alive(true),
            StopEvent::Waited,
        );
    }
}

proof fn lemma_killed_lives_on(run: StopRun, k: nat)
    requires
        run.phase == StopPhase::ProbeKilled(KILL_POLLS),
        k <= KILL_POLLS,
    ensures
        stop_after(run, looks(StopEvent::Alive(true), k)) == (StopRun {
            phase: if k < KILL_POLLS {
                StopPhase::ProbeKilled((KILL_POLLS - k) as u8)
            } else {
                StopPhase::ProbeFinal
            },
            ..run
        }),
    decreases k,
{
    if k > 0 {
        let j = (k - 1) as nat;
        lemma_killed_lives_on(run, j);
        lemma_two_more(
            run,
            looks(StopEvent::Alive(true), j),
            StopEvent::Alive(true),
            StopEvent::Waited,
        );
    }
}

/// An adopted process is probed up to thirty times, and once more when it is
/// gone or the time is up. Where it is still there and there is a password, it
/// is killed and probed up to ten times. Whether it is dead is what the last
/// probe found.
pub proof fn law_stopping_an_adopted_process(
    run: StopRun,
    signaled: bool,
    k: nat,
    j: nat,
    alive: bool,
)
    requires
        !run.managed,
        run.phase == StopPhase::Interrupt,
    ensures
        ({
            let probed = StopRun { phase: run.next_phase(StopEvent::Signaled(signaled)), ..run };
            let gone = stop_after(
                probed,
                looks(StopEvent::Alive(true), k).push(StopEvent::Alive(false)),
            );
            let late = stop_after(probed, looks(StopEvent::Alive(true), 30));
            let stubborn = StopRun { phase: late.next_phase(StopEvent::Alive(true)), ..late };
            let killed = StopRun {
                phase: stubborn.next_phase(StopEvent::Signaled(true)),
                ..stubborn
            };
            let last = StopRun { phase: StopPhase::ProbeFinal, ..run };
            &&& probed.phase == first_poll(false)
            &&& k < 30 ==> gone.phase == StopPhase::ProbeStubborn
            &&& late.phase == StopPhase::ProbeStubborn
            &&& late.next_phase(StopEvent::Alive(false)) == StopPhase::ProbeFinal
            &&& !run.has_password ==> stubborn.phase == StopPhase::ProbeFinal
            &&& run.has_password ==> {
                &&& stubborn.phase == StopPhase::Kill
                &&& stubborn.next_phase(StopEvent::Signaled(false)) == StopPhase::ProbeFinal
                &&& j < 10 ==> stop_after(
                    killed,
                    looks(StopEvent::Alive(true), j).push(StopEvent::Alive(false)),
                ).phase == StopPhase::ProbeFinal
                &&& j < 10 ==> stop_after(
                    killed,
                    looks(StopEvent::Alive(true), j).push(StopEvent::Alive(true)),
                ).phase == StopPhase::NapKilled((9 - j) as u8)
                &&& stop_after(killed, looks(StopEvent::Alive(true), 10)).phase
                    == StopPhase::ProbeFinal
            }
            &&& last.next_phase(StopEvent::Alive(alive)) == StopPhase::Finished(!alive)
        }),
{
    let probed = StopRun { phase: run.next_phase(StopEvent::Signaled(signaled)), ..run };
    lemma_adopted_lives_on(probed, 30);
    if k < 30 {
        lemma_adopted_lives_on(probed, k);
        lemma_two_more(
            probed,
            looks(StopEvent::Alive(true), k),
            StopEvent::Alive(false),
            StopEvent::Waited,
        );
    }
    let late = stop_after(probed, looks(StopEvent::Alive(true), 30));
    let stubborn = StopRun { phase: late.next_phase(StopEvent::Alive(true)), ..late };
    if run.has_password {
        let killed = StopRun { phase: stubborn.next_phase(StopEvent::Signaled(true)), ..stubborn };
        lemma_killed_lives_on(killed, 10);
        if j < 10 {
            lemma_killed_lives_on(killed, j);
            lemma_two_more(
                killed,
                looks(StopEvent::Alive(true), j),
                StopEvent::Alive(false),
                StopEvent::Waited,
            );
            lemma_two_more(
                killed,
                looks(StopEvent::Alive(true), j),
                StopEvent::Alive(true),
                StopEvent::Waited,
            );
        }
    }
}

/// Every outcome of a phase that is not the last is an event of it: of a signal
/// whether it was sent, of a poll whether the child has exited, of a probe
/// whether the process is alive, of a sleep that it is over. Nothing comes of
/// the last.
pub proof fn law_outcomes_of_phases(n: u8, b: bool, dead: bool, event: StopEvent)
    ensures
        stop_event_fits(StopPhase::Interrupt, StopEvent::Signaled(b)),
        stop_event_fits(StopPhase::Kill, StopEvent::Signaled(b)),
        stop_event_fits(StopPhase::PollExit(n), StopEvent::Exited),
        stop_event_fits(StopPhase::PollExit(n), StopEvent::Running),
        stop_event_fits(StopPhase::PollExit(n), StopEvent::PollFailed),
        stop_event_fits(StopPhase::ProbeAlive(n), StopEvent::Alive(b)),
        stop_event_fits(StopPhase::ProbeStubborn, StopEvent::Alive(b)),
        stop_event_fits(StopPhase::ProbeKilled(n), StopEvent::Alive(b)),
        stop_event_fits(StopPhase::ProbeFinal, StopEvent::Alive(b)),
        stop_event_fits(StopPhase::NapExit(n), StopEvent::Waited),
        stop_event_fits(StopPhase::NapAlive(n), StopEvent::Waited),
        stop_event_fits(StopPhase::NapKilled(n), StopEvent::Waited),
        stop_event_fits(StopPhase::WaitChild, StopEvent::Waited),
        !stop_event_fits(StopPhase::Finished(dead), event),
        first_poll(true) == StopPhase::PollExit(30),
        first_poll(false) == StopPhase::ProbeAlive(30),
{
}

/// A proxy has three seconds to react to SIGINT and one to vanish after SIGKILL.
pub proof fn law_patience()
    ensures
        STOP_POLLS * STOP_POLL_MILLIS == 3000,
        KILL_POLLS * STOP_POLL_MILLIS == 1000,
        STOP_POLLS == 30,
{
}

} // verus!
