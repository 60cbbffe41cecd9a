//! The control daemon: adopting, starting, stopping, logs.

use dns_guard::logs::{LogHistory, LogTail, LOG_HISTORY_CAP};
use dns_guard::service::{
    password_input, password_message, signal_next, signal_proxy, spawn_proxy_child,
    wait_for_proxy_pid, PidPoll, ProxyService, ProxySignal, RunningProxy, SignalStep, StartReply,
    StartStep, StopReply, TailOrder,
};
use dns_guard::state::State;
use dns_guard::stop::{StopEvent, StopPhase, StopRun};

type Service = ProxyService<&'static str>;

fn running(pid: u32) -> State {
    State {
        running: true,
        pid,
        mode: "dot".to_string(),
        provider: "google".to_string(),
        strategy: "failover".to_string(),
    }
}

fn empty() -> (String, String, String) {
    (String::new(), String::new(), String::new())
}

fn fresh() -> Service {
    Service::load_or_new(State::new(), false).0
}

#[test]
fn adopts_a_live_proxy() {
    let (s, e) = Service::load_or_new(running(42), true);
    assert!(matches!(s.child, Some(RunningProxy::Adopted(42))));
    assert_eq!(s.config.mode, "dot");
    assert_eq!(s.password, "");
    assert_eq!(s.tracked_pid(), Some(42));
    assert_eq!(e.tail, TailOrder::Start);
    assert!(e.store.is_none());
}

#[test]
fn clears_a_stale_claim() {
    let (mut s, e) = Service::load_or_new(running(42), false);
    assert!(s.child.is_none());
    assert_eq!(e.tail, TailOrder::Keep);
    assert_eq!(e.store.unwrap().claimed(), None);

    let e = s.adopt_if_present(&running(43), false);
    assert!(s.child.is_none());
    assert!(e.store.is_some());
    let e = s.adopt_if_present(&State::new(), true);
    assert!(s.child.is_none());
    assert!(e.store.is_none());
    let e = s.adopt_if_present(&running(43), true);
    assert_eq!(s.tracked_pid(), Some(43));
    assert_eq!(e.tail, TailOrder::Start);
    // Nothing changes once a proxy is tracked.
    let e = s.adopt_if_present(&running(44), false);
    assert_eq!(s.tracked_pid(), Some(43));
    assert!(e.store.is_none());
    assert_eq!(e.tail, TailOrder::Keep);
}

#[test]
fn start_needs_a_password() {
    let mut s = fresh();
    let (step, e) = s.start("dot".to_string(), String::new(), String::new(), false);
    match step {
        StartStep::Reply(r) => {
            assert!(matches!(r, StartReply::NoPassword));
            assert_eq!(r.message(), "no sudo password set — click Authenticate first");
            assert!(!r.ok());
        }
        _ => panic!("expected a reply"),
    }
    assert_eq!(s.config.mode, "dot");
    assert_eq!(s.config.provider, "cloudflare");
    assert_eq!(e.tail, TailOrder::Stop);
    assert!(e.store.is_none());
}

#[test]
fn start_to_the_end() {
    let mut s = fresh();
    assert!(s.set_password("pw".to_string(), true));
    let (m, p, _) = empty();
    match s.start(m, p, "failover".to_string(), false).0 {
        StartStep::Spawn(cfg, pw) => {
            assert_eq!(pw, "pw");
            assert_eq!(
                spawn_proxy_child("/bin/dns-guard", &cfg),
                vec![
                    "-S", "/bin/dns-guard", "--mode", "doh", "--provider", "cloudflare",
                    "--strategy", "failover"
                ]
            );
        }
        _ => panic!("expected a process to be created"),
    }
    assert!(matches!(Service::spawned(Ok("c")), StartStep::CheckEarlyExit("c")));
    assert!(matches!(Service::check_early_exit("c", None), StartStep::WaitForPid("c")));
    assert!(matches!(
        Service::check_early_exit("c", Some((true, String::new()))),
        StartStep::WaitForPid("c")
    ));
    assert_eq!(wait_for_proxy_pid(&State::new(), 1, 2), PidPoll::Again);
    assert_eq!(wait_for_proxy_pid(&State::new(), 2, 2), PidPoll::TimedOut);
    assert_eq!(wait_for_proxy_pid(&running(9), 2, 2), PidPoll::Found(9));
    match s.pid_reported("c", Some(9)) {
        StartStep::Reply(r) => {
            assert!(r.ok());
            assert_eq!(r.message(), "proxy started");
        }
        _ => panic!("expected a reply"),
    }
    assert!(matches!(
        s.child,
        Some(RunningProxy::Managed { child: "c", proxy_pid: 9 })
    ));
    assert_eq!(s.child.as_ref().unwrap().proxy_pid(), 9);

    // A second start is refused while the proxy lives.
    let (m, p, st) = empty();
    let (step, e) = s.start(m, p, st, true);
    match step {
        StartStep::Reply(r) => assert_eq!(r.message(), "proxy already running"),
        _ => panic!("expected a reply"),
    }
    assert!(e.store.is_none());
    // Once it is dead it is forgotten, with its stored PID.
    let (m, p, st) = empty();
    let (step, e) = s.start(m, p, st, false);
    assert!(matches!(step, StartStep::Spawn(_, _)));
    assert!(s.child.is_none());
    assert_eq!(e.store.unwrap().claimed(), None);
}

#[test]
fn start_failures() {
    match Service::spawned(Err("no sudo".to_string())) {
        StartStep::Reply(r) => {
            assert!(r.is_internal());
            assert_eq!(r.message(), "spawn: no sudo");
        }
        _ => panic!("expected a reply"),
    }
    match Service::check_early_exit("c", Some((false, "sudo: 1 incorrect password attempt".to_string()))) {
        StartStep::Reply(r) => {
            assert!(!r.is_internal());
            assert_eq!(r.message(), "wrong password — click Authenticate");
        }
        _ => panic!("expected a reply"),
    }
    match Service::check_early_exit("c", Some((false, "bind failed".to_string()))) {
        StartStep::Reply(r) => assert_eq!(r.message(), "proxy failed: bind failed"),
        _ => panic!("expected a reply"),
    }
    match fresh().pid_reported("c", None) {
        StartStep::Abandon("c", r) => assert_eq!(r.message(), "proxy did not start in time"),
        _ => panic!("expected the process to be given up"),
    }
}

/// Drive an attempt to stop to its end. `world` answers each phase.
fn drive(mut run: StopRun, world: &mut dyn FnMut(StopPhase) -> StopEvent) -> (StopRun, Vec<StopPhase>) {
    let mut trace = Vec::new();
    loop {
        trace.push(run.phase);
        if let StopPhase::Finished(_) = run.phase {
            return (run, trace);
        }
        run = run.step(world(run.phase));
    }
}

fn obedient(phase: StopPhase) -> StopEvent {
    match phase {
        StopPhase::Interrupt | StopPhase::Kill => StopEvent::Signaled(true),
        StopPhase::PollExit(n) if n > 28 => StopEvent::Running,
        StopPhase::PollExit(_) => StopEvent::Exited,
        StopPhase::ProbeAlive(n) => StopEvent::Alive(n > 28),
        StopPhase::ProbeStubborn | StopPhase::ProbeKilled(_) | StopPhase::ProbeFinal => {
            StopEvent::Alive(false)
        }
        _ => StopEvent::Waited,
    }
}

fn immortal(phase: StopPhase) -> StopEvent {
    match phase {
        StopPhase::Interrupt | StopPhase::Kill => StopEvent::Signaled(true),
        StopPhase::PollExit(_) => StopEvent::Running,
        StopPhase::ProbeAlive(_)
        | StopPhase::ProbeStubborn
        | StopPhase::ProbeKilled(_)
        | StopPhase::ProbeFinal => StopEvent::Alive(true),
        _ => StopEvent::Waited,
    }
}

fn count(trace: &[StopPhase], f: &dyn Fn(&StopPhase) -> bool) -> usize {
    trace.iter().filter(|p| f(p)).count()
}

#[test]
fn a_child_that_obeys_is_stopped() {
    let (run, trace) = drive(StopRun::begin(5, true, true), &mut obedient);
    assert_eq!(run.phase, StopPhase::Finished(true));
    assert_eq!(
        trace,
        vec![
            StopPhase::Interrupt,
            StopPhase::PollExit(30),
            StopPhase::NapExit(29),
            StopPhase::PollExit(29),
            StopPhase::NapExit(28),
            StopPhase::PollExit(28),
            StopPhase::Finished(true),
        ]
    );
}

#[test]
fn an_adopted_proxy_that_obeys_is_stopped() {
    let (run, trace) = drive(StopRun::begin(5, false, true), &mut obedient);
    assert_eq!(run.phase, StopPhase::Finished(true));
    assert!(!trace.contains(&StopPhase::Kill));
    assert!(trace.contains(&StopPhase::ProbeStubborn));
    assert!(trace.contains(&StopPhase::ProbeFinal));
}

#[test]
fn a_child_that_does_not_obey_is_killed() {
    let mut world = |p| match p {
        StopPhase::ProbeFinal => StopEvent::Alive(false),
        other => immortal(other),
    };
    let (run, trace) = drive(StopRun::begin(5, true, true), &mut world);
    assert_eq!(run.phase, StopPhase::Finished(true));
    assert_eq!(count(&trace, &|p| matches!(p, StopPhase::PollExit(_))), 30);
    assert_eq!(count(&trace, &|p| matches!(p, StopPhase::NapExit(_))), 30);
    let k = trace.iter().position(|p| *p == StopPhase::Kill).unwrap();
    assert_eq!(&trace[k..], &[
        StopPhase::Kill,
        StopPhase::WaitChild,
        StopPhase::ProbeFinal,
        StopPhase::Finished(true),
    ]);
}

#[test]
fn an_immortal_adopted_proxy_survives() {
    let (run, trace) = drive(StopRun::begin(5, false, true), &mut immortal);
    assert_eq!(run.phase, StopPhase::Finished(false));
    assert_eq!(count(&trace, &|p| matches!(p, StopPhase::ProbeAlive(_))), 30);
    assert_eq!(count(&trace, &|p| matches!(p, StopPhase::ProbeKilled(_))), 10);
    assert!(trace.len() <= 200);
}

#[test]
fn without_a_password_nothing_is_signalled() {
    for managed in [true, false] {
        let (run, trace) = drive(StopRun::begin(5, managed, false), &mut immortal);
        assert_eq!(run.phase, StopPhase::Finished(false));
        assert!(!trace.contains(&StopPhase::Interrupt));
        assert!(!trace.contains(&StopPhase::Kill));
        assert!(!trace.contains(&StopPhase::WaitChild));
    }
}

#[test]
fn stop_when_polling_or_killing_fails() {
    let mut broken = |p| match p {
        StopPhase::Interrupt | StopPhase::Kill => StopEvent::Signaled(false),
        StopPhase::PollExit(_) => StopEvent::PollFailed,
        other => immortal(other),
    };
    let (run, trace) = drive(StopRun::begin(5, true, true), &mut broken);
    assert_eq!(run.phase, StopPhase::Finished(false));
    assert_eq!(trace.len(), 4);
    let (run, _) = drive(StopRun::begin(5, false, true), &mut broken);
    assert_eq!(run.phase, StopPhase::Finished(false));
}

#[test]
fn stop_takes_the_proxy_and_reports() {
    let mut s = fresh();
    assert!(s.stop().is_none());
    let (reply, e) = s.stopped(None);
    assert_eq!(reply, StopReply::Stopped);
    assert!(reply.ok());
    assert_eq!(reply.message(), "proxy stopped");
    assert_eq!(e.tail, TailOrder::Stop);
    assert_eq!(e.store.unwrap().claimed(), None);

    s.set_password("pw".to_string(), true);
    s.pid_reported("c", Some(9));
    let (run, handle) = s.stop().unwrap();
    assert_eq!(handle, Some("c"));
    assert_eq!(run, StopRun::begin(9, true, true));
    assert!(s.child.is_none());
    let (run, _) = drive(run, &mut obedient);
    assert_eq!(s.stopped(Some(run)).0, StopReply::Stopped);
    assert!(s.child.is_none());
}

#[test]
fn a_survivor_is_not_lost() {
    let (mut s, _) = Service::load_or_new(running(42), true);
    let (run, handle) = s.stop().unwrap();
    assert_eq!(handle, None);
    let (run, _) = drive(run, &mut immortal);
    let (reply, e) = s.stopped(Some(run));
    assert!(!reply.ok());
    assert_eq!(reply.message(), "proxy still running — authorize in the app to stop it");
    assert_eq!(s.tracked_pid(), Some(42));
    assert_eq!(e.tail, TailOrder::Keep);
    let stored = e.store.unwrap();
    assert_eq!(stored.claimed(), Some(42));
    assert_eq!(stored.mode, "dot");
    // The next daemon adopts it.
    assert_eq!(Service::load_or_new(stored, true).0.tracked_pid(), Some(42));
    assert_eq!(Service::shutdown(reply).0, false);
    assert!(Service::shutdown(reply).1.store.is_none());
    assert!(Service::shutdown(StopReply::Stopped).1.store.is_some());
}

#[test]
fn status_forgets_the_dead() {
    let (mut s, _) = Service::load_or_new(running(42), true);
    let (r, e) = s.status(true);
    assert!(r.running);
    assert_eq!(r.pid, 42);
    assert_eq!((r.mode.as_str(), r.provider.as_str(), r.strategy.as_str()), ("dot", "google", "failover"));
    assert_eq!(e.tail, TailOrder::Keep);
    assert!(e.store.is_none());
    let (r, e) = s.status(false);
    assert!(!r.running);
    assert_eq!(r.pid, 0);
    assert!(e.store.is_some());
    assert_eq!(e.tail, TailOrder::Stop);
    let (r, e) = s.status(true);
    assert!(!r.running);
    assert!(e.store.is_none());
}

#[test]
fn settings_change_and_nudge() {
    let (mut s, _) = Service::load_or_new(running(42), true);
    let (c, nudge) = s.set_config("doh".to_string(), String::new(), String::new());
    assert_eq!((c.mode.as_str(), c.provider.as_str()), ("doh", "google"));
    assert_eq!(nudge, None);
    assert!(!s.set_password("bad".to_string(), false));
    assert_eq!(s.password, "");
    assert!(s.set_password("pw".to_string(), true));
    let (m, p, st) = empty();
    let (c, nudge) = s.set_config(m, p, st);
    assert_eq!(c.mode, "doh");
    assert_eq!(nudge, Some(42));
    assert_eq!(password_message(true), "authenticated");
    assert_eq!(password_message(false), "wrong password");
    assert_eq!(password_input("pw"), "pw\n");
}

#[test]
fn signals_use_cached_credentials_first() {
    let first = signal_proxy(123, ProxySignal::Interrupt);
    match &first {
        SignalStep::Cached(args) => assert_eq!(args, &["-n", "kill", "-INT", "123"]),
        _ => panic!("expected cached credentials"),
    }
    assert!(matches!(
        signal_next(&first, true, 123, ProxySignal::Interrupt),
        SignalStep::Done(true)
    ));
    let second = signal_next(&first, false, 4294967295, ProxySignal::Kill);
    match &second {
        SignalStep::WithPassword(args) => assert_eq!(args, &["-S", "kill", "-KILL", "4294967295"]),
        _ => panic!("expected the password"),
    }
    assert!(matches!(
        signal_next(&second, false, 0, ProxySignal::Kill),
        SignalStep::Done(false)
    ));
    match signal_proxy(0, ProxySignal::Hangup) {
        SignalStep::Cached(args) => assert_eq!(args, ["-n", "kill", "-HUP", "0"]),
        _ => panic!("expected cached credentials"),
    }
}

#[test]
fn history_keeps_the_last_lines() {
    let mut h = LogHistory::new();
    for i in 0..LOG_HISTORY_CAP + 3 {
        h.push(format!("line {i}"));
    }
    let lines = h.snapshot();
    assert_eq!(lines.len(), 500);
    assert_eq!(lines[0], "line 3");
    assert_eq!(lines[499], "line 502");
    let sent = h.absorb("a\r\nb\n\nc");
    assert_eq!(sent, vec!["a", "b", "", "c"]);
    let lines = h.snapshot();
    assert_eq!(lines.len(), 500);
    assert_eq!(&lines[495..], &["line 502", "a", "b", "", "c"]);
}

#[test]
fn lines_as_the_standard_library_splits_them() {
    for t in ["", "\n", "a", "a\n", "a\r\n", "a\rb\n", "\r\n\r\n", "a\n\nb\r", "ä\nß"] {
        let mut h = LogHistory::new();
        let expected: Vec<String> = t.lines().map(|l| l.to_string()).collect();
        assert_eq!(h.absorb(t), expected, "{t:?}");
    }
}

#[test]
fn tail_starts_at_the_end_and_survives_rotation() {
    let mut t = LogTail::start_log_tail(100);
    assert_eq!(t.poll(100), None);
    assert_eq!(t.poll(150), Some(100));
    assert_eq!(t.poll(150), Some(100)); // not read yet
    t.read_up_to(150);
    assert_eq!(t.poll(150), None);
    assert_eq!(t.poll(20), Some(0)); // truncated
    t.read_up_to(20);
    assert_eq!(t.poll(0), None);
    assert_eq!(t.offset, 0);
}
