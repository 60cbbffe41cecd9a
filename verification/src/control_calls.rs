//! Laws of the calls that controlling the proxy is made of: starting, stopping
//! and watching it, its log, its files, and what is said to the user.

use vstd::prelude::*;

use crate::client;
use crate::client::LogEvent;
use crate::client::Output;
use crate::client::cmd_client_logs;
use crate::client::cmd_client_set_password;
use crate::client::cmd_client_start;
use crate::client::cmd_client_status;
use crate::client::cmd_client_stop;
use crate::config;
use crate::config::Config;
use crate::config::ConfigWrite;
use crate::config::save_config;
use crate::config::save_policy;
use crate::json;
use crate::logs;
use crate::logs::LogHistory;
use crate::logs::LogTail;
use crate::rest;
use crate::rest::PolicyRule;
use crate::rest::QueryRecord;
use crate::rest::Totals;
use crate::rest::action_code;
use crate::rest::action_name;
use crate::rest::config_body;
use crate::rest::error_body;
use crate::rest::http_port;
use crate::rest::logs_body;
use crate::rest::policy_body;
use crate::rest::queries_body;
use crate::rest::query_record_json;
use crate::rest::reply_body;
use crate::rest::stats_body;
use crate::rest::status_body;
use crate::restore::SavedDns;
use crate::service;
use crate::service::Effects;
use crate::service::PidPoll;
use crate::service::ProxyService;
use crate::service::ProxySignal;
use crate::service::RunningProxy;
use crate::service::SignalStep;
use crate::service::StartReply;
use crate::service::StartStep;
use crate::service::StatusReply;
use crate::service::StopReply;
use crate::service::TailOrder;
use crate::service::password_input;
use crate::service::password_message;
use crate::service::signal_next;
use crate::service::signal_proxy;
use crate::service::spawn_proxy_child;
use crate::service::wait_for_proxy_pid;
use crate::standalone;
use crate::standalone::Daemonize;
use crate::standalone::Flags;
use crate::standalone::Phase;
use crate::standalone::PhaseEvent;
use crate::standalone::Standalone;
use crate::standalone::Task;
use crate::standalone::daemonize;
use crate::state;
use crate::state::DirEnv;
use crate::state::State;
use crate::state::is_process_alive;
use crate::stop::StopEvent;
use crate::stop::StopPhase;
use crate::stop::StopRun;
use crate::text;

verus! {

// ── Logs ───────────────────────────────────────────────────────────────

/// The history after a line was added ends with that line and holds, before it,
/// what it held before, without the oldest line where it held 500.
pub proof fn law_history_push(a: &mut LogHistory, line: String, b: &LogHistory, r: Vec<String>)
    requires
        call_ensures(LogHistory::push, (a, line), ()),
        call_ensures(LogHistory::snapshot, (b,), r),
        *b == *final(a),
        old(a)@.len() <= 500,
    ensures
        r@.len() == (if old(a)@.len() < 500 {
            old(a)@.len() + 1
        } else {
            500
        }),
        r@[r@.len() - 1]@ == line@,
        forall|i: int|
            0 <= i < r@.len() - 1 ==> (#[trigger] r@[i])@ == old(a)@[old(a)@.len() + 1 - r@.len()
                + i],
{
    let all = old(a)@.push(line@);
    logs::law_history_is_the_last_lines(all);
    assert(text::texts(r@).len() == r@.len());
    assert forall|i: int| 0 <= i < r@.len() implies (#[trigger] r@[i])@ == all[all.len() - r@.len()
        + i] by {
        assert(text::texts(r@)[i] == r@[i]@);
        assert(logs::recent(all)[i] == all[all.len() - r@.len() + i]);
    }
}

/// A buffer that is absorbed is handed on line by line, and all of its lines, up
/// to the last 500, are the end of the history.
pub proof fn law_history_absorb(a: &mut LogHistory, buf: &str, r: Vec<String>)
    requires
        call_ensures(LogHistory::absorb, (a, buf), r),
    ensures
        r@.len() == text::split_lines(buf@).len(),
        forall|i: int| 0 <= i < r@.len() ==> (#[trigger] r@[i])@ == text::split_lines(buf@)[i],
        final(a)@.len() <= 500,
        forall|i: int|
            0 < i <= final(a)@.len() && i <= r@.len() ==> final(a)@[final(a)@.len() - i]
                == #[trigger] text::split_lines(buf@)[r@.len() - i],
{
    let lines = text::split_lines(buf@);
    let all = old(a)@ + lines;
    logs::law_history_is_the_last_lines(all);
    assert(text::texts(r@).len() == r@.len());
    assert forall|i: int| 0 <= i < r@.len() implies (#[trigger] r@[i])@ == lines[i] by {
        assert(text::texts(r@)[i] == r@[i]@);
    }
    let n = final(a)@.len();
    assert forall|i: int| 0 < i <= n && i <= r@.len() implies final(a)@[n - i]
        == #[trigger] lines[r@.len() - i] by {
        assert(logs::recent(all)[n - i] == all[all.len() - n + (n - i)]);
    }
}

/// Following a file begins at its end. As long as it grows it is read on from
/// where it was read to; nothing is read where it did not grow; one that has
/// become shorter is read from its start.
pub proof fn law_log_tail(len: u64, t: LogTail, a: &mut LogTail, now: u64, r: Option<u64>)
    requires
        call_ensures(LogTail::start_log_tail, (len,), t),
        call_ensures(LogTail::poll, (a, now), r),
        *old(a) == t,
    ensures
        now > len ==> r == Some(len) && final(a).offset == len,
        now == len ==> r is None && final(a).offset == len,
        now < len && now > 0 ==> r == Some(0u64) && final(a).offset == 0,
        now == 0 ==> r is None && final(a).offset == 0,
{
}

/// What was read is not read again.
pub proof fn law_log_tail_moves_on(a: &mut LogTail, len: u64, b: &mut LogTail, r: Option<u64>)
    requires
        call_ensures(LogTail::read_up_to, (a, len), ()),
        call_ensures(LogTail::poll, (b, len), r),
        *old(b) == *final(a),
    ensures
        r is None,
{
}

// ── Stopping ───────────────────────────────────────────────────────────

/// An attempt to stop begins with SIGINT where there is a password, and with
/// waiting otherwise; each step keeps what the attempt is about and goes to the
/// phase that follows.
pub proof fn law_stop_run(
    pid: u32,
    managed: bool,
    has_password: bool,
    first: StopRun,
    run: StopRun,
    event: StopEvent,
    r: StopRun,
)
    requires
        call_ensures(StopRun::begin, (pid, managed, has_password), first),
        call_ensures(StopRun::step, (run, event), r),
    ensures
        first.pid == pid && first.managed == managed && first.has_password == has_password,
        has_password ==> first.phase == StopPhase::Interrupt,
        !has_password && managed ==> first.phase == StopPhase::PollExit(30),
        !has_password && !managed ==> first.phase == StopPhase::ProbeAlive(30),
        r.pid == run.pid && r.managed == run.managed && r.has_password == run.has_password,
        r.phase == run.next_phase(event),
{
}

// ── The daemon ─────────────────────────────────────────────────────────

/// A proxy that is running is not started again, and nothing changes. Otherwise
/// what was tracked is forgotten, the request's settings are merged in, and the
/// proxy is started with them where there is a password.
pub proof fn law_start<C>(
    a: &mut ProxyService<C>,
    mode: String,
    provider: String,
    strategy: String,
    alive: bool,
    r: (StartStep<C>, Effects),
)
    requires
        call_ensures(ProxyService::<C>::start, (a, mode, provider, strategy, alive), r),
    ensures
        ({
            let running = alive && old(a).child is Some && old(a).child->0.pid() != 0;
            &&& running ==> {
                &&& r.0 == StartStep::<C>::Reply(StartReply::AlreadyRunning)
                &&& final(a).child == old(a).child && final(a).config == old(a).config
                &&& r.1.store is None
            }
            &&& !running ==> {
                &&& final(a).child is None
                &&& final(a).config.mode == (if mode@.len() > 0 {
                    mode
                } else {
                    old(a).config.mode
                })
                &&& final(a).config.provider == (if provider@.len() > 0 {
                    provider
                } else {
                    old(a).config.provider
                })
                &&& final(a).config.strategy == (if strategy@.len() > 0 {
                    strategy
                } else {
                    old(a).config.strategy
                })
                &&& old(a).password@.len() == 0 ==> r.0 == StartStep::<C>::Reply(
                    StartReply::NoPassword,
                )
                &&& old(a).password@.len() > 0 ==> r.0 == StartStep::<C>::Spawn(
                    final(a).config,
                    old(a).password,
                )
                &&& r.1.store is Some <==> old(a).child is Some
                &&& r.1.store matches Some(s) ==> !s.running && s.pid == 0
            }
            &&& r.1.tail == TailOrder::Stop
            &&& final(a).password == old(a).password
        }),
{
}

/// A proxy that reported its PID is what the status shows as long as it is
/// alive; one that is not is forgotten, in the stored state too.
pub proof fn law_started_then_status<C>(
    a: &mut ProxyService<C>,
    child: C,
    pid: u32,
    step: StartStep<C>,
    b: &mut ProxyService<C>,
    alive: bool,
    r: (StatusReply, Effects),
)
    requires
        call_ensures(ProxyService::<C>::pid_reported, (a, child, Some(pid)), step),
        call_ensures(ProxyService::<C>::status, (b, alive), r),
        *old(b) == *final(a),
        pid != 0,
    ensures
        step == StartStep::<C>::Reply(StartReply::Started),
        alive ==> r.0.running && r.0.pid == pid && final(b).child == final(a).child
            && r.1.store is None && r.1.tail == TailOrder::Keep,
        !alive ==> !r.0.running && r.0.pid == 0 && final(b).child is None && (r.1.store matches Some(
            s,
        ) && !s.running && s.pid == 0) && r.1.tail == TailOrder::Stop,
        r.0.mode == old(a).config.mode && r.0.provider == old(a).config.provider && r.0.strategy
            == old(a).config.strategy,
{
}

/// A proxy that did not report its PID in time is given up and not tracked.
pub proof fn law_given_up<C>(a: &mut ProxyService<C>, child: C, step: StartStep<C>)
    requires
        call_ensures(ProxyService::<C>::pid_reported, (a, child, None::<u32>), step),
    ensures
        step == StartStep::Abandon(child, StartReply::TimedOut),
        final(a).child == old(a).child,
{
}

/// The status says that a proxy is running where one is tracked, started or
/// adopted, and its process is alive; then its PID is shown and nothing changes.
/// Otherwise none is tracked any more, and the stored state is cleared where one
/// was.
pub proof fn law_status<C>(a: &mut ProxyService<C>, alive: bool, r: (StatusReply, Effects))
    requires
        call_ensures(ProxyService::<C>::status, (a, alive), r),
    ensures
        r.0.running <==> alive && old(a).child is Some && old(a).child->0.pid() != 0,
        r.0.running ==> r.0.pid == old(a).child->0.pid() && final(a).child == old(a).child
            && r.1.store is None && r.1.tail == TailOrder::Keep,
        !r.0.running ==> r.0.pid == 0 && final(a).child is None && r.1.tail == TailOrder::Stop && (
        r.1.store is Some <==> old(a).child is Some),
        r.1.store matches Some(s) ==> !s.running && s.pid == 0,
        final(a).config == old(a).config && final(a).password == old(a).password,
{
}

/// Stopping takes the tracked proxy out of the service and is about its PID; one
/// that survives is adopted and stored as running, and one that does not is
/// forgotten everywhere.
pub proof fn law_stop_then_stopped<C>(
    a: &mut ProxyService<C>,
    begun: Option<(StopRun, Option<C>)>,
    b: &mut ProxyService<C>,
    run: StopRun,
    r: (StopReply, Effects),
)
    requires
        call_ensures(ProxyService::<C>::stop, (a,), begun),
        call_ensures(ProxyService::<C>::stopped, (b, Some(run)), r),
        *old(b) == *final(a),
        begun matches Some(x) ==> run.pid == x.0.pid,
        old(a).child is Some,
        run.phase is Finished,
    ensures
        begun matches Some(x) && x.0.pid == old(a).child->0.pid() && (x.0.managed <==> old(
            a,
        ).child->0 is Managed) && (x.0.has_password <==> old(a).password@.len() > 0) && (
        x.1 is Some <==> old(a).child->0 is Managed) && x.0.phase == (if old(a).password@.len() > 0 {
            StopPhase::Interrupt
        } else if old(a).child->0 is Managed {
            StopPhase::PollExit(30)
        } else {
            StopPhase::ProbeAlive(30)
        }) && (old(a).child->0 matches RunningProxy::Managed { child, proxy_pid } ==> x.1 == Some(
            child,
        )),
        final(a).child is None,
        run.phase == StopPhase::Finished(true) ==> r.0 is Stopped && final(b).child is None && (
        r.1.store matches Some(s) && !s.running && s.pid == 0) && r.1.tail == TailOrder::Stop,
        run.phase == StopPhase::Finished(false) ==> r.0 is StillRunning && final(b).child == Some(
            RunningProxy::<C>::Adopted(old(a).child->0.pid()),
        ) && (r.1.store matches Some(s) && s.running && s.pid == old(a).child->0.pid()) && r.1.tail
            == TailOrder::Keep,
{
}

/// Where no proxy is tracked there is nothing to stop, and the stored state is
/// cleared.
pub proof fn law_stop_of_nothing<C>(
    a: &mut ProxyService<C>,
    begun: Option<(StopRun, Option<C>)>,
    b: &mut ProxyService<C>,
    r: (StopReply, Effects),
)
    requires
        call_ensures(ProxyService::<C>::stop, (a,), begun),
        call_ensures(ProxyService::<C>::stopped, (b, None::<StopRun>), r),
        old(a).child is None,
    ensures
        begun is None,
        r.0 is Stopped,
        final(b).child == old(b).child,
        r.1.store matches Some(s) && !s.running && s.pid == 0,
{
}

/// A daemon that begins, or looks again while it tracks nothing, adopts the
/// proxy that the stored state claims where that is alive and follows its log;
/// a claim of a dead one is cleared. What is tracked already is kept.
pub proof fn law_adopting<C>(
    stored: State,
    alive: bool,
    r: (ProxyService<C>, Effects),
    a: &mut ProxyService<C>,
    state: &State,
    e: Effects,
)
    requires
        call_ensures(ProxyService::<C>::load_or_new, (stored, alive), r),
        call_ensures(ProxyService::<C>::adopt_if_present, (a, state, alive), e),
        *state == stored,
    ensures
        ({
            let claims = stored.running && stored.pid != 0;
            &&& claims && alive ==> r.0.child == Some(RunningProxy::<C>::Adopted(stored.pid))
                && r.1.tail == TailOrder::Start && r.1.store is None
            &&& claims && !alive ==> r.0.child is None && r.1.tail == TailOrder::Keep && (
            r.1.store matches Some(s) && !s.running && s.pid == 0)
            &&& !claims ==> r.0.child is None && r.1.tail == TailOrder::Keep && r.1.store is None
            &&& old(a).child is Some ==> *final(a) == *old(a) && e.store is None && e.tail
                == TailOrder::Keep
            &&& old(a).child is None ==> final(a).child == r.0.child && e.tail == r.1.tail && (
            e.store is Some <==> r.1.store is Some)
        }),
        r.0.config.mode == stored.mode && r.0.config.provider == stored.provider
            && r.0.config.strategy == stored.strategy,
        r.0.password@.len() == 0,
        r.0.log_history@.len() == 0,
{
}

/// A process that could not be created, or ended unsuccessfully at once, is
/// reported; where its output speaks of a password, as a wrong one. Otherwise
/// its PID is waited for.
pub proof fn law_early_exit<C>(
    outcome: Result<C, String>,
    a: StartStep<C>,
    child: C,
    exit: Option<(bool, String)>,
    b: StartStep<C>,
    before: Seq<char>,
    after: Seq<char>,
)
    requires
        call_ensures(ProxyService::<C>::spawned, (outcome,), a),
        call_ensures(ProxyService::<C>::check_early_exit, (child, exit), b),
    ensures
        outcome matches Ok(c) ==> a == StartStep::CheckEarlyExit(c),
        outcome matches Err(e) ==> a == StartStep::<C>::Reply(StartReply::SpawnFailed(e)),
        exit is None ==> b == StartStep::WaitForPid(child),
        exit matches Some(x) ==> (x.0 ==> b == StartStep::WaitForPid(child)),
        exit matches Some(x) ==> (!x.0 ==> b == StartStep::<C>::Reply(StartReply::WrongPassword) || b
            == StartStep::<C>::Reply(StartReply::ProxyFailed(x.1))),
        exit matches Some(x) ==> (!x.0 && x.1@ == before + "password"@ + after ==> b
            == StartStep::<C>::Reply(StartReply::WrongPassword)),
        exit matches Some(x) ==> (!x.0 && b == StartStep::<C>::Reply(StartReply::WrongPassword)
            ==> text::contains_text(x.1@, "password"@)),
{
    text::law_contains_text(before, before, "password"@, after);
}

/// A PID in the stored state is found, even when the time is up; without one the
/// wait goes on until then.
pub proof fn law_waiting_for_the_pid(s: &State, now: u128, deadline: u128, r: PidPoll)
    requires
        call_ensures(wait_for_proxy_pid, (s, now, deadline), r),
    ensures
        s.running && s.pid != 0 ==> r == PidPoll::Found(s.pid),
        !(s.running && s.pid != 0) && now >= deadline ==> r == PidPoll::TimedOut,
        !(s.running && s.pid != 0) && now < deadline ==> r == PidPoll::Again,
{
}

/// A password that was accepted is kept and nudges the tracked proxy when the
/// settings change; one that was refused changes nothing.
pub proof fn law_password_then_settings<C>(
    a: &mut ProxyService<C>,
    password: String,
    accepted: bool,
    kept: bool,
    b: &mut ProxyService<C>,
    mode: String,
    provider: String,
    strategy: String,
    r: (Config, Option<u32>),
)
    requires
        call_ensures(ProxyService::<C>::set_password, (a, password, accepted), kept),
        call_ensures(ProxyService::<C>::set_config, (b, mode, provider, strategy), r),
        *old(b) == *final(a),
        password@.len() > 0,
    ensures
        kept == accepted,
        accepted ==> final(a).password == password,
        !accepted ==> final(a).password == old(a).password,
        final(a).child == old(a).child && final(b).child == old(a).child,
        r.0 == final(b).config,
        accepted && old(a).child is Some ==> r.1 == Some(old(a).child->0.pid()),
        old(a).child is None ==> r.1 is None,
        !accepted && old(a).password@.len() == 0 ==> r.1 is None,
        mode@.len() == 0 ==> final(b).config.mode == old(a).config.mode,
        mode@.len() > 0 ==> final(b).config.mode == mode,
        provider@.len() == 0 ==> final(b).config.provider == old(a).config.provider,
        provider@.len() > 0 ==> final(b).config.provider == provider,
        strategy@.len() == 0 ==> final(b).config.strategy == old(a).config.strategy,
        strategy@.len() > 0 ==> final(b).config.strategy == strategy,
{
}

/// A daemon that shuts down clears the stored state where the proxy has stopped,
/// and leaves it to the next daemon where it has not.
pub proof fn law_shutdown<C>(reply: StopReply, r: (bool, Effects))
    requires
        call_ensures(ProxyService::<C>::shutdown, (reply,), r),
    ensures
        r.0 <==> reply is Stopped,
        reply is Stopped ==> (r.1.store matches Some(s) && !s.running && s.pid == 0),
        reply is StillRunning ==> r.1.store is None,
{
}

/// What a reply reports: only a proxy that was started is a success, and only a
/// process that could not be created is a failure of the daemon itself.
pub proof fn law_start_replies(s: &StartReply, ok: bool, internal: bool, m: String)
    requires
        call_ensures(StartReply::ok, (s,), ok),
        call_ensures(StartReply::is_internal, (s,), internal),
        call_ensures(StartReply::message, (s,), m),
    ensures
        ok <==> *s is Started,
        internal <==> *s is SpawnFailed,
        *s is Started ==> m@ == "proxy started"@,
        *s is AlreadyRunning ==> m@ == "proxy already running"@,
        *s is WrongPassword ==> m@ == "wrong password — click Authenticate"@,
        *s is NoPassword ==> m@ == "no sudo password set — click Authenticate first"@,
        *s is TimedOut ==> m@ == "proxy did not start in time"@,
        *s matches StartReply::ProxyFailed(e) ==> m@ == "proxy failed: "@ + e@,
        *s matches StartReply::SpawnFailed(e) ==> m@ == "spawn: "@ + e@,
{
}

/// What the replies to stopping and to a password report.
pub proof fn law_stop_replies(s: &StopReply, ok: bool, m: String, accepted: bool, w: String)
    requires
        call_ensures(StopReply::ok, (s,), ok),
        call_ensures(StopReply::message, (s,), m),
        call_ensures(password_message, (accepted,), w),
    ensures
        ok <==> *s is Stopped,
        ok ==> m@ == "proxy stopped"@,
        !ok ==> m@ == "proxy still running — authorize in the app to stop it"@,
        accepted ==> w@ == "authenticated"@,
        !accepted ==> w@ == "wrong password"@,
{
}

/// A signal is sent by the cached credentials first and, only where these fail,
/// once more with the password; both are about the same process and signal.
pub proof fn law_signals(
    pid: u32,
    signal: ProxySignal,
    first: SignalStep,
    ok: bool,
    second: SignalStep,
    again: bool,
    third: SignalStep,
)
    requires
        call_ensures(signal_proxy, (pid, signal), first),
        call_ensures(signal_next, (&first, ok, pid, signal), second),
        second is WithPassword ==> call_ensures(signal_next, (&second, again, pid, signal), third),
    ensures
        first matches SignalStep::Cached(args) && args@.len() == 4 && args@[0]@ == "-n"@
            && args@[1]@ == "kill"@ && args@[3]@ == text::decimal_text(pid as nat) && args@[2]@
            == (match signal {
            ProxySignal::Interrupt => "-INT"@,
            ProxySignal::Kill => "-KILL"@,
            ProxySignal::Hangup => "-HUP"@,
        }),
        ok ==> second == SignalStep::Done(true),
        !ok ==> (second matches SignalStep::WithPassword(args) && args@.len() == 4 && args@[0]@
            == "-S"@ && args@[1]@ == first->Cached_0@[1]@ && args@[2]@ == first->Cached_0@[2]@
            && args@[3]@ == first->Cached_0@[3]@),
        !ok ==> third == SignalStep::Done(again),
{
    let n = first->Cached_0@;
    service::law_kill_command("-n"@, pid, signal, signal);
    text::law_contents_of_lists(n, Seq::empty());
    assert(n.len() == text::texts(n).len());
    assert(text::texts(n)[0] == n[0]@ && text::texts(n)[1] == n[1]@);
    assert(text::texts(n)[2] == n[2]@ && text::texts(n)[3] == n[3]@);
    if !ok {
        let m = second->WithPassword_0@;
        service::law_kill_command("-S"@, pid, signal, signal);
        text::law_contents_of_lists(m, Seq::empty());
        assert(m.len() == text::texts(m).len());
        assert(text::texts(m)[0] == m[0]@ && text::texts(m)[1] == m[1]@);
        assert(text::texts(m)[2] == m[2]@ && text::texts(m)[3] == m[3]@);
    }
}

/// A proxy is started with each setting behind its own flag, and reads the
/// password as a line.
pub proof fn law_spawning(bin: &str, cfg: &Config, args: Vec<String>, password: &str, input: String)
    requires
        call_ensures(spawn_proxy_child, (bin, cfg), args),
        call_ensures(password_input, (password,), input),
    ensures
        args@.len() == 8,
        args@[0]@ == "-S"@,
        args@[1]@ == bin@,
        args@[2]@ == "--mode"@ && args@[3]@ == cfg.mode@,
        args@[4]@ == "--provider"@ && args@[5]@ == cfg.provider@,
        args@[6]@ == "--strategy"@ && args@[7]@ == cfg.strategy@,
        input@ == password@.push('\n'),
{
    reveal_strlit("\n");
    service::law_proxy_command(bin@, *cfg);
    text::law_contents_of_lists(args@, Seq::empty());
    assert(text::texts(args@).len() == args@.len());
    assert(args@[0]@ == text::texts(args@)[0] && args@[1]@ == text::texts(args@)[1]);
    assert(args@[2]@ == text::texts(args@)[2] && args@[3]@ == text::texts(args@)[3]);
    assert(args@[4]@ == text::texts(args@)[4] && args@[5]@ == text::texts(args@)[5]);
    assert(args@[6]@ == text::texts(args@)[6] && args@[7]@ == text::texts(args@)[7]);
    assert(input@ =~= password@.push('\n'));
}

// ── State and files ────────────────────────────────────────────────────

/// A stored state is gone on with as it is; without one, and after clearing, no
/// proxy is claimed. A claim names a process where the state says that a proxy is
/// running.
pub proof fn law_stored_state(
    stored: Option<State>,
    s: State,
    cleared: State,
    a: &State,
    claimed: Option<u32>,
)
    requires
        call_ensures(state::load, (stored,), s),
        call_ensures(state::clear, (), cleared),
        call_ensures(State::claimed, (a,), claimed),
    ensures
        stored matches Some(t) ==> s == t,
        stored is None ==> !s.running && s.pid == 0 && s.mode@ == "doh"@ && s.provider@
            == "cloudflare"@ && s.strategy@ == "single"@,
        !cleared.running && cleared.pid == 0,
        a.running && a.pid != 0 ==> claimed == Some(a.pid),
        !a.running || a.pid == 0 ==> claimed is None,
{
}

/// All files are in the configuration directory, under names of their own; the
/// socket is where its variable says, if that is set.
pub proof fn law_paths(
    env: &DirEnv,
    dir: Vec<String>,
    a: Vec<String>,
    b: Vec<String>,
    c: Vec<String>,
    d: Vec<String>,
    e: Vec<String>,
    f: Vec<String>,
    g: Vec<String>,
)
    requires
        call_ensures(state::dir, (env,), dir),
        call_ensures(state::path, (env,), a),
        call_ensures(state::config_path, (env,), b),
        call_ensures(state::server_pid_path, (env,), c),
        call_ensures(state::server_log_path, (env,), d),
        call_ensures(state::proxy_log_path, (env,), e),
        call_ensures(state::query_log_path, (env,), f),
        call_ensures(state::socket_path, (env,), g),
    ensures
        text::texts(a@) == text::texts(dir@).push("state.json"@),
        text::texts(b@) == text::texts(dir@).push("config.json"@),
        text::texts(c@) == text::texts(dir@).push("server.pid"@),
        text::texts(d@) == text::texts(dir@).push("server.log"@),
        text::texts(e@) == text::texts(dir@).push("proxy.log"@),
        text::texts(f@) == text::texts(dir@).push("query.log"@),
        env.dns_guard_socket is None ==> text::texts(g@) == text::texts(dir@).push(
            "dns-guard.sock"@,
        ),
        env.dns_guard_socket matches Some(p) ==> text::texts(g@) == seq![p@],
        env.dns_guard_dir matches Some(p) ==> text::texts(dir@) == seq![p@],
{
}

/// A process is dead only where sending a signal failed because there is no such
/// process.
pub proof fn law_alive(ret: i32, errno: Option<i32>, esrch: i32, r: bool)
    requires
        call_ensures(is_process_alive, (ret, errno, esrch), r),
    ensures
        !r <==> ret != 0 && errno == Some(esrch),
{
}

// ── Settings file ──────────────────────────────────────────────────────

/// Saving settings and saving a policy write all sections of the file, with
/// their own replaced, and refuse a file that can have no sections.
pub proof fn law_saving(
    file: Option<&str>,
    mode: &str,
    provider: &str,
    strategy: &str,
    w: ConfigWrite,
    policy: &serde_json::Value,
    v: ConfigWrite,
)
    requires
        call_ensures(save_config, (file, mode, provider, strategy), w),
        call_ensures(save_policy, (file, policy), v),
    ensures
        ({
            let text = match file {
                Some(t) => Some(t@),
                None => None,
            };
            let before = config::stored_sections(text);
            &&& w is NotAnObject <==> !config::accepts_sections(text)
            &&& v is NotAnObject <==> !config::accepts_sections(text)
            &&& !(w is NotAnObject) ==> config::writes_sections(
                w,
                before.insert("mode"@, json::json_string(mode@)).insert(
                    "provider"@,
                    json::json_string(provider@),
                ).insert("strategy"@, json::json_string(strategy@)),
            )
            &&& !(v is NotAnObject) ==> config::writes_sections(v, before.insert("policy"@, *policy))
            &&& !(w is NotAnObject) ==> config::reads_back(
                w,
                config::with_settings(before, mode@, provider@, strategy@),
            )
            &&& !(v is NotAnObject) ==> config::reads_back(v, before.insert("policy"@, *policy))
        }),
{
    if let Some(t) = file {
        config::law_files_are_read_whole(t);
    }
}

/// A file that settings were saved to alone has these settings and nothing else;
/// into a file that takes sections they are saved beside its other sections.
pub proof fn law_saving_all(c: &Config, w: ConfigWrite, file: Option<&str>, v: ConfigWrite)
    requires
        call_ensures(Config::save, (c,), w),
        call_ensures(Config::save_into, (c, file), v),
    ensures
        w matches ConfigWrite::Write(t) && config::stored_sections(Some(t@)).dom() == set![
            "mode"@,
            "provider"@,
            "strategy"@,
        ] && config::stored_sections(Some(t@))["mode"@] == json::json_string(c.mode@)
            && config::stored_sections(Some(t@))["provider"@] == json::json_string(c.provider@)
            && config::stored_sections(Some(t@))["strategy"@] == json::json_string(c.strategy@),
        !(v is NotAnObject),
        file is None ==> config::writes_sections(v, c.sections()),
        file matches Some(t) ==> (!config::accepts_sections(Some(t@)) ==> config::writes_sections(
            v,
            c.sections(),
        )),
        file matches Some(t) ==> (config::accepts_sections(Some(t@)) ==> config::writes_sections(
            v,
            config::with_settings(
                config::stored_sections(Some(t@)),
                c.mode@,
                c.provider@,
                c.strategy@,
            ),
        )),
{
    config::law_settings_alone(*c);
    if let Some(t) = file {
        config::law_files_are_read_whole(t);
    }
}

// ── The standalone proxy ───────────────────────────────────────────────

/// A standalone proxy begins with what the command line asks for: setting
/// defaults before anything else, setting the system's DNS, or running.
pub proof fn law_standalone(flags: Flags, pid: u32, s: Standalone, a: &Standalone, st: State)
    requires
        call_ensures(Standalone::cmd_standalone, (flags, pid), s),
        call_ensures(Standalone::state, (a,), st),
    ensures
        s.flags == flags && s.pid == pid,
        flags.uninstall ==> s.phase == Phase::CheckRoot(Task::Uninstall),
        !flags.uninstall && flags.install ==> s.phase == Phase::CheckRoot(Task::Install),
        !flags.uninstall && !flags.install ==> s.phase == Phase::LoadConfig,
        st.running && st.pid == a.pid,
        st.mode == a.config.mode && st.provider == a.config.provider && st.strategy
            == a.config.strategy,
{
}

/// Each step goes to the phase that follows and keeps everything that the event
/// does not change; a flag overrides its own setting and no other.
pub proof fn law_standalone_step(a: &mut Standalone, event: PhaseEvent)
    requires
        call_ensures(Standalone::step, (a, event), ()),
    ensures
        final(a).flags == old(a).flags && final(a).pid == old(a).pid,
        final(a).phase == old(a).next_phase(event),
        event is Done || event is Running || event is Privileged ==> final(a).config == old(
            a,
        ).config && final(a).saved == old(a).saved,
        event matches PhaseEvent::Loaded(stored) ==> {
            &&& old(a).flags.mode matches Some(m) ==> final(a).config.mode == m
            &&& old(a).flags.provider matches Some(p) ==> final(a).config.provider == p
            &&& old(a).flags.strategy matches Some(t) ==> final(a).config.strategy == t
            &&& stored matches Some(c) ==> {
                &&& old(a).flags.mode is None ==> final(a).config.mode == c.mode
                &&& old(a).flags.provider is None ==> final(a).config.provider == c.provider
                &&& old(a).flags.strategy is None ==> final(a).config.strategy == c.strategy
            }
            &&& stored is None ==> {
                &&& old(a).flags.mode is None ==> final(a).config.mode@ == "doh"@
                &&& old(a).flags.provider is None ==> final(a).config.provider@ == "cloudflare"@
                &&& old(a).flags.strategy is None ==> final(a).config.strategy@ == "single"@
            }
        },
        event matches PhaseEvent::Swap(c) ==> final(a).config == c,
        event matches PhaseEvent::Served(c) ==> final(a).config == c,
        event matches PhaseEvent::DnsFound(found) ==> final(a).saved == found,
{
    standalone::law_settings_in_use(*old(a), event, final(a).config);
}

/// The control daemon goes into the background where it is asked to, the proxy
/// where no command and no change of the system's DNS is.
pub proof fn law_daemonize(
    serve: Option<bool>,
    command: bool,
    background: bool,
    install: bool,
    uninstall: bool,
    r: Daemonize,
)
    requires
        call_ensures(daemonize, (serve, command, background, install, uninstall), r),
    ensures
        r == Daemonize::Server <==> serve == Some(true),
        r == Daemonize::Proxy <==> serve != Some(true) && !command && background && !install
            && !uninstall,
{
}

// ── What is said to the user ───────────────────────────────────────────

/// The one line that is printed is an object with the members `ok` and `message`.
pub open spec fn prints_reply(o: Output, ok: bool, message: Seq<char>) -> bool {
    &&& o.stdout@.len() == 1
    &&& exists|v: serde_json::Value|
        {
            &&& #[trigger] json::compact_json(v) == o.stdout@[0]@
            &&& json::is_json_object(v)
            &&& json::json_members(v).dom() == set!["ok"@, "message"@]
            &&& json::json_members(v)["ok"@] == json::json_bool(ok)
            &&& json::json_members(v)["message"@] == json::json_string(message)
        }
}

/// A client command whose request was granted or refused says so by its code, in
/// words or in JSON; one that could not be carried out ends with 1.
pub proof fn law_client_commands(
    reply: Result<(bool, String), String>,
    as_json: bool,
    a: Output,
    b: Output,
    c: Output,
)
    requires
        call_ensures(cmd_client_start, (reply, as_json), a),
        call_ensures(cmd_client_stop, (reply, as_json), b),
        call_ensures(cmd_client_set_password, (reply, as_json), c),
    ensures
        reply matches Ok(x) ==> {
            &&& a.code == (if x.0 {
                0int
            } else {
                1int
            })
            &&& b.code == a.code && c.code == a.code
            &&& !as_json && x.0 ==> a.stdout@.len() == 1 && a.stdout@[0]@ == "proxy started"@
                && b.stdout@.len() == 1 && b.stdout@[0]@ == "proxy stopped"@ && c.stdout@.len() == 1
                && c.stdout@[0]@ == "authenticated"@
            &&& as_json ==> {
                &&& prints_reply(a, x.0, x.1@)
                &&& prints_reply(c, x.0, x.1@)
                &&& x.1@.len() > 0 ==> prints_reply(b, x.0, x.1@)
                &&& x.1@.len() == 0 && x.0 ==> prints_reply(b, x.0, "proxy stopped"@)
                &&& x.1@.len() == 0 && !x.0 ==> prints_reply(b, x.0, "stop failed"@)
            }
            &&& !as_json && !x.0 ==> a.stderr@.len() == 1 && a.stderr@[0]@ == x.1@ && b.stderr@.len()
                == 1 && b.stderr@[0]@ == x.1@ && c.stderr@.len() == 1 && c.stderr@[0]@ == x.1@
        },
        reply matches Err(e) ==> {
            &&& a.code == 1 && b.code == 1 && c.code == 1
            &&& as_json ==> prints_reply(a, false, e@) && prints_reply(b, false, e@)
                && prints_reply(c, false, e@)
            &&& !as_json ==> a.stderr@.len() == 1 && a.stderr@[0]@ == "error: "@ + e@
                && b.stderr@.len() == 1 && b.stderr@[0]@ == "error: "@ + e@ && c.stderr@.len() == 1
                && c.stderr@[0]@ == "error: "@ + e@
        },
{
    match reply {
        Ok(x) => {
            client::law_replies_are_printed(a, as_json, x.0, x.1@, "proxy started"@);
            let m = if as_json {
                client::stop_message(x.0, x.1@)
            } else {
                x.1@
            };
            client::law_stop_says_something(x.0, x.1@);
            client::law_replies_are_printed(b, as_json, x.0, m, "proxy stopped"@);
            client::law_replies_are_printed(c, as_json, x.0, x.1@, "authenticated"@);
        },
        Err(e) => {
            client::law_errors_are_printed(a, as_json, e@);
            client::law_errors_are_printed(b, as_json, e@);
            client::law_errors_are_printed(c, as_json, e@);
            if as_json {
                client::law_replies_are_printed(a, true, false, e@, Seq::empty());
                client::law_replies_are_printed(b, true, false, e@, Seq::empty());
                client::law_replies_are_printed(c, true, false, e@, Seq::empty());
            } else {
                client::law_output_lines(a, Seq::empty(), seq!["error: "@ + e@], 1);
                client::law_output_lines(b, Seq::empty(), seq!["error: "@ + e@], 1);
                client::law_output_lines(c, Seq::empty(), seq!["error: "@ + e@], 1);
            }
        },
    }
}

/// A status is printed in five lines, or in JSON with the same five members; a
/// daemon that cannot be reached is an error, in JSON a status of no proxy.
pub proof fn law_client_status(reply: Result<StatusReply, String>, as_json: bool, o: Output)
    requires
        call_ensures(cmd_client_status, (reply, as_json), o),
    ensures
        o.code == (if reply is Ok {
            0int
        } else {
            1int
        }),
        !as_json ==> (reply matches Ok(s) ==> o.stdout@.len() == 5 && o.stdout@[0]@ == (if s.running {
            "running: true"@
        } else {
            "running: false"@
        }) && o.stdout@[1]@ == "pid: "@ + text::decimal_text(s.pid as nat) && o.stdout@[2]@
            == "mode: "@ + s.mode@ && o.stdout@[3]@ == "provider: "@ + s.provider@ && o.stdout@[4]@
            == "strategy: "@ + s.strategy@),
        !as_json ==> (reply matches Err(e) ==> o.stdout@.len() == 0 && o.stderr@.len() == 1
            && o.stderr@[0]@ == "error: "@ + e@),
        as_json ==> o.stdout@.len() == 1 && o.stderr@.len() == 0,
        as_json ==> exists|v: serde_json::Value|
            {
                &&& #[trigger] json::compact_json(v) == o.stdout@[0]@
                &&& json::is_json_object(v)
                &&& json::json_members(v) == (match reply {
                    Ok(s) => rest::status_members(
                        s.running,
                        s.pid,
                        s.mode@,
                        s.provider@,
                        s.strategy@,
                    ),
                    Err(_) => rest::status_members(
                        false,
                        0,
                        Seq::empty(),
                        Seq::empty(),
                        Seq::empty(),
                    ),
                })
            },
{
    match reply {
        Ok(s) => {
            if as_json {
                client::law_json_is_one_line(
                    o,
                    rest::status_members(s.running, s.pid, s.mode@, s.provider@, s.strategy@),
                    0,
                );
            } else {
                client::law_output_lines(o, client::status_lines(s), Seq::empty(), 0);
                client::law_status_in_words(s);
                let lines = client::status_lines(s);
                assert(o.stdout@[0]@ == lines[0] && o.stdout@[1]@ == lines[1]);
                assert(o.stdout@[2]@ == lines[2] && o.stdout@[3]@ == lines[3]);
                assert(o.stdout@[4]@ == lines[4]);
            }
        },
        Err(e) => {
            if as_json {
                client::law_json_is_one_line(
                    o,
                    rest::status_members(false, 0, Seq::empty(), Seq::empty(), Seq::empty()),
                    1,
                );
            } else {
                client::law_output_lines(o, Seq::empty(), seq!["error: "@ + e@], 1);
            }
        },
    }
}

/// Log lines go to the standard output as they are, and errors to the error
/// output; the code is 0 either way.
pub proof fn law_client_logs(event: LogEvent, o: Output)
    requires
        call_ensures(cmd_client_logs, (event,), o),
    ensures
        o.code == 0,
        event matches LogEvent::Line(l) ==> o.stdout@.len() == 1 && o.stdout@[0]@ == l@
            && o.stderr@.len() == 0,
        event matches LogEvent::Refused(e) ==> o.stdout@.len() == 0 && o.stderr@.len() == 1
            && o.stderr@[0]@ == "error: "@ + e@,
        event matches LogEvent::Broken(e) ==> o.stdout@.len() == 0 && o.stderr@.len() == 1
            && o.stderr@[0]@ == "stream error: "@ + e@,
{
    match event {
        LogEvent::Line(l) => {
            client::law_output_lines(o, seq![l@], Seq::empty(), 0);
        },
        LogEvent::Refused(e) => {
            client::law_output_lines(o, Seq::empty(), seq!["error: "@ + e@], 0);
        },
        LogEvent::Broken(e) => {
            client::law_output_lines(o, Seq::empty(), seq!["stream error: "@ + e@], 0);
        },
    }
}

/// The REST interface is off only where it is switched off by `0`; it listens on
/// the port that is asked for where that is a number, and on 8090 otherwise.
pub proof fn law_http_port(http: Option<&str>, port: Option<&str>, r: Option<u16>, n: u16)
    requires
        call_ensures(http_port, (http, port), r),
    ensures
        r is None <==> (http matches Some(h) && h@ == "0"@),
        r is Some && port is None ==> r == Some(8090u16),
        port matches Some(p) ==> (r is Some && p@ == text::decimal_text(n as nat) ==> r == Some(n)),
        port matches Some(p) ==> (r is Some && text::spelled_u16(p@) is None ==> r == Some(8090u16)),
{
    text::law_decimal_round_trip(n);
}

/// The bodies of the REST interface have the members that are documented.
pub proof fn law_bodies(
    ok: bool,
    message: &str,
    a: serde_json::Value,
    b: serde_json::Value,
    c: serde_json::Value,
    s: &StatusReply,
    d: serde_json::Value,
)
    requires
        call_ensures(reply_body, (ok, message), a),
        call_ensures(error_body, (message,), b),
        call_ensures(config_body, (ok,), c),
        call_ensures(status_body, (s,), d),
    ensures
        json::json_members(a).dom() == set!["ok"@, "message"@],
        json::json_members(a)["ok"@] == json::json_bool(ok),
        json::json_members(a)["message"@] == json::json_string(message@),
        json::json_members(b).dom() == set!["ok"@, "message"@],
        json::json_members(b)["ok"@] == json::json_bool(false),
        json::json_members(b)["message"@] == json::json_string(message@),
        json::json_members(c).dom() == set!["ok"@],
        json::json_members(c)["ok"@] == json::json_bool(ok),
        json::json_members(d).dom() == set!["running"@, "pid"@, "mode"@, "provider"@, "strategy"@],
        json::json_members(d)["running"@] == json::json_bool(s.running),
        json::json_members(d)["pid"@] == json::json_number(s.pid as int),
        json::json_members(d)["mode"@] == json::json_string(s.mode@),
        json::json_members(d)["provider"@] == json::json_string(s.provider@),
        json::json_members(d)["strategy"@] == json::json_string(s.strategy@),
{
    rest::law_reply_members(ok, message@);
    rest::law_reply_members(false, message@);
    rest::law_status_members(s.running, s.pid, s.mode@, s.provider@, s.strategy@);
    assert(json::json_members(c).dom() =~= set!["ok"@]);
}

/// Statistics have six members: the four totals, and the counts as they were
/// collected.
pub proof fn law_stats(
    t: &Totals,
    per_provider: serde_json::Value,
    top_domains: serde_json::Value,
    r: serde_json::Value,
)
    requires
        call_ensures(stats_body, (t, per_provider, top_domains), r),
    ensures
        ({
            let m = json::json_members(r);
            &&& m["queries_total"@] == json::json_number(t.queries_total as int)
            &&& m["cached_total"@] == json::json_number(t.cached_total as int)
            &&& m["blocked_total"@] == json::json_number(t.blocked_total as int)
            &&& m["errors_total"@] == json::json_number(t.errors_total as int)
            &&& m["per_provider"@] == per_provider
            &&& m["top_domains"@] == top_domains
            &&& m.dom() == set![
                "queries_total"@,
                "cached_total"@,
                "blocked_total"@,
                "errors_total"@,
                "per_provider"@,
                "top_domains"@,
            ]
        }),
{
    reveal_strlit("queries_total");
    reveal_strlit("cached_total");
    reveal_strlit("blocked_total");
    reveal_strlit("errors_total");
    reveal_strlit("per_provider");
    reveal_strlit("top_domains");
    assert("queries_total"@.len() == 13 && "queries_total"@[0] == 'q');
    assert("blocked_total"@.len() == 13 && "blocked_total"@[0] == 'b');
    assert("cached_total"@.len() == 12 && "cached_total"@[0] == 'c');
    assert("errors_total"@.len() == 12 && "errors_total"@[0] == 'e');
    assert("per_provider"@.len() == 12 && "per_provider"@[0] == 'p');
    assert("top_domains"@.len() == 11);
    assert(json::json_members(r).dom() =~= set![
        "queries_total"@,
        "cached_total"@,
        "blocked_total"@,
        "errors_total"@,
        "per_provider"@,
        "top_domains"@,
    ]);
}

/// The histories and the policy are arrays with one entry for each query, line
/// or rule, in order.
pub proof fn law_lists(
    recs: &Vec<QueryRecord>,
    a: serde_json::Value,
    lines: &Vec<String>,
    b: serde_json::Value,
    rules: &Vec<PolicyRule>,
    c: serde_json::Value,
)
    requires
        call_ensures(queries_body, (recs,), a),
        call_ensures(logs_body, (lines,), b),
        call_ensures(policy_body, (rules,), c),
    ensures
        exists|items: Seq<serde_json::Value>|
            {
                &&& json::json_members(a)["queries"@] == #[trigger] json::json_array(items)
                &&& items.len() == recs@.len()
                &&& forall|i: int|
                    0 <= i < items.len() ==> json::json_members(#[trigger] items[i])
                        == recs@[i].members()
            },
        json::json_members(b)["lines"@] == json::json_array(
            Seq::new(lines@.len(), |i: int| json::json_string(lines@[i]@)),
        ),
        exists|items: Seq<serde_json::Value>|
            {
                &&& json::json_members(c)["rules"@] == #[trigger] json::json_array(items)
                &&& items.len() == rules@.len()
                &&& forall|i: int|
                    0 <= i < items.len() ==> json::json_members(#[trigger] items[i])
                        == rules@[i].members()
            },
{
    let x = choose|items: Seq<serde_json::Value>| #[trigger]
        rest::are_records(items, recs@) && json::is_object_of(
            a,
            json::no_members().insert("queries"@, json::json_array(items)),
        );
    assert(json::json_members(a)["queries"@] == json::json_array(x));
    let y = choose|items: Seq<serde_json::Value>| #[trigger]
        rest::are_rules(items, rules@) && json::is_object_of(
            c,
            json::no_members().insert("rules"@, json::json_array(items)),
        );
    assert(json::json_members(c)["rules"@] == json::json_array(y));
    assert(rest::json_lines(text::texts(lines@)) =~= Seq::new(
        lines@.len(),
        |i: int| json::json_string(lines@[i]@),
    ));
}

/// The record of one query has its members. The word of an action is `block`
/// for 1 alone, and only `block` is read as 1.
pub proof fn law_records_and_actions(
    rec: &QueryRecord,
    r: serde_json::Value,
    action: i32,
    word: &'static str,
    spelled: &str,
    code: i32,
)
    requires
        call_ensures(query_record_json, (rec,), r),
        call_ensures(action_name, (action,), word),
        call_ensures(action_code, (spelled,), code),
    ensures
        json::is_json_object(r),
        json::json_members(r) == rec.members(),
        action == 1 ==> word@ == "block"@,
        action != 1 ==> word@ == "allow"@,
        spelled@ == "block"@ ==> code == 1,
        spelled@ != "block"@ ==> code == 0,
{
}

/// The PID of a proxy is its own, started or adopted, and is probed unless it is
/// zero.
pub proof fn law_pids<C>(
    p: &RunningProxy<C>,
    pid: u32,
    s: &ProxyService<C>,
    probed: Option<u32>,
)
    requires
        call_ensures(RunningProxy::<C>::proxy_pid, (p,), pid),
        call_ensures(ProxyService::<C>::tracked_pid, (s,), probed),
        s.child == Some(*p),
    ensures
        *p matches RunningProxy::Adopted(n) ==> pid == n,
        *p matches RunningProxy::Managed { child, proxy_pid } ==> pid == proxy_pid,
        pid != 0 ==> probed == Some(pid),
        pid == 0 ==> probed is None,
{
}

/// A settings file that is read, given settings, and written again holds the
/// sections that it held, with the settings put in. The policy is saved as an
/// array of its rules.
pub proof fn law_documents(
    file: Option<&str>,
    v: serde_json::Value,
    a: &mut serde_json::Value,
    mode: &str,
    provider: &str,
    strategy: &str,
    w: &serde_json::Value,
    r: ConfigWrite,
    rules: &Vec<PolicyRule>,
    policy: serde_json::Value,
)
    requires
        call_ensures(config::load_config_json, (file,), v),
        call_ensures(config::set_settings, (a, mode, provider, strategy), ()),
        call_ensures(config::write_config_json, (w,), r),
        call_ensures(rest::policy_rules, (rules,), policy),
        json::is_json_object(v),
        *old(a) == v,
        *w == *final(a),
    ensures
        json::is_json_object(*w),
        json::json_members(*w) == config::stored_sections(
            match file {
                Some(t) => Some(t@),
                None => None,
            },
        ).insert("mode"@, json::json_string(mode@)).insert(
            "provider"@,
            json::json_string(provider@),
        ).insert("strategy"@, json::json_string(strategy@)),
        r matches ConfigWrite::Write(t) ==> json::pretty_json(*w) == Some(t@),
        json::pretty_json(*w) is None ==> r is Unwritable,
        !(r is NotAnObject),
        exists|items: Seq<serde_json::Value>|
            {
                &&& policy == #[trigger] json::json_array(items)
                &&& items.len() == rules@.len()
                &&& forall|i: int|
                    0 <= i < items.len() ==> json::json_members(#[trigger] items[i])
                        == rules@[i].members()
            },
{
    if let Some(t) = file {
        config::law_files_are_read_whole(t);
    }
    let y = choose|items: Seq<serde_json::Value>| #[trigger]
        rest::are_rules(items, rules@) && policy == json::json_array(items);
    assert(policy == json::json_array(y));
}

/// What begins empty: a history has no lines, a new state claims nothing, and
/// nothing is saved of the system's DNS before it was looked at.
pub proof fn law_new_things(h: LogHistory, s: State, d: SavedDns)
    requires
        call_ensures(LogHistory::new, (), h),
        call_ensures(State::new, (), s),
        call_ensures(SavedDns::new, (), d),
    ensures
        h@.len() == 0,
        !s.running && s.pid == 0,
        s.mode@ == "doh"@ && s.provider@ == "cloudflare"@ && s.strategy@ == "single"@,
        d@.file is None && d@.interfaces.len() == 0,
{
}

} // verus!
