//! The DNS relay: resolving queries, and the loops over UDP and TCP.
//!
//! One UDP loop receives datagrams and hands each query to a bounded pool of
//! workers, which reply out of order. A TCP listener serves clients that retry
//! a truncated response. Both look at the settings twice a second, so that a
//! change takes effect without a restart.

use vstd::prelude::*;

use crate::cache;
use crate::cache::Cached;
use crate::cache::DnsCache;
use crate::clock;
use crate::config;
use crate::config::check_reload;
use crate::config::Config;
use crate::encoding;
use crate::provider;
use crate::provider::parse_mode;
use crate::provider::parse_provider;
use crate::provider::parse_strategy;
use crate::provider::DnsMode;
use crate::provider::DnsProvider;
use crate::provider::DnsStrategy;
use crate::provider::FailoverState;
use crate::wire;
use crate::wire::patch_id;
use crate::wire::response_ttl;
use crate::wire::servfail;
use crate::wire::set_tc;
use crate::wire::HEADER_LEN;
use crate::wire::MAX_UDP_DNS;

verus! {

/// Workers that resolve UDP queries.
pub const UPLINK_WORKERS: usize = 8;

/// Queries that may wait for one worker.
pub const WORKER_QUEUE: usize = 64;

/// DNS-over-TLS connections kept at once.
pub const DOT_CONNS: usize = 4;

/// TCP clients served at once.
pub const TCP_MAX_CONNS: usize = 32;

/// Time between two looks at the settings, in nanoseconds.
pub const RELOAD_INTERVAL: u128 = 500_000_000;

/// Rest before a query is offered again to busy workers, in milliseconds.
pub const DISPATCH_NAP_MILLIS: u64 = 10;

/// Rest of the TCP listener when no client waits, in milliseconds.
pub const ACCEPT_IDLE_MILLIS: u64 = 50;

/// Rest of the TCP listener after a failure, in milliseconds.
pub const ACCEPT_ERROR_MILLIS: u64 = 200;

// ── Resolving ──────────────────────────────────────────────────────────

/// How a query gets its answer.
pub enum Resolution {
    /// This is the answer.
    Answer(Vec<u8>),
    /// The upstream has to be asked.
    Ask,
}

/// `r` is how the cache `m` resolves `query` at time `now`: a cached response
/// is answered under the requester's transaction ID.
pub open spec fn is_resolution(
    m: Map<Seq<u8>, Cached>,
    query: Seq<u8>,
    now: int,
    r: Resolution,
) -> bool {
    match cache::cache_lookup(m, query, now) {
        Some(resp) => r matches Resolution::Answer(a) && a@ == wire::with_id_of(resp, query),
        None => r is Ask,
    }
}

/// The cache after the upstream answered `query` with `resp`, whose records
/// allow it to be kept for `ttl` seconds, or not at all.
pub open spec fn cache_after_answer(
    m: Map<Seq<u8>, Cached>,
    query: Seq<u8>,
    resp: Seq<u8>,
    ttl: Option<u32>,
    now: int,
) -> Map<Seq<u8>, Cached> {
    match ttl {
        Some(t) => cache::cache_after_put(m, query, resp, t, now),
        None => m,
    }
}

/// What the requester gets when the upstream gave `outcome`: its response under
/// the requester's transaction ID, or SERVFAIL.
pub open spec fn answer_to(query: Seq<u8>, outcome: Result<Vec<u8>, String>) -> Seq<u8> {
    match outcome {
        Ok(resp) => wire::with_id_of(resp@, query),
        Err(_) => wire::servfail_of(query),
    }
}

/// The cache `before` became `after` when the upstream gave `outcome` for
/// `query` at time `now`. A failure leaves it as it is.
pub open spec fn cached_outcome(
    before: Map<Seq<u8>, Cached>,
    query: Seq<u8>,
    outcome: Result<Vec<u8>, String>,
    now: int,
    after: Map<Seq<u8>, Cached>,
) -> bool {
    match outcome {
        Ok(resp) => exists|t: Option<u32>|
            #[trigger] wire::is_message_ttl(resp@, t) && after == cache_after_answer(
                before,
                query,
                resp@,
                t,
                now,
            ),
        Err(_) => after == before,
    }
}

/// Begin to resolve a query at time `now`: out of the cache where it has an
/// answer, by the upstream otherwise.
pub fn resolve_at(query: &[u8], cache: &mut DnsCache, now: u128) -> (r: Resolution)
    ensures
        is_resolution(old(cache)@, query@, now as int, r),
        final(cache)@ == cache::cache_after_lookup(old(cache)@, query@, now as int),
{
    match cache.get_at(query, now) {
        Some(mut resp) => {
            patch_id(&mut resp, query);
            Resolution::Answer(resp)
        },
        None => Resolution::Ask,
    }
}

/// End to resolve a query that `target` was asked under `strategy`. A response
/// is cached for as long as its records allow. A failure is reported to the
/// failover state and answered with SERVFAIL, so that the client does not wait
/// for nothing.
pub fn answer_at(
    query: &[u8],
    target: DnsProvider,
    strategy: DnsStrategy,
    outcome: Result<Vec<u8>, String>,
    failover: &mut FailoverState,
    cache: &mut DnsCache,
    now: u128,
) -> (r: Vec<u8>)
    requires
        now <= clock::max_clock(),
    ensures
        r@ == answer_to(query@, outcome),
        cached_outcome(old(cache)@, query@, outcome, now as int, final(cache)@),
        final(failover)@ == (match outcome {
            Ok(_) => old(failover)@,
            Err(_) => provider::target_after_failure(old(failover)@, target, strategy),
        }),
{
    match outcome {
        Ok(resp) => {
            let ttl: Option<u32> = response_ttl(resp.as_slice());
            if let Some(t) = ttl {
                cache.put_at(query, resp.as_slice(), t, now);
            }
            assert(wire::is_message_ttl(resp@, ttl));
            let mut answer: Vec<u8> = resp;
            patch_id(&mut answer, query);
            answer
        },
        Err(_) => {
            failover.on_failure(target, strategy);
            servfail(query)
        },
    }
}

/// Begin to resolve a query now.
pub fn resolve(query: &[u8], cache: &mut DnsCache) -> (r: Resolution)
    ensures
        exists|now: int|
            0 <= now <= clock::max_clock() && #[trigger] is_resolution(
                old(cache)@,
                query@,
                now,
                r,
            ) && final(cache)@ == cache::cache_after_lookup(old(cache)@, query@, now),
{
    let now: u128 = cache.now();
    resolve_at(query, cache, now)
}

/// End to resolve a query now.
pub fn answer(
    query: &[u8],
    target: DnsProvider,
    strategy: DnsStrategy,
    outcome: Result<Vec<u8>, String>,
    failover: &mut FailoverState,
    cache: &mut DnsCache,
) -> (r: Vec<u8>)
    ensures
        r@ == answer_to(query@, outcome),
        exists|now: int|
            0 <= now <= clock::max_clock() && #[trigger] cached_outcome(
                old(cache)@,
                query@,
                outcome,
                now,
                final(cache)@,
            ),
        final(failover)@ == (match outcome {
            Ok(_) => old(failover)@,
            Err(_) => provider::target_after_failure(old(failover)@, target, strategy),
        }),
{
    let now: u128 = cache.now();
    answer_at(query, target, strategy, outcome, failover, cache, now)
}

/// The datagram that carries an answer. One that does not fit is truncated and
/// says so, so that the client retries over TCP.
pub fn udp_reply(resp: Vec<u8>) -> (r: Vec<u8>)
    ensures
        r@ == wire::truncated(resp@, MAX_UDP_DNS as int),
{
    let mut reply: Vec<u8> = resp;
    if reply.len() > MAX_UDP_DNS {
        set_tc(&mut reply, MAX_UDP_DNS);
    }
    reply
}

// ── Dispatching ────────────────────────────────────────────────────────

/// A query on its way to a worker; `src` is where the reply goes.
pub struct Job<A> {
    pub query: Vec<u8>,
    pub src: A,
    pub target: DnsProvider,
    pub strategy: DnsStrategy,
}

/// The next step of handing a query to a worker.
#[derive(Debug, Clone, Copy, PartialEq, Eq, Structural)]
pub enum DispatchStep {
    /// Offer it to this worker.
    TrySend(usize),
    /// Rest, then ask again.
    Nap,
    /// It was handed over; or the relay has to stop.
    Done(bool),
}

/// What came of an offer.
#[derive(Debug, Clone, Copy, PartialEq, Eq, Structural)]
pub enum SendOutcome {
    Sent,
    /// The worker's queue is full.
    Full,
    /// The worker is gone.
    Disconnected,
}

/// Offer a query to the next worker in turn.
pub fn dispatch_udp(turn: &mut usize, workers: usize) -> (r: DispatchStep)
    requires
        workers > 0,
    ensures
        r == DispatchStep::TrySend((*old(turn) % workers) as usize),
        *final(turn) == provider::next_count(*old(turn)),
{
    let worker: usize = *turn % workers;
    *turn = turn.wrapping_add(1);
    DispatchStep::TrySend(worker)
}

/// Go on after an offer. A full queue holds the dispatcher back for a moment;
/// a worker that is gone means that the relay has to stop.
pub fn dispatch_offered(outcome: SendOutcome) -> (r: DispatchStep)
    ensures
        r == (match outcome {
            SendOutcome::Sent => DispatchStep::Done(true),
            SendOutcome::Full => DispatchStep::Nap,
            SendOutcome::Disconnected => DispatchStep::Done(false),
        }),
{
    match outcome {
        SendOutcome::Sent => DispatchStep::Done(true),
        SendOutcome::Full => DispatchStep::Nap,
        SendOutcome::Disconnected => DispatchStep::Done(false),
    }
}

/// Go on after a rest: the next worker gets the offer, unless a shutdown was
/// requested meanwhile.
pub fn dispatch_rested(running: bool, turn: &mut usize, workers: usize) -> (r: DispatchStep)
    requires
        workers > 0,
    ensures
        running ==> r == DispatchStep::TrySend((*old(turn) % workers) as usize) && *final(turn)
            == provider::next_count(*old(turn)),
        !running ==> r == DispatchStep::Done(false) && *final(turn) == *old(turn),
{
    if running {
        dispatch_udp(turn, workers)
    } else {
        DispatchStep::Done(false)
    }
}

// ── Settings of a running relay ────────────────────────────────────────

/// What a relay loop goes by, and the settings that it has it from.
pub struct RelaySettings {
    pub config: Config,
    pub mode: DnsMode,
    pub provider: DnsProvider,
    pub strategy: DnsStrategy,
    /// When the settings were last looked at, in nanoseconds.
    pub last_check: u128,
}

impl RelaySettings {
    /// Mode, provider and strategy are those that the settings select.
    pub open spec fn wf(self) -> bool {
        &&& self.mode == self.config.mode_spec()
        &&& self.provider == self.config.provider_spec()
        &&& self.strategy == self.config.strategy_spec()
    }

    /// Whether it is time to look at the settings again.
    pub open spec fn due(self, now: u128) -> bool {
        now - self.last_check >= RELOAD_INTERVAL
    }

    /// Go by `config` from time `now` on.
    pub fn new(config: Config, now: u128) -> (r: Self)
        ensures
            r.wf(),
            r.config == config,
            r.last_check == now,
            config::selected(config, r.mode, r.provider, r.strategy),
    {
        let mode: DnsMode = parse_mode(config.mode.as_str());
        let provider: DnsProvider = parse_provider(config.provider.as_str());
        let strategy: DnsStrategy = parse_strategy(config.strategy.as_str());
        RelaySettings { config, mode, provider, strategy, last_check: now }
    }

    /// Whether it is time to look at the settings again: half a second after
    /// the last look.
    pub fn reload_due(&self, now: u128) -> (r: bool)
        ensures
            r == self.due(now),
    {
        now.saturating_sub(self.last_check) >= RELOAD_INTERVAL
    }

    /// Take over the settings read at time `now`. Where they ask for another
    /// mode they are handed back and the loop goes by its own until it ends.
    pub fn reload(&mut self, cfg: Config, now: u128) -> (r: Option<Config>)
        requires
            old(self).wf(),
        ensures
            final(self).wf(),
            final(self).mode == old(self).mode,
            final(self).last_check == now,
            if cfg.mode_spec() != old(self).mode {
                &&& r == Some(cfg)
                &&& final(self).config == old(self).config
            } else {
                &&& r is None
                &&& final(self).config == cfg
                &&& config::selected(
                    cfg,
                    final(self).mode,
                    final(self).provider,
                    final(self).strategy,
                )
            },
    {
        self.last_check = now;
        let kept: Config = cfg.clone();
        match check_reload(cfg, self.mode, &mut self.provider, &mut self.strategy) {
            Some(swap) => Some(swap),
            None => {
                self.config = kept;
                None
            },
        }
    }
}

// ── Laws ───────────────────────────────────────────────────────────────

/// Whatever comes of a query with a full header, out of the cache or from the
/// upstream, success or failure, the reply carries the requester's transaction
/// ID where it is long enough to have one; over UDP it still does after
/// truncation.
pub proof fn law_reply_carries_the_requesters_id(
    m: Map<Seq<u8>, Cached>,
    query: Seq<u8>,
    now: int,
    hit: Resolution,
    outcome: Result<Vec<u8>, String>,
)
    requires
        query.len() >= HEADER_LEN,
        is_resolution(m, query, now, hit),
        hit matches Resolution::Answer(a) ==> a@.len() >= 2,
        outcome matches Ok(resp) ==> resp@.len() >= 2,
    ensures
        hit matches Resolution::Answer(a) ==> a@.take(2) == query.take(2) && wire::truncated(
            a@,
            MAX_UDP_DNS as int,
        ).take(2) == query.take(2),
        answer_to(query, outcome).take(2) == query.take(2),
        wire::truncated(answer_to(query, outcome), MAX_UDP_DNS as int).take(2) == query.take(2),
{
    if let Resolution::Answer(a) = hit {
        let resp = cache::cache_lookup(m, query, now)->0;
        wire::law_patch_changes_only_the_id(resp, query);
        if a@.len() >= 3 {
            wire::law_truncation(a@, MAX_UDP_DNS as int);
        }
    }
    wire::law_servfail_answers_the_query(query);
    if let Ok(resp) = outcome {
        wire::law_patch_changes_only_the_id(resp@, query);
    }
    if answer_to(query, outcome).len() >= 3 {
        wire::law_truncation(answer_to(query, outcome), MAX_UDP_DNS as int);
    }
}

/// A response that the upstream gave to one query answers every later query
/// with the same question, under that query's ID, while its time lasts; the
/// upstream is not asked again.
pub proof fn law_miss_then_hit(
    before: Map<Seq<u8>, Cached>,
    query: Seq<u8>,
    resp: Vec<u8>,
    ttl: u32,
    now: int,
    after: Map<Seq<u8>, Cached>,
    other: Seq<u8>,
    later: int,
    r: Resolution,
)
    requires
        query.len() >= 2,
        other.len() >= 2,
        cache::cache_key(other) == cache::cache_key(query),
        wire::is_message_ttl(resp@, Some(ttl)),
        ttl > 0,
        cached_outcome(before, query, Ok(resp), now, after),
        later < now + cache::kept_secs(ttl) * clock::NANOS_PER_SEC,
        is_resolution(after, other, later, r),
    ensures
        r matches Resolution::Answer(a) && a@ == wire::with_id_of(resp@, other),
{
    let t = choose|t: Option<u32>| #[trigger]
        wire::is_message_ttl(resp@, t) && after == cache_after_answer(before, query, resp@, t, now);
    wire::law_message_ttl_is_unique(resp@, t, Some(ttl));
    cache::law_put_then_get(before, query, resp@, ttl, now, other, later);
}

/// A failure of the upstream is never cached: what the cache answered before
/// is what it answers after.
pub proof fn law_failures_are_not_cached(
    before: Map<Seq<u8>, Cached>,
    query: Seq<u8>,
    error: String,
    now: int,
    after: Map<Seq<u8>, Cached>,
    other: Seq<u8>,
    later: int,
)
    requires
        cached_outcome(before, query, Err(error), now, after),
    ensures
        cache::cache_lookup(after, other, later) == cache::cache_lookup(before, other, later),
{
}

/// A look at the settings that a loop goes by already confirms them: they ask
/// for no other mode and select the same provider and strategy. A change of
/// provider or strategy alone never ends a loop.
pub proof fn law_reload_confirms(settings: RelaySettings, cfg: Config)
    requires
        settings.wf(),
        cfg.mode == settings.config.mode,
    ensures
        cfg.mode_spec() == settings.mode,
        cfg == settings.config ==> cfg.provider_spec() == settings.provider && cfg.strategy_spec()
            == settings.strategy,
{
}

/// A query whose answer is cached gets it with the query's own two ID bytes and
/// every other byte as it was stored; a query whose answer is not makes the
/// relay ask.
pub proof fn law_hits_differ_in_the_id_alone(
    m: Map<Seq<u8>, Cached>,
    query: Seq<u8>,
    now: int,
    r: Resolution,
)
    requires
        is_resolution(m, query, now, r),
    ensures
        r is Ask <==> cache::cache_lookup(m, query, now) is None,
        r matches Resolution::Answer(a) ==> {
            let stored = cache::cache_lookup(m, query, now)->0;
            &&& a@.len() == stored.len()
            &&& forall|i: int| 2 <= i < a@.len() ==> #[trigger] a@[i] == stored[i]
            &&& a@.len() >= 2 && query.len() >= 2 ==> a@[0] == query[0] && a@[1] == query[1]
        },
{
}

/// A requester gets the upstream's response with the query's own two ID bytes
/// and every other byte as it came; or where there is none, an answer of the
/// query's length or less that says SERVFAIL under the same ID. What is too short
/// to be a query is given back where there is no response.
pub proof fn law_answers_byte_by_byte(query: Seq<u8>, outcome: Result<Vec<u8>, String>)
    ensures
        ({
            let a = answer_to(query, outcome);
            &&& a.len() >= 2 && query.len() >= 2 ==> a[0] == query[0] && a[1] == query[1]
            &&& outcome matches Ok(resp) ==> a.len() == resp@.len() && forall|i: int|
                2 <= i < a.len() ==> #[trigger] a[i] == resp@[i]
            &&& outcome matches Ok(resp) ==> query.len() < 2 ==> a == resp@
            &&& outcome is Err && query.len() < 12 ==> a == query
            &&& outcome is Err && query.len() >= 12 ==> 12 <= a.len() <= query.len() && a[2] >= 128
                && a[3] == 130 && forall|i: int| 4 <= i < a.len() ==> #[trigger] a[i] == query[i]
        }),
{
    let s = wire::servfail_of(query);
    if query.len() >= 12 {
        encoding::law_servfail_repeats_the_question(query, 12);
        wire::law_servfail_answers_the_query(query);
        if let Some(e) = wire::name_end(query, 12) {
            encoding::law_name_end(query, 12, e);
        }
        assert forall|i: int| 4 <= i < s.len() implies #[trigger] s[i] == query[i] by {
            if i >= 12 {
                assert(s[i] == s.skip(12)[i - 12]);
            }
        }
    }
}

/// What the upstream answered is answered again, without asking, to every query
/// that differs in the ID alone, under that query's ID, as long as the TTLs of
/// all records and an hour are not over; when the first of them is over, the
/// upstream is asked.
pub proof fn law_answers_are_reused(
    before: Map<Seq<u8>, Cached>,
    query: Seq<u8>,
    msg: encoding::Message,
    resp: Vec<u8>,
    now: int,
    after: Map<Seq<u8>, Cached>,
    other: Seq<u8>,
    later: int,
    r: Resolution,
)
    requires
        encoding::valid_message(msg),
        encoding::all_records(msg).len() > 0,
        resp@ == encoding::encode_message(msg),
        cached_outcome(before, query, Ok(resp), now, after),
        query.len() >= 2,
        other.len() == query.len(),
        forall|i: int| 2 <= i < query.len() ==> other[i] == #[trigger] query[i],
        is_resolution(after, other, later, r),
        forall|i: int|
            0 <= i < encoding::all_records(msg).len() ==> (#[trigger] encoding::all_records(
                msg,
            )[i]).ttl > 0,
    ensures
        (later - now < 3_600_000_000_000 && forall|i: int|
            0 <= i < encoding::all_records(msg).len() ==> later - now < (
            #[trigger] encoding::all_records(msg)[i]).ttl * 1_000_000_000) ==> (r matches
            Resolution::Answer(a) && a@ == other.take(2) + resp@.skip(2)),
        (later - now >= 3_600_000_000_000 || exists|i: int|
            0 <= i < encoding::all_records(msg).len() && later - now >= (
            #[trigger] encoding::all_records(msg)[i]).ttl * 1_000_000_000) ==> r is Ask,
{
    let t = choose|t: Option<u32>| #[trigger]
        wire::is_message_ttl(resp@, t) && after == cache_after_answer(before, query, resp@, t, now);
    encoding::law_ttl_is_the_least_of_all_records(msg, t);
    assert(encoding::all_records(msg)[0].ttl > 0);
    let k = choose|k: int|
        0 <= k < encoding::all_records(msg).len() && (#[trigger] encoding::all_records(msg)[k]).ttl
            == t->0;
    assert(encoding::all_records(msg)[k].ttl > 0);
    cache::law_same_question_shares_an_answer(before, query, resp@, t->0, now, other, later);
    assert(encoding::encode_header(msg).len() == 12);
    if let Resolution::Answer(a) = r {
        assert(a@ =~= other.take(2) + resp@.skip(2));
    }
}

/// A response without records, and what is no message at all, is not cached.
pub proof fn law_responses_without_records_are_not_cached(
    before: Map<Seq<u8>, Cached>,
    query: Seq<u8>,
    resp: Vec<u8>,
    now: int,
    after: Map<Seq<u8>, Cached>,
)
    requires
        cached_outcome(before, query, Ok(resp), now, after),
        forall|msg: encoding::Message|
            encoding::valid_message(msg) && #[trigger] encoding::encode_message(msg) == resp@
                ==> encoding::all_records(msg).len() == 0,
    ensures
        after == before,
{
    let t = choose|t: Option<u32>| #[trigger]
        wire::is_message_ttl(resp@, t) && after == cache_after_answer(before, query, resp@, t, now);
    if t is Some {
        encoding::law_only_messages_have_a_ttl(resp@, t);
        let msg = choose|msg: encoding::Message|
            encoding::valid_message(msg) && #[trigger] encoding::encode_message(msg) == resp@;
        encoding::law_ttl_is_the_least_of_all_records(msg, t);
    }
}

/// A datagram holds at most 4096 bytes, and all of an answer that fits.
pub proof fn law_datagrams_fit(resp: Seq<u8>)
    ensures
        resp.len() <= 4096 ==> wire::truncated(resp, MAX_UDP_DNS as int) == resp,
        resp.len() > 4096 ==> wire::truncated(resp, MAX_UDP_DNS as int).len() == 4096
            && wire::truncated(resp, MAX_UDP_DNS as int)[2] & 2u8 == 2u8,
{
    if resp.len() > 4096 {
        wire::law_truncation(resp, MAX_UDP_DNS as int);
    }
}

/// Queries go to the workers in turn: each to the worker after the one before
/// it, and after the last worker to the first.
pub proof fn law_workers_take_turns(turn: usize, workers: usize)
    requires
        workers > 0,
        turn < usize::MAX,
    ensures
        ({
            let first = turn as int % workers as int;
            let second = provider::next_count(turn) as int % workers as int;
            second == (if first + 1 < workers {
                first + 1
            } else {
                0
            })
        }),
{
    let w = workers as int;
    let t = turn as int;
    vstd::arithmetic::div_mod::lemma_fundamental_div_mod(t, w);
    let q = t / w;
    let m = t % w;
    assert(t == w * q + m);
    if m + 1 < w {
        vstd::arithmetic::div_mod::lemma_fundamental_div_mod_converse(t + 1, w, q, m + 1);
    } else {
        assert(t + 1 == w * (q + 1)) by (nonlinear_arith)
            requires
                t == w * q + m,
                m + 1 == w,
        ;
        vstd::arithmetic::div_mod::lemma_fundamental_div_mod_converse(t + 1, w, q + 1, 0);
    }
}

/// The settings are due to be looked at half a second after the last look, and
/// at no time before.
pub proof fn law_settings_are_due(settings: RelaySettings, now: u128)
    ensures
        settings.due(now) <==> now >= settings.last_check + 500_000_000,
{
}

/// A response with a record that must not be kept is not cached at all.
pub proof fn law_zero_ttl_responses_are_not_cached(
    before: Map<Seq<u8>, Cached>,
    query: Seq<u8>,
    msg: encoding::Message,
    resp: Vec<u8>,
    now: int,
    after: Map<Seq<u8>, Cached>,
    i: int,
)
    requires
        encoding::valid_message(msg),
        0 <= i < encoding::all_records(msg).len(),
        encoding::all_records(msg)[i].ttl == 0,
        resp@ == encoding::encode_message(msg),
        cached_outcome(before, query, Ok(resp), now, after),
    ensures
        after == before,
{
    let t = choose|t: Option<u32>| #[trigger]
        wire::is_message_ttl(resp@, t) && after == cache_after_answer(before, query, resp@, t, now);
    encoding::law_ttl_is_the_least_of_all_records(msg, t);
}

/// A response to one query leaves the answers to all that differ from it in any
/// byte behind the ID as they were, while the cache has room.
pub proof fn law_answers_leave_others_alone(
    before: Map<Seq<u8>, Cached>,
    query: Seq<u8>,
    outcome: Result<Vec<u8>, String>,
    now: int,
    after: Map<Seq<u8>, Cached>,
    other: Seq<u8>,
    later: int,
)
    requires
        cached_outcome(before, query, outcome, now, after),
        query.len() >= 2,
        other.len() != query.len() || exists|i: int|
            2 <= i < query.len() && other[i] != #[trigger] query[i],
        before.dom().len() < 2048,
    ensures
        cache::cache_lookup(after, other, later) == cache::cache_lookup(before, other, later),
{
    if let Ok(resp) = outcome {
        let t = choose|t: Option<u32>| #[trigger]
            wire::is_message_ttl(resp@, t) && after == cache_after_answer(
                before,
                query,
                resp@,
                t,
                now,
            );
        if let Some(ttl) = t {
            cache::law_other_questions_keep_their_answers(
                before,
                query,
                resp@,
                ttl,
                now,
                other,
                later,
            );
        }
    }
}

/// The limits of a relay: eight workers with 64 waiting queries each, four
/// connections for DNS over TLS, and 32 TCP clients.
pub proof fn law_relay_limits()
    ensures
        UPLINK_WORKERS == 8,
        WORKER_QUEUE == 64,
        DOT_CONNS == 4,
        TCP_MAX_CONNS == 32,
        DISPATCH_NAP_MILLIS == 10,
        ACCEPT_IDLE_MILLIS == 50,
        ACCEPT_ERROR_MILLIS == 200,
{
}

} // verus!
