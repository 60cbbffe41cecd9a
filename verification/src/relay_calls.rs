//! Laws of the calls that the relay is made of: settings, queries and answers,
//! the steps of its loops, and its connections.

use vstd::prelude::*;
use vstd::utf8;

use crate::cache;
use crate::cache::DnsCache;
use crate::calls;
use crate::clock;
use crate::config;
use crate::config::Config;
use crate::config::check_reload;
use crate::doh::DohOutcome;
use crate::doh::DohRequest;
use crate::doh::doh_request;
use crate::doh::doh_resolve_fallible;
use crate::dot;
use crate::dot::DotAction;
use crate::dot::DotConn;
use crate::dot::DotEvent;
use crate::dot::DotPool;
use crate::dot::DotPoolAction;
use crate::dot::dot_next;
use crate::dot::dot_query;
use crate::dot::frame_len;
use crate::encoding;
use crate::provider;
use crate::provider::DnsMode;
use crate::provider::DnsProvider;
use crate::provider::DnsStrategy;
use crate::provider::FailoverState;
use crate::quad9;
use crate::quad9::Quad9Action;
use crate::quad9::Quad9Conn;
use crate::quad9::Quad9Pool;
use crate::relay;
use crate::relay::DispatchStep;
use crate::relay::RelaySettings;
use crate::relay::Resolution;
use crate::relay::SendOutcome;
use crate::relay::answer_at;
use crate::relay::dispatch_offered;
use crate::relay::dispatch_rested;
use crate::relay::dispatch_udp;
use crate::relay::resolve_at;
use crate::relay::udp_reply;
use crate::tcp;
use crate::tcp::ConnCount;
use crate::tcp::ListenEvent;
use crate::tcp::ListenStep;
use crate::tcp::ReadEvent;
use crate::tcp::ReadExact;
use crate::tcp::ReadStep;
use crate::tcp::TcpEvent;
use crate::tcp::TcpStep;
use crate::tcp::listen_next;
use crate::tcp::tcp_next;
use crate::text;
use crate::udp::UdpEvent;
use crate::udp::UdpStep;
use crate::udp::run_proxy_loop;
use crate::udp::udp_next;
use crate::wire;

verus! {

// ── Settings ───────────────────────────────────────────────────────────

/// `with_flags`: whatever flags are given together, each setting is its own flag
/// where that is given, and the stored one where it is not.
pub proof fn law_with_flags(
    c: Config,
    mode: Option<String>,
    provider: Option<String>,
    strategy: Option<String>,
    r: Config,
)
    requires
        call_ensures(Config::with_flags, (c, mode, provider, strategy), r),
    ensures
        mode matches Some(m) ==> r.mode == m,
        mode is None ==> r.mode == c.mode,
        provider matches Some(p) ==> r.provider == p,
        provider is None ==> r.provider == c.provider,
        strategy matches Some(s) ==> r.strategy == s,
        strategy is None ==> r.strategy == c.strategy,
{
}

/// `merged`: whatever fields a request has together, each setting is its own
/// field where that is not empty, and the old one where it is.
pub proof fn law_merged(c: &Config, mode: String, provider: String, strategy: String, r: Config)
    requires
        call_ensures(Config::merged, (c, mode, provider, strategy), r),
    ensures
        mode@.len() > 0 ==> r.mode == mode,
        mode@.len() == 0 ==> r.mode == c.mode,
        provider@.len() > 0 ==> r.provider == provider,
        provider@.len() == 0 ==> r.provider == c.provider,
        strategy@.len() > 0 ==> r.strategy == strategy,
        strategy@.len() == 0 ==> r.strategy == c.strategy,
{
}

/// Settings that could be read are used as they are; where none could be read
/// the defaults are, and a relay that goes by these asks Cloudflare alone, over
/// HTTPS. A strategy that is missing from stored settings is a single provider.
pub proof fn law_loaded_settings(
    stored: Option<Config>,
    c: Config,
    now: u128,
    r: RelaySettings,
    mode: String,
    provider: String,
    strategy: Option<String>,
    s: Config,
)
    requires
        call_ensures(Config::load, (stored,), c),
        call_ensures(RelaySettings::new, (c, now), r),
        call_ensures(Config::stored, (mode, provider, strategy), s),
    ensures
        stored matches Some(d) ==> c == d,
        stored is None ==> r.mode == DnsMode::DoH && r.provider == DnsProvider::Cloudflare
            && r.strategy == DnsStrategy::Single,
        r.config == c,
        r.last_check == now,
        s.mode == mode && s.provider == provider,
        strategy matches Some(t) ==> s.strategy == t,
        strategy is None ==> s.strategy@ == "single"@,
{
    if stored is None {
        config::law_defaults_select(c, r.mode, r.provider, r.strategy);
    }
}

/// Settings that name what they select, in any letter case, are what a relay
/// goes by.
pub proof fn law_settings_are_gone_by(c: Config, now: u128, r: RelaySettings)
    requires
        call_ensures(RelaySettings::new, (c, now), r),
        utf8::is_ascii_chars(c.mode@),
        utf8::is_ascii_chars(c.provider@),
        utf8::is_ascii_chars(c.strategy@),
    ensures
        r.mode == DnsMode::DoT <==> text::in_any_case(c.mode@, "dot"@),
        r.provider == DnsProvider::Google <==> text::in_any_case(c.provider@, "google"@),
        r.provider == DnsProvider::Quad9 <==> text::in_any_case(c.provider@, "quad9"@),
        r.strategy == DnsStrategy::RoundRobin <==> text::in_any_case(c.strategy@, "round-robin"@),
        r.strategy == DnsStrategy::Failover <==> text::in_any_case(c.strategy@, "failover"@),
{
}

/// Settings that are read while a relay runs are taken over where they select
/// its mode: then provider and strategy are theirs. Where they select the other
/// mode they are handed back and nothing changes.
pub proof fn law_check_reload(
    cfg: Config,
    expected: DnsMode,
    p: &mut DnsProvider,
    s: &mut DnsStrategy,
    r: Option<Config>,
)
    requires
        call_ensures(check_reload, (cfg, expected, p, s), r),
        utf8::is_ascii_chars(cfg.mode@),
        utf8::is_ascii_chars(cfg.provider@),
        utf8::is_ascii_chars(cfg.strategy@),
    ensures
        r is None <==> (expected == DnsMode::DoT <==> text::in_any_case(cfg.mode@, "dot"@)),
        r matches Some(c) ==> c == cfg && *final(p) == *old(p) && *final(s) == *old(s),
        r is None ==> {
            &&& *final(p) == DnsProvider::Google <==> text::in_any_case(cfg.provider@, "google"@)
            &&& *final(p) == DnsProvider::Quad9 <==> text::in_any_case(cfg.provider@, "quad9"@)
            &&& *final(s) == DnsStrategy::RoundRobin <==> text::in_any_case(
                cfg.strategy@,
                "round-robin"@,
            )
            &&& *final(s) == DnsStrategy::Failover <==> text::in_any_case(
                cfg.strategy@,
                "failover"@,
            )
        },
{
}

/// A relay that took a look at the settings is not due for another one for half
/// a second. A look never changes its mode; it either takes all of the new
/// settings over or keeps all of its own.
pub proof fn law_reload(
    a: &mut RelaySettings,
    cfg: Config,
    now: u128,
    r: Option<Config>,
    b: &RelaySettings,
    later: u128,
    due: bool,
)
    requires
        call_ensures(RelaySettings::reload, (a, cfg, now), r),
        call_ensures(RelaySettings::reload_due, (b, later), due),
        *b == *final(a),
        old(a).wf(),
    ensures
        due <==> later >= now + 500_000_000,
        final(a).mode == old(a).mode,
        r is None ==> final(a).config == cfg,
        r matches Some(c) ==> c == cfg && final(a).config == old(a).config && final(a).provider
            == old(a).provider && final(a).strategy == old(a).strategy,
        cfg == old(a).config ==> r is None,
{
}

// ── Queries and answers ────────────────────────────────────────────────

/// An answer that the upstream gave is given again by `resolve_at` to every query
/// that differs in its ID alone, under that ID, while the TTLs of all records
/// and an hour last; after that the upstream is asked again.
pub proof fn law_answer_then_resolve(
    query: &[u8],
    target: DnsProvider,
    strategy: DnsStrategy,
    resp: Vec<u8>,
    failover: &mut FailoverState,
    put: &mut DnsCache,
    now: u128,
    a: Vec<u8>,
    msg: encoding::Message,
    other: &[u8],
    get: &mut DnsCache,
    later: u128,
    r: Resolution,
)
    requires
        call_ensures(answer_at, (query, target, strategy, Ok(resp), failover, put, now), a),
        call_ensures(resolve_at, (other, get, later), r),
        *old(get) == *final(put),
        calls::same_question(query@, other@),
        encoding::valid_message(msg),
        encoding::all_records(msg).len() > 0,
        resp@ == encoding::encode_message(msg),
        forall|i: int|
            0 <= i < encoding::all_records(msg).len() ==> (#[trigger] encoding::all_records(
                msg,
            )[i]).ttl > 0,
    ensures
        a@ == query@.take(2) + resp@.skip(2),
        final(failover)@ == old(failover)@,
        (later - now < 3_600_000_000_000 && forall|i: int|
            0 <= i < encoding::all_records(msg).len() ==> later - now < (
            #[trigger] encoding::all_records(msg)[i]).ttl * 1_000_000_000) ==> (r matches
            Resolution::Answer(b) && b@ == other@.take(2) + resp@.skip(2)),
        (later - now >= 3_600_000_000_000 || exists|i: int|
            0 <= i < encoding::all_records(msg).len() && later - now >= (
            #[trigger] encoding::all_records(msg)[i]).ttl * 1_000_000_000) ==> r is Ask,
{
    calls::lemma_same_bytes(query@, other@);
    relay::law_answers_are_reused(
        old(put)@,
        query@,
        msg,
        resp,
        now as int,
        final(put)@,
        other@,
        later as int,
        r,
    );
    assert(encoding::encode_header(msg).len() == 12);
    assert(a@ =~= query@.take(2) + resp@.skip(2));
}

/// A failure is answered with SERVFAIL under the query's ID, is never cached,
/// and moves the failover target where it was the target that failed under
/// failover.
pub proof fn law_answer_to_a_failure(
    query: &[u8],
    target: DnsProvider,
    strategy: DnsStrategy,
    error: String,
    failover: &mut FailoverState,
    put: &mut DnsCache,
    now: u128,
    a: Vec<u8>,
)
    requires
        call_ensures(
            answer_at,
            (query, target, strategy, Err::<Vec<u8>, String>(error), failover, put, now),
            a,
        ),
    ensures
        final(put)@ == old(put)@,
        final(failover)@ != old(failover)@ <==> strategy == DnsStrategy::Failover && target == old(
            failover,
        )@,
        query@.len() >= 12 ==> a@.len() >= 12 && a@[0] == query@[0] && a@[1] == query@[1] && a@[2]
            >= 128 && a@[3] == 130,
        query@.len() < 12 ==> a@ == query@,
{
    relay::law_answers_byte_by_byte(query@, Err::<Vec<u8>, String>(error));
    provider::law_failover_order(old(failover)@, target, strategy);
}

/// A datagram holds all of an answer of up to 4096 bytes; of a longer one the
/// first 4096, with the TC bit set.
pub proof fn law_udp_reply(resp: Vec<u8>, r: Vec<u8>)
    requires
        call_ensures(udp_reply, (resp,), r),
    ensures
        resp@.len() <= 4096 ==> r@ == resp@,
        resp@.len() > 4096 ==> {
            &&& r@.len() == 4096
            &&& forall|i: int| 0 <= i < 4096 && i != 2 ==> #[trigger] r@[i] == resp@[i]
            &&& r@[2] & 2u8 == 2u8
            &&& r@[2] & 253u8 == resp@[2] & 253u8
        },
{
    relay::law_datagrams_fit(resp@);
    wire::law_truncation_bytes(resp@, 4096);
    if resp@.len() > 4096 {
        wire::law_truncation(resp@, 4096);
    }
}

// ── Dispatching ────────────────────────────────────────────────────────

/// Queries that follow each other are offered to workers that follow each other,
/// and after a rest the next worker is tried, unless the relay is to stop. An
/// offer that was taken is the end of it, a full queue means a rest, and a
/// worker that is gone the end of the relay.
pub proof fn law_dispatch(
    a: &mut usize,
    b: &mut usize,
    workers: usize,
    running: bool,
    first: DispatchStep,
    second: DispatchStep,
    outcome: SendOutcome,
    after: DispatchStep,
)
    requires
        workers > 0,
        call_ensures(dispatch_udp, (a, workers), first),
        call_ensures(dispatch_rested, (running, b, workers), second),
        call_ensures(dispatch_offered, (outcome,), after),
        *old(b) == *final(a),
        *old(a) < usize::MAX,
    ensures
        first matches DispatchStep::TrySend(i) && i < workers && (running ==> (second matches
            DispatchStep::TrySend(j) && j == (if i + 1 < workers {
            i + 1
        } else {
            0
        }))),
        *final(a) == *old(a) + 1,
        !running ==> second == DispatchStep::Done(false) && *final(b) == *old(b),
        outcome == SendOutcome::Sent <==> after == DispatchStep::Done(true),
        outcome == SendOutcome::Full <==> after == DispatchStep::Nap,
        outcome == SendOutcome::Disconnected <==> after == DispatchStep::Done(false),
{
    relay::law_workers_take_turns(*old(a), workers);
}

// ── DNS over HTTPS ─────────────────────────────────────────────────────

/// A query is posted to the provider's endpoint as a DNS message, and only the
/// body of a successful response is an answer.
pub proof fn law_doh(p: DnsProvider, q: DohRequest, outcome: DohOutcome, r: Result<Vec<u8>, String>)
    requires
        call_ensures(doh_request, (p,), q),
        call_ensures(doh_resolve_fallible, (outcome,), r),
    ensures
        q.method@ == "POST"@,
        q.content_type@ == "application/dns-message"@,
        q.accept@ == "application/dns-message"@,
        q.url@ == "https://"@ + provider::provider_host(p) + "/dns-query"@,
        r is Ok <==> outcome is Body,
        outcome matches DohOutcome::Body(b) ==> r == Ok::<Vec<u8>, String>(b),
        outcome matches DohOutcome::Failed(e) ==> r == Err::<Vec<u8>, String>(e),
        outcome matches DohOutcome::Unread(e) ==> (r matches Err(m) && m@ == "read: "@ + e@),
        outcome matches DohOutcome::Status(code, e) ==> (r matches Err(m) && (code != 503 ==> m@
            == e@) && (code == 503 ==> m@ == "server 503"@)),
{
    provider::law_static_addresses_agree(p);
}

// ── DNS over TLS ───────────────────────────────────────────────────────

/// An exchange without failures: two bytes that say the query's length, the
/// query, two bytes that say the response's, and a response of that length,
/// which is the answer. A length of zero is an error.
pub proof fn law_dot_exchange(
    query: &[u8],
    first: DotAction,
    written: Vec<u8>,
    second: DotAction,
    third: DotAction,
    len: Vec<u8>,
    fourth: DotAction,
    body: Vec<u8>,
    fifth: DotAction,
)
    requires
        call_ensures(dot_query, (query,), first),
        call_ensures(dot_next, (first, DotEvent::Done(written)), second),
        call_ensures(dot_next, (second, DotEvent::Done(written)), third),
        call_ensures(dot_next, (third, DotEvent::Done(len)), fourth),
        len@.len() == 2,
        fourth is ReadBody ==> call_ensures(dot_next, (fourth, DotEvent::Done(body)), fifth),
    ensures
        first matches DotAction::WriteLen(p) && p@.len() == 2 && p@[0] * 256 + p@[1]
            == query@.len() % 65536,
        second is WriteQuery,
        third is ReadLen,
        len@[0] == 0 && len@[1] == 0 ==> (fourth matches DotAction::Finish(Err(e)) && e@
            == "empty response"@),
        !(len@[0] == 0 && len@[1] == 0) ==> {
            &&& fourth matches DotAction::ReadBody(n) && n == len@[0] * 256 + len@[1]
            &&& fifth == DotAction::Finish(Ok(body))
        },
{
    dot::law_length_prefix_bytes(query@.len());
}

/// A failure ends an exchange, and says whether it was in writing or in reading.
pub proof fn law_dot_failures(action: DotAction, error: String, r: DotAction)
    requires
        call_ensures(dot_next, (action, DotEvent::Failed(error)), r),
        !(action is Finish),
    ensures
        r matches DotAction::Finish(Err(m)) && m@ == (if action is WriteLen || action
            is WriteQuery {
            "write: "@
        } else {
            "read: "@
        }) + error@,
{
}

/// The length prefix of a message of up to 65535 bytes says its length.
pub proof fn law_frame_len(len: usize, r: [u8; 2])
    requires
        call_ensures(frame_len, (len,), r),
    ensures
        r@[0] * 256 + r@[1] == len as int % 65536,
{
    dot::law_length_prefix_bytes(len as nat);
}

/// A connection that answered is what the next query to the same provider on
/// that slot gets; after a failure, and for another provider, one is made. Other
/// slots are not touched.
pub proof fn law_dot_pool<S>(
    a: &mut DotPool<S>,
    slot: usize,
    conn: DotConn<S>,
    outcome: Result<Vec<u8>, String>,
    r: Result<Vec<u8>, String>,
    b: &mut DotPool<S>,
    p: DnsProvider,
    action: DotPoolAction<S>,
    other: int,
)
    requires
        slot < old(a)@.slots.len(),
        call_ensures(DotPool::<S>::answered, (a, slot, conn, outcome), r),
        call_ensures(DotPool::<S>::query, (b, slot, p), action),
        *old(b) == *final(a),
    ensures
        r == outcome,
        outcome is Ok && p == conn.provider ==> action == DotPoolAction::Exchange(conn),
        outcome is Err || p != conn.provider ==> action is Connect,
        final(b)@.slots.len() == old(a)@.slots.len(),
        0 <= other < old(a)@.slots.len() && other != slot ==> final(b)@.slots[other] == old(
            a,
        )@.slots[other],
        action is Exchange ==> final(b)@.slots[slot as int] is None,
        action is Connect ==> final(b)@.slots == old(b)@.slots,
        final(b)@.next == old(a)@.next,
{
}

/// A new connection is used at once and takes the slot from what was there; one
/// that could not be made ends the query and changes nothing.
pub proof fn law_dot_connected<S>(
    a: &mut DotPool<S>,
    slot: usize,
    p: DnsProvider,
    outcome: Result<S, String>,
    action: DotPoolAction<S>,
    other: int,
)
    requires
        slot < old(a)@.slots.len(),
        call_ensures(DotPool::<S>::connected, (a, slot, p, outcome), action),
    ensures
        outcome matches Ok(stream) ==> action == DotPoolAction::Exchange(
            DotConn { stream, provider: p },
        ) && final(a)@.slots[slot as int] is None,
        outcome matches Err(e) ==> action == DotPoolAction::<S>::Fail(e) && final(a)@ == old(a)@,
        0 <= other < old(a)@.slots.len() && other != slot ==> final(a)@.slots[other] == old(
            a,
        )@.slots[other],
        final(a)@.next == old(a)@.next,
{
}

/// Queries that follow each other take slots that follow each other, the first
/// after the last. A new pool has as many empty slots as asked for.
pub proof fn law_dot_slots<S>(
    size: usize,
    new: DotPool<S>,
    a: &mut DotPool<S>,
    b: &mut DotPool<S>,
    i: usize,
    j: usize,
    k: int,
)
    requires
        call_ensures(DotPool::<S>::new, (size,), new),
        call_ensures(DotPool::<S>::next_slot, (a,), i),
        call_ensures(DotPool::<S>::next_slot, (b,), j),
        *old(b) == *final(a),
        old(a)@.slots.len() > 0,
        old(a)@.next < usize::MAX,
    ensures
        i < old(a)@.slots.len(),
        j == (if i + 1 < old(a)@.slots.len() {
            i + 1
        } else {
            0
        }),
        final(a)@.slots == old(a)@.slots,
        new@.slots.len() == size,
        0 <= k < size ==> new@.slots[k] is None,
{
    dot::law_next_slot_is_the_next(old(a)@, final(a)@);
}

// ── Quad9 ──────────────────────────────────────────────────────────────

/// A connection that a query put back into an empty pool is what the next query
/// gets within 15 seconds; later, one is made and the old one is gone.
pub proof fn law_quad9_reuse<S>(
    a: &mut Quad9Pool<S>,
    attempt: u8,
    body: Vec<u8>,
    send: S,
    now: u128,
    done: Quad9Action<S>,
    b: &mut Quad9Pool<S>,
    later: u128,
    next: Quad9Action<S>,
)
    requires
        call_ensures(Quad9Pool::<S>::sent, (a, attempt, Ok((body, send)), now), done),
        call_ensures(Quad9Pool::<S>::query, (b, later), next),
        *old(b) == *final(a),
        old(a)@.len() == 0,
        attempt < 2,
    ensures
        done == Quad9Action::<S>::Finish(Ok(body)),
        later < now + 15_000_000_000 ==> next == Quad9Action::Send(
            Quad9Conn { send, created: now },
        ),
        later >= now + 15_000_000_000 ==> next is Connect,
        final(b)@.len() == 0,
{
    quad9::law_taking_splits_the_pool(old(b)@, later);
    let c = Quad9Conn { send, created: now };
    assert(old(b)@ =~= seq![c]);
    assert(old(b)@[0] == c);
}

/// A query takes the first connection that is less than 15 seconds old and leaves
/// those behind it in the pool; those before it are dropped, and all are where
/// none is young enough.
pub proof fn law_quad9_take<S>(
    a: &mut Quad9Pool<S>,
    b: &mut Quad9Pool<S>,
    now: u128,
    r: Option<Quad9Conn<S>>,
    q: Quad9Action<S>,
    empty: Quad9Pool<S>,
)
    requires
        call_ensures(Quad9Pool::<S>::take, (a, now), r),
        call_ensures(Quad9Pool::<S>::query, (b, now), q),
        call_ensures(Quad9Pool::<S>::new, (), empty),
        *old(b) == *old(a),
    ensures
        empty@.len() == 0,
        final(b)@ == final(a)@,
        r matches Some(c) ==> q == Quad9Action::Send(c),
        r is None ==> q is Connect,
        r is None ==> final(a)@.len() == 0 && forall|j: int|
            0 <= j < old(a)@.len() ==> now >= (#[trigger] old(a)@[j]).created + 15_000_000_000,
        r matches Some(c) ==> exists|i: int|
            {
                &&& 0 <= i < old(a)@.len()
                &&& #[trigger] old(a)@[i] == c
                &&& now < c.created + 15_000_000_000
                &&& final(a)@ == old(a)@.subrange(i + 1, old(a)@.len() as int)
                &&& forall|j: int|
                    0 <= j < i ==> now >= (#[trigger] old(a)@[j]).created + 15_000_000_000
            },
{
    quad9::law_taking_splits_the_pool(old(a)@, now);
}

/// A query has two attempts: the first failure empties the pool and asks for a
/// new connection, the second is the end, and so is a connection that cannot be
/// made.
pub proof fn law_quad9_failures<S>(
    a: &mut Quad9Pool<S>,
    attempt: u8,
    error: String,
    now: u128,
    r: Quad9Action<S>,
    p: &Quad9Pool<S>,
    outcome: Result<S, String>,
    c: Quad9Action<S>,
)
    requires
        call_ensures(
            Quad9Pool::<S>::sent,
            (a, attempt, Err::<(Vec<u8>, S), String>(error), now),
            r,
        ),
        call_ensures(Quad9Pool::<S>::connected, (p, outcome, now), c),
        attempt < 2,
    ensures
        attempt == 0 ==> r is Connect && final(a)@.len() == 0,
        attempt == 1 ==> r == Quad9Action::<S>::Finish(Err(error)) && final(a)@ == old(a)@,
        outcome matches Ok(send) ==> c == Quad9Action::Send(Quad9Conn { send, created: now }),
        outcome matches Err(e) ==> c == Quad9Action::<S>::Finish(Err(e)),
{
}

// ── TCP ────────────────────────────────────────────────────────────────

/// What a client is served over TCP: a length, a query of that length, its
/// resolution with the provider that the strategy picks, and the answer behind
/// its length. An empty query and a failure end it; a query too short for a
/// header and an answer too long for TCP are passed over.
pub proof fn law_tcp(
    event: TcpEvent,
    strategy: DnsStrategy,
    p: DnsProvider,
    failover: &FailoverState,
    counter: &mut usize,
    r: TcpStep,
)
    requires
        call_ensures(tcp_next, (event, strategy, p, failover, counter), r),
    ensures
        event matches TcpEvent::Len(b) ==> {
            &&& b@[0] == 0 && b@[1] == 0 <==> r is Close
            &&& !(b@[0] == 0 && b@[1] == 0) ==> (r matches TcpStep::ReadQuery(n) && n == b@[0] * 256
                + b@[1])
        },
        event matches TcpEvent::Query(q) ==> {
            &&& q@.len() < 12 ==> r is ReadLen
            &&& q@.len() >= 12 ==> (r matches TcpStep::Resolve(asked, target) && asked == q && (
            strategy == DnsStrategy::Single ==> target == p) && (strategy == DnsStrategy::Failover
                ==> target == failover@) && (strategy == DnsStrategy::RoundRobin && *old(counter)
                % 3 == 0 ==> target == DnsProvider::Cloudflare) && (strategy
                == DnsStrategy::RoundRobin && *old(counter) % 3 == 1 ==> target
                == DnsProvider::Google) && (strategy == DnsStrategy::RoundRobin && *old(counter)
                % 3 == 2 ==> target == DnsProvider::Quad9))
        },
        event matches TcpEvent::Answer(a) ==> {
            &&& a@.len() > 65535 ==> r is ReadLen
            &&& a@.len() <= 65535 ==> (r matches TcpStep::Write(w) && w@.len() == a@.len() + 2
                && w@[0] * 256 + w@[1] == a@.len() && w@.skip(2) == a@)
        },
        event is Written ==> r is ReadLen,
        event is Failed ==> r is Close,
        *final(counter) != *old(counter) <==> r is Resolve && strategy == DnsStrategy::RoundRobin,
        *final(counter) != *old(counter) && *old(counter) < usize::MAX ==> *final(counter) == *old(
            counter,
        ) + 1,
{
    provider::law_round_robin_takes_turns(0);
    provider::law_round_robin_takes_turns(1);
    provider::law_counter_advances(*old(counter));
    if let TcpEvent::Answer(a) = event {
        if a@.len() <= 65535 {
            tcp::law_frame_bytes(a@);
            tcp::law_frame_round_trip(a@);
        }
    }
}

/// The listener serves at most 32 clients at once, looks at the settings when
/// that is due, ends when it is told to, hands settings for the other mode over,
/// and otherwise goes round.
pub proof fn law_listen(
    settings: &mut RelaySettings,
    event: ListenEvent,
    conns: &mut ConnCount,
    now: u128,
    r: ListenStep,
)
    requires
        call_ensures(listen_next, (settings, event, conns, now), r),
        old(settings).wf(),
        old(conns)@ <= 32,
    ensures
        final(conns)@ <= 32,
        event is Accepted && old(conns)@ < 32 ==> r == ListenStep::Serve(
            old(settings).strategy,
            old(settings).provider,
        ) && final(conns)@ == old(conns)@ + 1,
        event is Accepted && old(conns)@ == 32 ==> r is Drop,
        !(r is Serve) ==> final(conns)@ == old(conns)@,
        event matches ListenEvent::Running(b) ==> {
            &&& !b ==> r is Finish
            &&& b && now >= old(settings).last_check + 500_000_000 ==> r is ReadConfig
            &&& b && now < old(settings).last_check + 500_000_000 ==> r is Accept
        },
        event is NoClient ==> r == ListenStep::Nap(50),
        event is Failed ==> r == ListenStep::Nap(200),
        event is Done ==> r is CheckRunning,
        event matches ListenEvent::ConfigRead(c) ==> (r is Accept && final(settings).config == c
            || r == ListenStep::Swap(c) && final(settings).config == old(settings).config),
        !(event is ConfigRead) ==> *final(settings) == *old(settings),
{
}

/// The number of clients goes up by one for each that is let in, never above 32,
/// and down by one for each that leaves.
pub proof fn law_conn_count(a: &mut ConnCount, opened: bool, b: &mut ConnCount)
    requires
        call_ensures(ConnCount::open, (a,), opened),
        call_ensures(ConnCount::close, (b,), ()),
        *old(b) == *final(a),
        opened,
    ensures
        old(a)@ < 32,
        final(a)@ == old(a)@ + 1,
        final(b)@ == old(a)@,
{
}

/// A read goes on with what is missing after each piece, is done when nothing
/// is, repeats after an interruption, and fails at the end of the stream.
pub proof fn law_read_step(a: &mut ReadExact, event: ReadEvent, r: ReadStep)
    requires
        call_ensures(ReadExact::step, (a, event), r),
        old(a).got@.len() < old(a).want,
    ensures
        event matches ReadEvent::Bytes(b) ==> {
            &&& final(a).got@ == old(a).got@ + b@
            &&& b@.len() == 0 ==> r is UnexpectedEof
            &&& b@.len() > 0 && final(a).got@.len() == old(a).want ==> r is Done
            &&& b@.len() > 0 && final(a).got@.len() < old(a).want ==> (r matches ReadStep::Read(n)
                && n + final(a).got@.len() == old(a).want)
        },
        event is Interrupted ==> final(a).got@ == old(a).got@ && (r matches ReadStep::Read(n) && n
            + old(a).got@.len() == old(a).want),
        event matches ReadEvent::Failed(e) ==> r == ReadStep::Failed(e),
        final(a).want == old(a).want,
{
}

// ── UDP ────────────────────────────────────────────────────────────────

/// A round of the UDP loop: the settings where they are due, a swap that the TCP
/// side found, the request to stop, a datagram, and its dispatch, in that order;
/// each may end the loop. What is too short for a header begins a new round.
pub proof fn law_udp<A>(
    settings: &mut RelaySettings,
    event: UdpEvent<A>,
    failover: &FailoverState,
    counter: &mut usize,
    now: u128,
    r: UdpStep<A>,
    b: &RelaySettings,
    round: UdpStep<A>,
)
    requires
        call_ensures(udp_next::<A>, (settings, event, failover, counter, now), r),
        call_ensures(run_proxy_loop::<A>, (b, now), round),
        *b == *old(settings),
        old(settings).wf(),
    ensures
        round is ReadConfig <==> now >= old(settings).last_check + 500_000_000,
        round is PollSwap <==> now < old(settings).last_check + 500_000_000,
        event matches UdpEvent::ConfigRead(c) ==> (r is PollSwap && final(settings).config == c
            || r == UdpStep::<A>::Finish(Some(c)) && final(settings).config == old(
            settings,
        ).config),
        event matches UdpEvent::Swap(s) ==> (s is None ==> r is CheckRunning) && (s is Some ==> r
            == UdpStep::<A>::Finish(s)),
        event matches UdpEvent::Running(go) ==> (go ==> r is Receive) && (!go ==> r
            == UdpStep::<A>::Finish(None)),
        event matches UdpEvent::Datagram(q, src) ==> {
            &&& q@.len() < 12 ==> r == round
            &&& q@.len() >= 12 ==> (r matches UdpStep::Dispatch(job) && job.query@ == q@ && job.src
                == src && job.strategy == old(settings).strategy && (job.strategy
                == DnsStrategy::Single ==> job.target == old(settings).provider) && (job.strategy
                == DnsStrategy::Failover ==> job.target == failover@) && (job.strategy
                == DnsStrategy::RoundRobin && *old(counter) % 3 == 0 ==> job.target
                == DnsProvider::Cloudflare) && (job.strategy == DnsStrategy::RoundRobin && *old(
                counter,
            ) % 3 == 1 ==> job.target == DnsProvider::Google) && (job.strategy
                == DnsStrategy::RoundRobin && *old(counter) % 3 == 2 ==> job.target
                == DnsProvider::Quad9))
        },
        event is Nothing ==> r == round,
        event matches UdpEvent::Dispatched(sent) ==> (sent ==> r == round) && (!sent ==> r
            == UdpStep::<A>::Finish(None)),
        *final(counter) != *old(counter) <==> r is Dispatch && old(settings).strategy
            == DnsStrategy::RoundRobin,
        *final(counter) != *old(counter) && *old(counter) < usize::MAX ==> *final(counter) == *old(
            counter,
        ) + 1,
        !(event is ConfigRead) ==> *final(settings) == *old(settings),
{
    provider::law_round_robin_takes_turns(0);
    provider::law_round_robin_takes_turns(1);
    provider::law_counter_advances(*old(counter));
}

/// A read of some bytes begins with nothing got: it asks for all of them, or is
/// done where none are wanted. A client and the listener begin at their first
/// steps.
pub proof fn law_beginnings(
    want: usize,
    r: (ReadExact, ReadStep),
    first: TcpStep,
    listen: ListenStep,
    count: ConnCount,
)
    requires
        call_ensures(tcp::read_exact, (want,), r),
        call_ensures(tcp::handle_tcp_conn, (), first),
        call_ensures(tcp::spawn_tcp_thread, (), listen),
        call_ensures(ConnCount::new, (), count),
    ensures
        r.0.got@.len() == 0 && r.0.want == want,
        want > 0 ==> r.1 == ReadStep::Read(want),
        want == 0 ==> r.1 is Done,
        first is ReadLen,
        listen is CheckRunning,
        count@ == 0,
{
}

/// A resolution by the clock answers only what is stored for the question, under
/// the query's ID, and an answer by the clock is the upstream's, or SERVFAIL,
/// under the query's ID; a failure is not cached.
pub proof fn law_by_the_clock(
    query: &[u8],
    a: &mut DnsCache,
    r: Resolution,
    target: DnsProvider,
    strategy: DnsStrategy,
    outcome: Result<Vec<u8>, String>,
    failover: &mut FailoverState,
    b: &mut DnsCache,
    answer: Vec<u8>,
)
    requires
        call_ensures(relay::resolve, (query, a), r),
        call_ensures(relay::answer, (query, target, strategy, outcome, failover, b), answer),
        query@.len() >= 12,
    ensures
        r matches Resolution::Answer(x) ==> exists|now: int|
            {
                &&& #[trigger] cache::cache_lookup(old(a)@, query@, now) is Some
                &&& x@.len() == cache::cache_lookup(old(a)@, query@, now)->0.len()
                &&& x@.len() >= 2 ==> x@.take(2) == query@.take(2)
                &&& forall|i: int|
                    2 <= i < x@.len() ==> #[trigger] x@[i] == cache::cache_lookup(
                        old(a)@,
                        query@,
                        now,
                    )->0[i]
            },
        r is Ask ==> exists|now: int|
            #[trigger] cache::cache_lookup(old(a)@, query@, now) is None,
        answer@.len() >= 2 ==> answer@[0] == query@[0] && answer@[1] == query@[1],
        outcome matches Ok(resp) ==> answer@.len() == resp@.len() && final(failover)@ == old(
            failover,
        )@ && forall|i: int| 2 <= i < answer@.len() ==> #[trigger] answer@[i] == resp@[i],
        outcome is Err ==> answer@.len() >= 12 && answer@[3] == 130 && final(b)@ == old(b)@ && (
        final(failover)@ != old(failover)@ <==> strategy == DnsStrategy::Failover && target == old(
            failover,
        )@),
{
    let now = choose|now: int|
        0 <= now <= clock::max_clock() && #[trigger] relay::is_resolution(
            old(a)@,
            query@,
            now,
            r,
        ) && final(a)@ == cache::cache_after_lookup(old(a)@, query@, now);
    relay::law_hits_differ_in_the_id_alone(old(a)@, query@, now, r);
    relay::law_answers_byte_by_byte(query@, outcome);
    provider::law_failover_order(old(failover)@, target, strategy);
    let found = cache::cache_lookup(old(a)@, query@, now);
    if let Resolution::Answer(x) = r {
        assert(found is Some);
        if x@.len() >= 2 {
            assert(x@.take(2) =~= query@.take(2));
        }
    }
}

} // verus!
