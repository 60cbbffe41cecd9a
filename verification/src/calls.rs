//! Laws of the calls that resolving is made of: what the functions of the
//! library promise together, in terms of what goes into them and what comes out.

use vstd::prelude::*;
use vstd::utf8;

use crate::cache;
use crate::cache::Cached;
use crate::cache::DnsCache;
use crate::clock;
use crate::encoding;
use crate::provider;
use crate::provider::DnsMode;
use crate::provider::DnsProvider;
use crate::provider::DnsStrategy;
use crate::provider::DohRoute;
use crate::provider::DotTarget;
use crate::provider::FailoverState;
use crate::provider::doh_route;
use crate::provider::doh_url;
use crate::provider::dot_target;
use crate::provider::mode_of_lowercase;
use crate::provider::next_round_robin;
use crate::provider::parse_mode;
use crate::provider::parse_provider;
use crate::provider::parse_strategy;
use crate::provider::pick_target;
use crate::provider::provider_of_lowercase;
use crate::provider::static_dns_resolver;
use crate::provider::strategy_of_lowercase;
use crate::text;
use crate::wire;
use crate::wire::patch_id;
use crate::wire::response_ttl;
use crate::wire::servfail;
use crate::wire::set_tc;
use crate::wire::skip_name;

verus! {

// ── Messages ───────────────────────────────────────────────────────────

/// `skip_name` finds the end of every name that is on the wire, and nothing but
/// names has an end.
pub proof fn law_skip_name(msg: &[u8], pos: usize, r: Option<usize>, e: int)
    requires
        call_ensures(skip_name, (msg, pos), r),
    ensures
        pos <= e <= msg@.len() && encoding::is_name(msg@.subrange(pos as int, e)) ==> r is Some
            && r->0 == e,
        r matches Some(end) ==> pos < end <= msg@.len() && encoding::is_name(
            msg@.subrange(pos as int, end as int),
        ),
{
    encoding::law_name_end(msg@, pos as int, e);
    if let Some(end) = r {
        encoding::law_name_end(msg@, pos as int, end as int);
        let sub = msg@.subrange(pos as int, end as int);
        let n = choose|n: encoding::Name|
            encoding::valid_name(n) && #[trigger] encoding::encode_name(n) == sub;
        assert(encoding::encode_end(n.pointer).len() > 0);
        assert(sub.len() > 0);
    }
}

/// `response_ttl` of a message is the least TTL of all its records, and of
/// anything that is no message or has no records nothing.
pub proof fn law_response_ttl(resp: &[u8], r: Option<u32>, msg: encoding::Message)
    requires
        call_ensures(response_ttl, (resp,), r),
    ensures
        encoding::valid_message(msg) && resp@ == encoding::encode_message(msg) ==> {
            let all = encoding::all_records(msg);
            &&& r is None <==> all.len() == 0
            &&& r matches Some(t) ==> {
                &&& forall|i: int| 0 <= i < all.len() ==> t <= (#[trigger] all[i]).ttl
                &&& exists|i: int| 0 <= i < all.len() && (#[trigger] all[i]).ttl == t
            }
        },
        r is Some ==> exists|m: encoding::Message|
            encoding::valid_message(m) && #[trigger] encoding::encode_message(m) == resp@,
{
    if encoding::valid_message(msg) && resp@ == encoding::encode_message(msg) {
        encoding::law_ttl_is_the_least_of_all_records(msg, r);
    }
    if r is Some {
        encoding::law_only_messages_have_a_ttl(resp@, r);
    }
}

/// `patch_id` puts the query's first two bytes in the place of the response's,
/// where both have as many, and changes nothing else.
pub proof fn law_patch_id(resp: &mut [u8], query: &[u8])
    requires
        call_ensures(patch_id, (resp, query), ()),
    ensures
        final(resp)@.len() == old(resp)@.len(),
        forall|i: int|
            0 <= i < old(resp)@.len() ==> #[trigger] final(resp)@[i] == (if i < 2
                && old(resp)@.len() >= 2 && query@.len() >= 2 {
                query@[i]
            } else {
                old(resp)@[i]
            }),
{
    wire::law_patch_bytes(old(resp)@, query@);
}

/// `set_tc` leaves a response that fits as it is. Of a longer one it keeps as
/// many bytes as allowed, and sets the TC bit where the flags are among them.
pub proof fn law_set_tc(resp: &mut Vec<u8>, max: usize)
    requires
        call_ensures(set_tc, (resp, max), ()),
    ensures
        old(resp)@.len() <= max ==> final(resp)@ == old(resp)@,
        old(resp)@.len() > max ==> {
            &&& final(resp)@.len() == max
            &&& forall|i: int|
                0 <= i < max && i != 2 ==> #[trigger] final(resp)@[i] == old(resp)@[i]
            &&& max > 2 ==> final(resp)@[2] & 2u8 == 2u8 && final(resp)@[2] & 253u8 == old(
                resp,
            )@[2] & 253u8
        },
{
    wire::law_truncation_bytes(old(resp)@, max as int);
    if old(resp)@.len() > max && max > 2 {
        wire::law_truncation(old(resp)@, max as int);
    }
}

/// `servfail` of a query has its ID, its counts and its first question, says
/// that it is a response, keeps the recursion-desired bit and no other flag of
/// the query, offers recursion, and reports SERVFAIL. What is shorter than a
/// header is given back.
pub proof fn law_servfail(query: &[u8], r: Vec<u8>, e: int)
    requires
        call_ensures(servfail, (query,), r),
    ensures
        query@.len() < 12 ==> r@ == query@,
        query@.len() >= 12 ==> {
            &&& r@.len() >= 12
            &&& r@[0] == query@[0] && r@[1] == query@[1]
            &&& r@[2] == (if query@[2] & 1u8 == 1u8 {
                129u8
            } else {
                128u8
            })
            &&& r@[3] == 130
            &&& forall|i: int| 4 <= i < 12 ==> #[trigger] r@[i] == query@[i]
            &&& 12 <= e && e + 4 <= query@.len() && encoding::is_name(query@.subrange(12, e))
                ==> r@.skip(12) == query@.subrange(12, e + 4)
            &&& (forall|k: int|
                12 <= k && k + 4 <= query@.len() ==> !#[trigger] encoding::is_name(
                    query@.subrange(12, k),
                )) ==> r@.len() == 12
        },
{
    if query@.len() >= 12 {
        encoding::law_servfail_repeats_the_question(query@, e);
    }
}

// ── The cache ──────────────────────────────────────────────────────────

/// Whether two queries are the same but for their two ID bytes.
pub open spec fn same_question(a: Seq<u8>, b: Seq<u8>) -> bool {
    a.len() >= 2 && b.len() >= 2 && a.subrange(2, a.len() as int) == b.subrange(
        2,
        b.len() as int,
    )
}

/// What `put_at` stores for a query, `get_at` answers to every query that is the
/// same but for the ID, for as many seconds as the TTL says and for an hour at
/// most, and not from then on.
pub proof fn law_put_then_get(
    put: &mut DnsCache,
    query: &[u8],
    resp: &[u8],
    ttl: u32,
    stored_at: u128,
    get: &mut DnsCache,
    other: &[u8],
    now: u128,
    r: Option<Vec<u8>>,
)
    requires
        call_ensures(DnsCache::put_at, (put, query, resp, ttl, stored_at), ()),
        call_ensures(DnsCache::get_at, (get, other, now), r),
        *old(get) == *final(put),
        same_question(query@, other@),
        ttl > 0,
    ensures
        ({
            let secs: int = if ttl > 3600 {
                3600
            } else {
                ttl as int
            };
            if now < stored_at + secs * 1_000_000_000 {
                r matches Some(a) && a@ == resp@
            } else {
                r is None
            }
        }),
{
    lemma_same_bytes(query@, other@);
    cache::law_same_question_shares_an_answer(
        old(put)@,
        query@,
        resp@,
        ttl,
        stored_at as int,
        other@,
        now as int,
    );
}

pub proof fn lemma_same_bytes(a: Seq<u8>, b: Seq<u8>)
    requires
        same_question(a, b),
    ensures
        a.len() == b.len(),
        forall|i: int| 2 <= i < a.len() ==> b[i] == #[trigger] a[i],
{
    let x = a.subrange(2, a.len() as int);
    let y = b.subrange(2, b.len() as int);
    assert(x.len() == y.len());
    assert forall|i: int| 2 <= i < a.len() implies b[i] == #[trigger] a[i] by {
        assert(x[i - 2] == y[i - 2]);
    }
}

proof fn lemma_other_bytes(a: Seq<u8>, b: Seq<u8>)
    requires
        a.len() >= 2,
        b.len() >= 2,
        !same_question(a, b),
    ensures
        b.len() != a.len() || exists|i: int| 2 <= i < a.len() && b[i] != #[trigger] a[i],
{
    if b.len() == a.len() && forall|i: int| 2 <= i < a.len() ==> b[i] == #[trigger] a[i] {
        assert(a.subrange(2, a.len() as int) =~= b.subrange(2, b.len() as int));
    }
}

/// Storing a response for one query leaves what `get_at` answers to a query that
/// differs from it in any byte behind the ID, its type among them, as it was, as
/// long as there is room for 2048; it is forgotten where there is none.
pub proof fn law_put_leaves_others(
    before: &mut DnsCache,
    r: Option<Vec<u8>>,
    put: &mut DnsCache,
    query: &[u8],
    resp: &[u8],
    ttl: u32,
    stored_at: u128,
    get: &mut DnsCache,
    s: Option<Vec<u8>>,
    other: &[u8],
    now: u128,
)
    requires
        call_ensures(DnsCache::get_at, (before, other, now), r),
        call_ensures(DnsCache::put_at, (put, query, resp, ttl, stored_at), ()),
        call_ensures(DnsCache::get_at, (get, other, now), s),
        *old(put) == *old(before),
        *old(get) == *final(put),
        query@.len() >= 2,
        other@.len() >= 2,
        !same_question(query@, other@),
    ensures
        ttl == 0 || old(put)@.dom().len() < 2048 ==> (r is Some <==> s is Some),
        ttl == 0 || old(put)@.dom().len() < 2048 ==> (r matches Some(a) ==> a@ == s->0@),
        ttl > 0 && old(put)@.dom().len() >= 2048 ==> s is None,
{
    lemma_other_bytes(query@, other@);
    cache::law_other_questions_keep_their_answers(
        old(put)@,
        query@,
        resp@,
        ttl,
        stored_at as int,
        other@,
        now as int,
    );
}

/// A cache never holds more than 2048 responses, `get_at` never makes it hold
/// more, and what is shorter than an ID, or must not be kept, leaves it alone.
pub proof fn law_cache_size(
    put: &mut DnsCache,
    query: &[u8],
    resp: &[u8],
    ttl: u32,
    now: u128,
    get: &mut DnsCache,
    other: &[u8],
    r: Option<Vec<u8>>,
    fresh: DnsCache,
)
    requires
        call_ensures(DnsCache::put_at, (put, query, resp, ttl, now), ()),
        call_ensures(DnsCache::get_at, (get, other, now), r),
        call_ensures(DnsCache::new, (), fresh),
        old(put)@.dom().finite(),
        old(put)@.dom().len() <= 2048,
        old(get)@.dom().finite(),
    ensures
        final(put)@.dom().len() <= 2048,
        query@.len() < 2 || ttl == 0 ==> final(put)@ == old(put)@,
        final(get)@.dom().subset_of(old(get)@.dom()),
        r is Some || other@.len() < 2 ==> final(get)@ == old(get)@,
        other@.len() < 2 ==> r is None,
        fresh@ == Map::<Seq<u8>, Cached>::empty(),
{
    cache::law_cache_stays_bounded(old(put)@, query@, resp@, ttl, now as int);
}

// ── Providers ──────────────────────────────────────────────────────────

/// Three calls of `next_round_robin` on one counter give three different
/// providers, in the order Cloudflare, Google, Quad9, and a fourth would give
/// the first again: the counter goes up by one with each.
pub proof fn law_next_round_robin(
    a: &mut usize,
    b: &mut usize,
    c: &mut usize,
    r1: DnsProvider,
    r2: DnsProvider,
    r3: DnsProvider,
)
    requires
        call_ensures(next_round_robin, (a,), r1),
        call_ensures(next_round_robin, (b,), r2),
        call_ensures(next_round_robin, (c,), r3),
        *old(b) == *final(a),
        *old(c) == *final(b),
        *old(a) + 3 <= usize::MAX,
    ensures
        *final(a) == *old(a) + 1,
        *final(c) == *old(a) + 3,
        r1 != r2 && r2 != r3 && r1 != r3,
        r1 == DnsProvider::Cloudflare <==> r2 == DnsProvider::Google,
        r1 == DnsProvider::Google <==> r2 == DnsProvider::Quad9,
        *old(a) % 3 == 0 ==> r1 == DnsProvider::Cloudflare,
{
    provider::law_round_robin_takes_turns(*old(a));
    provider::law_round_robin_takes_turns(*old(b));
}

/// The counter starts again at zero after the largest number.
pub proof fn law_counter_wraps(a: &mut usize, r: DnsProvider)
    requires
        call_ensures(next_round_robin, (a,), r),
        *old(a) == usize::MAX,
    ensures
        *final(a) == 0,
{
}

/// `pick_target` goes by the strategy: the provider that is set, the failover
/// target, or the providers in turn; only the last moves the counter.
pub proof fn law_pick_target(
    strategy: DnsStrategy,
    p: DnsProvider,
    failover: &FailoverState,
    a: &mut usize,
    b: &mut usize,
    r1: DnsProvider,
    r2: DnsProvider,
)
    requires
        call_ensures(pick_target, (strategy, p, failover, a), r1),
        call_ensures(pick_target, (strategy, p, failover, b), r2),
        *old(b) == *final(a),
        *old(a) + 2 <= usize::MAX,
    ensures
        strategy == DnsStrategy::Single ==> r1 == p && *final(a) == *old(a),
        strategy == DnsStrategy::Failover ==> r1 == failover@ && *final(a) == *old(a),
        strategy == DnsStrategy::RoundRobin ==> r1 != r2 && *final(a) == *old(a) + 1,
{
    provider::law_round_robin_takes_turns(*old(a));
}

/// `parse_mode`, `parse_provider` and `parse_strategy` read the documented names
/// in any letter case. Other ASCII text is DoH, Cloudflare, and a single
/// provider.
pub proof fn law_parse(
    s: &str,
    mode: DnsMode,
    p: DnsProvider,
    strategy: DnsStrategy,
)
    requires
        call_ensures(parse_mode, (s,), mode),
        call_ensures(parse_provider, (s,), p),
        call_ensures(parse_strategy, (s,), strategy),
        utf8::is_ascii_chars(s@),
    ensures
        mode == DnsMode::DoT <==> text::in_any_case(s@, "dot"@),
        p == DnsProvider::Google <==> text::in_any_case(s@, "google"@),
        p == DnsProvider::Quad9 <==> text::in_any_case(s@, "quad9"@),
        strategy == DnsStrategy::RoundRobin <==> text::in_any_case(s@, "round-robin"@),
        strategy == DnsStrategy::Failover <==> text::in_any_case(s@, "failover"@),
        text::in_any_case(s@, "doh"@) ==> mode == DnsMode::DoH,
        text::in_any_case(s@, "cloudflare"@) ==> p == DnsProvider::Cloudflare,
        text::in_any_case(s@, "single"@) ==> strategy == DnsStrategy::Single,
{
    provider::law_names_select(s@, mode, p, strategy);
}

/// The names in lower case are read as what they name, and any other word as
/// DoH, Cloudflare, and a single provider.
pub proof fn law_of_lowercase(
    s: &str,
    mode: DnsMode,
    p: DnsProvider,
    strategy: DnsStrategy,
)
    requires
        call_ensures(mode_of_lowercase, (s,), mode),
        call_ensures(provider_of_lowercase, (s,), p),
        call_ensures(strategy_of_lowercase, (s,), strategy),
    ensures
        mode == DnsMode::DoT <==> s@ == "dot"@,
        p == DnsProvider::Google <==> s@ == "google"@,
        p == DnsProvider::Quad9 <==> s@ == "quad9"@,
        strategy == DnsStrategy::RoundRobin <==> s@ == "round-robin"@,
        strategy == DnsStrategy::Failover <==> s@ == "failover"@,
        s@ == "cloudflare"@ ==> p == DnsProvider::Cloudflare,
{
    reveal_strlit("google");
    reveal_strlit("quad9");
    reveal_strlit("cloudflare");
    reveal_strlit("round-robin");
    reveal_strlit("failover");
    assert("google"@.len() == 6 && "quad9"@.len() == 5 && "cloudflare"@.len() == 10);
    assert("round-robin"@.len() == 11 && "failover"@.len() == 8);
}

/// The two endpoints of a provider belong together: the URL names the host that
/// the certificate is for, and that host, with a port or without, resolves to
/// the provider's address without asking anybody. Only DNS-over-HTTPS queries to
/// Quad9 leave the agent, and only where there is a pool for them.
pub proof fn law_endpoints(
    p: DnsProvider,
    url: &'static str,
    target: DotTarget,
    netloc: &str,
    port: u16,
    r: Result<([u8; 4], u16), String>,
    ready: bool,
    route: DohRoute,
)
    requires
        call_ensures(doh_url, (p,), url),
        call_ensures(dot_target, (p,), target),
        call_ensures(static_dns_resolver, (netloc,), r),
        call_ensures(doh_route, (p, ready), route),
    ensures
        url@ == "https://"@ + target.hostname@ + "/dns-query"@,
        target.port == 853,
        forall|i: int|
            0 <= i < 4 ==> #[trigger] target.ip@[i] == (match p {
                DnsProvider::Cloudflare => 1u8,
                DnsProvider::Google => 8u8,
                DnsProvider::Quad9 => 9u8,
            }),
        netloc@ == target.hostname@ ==> (r matches Ok(a) && a.0@ == target.ip@ && a.1 == 443),
        netloc@ == target.hostname@ + seq![':'] + text::decimal_text(port as nat) ==> (r matches
            Ok(a) && a.0@ == target.ip@ && a.1 == port),
        route == DohRoute::Quad9Pool <==> p == DnsProvider::Quad9 && ready,
{
    reveal_strlit("cloudflare-dns.com");
    reveal_strlit("dns.google");
    reveal_strlit("dns.quad9.net");
    let host = provider::provider_host(p);
    provider::law_static_addresses_agree(p);
    provider::law_endpoints_are_distinct(p, p, host);
    assert(!host.contains(':')) by {
        if host.contains(':') {
            let i = choose|i: int| 0 <= i < host.len() && host[i] == ':';
            assert(host[i] != ':');
        }
    }
    provider::law_host_and_port(host, text::decimal_text(port as nat), port);
}

/// What is no provider's host is not resolved, with a port or without.
pub proof fn law_unknown_hosts(
    netloc: &str,
    host: Seq<char>,
    tail: Seq<char>,
    r: Result<([u8; 4], u16), String>,
)
    requires
        call_ensures(static_dns_resolver, (netloc,), r),
        netloc@ == host || netloc@ == host + seq![':'] + tail,
        !host.contains(':'),
        host != "cloudflare-dns.com"@,
        host != "dns.google"@,
        host != "dns.quad9.net"@,
    ensures
        r matches Err(e) && e@ == "unknown: "@ + netloc@,
{
    provider::law_host_and_port(host, tail, 443);
}

/// A failover state starts at its base. A report moves it where the target
/// failed under failover, and says so; a second report of the same failure does
/// not move it again, and three reports, each of the target, bring it back.
pub proof fn law_failover(
    base: DnsProvider,
    s: FailoverState,
    p: DnsProvider,
    strategy: DnsStrategy,
    a: &mut FailoverState,
    b: &mut FailoverState,
    moved: bool,
    again: bool,
)
    requires
        call_ensures(FailoverState::new, (base,), s),
        call_ensures(FailoverState::on_failure, (a, p, strategy), moved),
        call_ensures(FailoverState::on_failure, (b, p, strategy), again),
        *old(b) == *final(a),
    ensures
        s@ == base,
        moved <==> strategy == DnsStrategy::Failover && p == old(a)@,
        moved <==> final(a)@ != old(a)@,
        moved && p == DnsProvider::Cloudflare ==> final(a)@ == DnsProvider::Google,
        moved && p == DnsProvider::Google ==> final(a)@ == DnsProvider::Quad9,
        moved && p == DnsProvider::Quad9 ==> final(a)@ == DnsProvider::Cloudflare,
        moved ==> !again && final(b)@ == final(a)@,
{
    provider::law_failover_order(old(a)@, p, strategy);
    provider::law_failover_order(old(b)@, p, strategy);
}

/// The target that a failover state names is the one that it is at.
pub proof fn law_failover_target(s: &FailoverState, r: DnsProvider)
    requires
        call_ensures(FailoverState::target, (s,), r),
    ensures
        r == s@,
{
}

// ── The cache, by its own clock ────────────────────────────────────────

/// Whatever the clock shows: `put` leaves the answers to other questions as they
/// were while there is room for 2048, and stores nothing that must not be kept.
/// What it stores is found for its question, by queries with any ID, for as many
/// seconds as the TTL says and an hour at most, counted from the moment that the
/// clock showed.
pub proof fn law_put_now(
    a: &mut DnsCache,
    query: &[u8],
    resp: &[u8],
    ttl: u32,
    other: Seq<u8>,
    time: int,
)
    requires
        call_ensures(DnsCache::put, (a, query, resp, ttl), ()),
        other.len() >= 2,
    ensures
        query@.len() < 2 || ttl == 0 ==> final(a)@ == old(a)@,
        query@.len() >= 2 && !same_question(query@, other) && old(a)@.dom().len() < 2048
            ==> cache::cache_lookup(final(a)@, other, time) == cache::cache_lookup(
            old(a)@,
            other,
            time,
        ),
        ttl > 0 && same_question(query@, other) ==> {
            let secs: int = if ttl > 3600 {
                3600
            } else {
                ttl as int
            };
            exists|now: int|
                #![trigger cache::cache_after_put(old(a)@, query@, resp@, ttl, now)]
                0 <= now <= clock::max_clock() && cache::cache_lookup(final(a)@, other, time)
                    == (if time < now + secs * 1_000_000_000 {
                    Some(resp@)
                } else {
                    None
                })
        },
{
    let now = choose|now: int|
        0 <= now <= clock::max_clock() && final(a)@ == #[trigger] cache::cache_after_put(
            old(a)@,
            query@,
            resp@,
            ttl,
            now,
        );
    if query@.len() >= 2 && !same_question(query@, other) {
        lemma_other_bytes(query@, other);
        cache::law_other_questions_keep_their_answers(
            old(a)@,
            query@,
            resp@,
            ttl,
            now,
            other,
            time,
        );
    }
    if ttl > 0 && same_question(query@, other) {
        lemma_same_bytes(query@, other);
        cache::law_same_question_shares_an_answer(
            old(a)@,
            query@,
            resp@,
            ttl,
            now,
            other,
            time,
        );
        assert(final(a)@ == cache::cache_after_put(old(a)@, query@, resp@, ttl, now));
    }
}

/// Whatever the clock shows: what `get` finds is what is stored, and finding it
/// changes nothing; where it finds nothing, nothing is left for that question;
/// the answers to other questions stay.
pub proof fn law_get_now(
    a: &mut DnsCache,
    query: &[u8],
    r: Option<Vec<u8>>,
    other: Seq<u8>,
    time: int,
)
    requires
        call_ensures(DnsCache::get, (a, query), r),
        other.len() >= 2,
    ensures
        query@.len() < 2 ==> r is None,
        r matches Some(found) ==> exists|now: int|
            #[trigger] cache::cache_lookup(old(a)@, query@, now) == Some(found@),
        r is Some ==> final(a)@ == old(a)@,
        r is None && query@.len() >= 2 ==> cache::cache_lookup(final(a)@, query@, time)
            is None,
        query@.len() >= 2 && !same_question(query@, other) ==> cache::cache_lookup(
            final(a)@,
            other,
            time,
        ) == cache::cache_lookup(old(a)@, other, time),
{
    let now = choose|now: int|
        0 <= now <= clock::max_clock() && #[trigger] cache::got_at(
            old(a)@,
            query@,
            now,
            r,
            final(a)@,
        );
    cache::law_look_up_answers_what_is_stored(
        old(a)@,
        query@,
        now,
        r,
        final(a)@,
        other,
        time,
    );
    if r is Some {
        assert(cache::cache_lookup(old(a)@, query@, now) == Some(r->0@));
    }
}

} // verus!
