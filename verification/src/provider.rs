//! Modes, providers and strategies, and how the upstream of a query is chosen.

use vstd::prelude::*;
use vstd::utf8;

use crate::text;

verus! {

/// How queries travel to the upstream.
#[derive(Debug, Clone, Copy, PartialEq, Eq, Structural)]
pub enum DnsMode {
    DoH,
    DoT,
}

/// Upstream resolvers.
#[derive(Debug, Clone, Copy, PartialEq, Eq, Structural)]
pub enum DnsProvider {
    Cloudflare,
    Google,
    Quad9,
}

/// How the provider of a query is selected.
#[derive(Debug, Clone, Copy, PartialEq, Eq, Structural)]
pub enum DnsStrategy {
    Single,
    RoundRobin,
    Failover,
}

/// Every provider, in the order in which round-robin and failover go through
/// them.
pub const ALL_PROVIDERS: [DnsProvider; 3] = [
    DnsProvider::Cloudflare,
    DnsProvider::Google,
    DnsProvider::Quad9,
];

/// The provider at position `i` of the rotation.
pub open spec fn provider_at(i: int) -> DnsProvider {
    ALL_PROVIDERS@[i]
}

/// The value of a wrapping counter after one more use.
pub open spec fn next_count(counter: usize) -> usize {
    if counter == usize::MAX {
        0
    } else {
        (counter + 1) as usize
    }
}

/// Take the next provider in rotation and advance the shared counter, which
/// wraps around.
pub fn next_round_robin(counter: &mut usize) -> (r: DnsProvider)
    ensures
        r == provider_at(*old(counter) as int % 3),
        *final(counter) == next_count(*old(counter)),
{
    let idx: usize = *counter % ALL_PROVIDERS.len();
    *counter = counter.wrapping_add(1);
    ALL_PROVIDERS[idx]
}

// ── Keywords ───────────────────────────────────────────────────────────

/// The mode that a lowercase word names.
pub open spec fn mode_named(word: Seq<char>) -> DnsMode {
    if word == "dot"@ {
        DnsMode::DoT
    } else {
        DnsMode::DoH
    }
}

/// The provider that a lowercase word names.
pub open spec fn provider_named(word: Seq<char>) -> DnsProvider {
    if word == "google"@ {
        DnsProvider::Google
    } else if word == "quad9"@ {
        DnsProvider::Quad9
    } else {
        DnsProvider::Cloudflare
    }
}

/// The strategy that a lowercase word names.
pub open spec fn strategy_named(word: Seq<char>) -> DnsStrategy {
    if word == "round-robin"@ {
        DnsStrategy::RoundRobin
    } else if word == "failover"@ {
        DnsStrategy::Failover
    } else {
        DnsStrategy::Single
    }
}

/// The mode of a lowercase word; DoH where it names none.
pub fn mode_of_lowercase(word: &str) -> (r: DnsMode)
    ensures
        r == mode_named(word@),
{
    if text::same_text(word, "dot") {
        DnsMode::DoT
    } else {
        DnsMode::DoH
    }
}

/// The provider of a lowercase word; Cloudflare where it names none.
pub fn provider_of_lowercase(word: &str) -> (r: DnsProvider)
    ensures
        r == provider_named(word@),
{
    if text::same_text(word, "google") {
        DnsProvider::Google
    } else if text::same_text(word, "quad9") {
        DnsProvider::Quad9
    } else {
        DnsProvider::Cloudflare
    }
}

/// The strategy of a lowercase word; a single provider where it names none.
pub fn strategy_of_lowercase(word: &str) -> (r: DnsStrategy)
    ensures
        r == strategy_named(word@),
{
    if text::same_text(word, "round-robin") {
        DnsStrategy::RoundRobin
    } else if text::same_text(word, "failover") {
        DnsStrategy::Failover
    } else {
        DnsStrategy::Single
    }
}

/// `mode` is what a setting in ASCII selects: DoT where it is "dot" in any letter
/// case, DoH otherwise.
pub open spec fn selects_mode(s: Seq<char>, mode: DnsMode) -> bool {
    utf8::is_ascii_chars(s) ==> (mode == DnsMode::DoT <==> text::in_any_case(s, "dot"@))
}

/// `provider` is what a setting in ASCII selects: Google or Quad9 where it is
/// that name in any letter case, Cloudflare otherwise.
pub open spec fn selects_provider(s: Seq<char>, provider: DnsProvider) -> bool {
    utf8::is_ascii_chars(s) ==> {
        &&& provider == DnsProvider::Google <==> text::in_any_case(s, "google"@)
        &&& provider == DnsProvider::Quad9 <==> text::in_any_case(s, "quad9"@)
    }
}

/// `strategy` is what a setting in ASCII selects: round-robin or failover where
/// it is that word in any letter case, a single provider otherwise.
pub open spec fn selects_strategy(s: Seq<char>, strategy: DnsStrategy) -> bool {
    utf8::is_ascii_chars(s) ==> {
        &&& strategy == DnsStrategy::RoundRobin <==> text::in_any_case(s, "round-robin"@)
        &&& strategy == DnsStrategy::Failover <==> text::in_any_case(s, "failover"@)
    }
}

/// Read a mode, in any letter case.
pub fn parse_mode(s: &str) -> (r: DnsMode)
    ensures
        r == mode_named(text::unicode_lower(s@)),
        utf8::is_ascii_chars(s@) ==> r == mode_named(text::ascii_lower(s@)),
        selects_mode(s@, r),
{
    proof {
        law_modes_in_any_case(s@);
    }
    mode_of_lowercase(text::lowercase(s).as_str())
}

/// Read a provider, in any letter case.
pub fn parse_provider(s: &str) -> (r: DnsProvider)
    ensures
        r == provider_named(text::unicode_lower(s@)),
        utf8::is_ascii_chars(s@) ==> r == provider_named(text::ascii_lower(s@)),
        selects_provider(s@, r),
{
    proof {
        law_providers_in_any_case(s@);
    }
    provider_of_lowercase(text::lowercase(s).as_str())
}

/// Read a strategy, in any letter case.
pub fn parse_strategy(s: &str) -> (r: DnsStrategy)
    ensures
        r == strategy_named(text::unicode_lower(s@)),
        utf8::is_ascii_chars(s@) ==> r == strategy_named(text::ascii_lower(s@)),
        selects_strategy(s@, r),
{
    proof {
        law_strategies_in_any_case(s@);
    }
    strategy_of_lowercase(text::lowercase(s).as_str())
}

// ── Upstream addresses ─────────────────────────────────────────────────

/// Where DNS-over-TLS connects: an IPv4 address, a port, and the host name
/// that the certificate must be for.
#[derive(Debug, Clone, Copy, PartialEq, Eq)]
pub struct DotTarget {
    pub ip: [u8; 4],
    pub port: u16,
    pub hostname: &'static str,
}

/// The anycast address of a provider.
pub open spec fn provider_ip(p: DnsProvider) -> Seq<u8> {
    match p {
        DnsProvider::Cloudflare => seq![1u8, 1u8, 1u8, 1u8],
        DnsProvider::Google => seq![8u8, 8u8, 8u8, 8u8],
        DnsProvider::Quad9 => seq![9u8, 9u8, 9u8, 9u8],
    }
}

/// The host name of a provider.
pub open spec fn provider_host(p: DnsProvider) -> Seq<char> {
    match p {
        DnsProvider::Cloudflare => "cloudflare-dns.com"@,
        DnsProvider::Google => "dns.google"@,
        DnsProvider::Quad9 => "dns.quad9.net"@,
    }
}

/// The DNS-over-HTTPS endpoint of a provider.
pub open spec fn provider_url(p: DnsProvider) -> Seq<char> {
    match p {
        DnsProvider::Cloudflare => "https://cloudflare-dns.com/dns-query"@,
        DnsProvider::Google => "https://dns.google/dns-query"@,
        DnsProvider::Quad9 => "https://dns.quad9.net/dns-query"@,
    }
}

/// The DNS-over-HTTPS endpoint of a provider.
pub fn doh_url(p: DnsProvider) -> (r: &'static str)
    ensures
        r@ == provider_url(p),
{
    match p {
        DnsProvider::Cloudflare => "https://cloudflare-dns.com/dns-query",
        DnsProvider::Google => "https://dns.google/dns-query",
        DnsProvider::Quad9 => "https://dns.quad9.net/dns-query",
    }
}

/// The DNS-over-TLS endpoint of a provider.
pub fn dot_target(p: DnsProvider) -> (r: DotTarget)
    ensures
        r.ip@ == provider_ip(p),
        r.port == 853,
        r.hostname@ == provider_host(p),
{
    match p {
        DnsProvider::Cloudflare => DotTarget {
            ip: [1, 1, 1, 1],
            port: 853,
            hostname: "cloudflare-dns.com",
        },
        DnsProvider::Google => DotTarget { ip: [8, 8, 8, 8], port: 853, hostname: "dns.google" },
        DnsProvider::Quad9 => DotTarget { ip: [9, 9, 9, 9], port: 853, hostname: "dns.quad9.net" },
    }
}

/// The host of `host:port`; the whole text where there is no colon.
pub open spec fn netloc_host(netloc: Seq<char>) -> Seq<char> {
    netloc.take(text::find(netloc, ':', 0))
}

/// The port of `host:port`; 443 where there is none that can be read.
pub open spec fn netloc_port(netloc: Seq<char>) -> u16 {
    let colon = text::find(netloc, ':', 0);
    if colon >= netloc.len() {
        443
    } else {
        match text::spelled_u16(netloc.skip(colon + 1)) {
            Some(port) => port,
            None => 443,
        }
    }
}

/// The provider with a given host name.
pub open spec fn host_provider(host: Seq<char>) -> Option<DnsProvider> {
    if host == "cloudflare-dns.com"@ {
        Some(DnsProvider::Cloudflare)
    } else if host == "dns.google"@ {
        Some(DnsProvider::Google)
    } else if host == "dns.quad9.net"@ {
        Some(DnsProvider::Quad9)
    } else {
        None
    }
}

/// Resolve the `host:port` of a DNS-over-HTTPS endpoint without asking a
/// resolver. Only the providers' own host names are known.
pub fn static_dns_resolver(netloc: &str) -> (r: Result<([u8; 4], u16), String>)
    ensures
        match host_provider(netloc_host(netloc@)) {
            Some(p) => r matches Ok(addr) && addr.0@ == provider_ip(p) && addr.1 == netloc_port(
                netloc@,
            ),
            None => r matches Err(e) && e@ == "unknown: "@ + netloc@,
        },
{
    let chars: Vec<char> = text::to_chars(netloc);
    let mut colon: usize = 0;
    while colon < chars.len() && chars[colon] != ':'
        invariant
            colon <= chars@.len(),
            text::find(chars@, ':', 0) == text::find(chars@, ':', colon as int),
        decreases chars@.len() - colon,
    {
        colon = colon + 1;
    }
    let mut port: u16 = 443;
    if colon < chars.len() {
        let tail: &[char] = vstd::slice::slice_subrange(chars.as_slice(), colon + 1, chars.len());
        assert(tail@ =~= chars@.skip(colon + 1));
        if let Some(p) = text::parse_u16(tail) {
            port = p;
        }
    }
    let host: String = text::from_chars(chars.as_slice(), 0, colon);
    assert(host@ =~= netloc_host(netloc@));
    if text::same_text(host.as_str(), "cloudflare-dns.com") {
        Ok((dot_target(DnsProvider::Cloudflare).ip, port))
    } else if text::same_text(host.as_str(), "dns.google") {
        Ok((dot_target(DnsProvider::Google).ip, port))
    } else if text::same_text(host.as_str(), "dns.quad9.net") {
        Ok((dot_target(DnsProvider::Quad9).ip, port))
    } else {
        Err(text::joined("unknown: ", netloc))
    }
}

/// Which client a DNS-over-HTTPS query goes through.
#[derive(Debug, Clone, Copy, PartialEq, Eq, Structural)]
pub enum DohRoute {
    /// The HTTP/1.1 agent.
    Agent,
    /// The HTTP/2 connection pool that Quad9 needs.
    Quad9Pool,
}

/// Route a DNS-over-HTTPS query: Quad9 resets HTTP/1.1 connections, so its
/// queries take the HTTP/2 pool where there is one.
pub fn doh_route(target: DnsProvider, quad9_ready: bool) -> (r: DohRoute)
    ensures
        r == (if target == DnsProvider::Quad9 && quad9_ready {
            DohRoute::Quad9Pool
        } else {
            DohRoute::Agent
        }),
{
    if target == DnsProvider::Quad9 && quad9_ready {
        DohRoute::Quad9Pool
    } else {
        DohRoute::Agent
    }
}

// ── Failover ───────────────────────────────────────────────────────────

/// Position of a provider in the rotation.
pub open spec fn provider_index(p: DnsProvider) -> int {
    match p {
        DnsProvider::Cloudflare => 0,
        DnsProvider::Google => 1,
        DnsProvider::Quad9 => 2,
    }
}

/// The provider that takes over from `p`.
pub open spec fn successor(p: DnsProvider) -> DnsProvider {
    provider_at((provider_index(p) + 1) % 3)
}

/// The failover target after a failure of `failed` was reported: the target
/// moves on where it is the one that failed and the strategy is failover.
pub open spec fn target_after_failure(
    target: DnsProvider,
    failed: DnsProvider,
    strategy: DnsStrategy,
) -> DnsProvider {
    if strategy == DnsStrategy::Failover && failed == target {
        successor(target)
    } else {
        target
    }
}

/// Sticky provider used by the failover strategy. Whether it is consulted is
/// decided per query by the current strategy, which can be swapped while the
/// proxy runs, so the state itself does not depend on the strategy.
pub struct FailoverState {
    current: usize,
}

impl View for FailoverState {
    type V = DnsProvider;

    /// The provider that failover queries go to.
    closed spec fn view(&self) -> DnsProvider {
        provider_at(self.current as int)
    }
}

impl FailoverState {
    #[verifier::type_invariant]
    spec fn wf(self) -> bool {
        self.current < 3
    }

    /// Start at `base`.
    pub fn new(base: DnsProvider) -> (r: Self)
        ensures
            r@ == base,
    {
        let mut i: usize = 0;
        while i < ALL_PROVIDERS.len() && ALL_PROVIDERS[i] != base
            invariant
                i <= 3,
                forall|j: int| 0 <= j < i ==> provider_at(j) != base,
            decreases 3 - i,
        {
            i = i + 1;
        }
        proof {
            assert(provider_at(provider_index(base)) == base);
        }
        FailoverState { current: i }
    }

    /// The provider that failover queries go to.
    pub fn target(&self) -> (r: DnsProvider)
        ensures
            r == self@,
    {
        proof {
            use_type_invariant(self);
        }
        ALL_PROVIDERS[self.current]
    }

    /// Report that `p` failed a query sent under `strategy`. Returns whether
    /// the target moved.
    pub fn on_failure(&mut self, p: DnsProvider, strategy: DnsStrategy) -> (r: bool)
        ensures
            final(self)@ == target_after_failure(old(self)@, p, strategy),
            r == (strategy == DnsStrategy::Failover && p == old(self)@),
    {
        proof {
            use_type_invariant(&*self);
        }
        if strategy != DnsStrategy::Failover {
            return false;
        }
        if ALL_PROVIDERS[self.current] == p {
            self.current = (self.current + 1) % ALL_PROVIDERS.len();
            true
        } else {
            false
        }
    }
}

/// The provider that a query goes to. The round-robin counter moves only
/// under that strategy.
pub fn pick_target(
    strategy: DnsStrategy,
    provider: DnsProvider,
    failover: &FailoverState,
    counter: &mut usize,
) -> (r: DnsProvider)
    ensures
        match strategy {
            DnsStrategy::RoundRobin => {
                &&& r == provider_at(*old(counter) as int % 3)
                &&& *final(counter) == next_count(*old(counter))
            },
            DnsStrategy::Failover => r == failover@ && *final(counter) == *old(counter),
            DnsStrategy::Single => r == provider && *final(counter) == *old(counter),
        },
{
    match strategy {
        DnsStrategy::RoundRobin => next_round_robin(counter),
        DnsStrategy::Failover => failover.target(),
        DnsStrategy::Single => provider,
    }
}

// ── Laws ───────────────────────────────────────────────────────────────

/// Three queries in a row, while the counter does not wrap, go to three
/// different providers, and the fourth goes where the first went.
pub proof fn law_round_robin_is_fair(counter: usize)
    requires
        counter + 3 <= usize::MAX,
    ensures
        provider_at(counter as int % 3) != provider_at((counter + 1) % 3),
        provider_at(counter as int % 3) != provider_at((counter + 2) % 3),
        provider_at((counter + 1) % 3) != provider_at((counter + 2) % 3),
        provider_at((counter + 3) % 3) == provider_at(counter as int % 3),
{
}

/// The rotation is a cycle through all providers: each failure of the target
/// moves on to another provider, and after three the first is back.
pub proof fn law_failover_cycles(p: DnsProvider)
    ensures
        successor(p) != p,
        successor(successor(p)) != p,
        successor(successor(successor(p))) == p,
{
    assert(ALL_PROVIDERS@[0] == DnsProvider::Cloudflare);
}

/// Several reports of the same failure move the target once: workers whose
/// queries were in flight to the failed provider do not skip the next one.
pub proof fn law_failover_moves_once(target: DnsProvider, failed: DnsProvider)
    ensures
        target_after_failure(
            target_after_failure(target, failed, DnsStrategy::Failover),
            failed,
            DnsStrategy::Failover,
        ) == target_after_failure(target, failed, DnsStrategy::Failover),
{
    law_failover_cycles(target);
}

/// The host in a provider's DNS-over-HTTPS URL resolves to the address that
/// its DNS-over-TLS endpoint has, on port 443.
pub proof fn law_static_addresses_agree(p: DnsProvider)
    ensures
        host_provider(netloc_host(provider_host(p))) == Some(p),
        netloc_port(provider_host(p)) == 443,
        provider_url(p) == "https://"@ + provider_host(p) + "/dns-query"@,
{
    reveal_strlit("https://");
    reveal_strlit("/dns-query");
    reveal_strlit("https://cloudflare-dns.com/dns-query");
    reveal_strlit("https://dns.google/dns-query");
    reveal_strlit("https://dns.quad9.net/dns-query");
    reveal_strlit("cloudflare-dns.com");
    reveal_strlit("dns.google");
    reveal_strlit("dns.quad9.net");
    let host = provider_host(p);
    text::lemma_find(host, ':', 0);
    let colon = text::find(host, ':', 0);
    assert(colon == host.len());
    assert(netloc_host(host) =~= host);
    assert(provider_url(p) =~= "https://"@ + host + "/dns-query"@);
}

/// A use of a counter leaves the next number behind, and after the largest
/// number zero: it never stands still.
pub proof fn law_counter_advances(counter: usize)
    ensures
        counter < usize::MAX ==> next_count(counter) == counter + 1,
        counter == usize::MAX ==> next_count(counter) == 0,
{
}

/// Queries that use up the counter one after the other go to Cloudflare,
/// Google and Quad9 in turn: each goes to the provider after the one before
/// it, three reach all three, and the fourth is where the first was.
pub proof fn law_round_robin_takes_turns(counter: usize)
    requires
        counter < usize::MAX,
    ensures
        ({
            let first = provider_at(counter as int % 3);
            let second = provider_at(next_count(counter) as int % 3);
            &&& first == DnsProvider::Cloudflare ==> second == DnsProvider::Google
            &&& first == DnsProvider::Google ==> second == DnsProvider::Quad9
            &&& first == DnsProvider::Quad9 ==> second == DnsProvider::Cloudflare
            &&& counter + 1 < usize::MAX ==> {
                let third = provider_at(next_count(next_count(counter)) as int % 3);
                first != second && second != third && first != third
            }
            &&& counter + 2 < usize::MAX ==> provider_at(
                next_count(next_count(next_count(counter))) as int % 3,
            ) == first
        }),
        provider_at(0) == DnsProvider::Cloudflare,
{
    assert(ALL_PROVIDERS@[0] == DnsProvider::Cloudflare);
    assert(ALL_PROVIDERS@[1] == DnsProvider::Google);
    assert(ALL_PROVIDERS@[2] == DnsProvider::Quad9);
}

/// A mode is read from its name in any letter case. What is not "dot" in some
/// letter case is DoH, "doh" among it.
pub proof fn law_modes_in_any_case(s: Seq<char>)
    ensures
        mode_named(text::ascii_lower(s)) == DnsMode::DoT <==> text::in_any_case(s, "dot"@),
        text::in_any_case(s, "doh"@) ==> utf8::is_ascii_chars(s) && mode_named(
            text::ascii_lower(s),
        ) == DnsMode::DoH,
        text::in_any_case(s, "dot"@) ==> utf8::is_ascii_chars(s),
        forall|word: Seq<char>|
            #[trigger] mode_named(word) == (if word == seq!['d', 'o', 't'] {
                DnsMode::DoT
            } else {
                DnsMode::DoH
            }),
{
    reveal_strlit("dot");
    reveal_strlit("doh");
    assert("dot"@ =~= seq!['d', 'o', 't']);
    assert("doh"@[2] == 'h');
    text::law_lowercase_undoes_capitals(s, "dot"@);
    text::law_lowercase_undoes_capitals(s, "doh"@);
}

/// A provider is read from its name in any letter case. What is neither
/// "google" nor "quad9" in some letter case is Cloudflare, "cloudflare" among
/// it.
pub proof fn law_providers_in_any_case(s: Seq<char>)
    ensures
        provider_named(text::ascii_lower(s)) == DnsProvider::Google <==> text::in_any_case(
            s,
            "google"@,
        ),
        provider_named(text::ascii_lower(s)) == DnsProvider::Quad9 <==> text::in_any_case(
            s,
            "quad9"@,
        ),
        text::in_any_case(s, "cloudflare"@) ==> utf8::is_ascii_chars(s) && provider_named(
            text::ascii_lower(s),
        ) == DnsProvider::Cloudflare,
        text::in_any_case(s, "google"@) ==> utf8::is_ascii_chars(s),
        text::in_any_case(s, "quad9"@) ==> utf8::is_ascii_chars(s),
        forall|word: Seq<char>|
            #[trigger] provider_named(word) == (if word == seq!['g', 'o', 'o', 'g', 'l', 'e'] {
                DnsProvider::Google
            } else if word == seq!['q', 'u', 'a', 'd', '9'] {
                DnsProvider::Quad9
            } else {
                DnsProvider::Cloudflare
            }),
{
    reveal_strlit("google");
    reveal_strlit("quad9");
    reveal_strlit("cloudflare");
    assert("google"@ =~= seq!['g', 'o', 'o', 'g', 'l', 'e']);
    assert("quad9"@ =~= seq!['q', 'u', 'a', 'd', '9']);
    assert("cloudflare"@.len() == 10);
    text::law_lowercase_undoes_capitals(s, "google"@);
    text::law_lowercase_undoes_capitals(s, "quad9"@);
    text::law_lowercase_undoes_capitals(s, "cloudflare"@);
}

/// A strategy is read from its name in any letter case. What is neither
/// "round-robin" nor "failover" in some letter case is a single provider,
/// "single" among it.
pub proof fn law_strategies_in_any_case(s: Seq<char>)
    ensures
        strategy_named(text::ascii_lower(s)) == DnsStrategy::RoundRobin <==> text::in_any_case(
            s,
            "round-robin"@,
        ),
        strategy_named(text::ascii_lower(s)) == DnsStrategy::Failover <==> text::in_any_case(
            s,
            "failover"@,
        ),
        text::in_any_case(s, "single"@) ==> utf8::is_ascii_chars(s) && strategy_named(
            text::ascii_lower(s),
        ) == DnsStrategy::Single,
        text::in_any_case(s, "round-robin"@) ==> utf8::is_ascii_chars(s),
        text::in_any_case(s, "failover"@) ==> utf8::is_ascii_chars(s),
        forall|word: Seq<char>|
            #[trigger] strategy_named(word) == (if word == seq![
                'r',
                'o',
                'u',
                'n',
                'd',
                '-',
                'r',
                'o',
                'b',
                'i',
                'n',
            ] {
                DnsStrategy::RoundRobin
            } else if word == seq!['f', 'a', 'i', 'l', 'o', 'v', 'e', 'r'] {
                DnsStrategy::Failover
            } else {
                DnsStrategy::Single
            }),
{
    reveal_strlit("round-robin");
    reveal_strlit("failover");
    reveal_strlit("single");
    assert("round-robin"@ =~= seq!['r', 'o', 'u', 'n', 'd', '-', 'r', 'o', 'b', 'i', 'n']);
    assert("failover"@ =~= seq!['f', 'a', 'i', 'l', 'o', 'v', 'e', 'r']);
    assert("single"@.len() == 6);
    text::law_lowercase_undoes_capitals(s, "round-robin"@);
    text::law_lowercase_undoes_capitals(s, "failover"@);
    text::law_lowercase_undoes_capitals(s, "single"@);
}

/// A failure moves the failover target where it is a failure of the target
/// under that strategy, from Cloudflare to Google to Quad9 to Cloudflare, and
/// leaves it alone otherwise.
pub proof fn law_failover_order(
    target: DnsProvider,
    failed: DnsProvider,
    strategy: DnsStrategy,
)
    ensures
        ({
            let after = target_after_failure(target, failed, strategy);
            &&& after != target <==> strategy == DnsStrategy::Failover && failed == target
            &&& after != target && target == DnsProvider::Cloudflare ==> after
                == DnsProvider::Google
            &&& after != target && target == DnsProvider::Google ==> after == DnsProvider::Quad9
            &&& after != target && target == DnsProvider::Quad9 ==> after
                == DnsProvider::Cloudflare
        }),
{
    assert(ALL_PROVIDERS@[0] == DnsProvider::Cloudflare);
    assert(ALL_PROVIDERS@[1] == DnsProvider::Google);
    assert(ALL_PROVIDERS@[2] == DnsProvider::Quad9);
}

/// Every provider is known by its host name and by no other, and no two share
/// an address, a host name or an endpoint. The addresses are 1.1.1.1, 8.8.8.8
/// and 9.9.9.9.
pub proof fn law_endpoints_are_distinct(p: DnsProvider, q: DnsProvider, host: Seq<char>)
    ensures
        host_provider(host) == Some(p) <==> host == provider_host(p),
        provider_ip(p) == provider_ip(q) <==> p == q,
        provider_host(p) == provider_host(q) <==> p == q,
        provider_url(p) == provider_url(q) <==> p == q,
        provider_ip(p).len() == 4,
        forall|i: int|
            0 <= i < 4 ==> #[trigger] provider_ip(p)[i] == (match p {
                DnsProvider::Cloudflare => 1u8,
                DnsProvider::Google => 8u8,
                DnsProvider::Quad9 => 9u8,
            }),
        provider_host(DnsProvider::Cloudflare) == "cloudflare-dns.com"@,
        provider_host(DnsProvider::Google) == "dns.google"@,
        provider_host(DnsProvider::Quad9) == "dns.quad9.net"@,
{
    reveal_strlit("cloudflare-dns.com");
    reveal_strlit("dns.google");
    reveal_strlit("dns.quad9.net");
    reveal_strlit("https://cloudflare-dns.com/dns-query");
    reveal_strlit("https://dns.google/dns-query");
    reveal_strlit("https://dns.quad9.net/dns-query");
    assert(provider_host(DnsProvider::Cloudflare).len() == 18);
    assert(provider_host(DnsProvider::Google).len() == 10);
    assert(provider_host(DnsProvider::Quad9).len() == 13);
    assert(provider_url(DnsProvider::Cloudflare).len() == 36);
    assert(provider_url(DnsProvider::Google).len() == 28);
    assert(provider_url(DnsProvider::Quad9).len() == 31);
    assert(provider_ip(p)[0] == provider_ip(p)[1]);
    assert(provider_ip(q)[0] == provider_ip(q)[1]);
}

/// The host and port of an endpoint are what stands before and behind its first
/// colon. Where there is no colon, or no number behind it, the port is 443.
pub proof fn law_host_and_port(host: Seq<char>, tail: Seq<char>, port: u16)
    requires
        !host.contains(':'),
    ensures
        netloc_host(host) == host,
        netloc_port(host) == 443,
        netloc_host(host + seq![':'] + tail) == host,
        text::spelled_u16(tail) is None ==> netloc_port(host + seq![':'] + tail) == 443,
        text::spelled_u16(tail) matches Some(p) ==> netloc_port(host + seq![':'] + tail) == p,
        netloc_port(host + seq![':'] + text::decimal_text(port as nat)) == port,
{
    let number = text::decimal_text(port as nat);
    text::law_find(host, ':', tail);
    text::law_find(host, ':', number);
    text::law_decimal_round_trip(port);
    let n = host.len() as int;
    assert(host.take(n) =~= host);
    assert((host + seq![':'] + tail).take(n) =~= host);
    assert((host + seq![':'] + tail).skip(n + 1) =~= tail);
    assert((host + seq![':'] + number).skip(n + 1) =~= number);
}

/// The names that are documented, in any letter case, select what they name.
pub proof fn law_names_select(
    s: Seq<char>,
    mode: DnsMode,
    provider: DnsProvider,
    strategy: DnsStrategy,
)
    requires
        selects_mode(s, mode),
        selects_provider(s, provider),
        selects_strategy(s, strategy),
    ensures
        text::in_any_case(s, "doh"@) ==> mode == DnsMode::DoH,
        text::in_any_case(s, "dot"@) ==> mode == DnsMode::DoT,
        text::in_any_case(s, "cloudflare"@) ==> provider == DnsProvider::Cloudflare,
        text::in_any_case(s, "google"@) ==> provider == DnsProvider::Google,
        text::in_any_case(s, "quad9"@) ==> provider == DnsProvider::Quad9,
        text::in_any_case(s, "single"@) ==> strategy == DnsStrategy::Single,
        text::in_any_case(s, "round-robin"@) ==> strategy == DnsStrategy::RoundRobin,
        text::in_any_case(s, "failover"@) ==> strategy == DnsStrategy::Failover,
{
    law_modes_in_any_case(s);
    law_providers_in_any_case(s);
    law_strategies_in_any_case(s);
}

} // verus!
