//! Providers, DNS-over-TLS, DNS-over-HTTPS and Quad9's pool.

use dns_guard::doh::{doh_request, doh_resolve_fallible, DohOutcome};
use dns_guard::dot::{dot_next, dot_query, DotAction, DotEvent, DotPool, DotPoolAction};
use dns_guard::provider::{
    doh_route, doh_url, dot_target, next_round_robin, parse_mode, parse_provider, parse_strategy,
    pick_target, static_dns_resolver, DnsMode, DnsProvider, DnsStrategy, DohRoute, FailoverState,
    ALL_PROVIDERS,
};
use dns_guard::quad9::{Quad9Action, Quad9Pool};

const SEC: u128 = 1_000_000_000;

#[test]
fn keywords_in_any_case() {
    assert_eq!(parse_mode("DoT"), DnsMode::DoT);
    assert_eq!(parse_mode("doh"), DnsMode::DoH);
    assert_eq!(parse_mode("nonsense"), DnsMode::DoH);
    assert_eq!(parse_provider("GOOGLE"), DnsProvider::Google);
    assert_eq!(parse_provider("Quad9"), DnsProvider::Quad9);
    assert_eq!(parse_provider(""), DnsProvider::Cloudflare);
    assert_eq!(parse_strategy("Round-Robin"), DnsStrategy::RoundRobin);
    assert_eq!(parse_strategy("FAILOVER"), DnsStrategy::Failover);
    assert_eq!(parse_strategy("round_robin"), DnsStrategy::Single);
    // The Kelvin sign is a capital k elsewhere; it spells no keyword here.
    assert_eq!(parse_mode("\u{212a}"), DnsMode::DoH);
}

#[test]
fn round_robin_is_fair() {
    let mut counter = 0usize;
    let mut seen = Vec::new();
    for _ in 0..6 {
        seen.push(next_round_robin(&mut counter));
    }
    assert_eq!(&seen[..3], &ALL_PROVIDERS);
    assert_eq!(&seen[3..], &ALL_PROVIDERS);
    counter = usize::MAX;
    next_round_robin(&mut counter);
    assert_eq!(counter, 0);
}

#[test]
fn failover_moves_once_per_failure() {
    let mut f = FailoverState::new(DnsProvider::Quad9);
    assert_eq!(f.target(), DnsProvider::Quad9);
    assert!(!f.on_failure(DnsProvider::Quad9, DnsStrategy::Single));
    assert_eq!(f.target(), DnsProvider::Quad9);
    assert!(f.on_failure(DnsProvider::Quad9, DnsStrategy::Failover));
    assert_eq!(f.target(), DnsProvider::Cloudflare);
    // A late report about the same provider changes nothing.
    assert!(!f.on_failure(DnsProvider::Quad9, DnsStrategy::Failover));
    assert_eq!(f.target(), DnsProvider::Cloudflare);
    assert!(f.on_failure(DnsProvider::Cloudflare, DnsStrategy::Failover));
    assert!(f.on_failure(DnsProvider::Google, DnsStrategy::Failover));
    assert_eq!(f.target(), DnsProvider::Quad9);
}

#[test]
fn strategy_picks_the_target() {
    let f = FailoverState::new(DnsProvider::Quad9);
    let mut rr = 1usize;
    assert_eq!(
        pick_target(DnsStrategy::Single, DnsProvider::Google, &f, &mut rr),
        DnsProvider::Google
    );
    assert_eq!(
        pick_target(DnsStrategy::Failover, DnsProvider::Google, &f, &mut rr),
        DnsProvider::Quad9
    );
    assert_eq!(rr, 1);
    assert_eq!(
        pick_target(DnsStrategy::RoundRobin, DnsProvider::Cloudflare, &f, &mut rr),
        DnsProvider::Google
    );
    assert_eq!(rr, 2);
}

#[test]
fn endpoints() {
    assert_eq!(doh_url(DnsProvider::Cloudflare), "https://cloudflare-dns.com/dns-query");
    assert_eq!(doh_url(DnsProvider::Google), "https://dns.google/dns-query");
    assert_eq!(doh_url(DnsProvider::Quad9), "https://dns.quad9.net/dns-query");
    let t = dot_target(DnsProvider::Cloudflare);
    assert_eq!((t.ip, t.port, t.hostname), ([1, 1, 1, 1], 853, "cloudflare-dns.com"));
    let t = dot_target(DnsProvider::Google);
    assert_eq!((t.ip, t.port, t.hostname), ([8, 8, 8, 8], 853, "dns.google"));
    let t = dot_target(DnsProvider::Quad9);
    assert_eq!((t.ip, t.port, t.hostname), ([9, 9, 9, 9], 853, "dns.quad9.net"));
}

#[test]
fn static_resolver() {
    assert_eq!(static_dns_resolver("dns.google:443"), Ok(([8, 8, 8, 8], 443)));
    assert_eq!(static_dns_resolver("dns.google"), Ok(([8, 8, 8, 8], 443)));
    assert_eq!(static_dns_resolver("cloudflare-dns.com:8443"), Ok(([1, 1, 1, 1], 8443)));
    assert_eq!(static_dns_resolver("dns.quad9.net:x"), Ok(([9, 9, 9, 9], 443)));
    assert_eq!(static_dns_resolver("dns.quad9.net:"), Ok(([9, 9, 9, 9], 443)));
    assert_eq!(static_dns_resolver("dns.quad9.net:65535"), Ok(([9, 9, 9, 9], 65535)));
    assert_eq!(static_dns_resolver("dns.quad9.net:65536"), Ok(([9, 9, 9, 9], 443)));
    assert_eq!(static_dns_resolver("dns.quad9.net:+53"), Ok(([9, 9, 9, 9], 53)));
    assert_eq!(static_dns_resolver("dns.quad9.net:1:2"), Ok(([9, 9, 9, 9], 443)));
    assert_eq!(
        static_dns_resolver("example.com:443"),
        Err("unknown: example.com:443".to_string())
    );
}

#[test]
fn doh_requests_and_outcomes() {
    let r = doh_request(DnsProvider::Google);
    assert_eq!(r.method, "POST");
    assert_eq!(r.url, "https://dns.google/dns-query");
    assert_eq!(r.content_type, "application/dns-message");
    assert_eq!(r.accept, "application/dns-message");
    assert_eq!(doh_resolve_fallible(DohOutcome::Body(vec![1, 2])), Ok(vec![1, 2]));
    assert_eq!(
        doh_resolve_fallible(DohOutcome::Unread("eof".to_string())),
        Err("read: eof".to_string())
    );
    assert_eq!(
        doh_resolve_fallible(DohOutcome::Status(503, "long story".to_string())),
        Err("server 503".to_string())
    );
    assert_eq!(
        doh_resolve_fallible(DohOutcome::Status(500, "status 500".to_string())),
        Err("status 500".to_string())
    );
    assert_eq!(
        doh_resolve_fallible(DohOutcome::Failed("refused".to_string())),
        Err("refused".to_string())
    );
}

#[test]
fn quad9_takes_the_pool_where_there_is_one() {
    assert_eq!(doh_route(DnsProvider::Quad9, true), DohRoute::Quad9Pool);
    assert_eq!(doh_route(DnsProvider::Quad9, false), DohRoute::Agent);
    assert_eq!(doh_route(DnsProvider::Google, true), DohRoute::Agent);
}

fn done(bytes: &[u8]) -> DotEvent {
    DotEvent::Done(bytes.to_vec())
}

#[test]
fn dot_exchange() {
    let a = dot_query(&[7; 300]);
    assert!(matches!(a, DotAction::WriteLen([1, 44])));
    let a = dot_next(a, done(&[]));
    assert!(matches!(a, DotAction::WriteQuery));
    let a = dot_next(a, done(&[]));
    assert!(matches!(a, DotAction::ReadLen));
    let a = dot_next(a, done(&[1, 2]));
    assert!(matches!(a, DotAction::ReadBody(258)));
    match dot_next(a, done(&[3; 258])) {
        DotAction::Finish(Ok(body)) => assert_eq!(body, vec![3; 258]),
        _ => panic!("expected a response"),
    }
    match dot_next(DotAction::ReadLen, done(&[0, 0])) {
        DotAction::Finish(Err(e)) => assert_eq!(e, "empty response"),
        _ => panic!("expected an error"),
    }
    match dot_next(DotAction::WriteQuery, DotEvent::Failed("pipe".to_string())) {
        DotAction::Finish(Err(e)) => assert_eq!(e, "write: pipe"),
        _ => panic!("expected an error"),
    }
    match dot_next(DotAction::ReadBody(3), DotEvent::Failed("eof".to_string())) {
        DotAction::Finish(Err(e)) => assert_eq!(e, "read: eof"),
        _ => panic!("expected an error"),
    }
}

#[test]
fn dot_pool_reuses_and_reconnects() {
    let mut pool: DotPool<u32> = DotPool::new(2);
    assert_eq!(pool.next_slot(), 0);
    assert_eq!(pool.next_slot(), 1);
    assert_eq!(pool.next_slot(), 0);

    assert!(matches!(pool.query(0, DnsProvider::Google), DotPoolAction::Connect));
    let conn = match pool.connected(0, DnsProvider::Google, Ok(41)) {
        DotPoolAction::Exchange(c) => c,
        _ => panic!("expected a connection"),
    };
    assert_eq!(conn.stream, 41);
    assert_eq!(pool.answered(0, conn, Ok(vec![1])), Ok(vec![1]));
    // The connection is there for the next query to the same provider only.
    assert!(matches!(pool.query(1, DnsProvider::Google), DotPoolAction::Connect));
    assert!(matches!(pool.query(0, DnsProvider::Quad9), DotPoolAction::Connect));
    // A failed connection to another provider leaves the old one.
    assert!(matches!(
        pool.connected(0, DnsProvider::Quad9, Err("no route".to_string())),
        DotPoolAction::Fail(_)
    ));
    let conn = match pool.query(0, DnsProvider::Google) {
        DotPoolAction::Exchange(c) => c,
        _ => panic!("expected a connection"),
    };
    // A broken one is dropped.
    let err = Err("read: eof".to_string());
    assert_eq!(pool.answered(0, conn, err.clone()), err);
    assert!(matches!(pool.query(0, DnsProvider::Google), DotPoolAction::Connect));
}

#[test]
fn quad9_pool_drops_stale_connections() {
    let mut pool: Quad9Pool<&str> = Quad9Pool::new();
    assert!(matches!(pool.query(0), Quad9Action::Connect));
    assert!(matches!(
        pool.connected(Err("tcp connect: x".to_string()), 0),
        Quad9Action::Finish(Err(_))
    ));
    let conn = match pool.connected(Ok("a"), 10) {
        Quad9Action::Send(c) => c,
        _ => panic!("expected a connection"),
    };
    assert_eq!(conn.created, 10);
    assert!(matches!(
        pool.sent(0, Ok((vec![1], "a")), SEC),
        Quad9Action::Finish(Ok(_))
    ));
    assert!(matches!(
        pool.sent(0, Ok((vec![1], "b")), 10 * SEC),
        Quad9Action::Finish(Ok(_))
    ));
    // At 16 s the first is stale, the second is not.
    match pool.take(16 * SEC) {
        Some(c) => assert_eq!(c.send, "b"),
        None => panic!("expected a connection"),
    }
    assert!(pool.take(16 * SEC).is_none());
}

#[test]
fn quad9_retries_once_on_a_fresh_connection() {
    let mut pool: Quad9Pool<&str> = Quad9Pool::new();
    pool.sent(0, Ok((vec![], "a")), 0);
    pool.sent(0, Ok((vec![], "b")), 0);
    assert!(matches!(pool.query(1), Quad9Action::Send(_)));
    // The first failure drops the rest of the pool and connects anew.
    assert!(matches!(pool.sent(0, Err("goaway".to_string()), 2), Quad9Action::Connect));
    assert!(pool.take(2).is_none());
    match pool.sent(1, Err("again".to_string()), 3) {
        Quad9Action::Finish(Err(e)) => assert_eq!(e, "again"),
        _ => panic!("expected the end"),
    }
}
