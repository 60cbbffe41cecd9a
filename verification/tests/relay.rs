//! Resolving, dispatching, and the UDP and TCP loops.

use dns_guard::cache::DnsCache;
use dns_guard::config::Config;
use dns_guard::provider::{DnsMode, DnsProvider, DnsStrategy, FailoverState};
use dns_guard::relay::{
    answer, answer_at, dispatch_offered, dispatch_rested, dispatch_udp, resolve, resolve_at,
    udp_reply, DispatchStep, RelaySettings, Resolution, SendOutcome, TCP_MAX_CONNS,
};
use dns_guard::tcp::{
    handle_tcp_conn, listen_next, read_exact, spawn_tcp_thread, tcp_next, ConnCount, ListenEvent,
    ListenStep, ReadEvent, ReadStep, TcpEvent, TcpStep,
};
use dns_guard::udp::{run_proxy_loop, udp_next, UdpEvent, UdpStep};
use dns_guard::wire::{response_ttl, MAX_UDP_DNS};

const MILLI: u128 = 1_000_000;

/// Build a response with one A record (TTL 300) that echoes the query's ID,
/// as a real upstream does.
fn fake_response(query: &[u8]) -> Vec<u8> {
    let mut resp = Vec::new();
    resp.extend_from_slice(&query[..12]);
    resp[2] = 0x81;
    resp[3] = 0x80;
    resp[6..8].copy_from_slice(&[0x00, 0x01]); // ANCOUNT = 1
    resp.extend_from_slice(&query[12..]);
    resp.extend_from_slice(&[0xC0, 0x0C, 0x00, 0x01, 0x00, 0x01]);
    resp.extend_from_slice(&300u32.to_be_bytes());
    resp.extend_from_slice(&[0x00, 0x04, 93, 184, 216, 34]);
    resp
}

fn a_query(id: u16) -> Vec<u8> {
    let mut q = Vec::new();
    q.extend_from_slice(&id.to_be_bytes());
    q.extend_from_slice(&[0x01, 0x00, 0x00, 0x01, 0x00, 0x00, 0x00, 0x00, 0x00, 0x00]);
    q.extend_from_slice(&[
        3, b'w', b'w', b'w', 7, b'e', b'x', b'a', b'm', b'p', b'l', b'e', 3, b'c', b'o', b'm', 0,
    ]);
    q.extend_from_slice(&[0x00, 0x01, 0x00, 0x01]);
    q
}

/// Send a query through dispatch, a worker and the cache, and give the reply.
fn relay_roundtrip(
    turn: &mut usize,
    query: &[u8],
    target: DnsProvider,
    strategy: DnsStrategy,
    upstream: &dyn Fn(&[u8]) -> Result<Vec<u8>, String>,
    failover: &mut FailoverState,
    cache: &mut DnsCache,
) -> Vec<u8> {
    assert!(matches!(dispatch_udp(turn, 2), DispatchStep::TrySend(w) if w < 2));
    assert_eq!(dispatch_offered(SendOutcome::Sent), DispatchStep::Done(true));
    let resp = match resolve(query, cache) {
        Resolution::Answer(resp) => resp,
        Resolution::Ask => answer(query, target, strategy, upstream(query), failover, cache),
    };
    udp_reply(resp)
}

#[test]
fn worker_pool_cache_and_servfail() {
    let upstream = |query: &[u8]| Ok(fake_response(query));
    let mut failover = FailoverState::new(DnsProvider::Cloudflare);
    let mut cache = DnsCache::new();
    let mut turn = 0usize;

    // Miss: direct resolve, answer carries the requester's ID.
    let q1 = a_query(0x1111);
    let resp = relay_roundtrip(
        &mut turn,
        &q1,
        DnsProvider::Cloudflare,
        DnsStrategy::Single,
        &upstream,
        &mut failover,
        &mut cache,
    );
    assert_eq!(&resp[..2], &[0x11, 0x11]);
    assert!(response_ttl(&resp).is_some());

    // Hit: same question, different ID, served from cache and re-ID'd.
    let q2 = a_query(0x2222);
    let never = |_: &[u8]| -> Result<Vec<u8>, String> { panic!("must not be asked") };
    let resp = relay_roundtrip(
        &mut turn,
        &q2,
        DnsProvider::Cloudflare,
        DnsStrategy::Single,
        &never,
        &mut failover,
        &mut cache,
    );
    assert_eq!(&resp[..2], &[0x22, 0x22], "cached response re-ID'd for requester");
}

#[test]
fn worker_failure_returns_servfail_and_advances_failover() {
    // All upstreams fail.
    let upstream = |_: &[u8]| Err("upstream down".to_string());
    let mut failover = FailoverState::new(DnsProvider::Cloudflare);
    let mut cache = DnsCache::new();
    let mut turn = 0usize;

    let q = a_query(0x4242);
    let resp = relay_roundtrip(
        &mut turn,
        &q,
        DnsProvider::Cloudflare,
        DnsStrategy::Failover,
        &upstream,
        &mut failover,
        &mut cache,
    );
    assert_eq!(resp[3] & 0x0F, 0x02, "SERVFAIL RCODE");
    assert_eq!(&resp[..2], &[0x42, 0x42], "servfail echoes requester ID");
    assert_eq!(failover.target(), DnsProvider::Google, "failover advanced past Cloudflare");
    assert_eq!(cache.len(), 0);
}

#[test]
fn a_fresh_answer_gets_the_requesters_id() {
    let mut failover = FailoverState::new(DnsProvider::Cloudflare);
    let mut cache = DnsCache::new();
    let q = a_query(0x0102);
    let other = fake_response(&a_query(0x9999));
    let resp = answer_at(
        &q,
        DnsProvider::Google,
        DnsStrategy::Single,
        Ok(other),
        &mut failover,
        &mut cache,
        0,
    );
    assert_eq!(&resp[..2], &[0x01, 0x02]);
    // The cached copy is re-ID'd for the next requester, until its time is up.
    let q2 = a_query(0x0304);
    match resolve_at(&q2, &mut cache, 299_999 * MILLI) {
        Resolution::Answer(r) => {
            assert_eq!(&r[..2], &[0x03, 0x04]);
            assert_eq!(&r[2..], &resp[2..]);
        }
        Resolution::Ask => panic!("expected a hit"),
    }
    assert!(matches!(resolve_at(&q2, &mut cache, 300_000 * MILLI), Resolution::Ask));
}

#[test]
fn an_answer_without_records_is_not_cached() {
    let mut failover = FailoverState::new(DnsProvider::Cloudflare);
    let mut cache = DnsCache::new();
    let q = a_query(1);
    let mut resp = q.clone();
    resp[2] = 0x81;
    let got = answer_at(
        &q,
        DnsProvider::Google,
        DnsStrategy::Failover,
        Ok(resp.clone()),
        &mut failover,
        &mut cache,
        0,
    );
    assert_eq!(got, resp);
    assert_eq!(cache.len(), 0);
    assert_eq!(failover.target(), DnsProvider::Cloudflare);
}

#[test]
fn udp_replies_are_truncated_at_the_limit() {
    let exact = vec![0u8; MAX_UDP_DNS];
    assert_eq!(udp_reply(exact.clone()), exact);
    let long = udp_reply(vec![0u8; MAX_UDP_DNS + 1]);
    assert_eq!(long.len(), 4096);
    assert_eq!(long[2], 0x02);
}

#[test]
fn dispatch_takes_workers_in_turn() {
    let mut turn = 0usize;
    assert_eq!(dispatch_udp(&mut turn, 3), DispatchStep::TrySend(0));
    assert_eq!(dispatch_offered(SendOutcome::Full), DispatchStep::Nap);
    assert_eq!(dispatch_rested(true, &mut turn, 3), DispatchStep::TrySend(1));
    assert_eq!(dispatch_rested(true, &mut turn, 3), DispatchStep::TrySend(2));
    assert_eq!(dispatch_rested(true, &mut turn, 3), DispatchStep::TrySend(0));
    assert_eq!(dispatch_rested(false, &mut turn, 3), DispatchStep::Done(false));
    assert_eq!(turn, 4);
    assert_eq!(dispatch_offered(SendOutcome::Disconnected), DispatchStep::Done(false));
    turn = usize::MAX;
    assert_eq!(dispatch_udp(&mut turn, 8), DispatchStep::TrySend(7));
    assert_eq!(turn, 0);
}

fn config(mode: &str, provider: &str, strategy: &str) -> Config {
    Config {
        mode: mode.to_string(),
        provider: provider.to_string(),
        strategy: strategy.to_string(),
    }
}

#[test]
fn udp_loop_reloads_and_swaps() {
    let mut settings = RelaySettings::new(config("doh", "google", "single"), 0);
    assert_eq!(settings.mode, DnsMode::DoH);
    assert_eq!(settings.provider, DnsProvider::Google);
    let failover = FailoverState::new(DnsProvider::Google);
    let mut rr = 0usize;

    assert!(matches!(run_proxy_loop::<u8>(&settings, 499 * MILLI), UdpStep::PollSwap));
    assert!(matches!(run_proxy_loop::<u8>(&settings, 500 * MILLI), UdpStep::ReadConfig));

    // Same mode: provider and strategy follow.
    let step = udp_next::<u8>(
        &mut settings,
        UdpEvent::ConfigRead(config("DoH", "QUAD9", "Round-Robin")),
        &failover,
        &mut rr,
        500 * MILLI,
    );
    assert!(matches!(step, UdpStep::PollSwap));
    assert_eq!(settings.provider, DnsProvider::Quad9);
    assert_eq!(settings.strategy, DnsStrategy::RoundRobin);
    assert_eq!(settings.last_check, 500 * MILLI);

    // Another mode: the loop ends with the new settings.
    let step = udp_next::<u8>(
        &mut settings,
        UdpEvent::ConfigRead(config("dot", "google", "single")),
        &failover,
        &mut rr,
        1000 * MILLI,
    );
    match step {
        UdpStep::Finish(Some(c)) => assert_eq!(c.mode, "dot"),
        _ => panic!("expected a swap"),
    }
    assert_eq!(settings.provider, DnsProvider::Quad9);
}

#[test]
fn udp_loop_goes_round() {
    let mut settings = RelaySettings::new(config("doh", "google", "round-robin"), 0);
    let failover = FailoverState::new(DnsProvider::Quad9);
    let mut rr = 0usize;

    let step = udp_next::<u8>(&mut settings, UdpEvent::Swap(None), &failover, &mut rr, 1);
    assert!(matches!(step, UdpStep::CheckRunning));
    let step = udp_next::<u8>(&mut settings, UdpEvent::Running(true), &failover, &mut rr, 1);
    assert!(matches!(step, UdpStep::Receive));
    let step = udp_next::<u8>(&mut settings, UdpEvent::Nothing, &failover, &mut rr, 1);
    assert!(matches!(step, UdpStep::PollSwap));
    // Too short for a header.
    let step = udp_next(&mut settings, UdpEvent::Datagram(vec![0; 11], 7u8), &failover, &mut rr, 1);
    assert!(matches!(step, UdpStep::PollSwap));
    assert_eq!(rr, 0);
    // Round-robin goes through the providers.
    let expected = [
        DnsProvider::Cloudflare,
        DnsProvider::Google,
        DnsProvider::Quad9,
        DnsProvider::Cloudflare,
    ];
    for p in expected {
        let event = UdpEvent::Datagram(a_query(5), 7u8);
        match udp_next(&mut settings, event, &failover, &mut rr, 1) {
            UdpStep::Dispatch(job) => {
                assert_eq!(job.query, a_query(5));
                assert_eq!(job.src, 7);
                assert_eq!(job.target, p);
                assert_eq!(job.strategy, DnsStrategy::RoundRobin);
            }
            _ => panic!("expected a job"),
        }
    }
    let step = udp_next::<u8>(&mut settings, UdpEvent::Dispatched(true), &failover, &mut rr, 1);
    assert!(matches!(step, UdpStep::PollSwap));
    let step = udp_next::<u8>(&mut settings, UdpEvent::Dispatched(false), &failover, &mut rr, 1);
    assert!(matches!(step, UdpStep::Finish(None)));
    let step = udp_next::<u8>(&mut settings, UdpEvent::Running(false), &failover, &mut rr, 1);
    assert!(matches!(step, UdpStep::Finish(None)));
    let swap = Some(config("dot", "", ""));
    let step = udp_next::<u8>(&mut settings, UdpEvent::Swap(swap), &failover, &mut rr, 1);
    assert!(matches!(step, UdpStep::Finish(Some(_))));
}

#[test]
fn read_exact_puts_pieces_together() {
    let (mut read, step) = read_exact(4);
    assert_eq!(step, ReadStep::Read(4));
    assert_eq!(read.step(ReadEvent::Bytes(vec![1])), ReadStep::Read(3));
    assert_eq!(read.step(ReadEvent::Interrupted), ReadStep::Read(3));
    assert_eq!(read.step(ReadEvent::Bytes(vec![2, 3])), ReadStep::Read(1));
    assert_eq!(read.step(ReadEvent::Bytes(vec![4])), ReadStep::Done);
    assert_eq!(read.got, vec![1, 2, 3, 4]);
    let (mut read, _) = read_exact(2);
    assert_eq!(read.step(ReadEvent::Bytes(vec![])), ReadStep::UnexpectedEof);
    assert_eq!(
        read.step(ReadEvent::Failed("reset".to_string())),
        ReadStep::Failed("reset".to_string())
    );
    assert_eq!(read_exact(0).1, ReadStep::Done);
}

#[test]
fn tcp_client_is_served() {
    let failover = FailoverState::new(DnsProvider::Quad9);
    let mut rr = 0usize;
    let mut next = |event| tcp_next(event, DnsStrategy::Failover, DnsProvider::Google, &failover, &mut rr);

    assert!(matches!(handle_tcp_conn(), TcpStep::ReadLen));
    assert!(matches!(next(TcpEvent::Len([0, 0])), TcpStep::Close));
    assert!(matches!(next(TcpEvent::Len([1, 2])), TcpStep::ReadQuery(258)));
    assert!(matches!(next(TcpEvent::Query(vec![0; 11])), TcpStep::ReadLen));
    match next(TcpEvent::Query(vec![9; 12])) {
        TcpStep::Resolve(query, target) => {
            assert_eq!(query, vec![9; 12]);
            assert_eq!(target, DnsProvider::Quad9);
        }
        _ => panic!("expected a query to resolve"),
    }
    match next(TcpEvent::Answer(vec![5; 258])) {
        TcpStep::Write(bytes) => {
            assert_eq!(&bytes[..2], &[1, 2]);
            assert_eq!(&bytes[2..], &[5; 258]);
        }
        _ => panic!("expected an answer to write"),
    }
    match next(TcpEvent::Answer(vec![5; 65535])) {
        TcpStep::Write(bytes) => assert_eq!(&bytes[..3], &[255, 255, 5]),
        _ => panic!("expected an answer to write"),
    }
    assert!(matches!(next(TcpEvent::Answer(vec![5; 65536])), TcpStep::ReadLen));
    assert!(matches!(next(TcpEvent::Written), TcpStep::ReadLen));
    assert!(matches!(next(TcpEvent::Failed), TcpStep::Close));
}

#[test]
fn listener_limits_clients() {
    let mut settings = RelaySettings::new(config("dot", "quad9", "single"), 0);
    let mut conns = ConnCount::new();
    assert!(matches!(spawn_tcp_thread(), ListenStep::CheckRunning));
    let step = listen_next(&mut settings, ListenEvent::Running(true), &mut conns, 1);
    assert!(matches!(step, ListenStep::Accept));
    for _ in 0..TCP_MAX_CONNS {
        let step = listen_next(&mut settings, ListenEvent::Accepted, &mut conns, 1);
        assert!(matches!(
            step,
            ListenStep::Serve(DnsStrategy::Single, DnsProvider::Quad9)
        ));
    }
    let step = listen_next(&mut settings, ListenEvent::Accepted, &mut conns, 1);
    assert!(matches!(step, ListenStep::Drop));
    conns.close();
    let step = listen_next(&mut settings, ListenEvent::Accepted, &mut conns, 1);
    assert!(matches!(step, ListenStep::Serve(_, _)));
}

#[test]
fn listener_rests_reloads_and_stops() {
    let mut settings = RelaySettings::new(config("dot", "quad9", "single"), 0);
    let mut conns = ConnCount::new();
    let step = listen_next(&mut settings, ListenEvent::NoClient, &mut conns, 1);
    assert!(matches!(step, ListenStep::Nap(50)));
    let step = listen_next(&mut settings, ListenEvent::Failed, &mut conns, 1);
    assert!(matches!(step, ListenStep::Nap(200)));
    let step = listen_next(&mut settings, ListenEvent::Done, &mut conns, 1);
    assert!(matches!(step, ListenStep::CheckRunning));
    let step = listen_next(&mut settings, ListenEvent::Running(true), &mut conns, 500 * MILLI);
    assert!(matches!(step, ListenStep::ReadConfig));
    let same = ListenEvent::ConfigRead(config("dot", "google", "failover"));
    let step = listen_next(&mut settings, same, &mut conns, 500 * MILLI);
    assert!(matches!(step, ListenStep::Accept));
    assert_eq!(settings.provider, DnsProvider::Google);
    let other = ListenEvent::ConfigRead(config("doh", "google", "failover"));
    match listen_next(&mut settings, other, &mut conns, 600 * MILLI) {
        ListenStep::Swap(c) => assert_eq!(c.mode, "doh"),
        _ => panic!("expected a swap"),
    }
    let step = listen_next(&mut settings, ListenEvent::Running(false), &mut conns, 1);
    assert!(matches!(step, ListenStep::Finish));
}

#[test]
fn a_look_at_the_same_settings_confirms_them() {
    let mut settings = RelaySettings::new(config("DOT", "google", "failover"), 0);
    assert!(settings.reload_due(500 * MILLI));
    assert!(settings.reload(config("DOT", "google", "failover"), 500 * MILLI).is_none());
    assert!(!settings.reload_due(999 * MILLI));
    assert_eq!(settings.mode, DnsMode::DoT);
    assert_eq!(settings.provider, DnsProvider::Google);
    assert_eq!(settings.strategy, DnsStrategy::Failover);
    assert!(settings.reload(config("doh", "google", "failover"), 999 * MILLI).is_some());
    assert_eq!(settings.config.mode, "DOT");
}
