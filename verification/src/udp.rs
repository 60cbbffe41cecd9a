//! The UDP loop of the relay.

use vstd::prelude::*;

use crate::config::Config;
use crate::provider;
use crate::provider::pick_target;
use crate::provider::DnsProvider;
use crate::provider::DnsStrategy;
use crate::provider::FailoverState;
use crate::relay::Job;
use crate::relay::RelaySettings;
use crate::wire::HEADER_LEN;

verus! {

/// What the loop does next. `A` is the address of a client.
pub enum UdpStep<A> {
    /// Read the settings.
    ReadConfig,
    /// See whether the TCP side found that the mode changed.
    PollSwap,
    /// See whether a shutdown was requested.
    CheckRunning,
    /// Wait for a datagram.
    Receive,
    /// Hand this query to a worker.
    Dispatch(Job<A>),
    /// End the loop: with settings for another mode, or for good.
    Finish(Option<Config>),
}

/// What came of a step.
pub enum UdpEvent<A> {
    /// Of `ReadConfig`: the settings.
    ConfigRead(Config),
    /// Of `PollSwap`: the settings that the TCP side handed over, if any.
    Swap(Option<Config>),
    /// Of `CheckRunning`: whether the relay is to go on.
    Running(bool),
    /// Of `Receive`: a datagram and where it came from.
    Datagram(Vec<u8>, A),
    /// Of `Receive`: no datagram came in time, or receiving failed.
    Nothing,
    /// Of `Dispatch`: the query was handed over, or the relay has to stop.
    Dispatched(bool),
}

/// The step that a round of the loop begins with.
pub open spec fn udp_round<A>(settings: RelaySettings, now: u128) -> UdpStep<A> {
    if settings.due(now) {
        UdpStep::ReadConfig
    } else {
        UdpStep::PollSwap
    }
}

/// The query of a datagram, addressed to the provider that the strategy picks
/// when the round-robin counter shows `counter`.
pub open spec fn is_job<A>(
    job: Job<A>,
    settings: RelaySettings,
    failover: FailoverState,
    counter: usize,
    query: Seq<u8>,
    src: A,
) -> bool {
    &&& job.query@ == query
    &&& job.src == src
    &&& job.strategy == settings.strategy
    &&& job.target == (match settings.strategy {
        DnsStrategy::RoundRobin => provider::provider_at(counter as int % 3),
        DnsStrategy::Failover => failover@,
        DnsStrategy::Single => settings.provider,
    })
}

/// Begin a round of the loop.
pub fn run_proxy_loop<A>(settings: &RelaySettings, now: u128) -> (r: UdpStep<A>)
    ensures
        r == udp_round::<A>(*settings, now),
{
    if settings.reload_due(now) {
        UdpStep::ReadConfig
    } else {
        UdpStep::PollSwap
    }
}

/// Go on after a step gave `event` at time `now`. A datagram too short to hold
/// a header is ignored. The loop ends when the settings ask for another mode,
/// when a shutdown was requested, or when the workers are gone.
pub fn udp_next<A>(
    settings: &mut RelaySettings,
    event: UdpEvent<A>,
    failover: &FailoverState,
    counter: &mut usize,
    now: u128,
) -> (r: UdpStep<A>)
    requires
        old(settings).wf(),
    ensures
        final(settings).wf(),
        final(settings).mode == old(settings).mode,
        match event {
            UdpEvent::ConfigRead(cfg) => {
                &&& *final(counter) == *old(counter)
                &&& final(settings).last_check == now
                &&& if cfg.mode_spec() != old(settings).mode {
                    r == UdpStep::<A>::Finish(Some(cfg)) && final(settings).config == old(
                        settings,
                    ).config
                } else {
                    r is PollSwap && final(settings).config == cfg
                }
            },
            UdpEvent::Swap(swap) => {
                &&& *final(settings) == *old(settings)
                &&& *final(counter) == *old(counter)
                &&& if swap is Some {
                    r == UdpStep::<A>::Finish(swap)
                } else {
                    r is CheckRunning
                }
            },
            UdpEvent::Running(running) => {
                &&& *final(settings) == *old(settings)
                &&& *final(counter) == *old(counter)
                &&& if running {
                    r is Receive
                } else {
                    r == UdpStep::<A>::Finish(None)
                }
            },
            UdpEvent::Datagram(query, src) => {
                &&& *final(settings) == *old(settings)
                &&& if query@.len() < HEADER_LEN {
                    r == udp_round::<A>(*old(settings), now) && *final(counter) == *old(counter)
                } else {
                    &&& r matches UdpStep::Dispatch(job) && is_job(
                        job,
                        *old(settings),
                        *failover,
                        *old(counter),
                        query@,
                        src,
                    )
                    &&& *final(counter) == (if old(settings).strategy == DnsStrategy::RoundRobin {
                        provider::next_count(*old(counter))
                    } else {
                        *old(counter)
                    })
                }
            },
            UdpEvent::Nothing => {
                &&& *final(settings) == *old(settings)
                &&& *final(counter) == *old(counter)
                &&& r == udp_round::<A>(*old(settings), now)
            },
            UdpEvent::Dispatched(sent) => {
                &&& *final(settings) == *old(settings)
                &&& *final(counter) == *old(counter)
                &&& r == (if sent {
                    udp_round::<A>(*old(settings), now)
                } else {
                    UdpStep::<A>::Finish(None)
                })
            },
        },
{
    match event {
        UdpEvent::ConfigRead(cfg) => match settings.reload(cfg, now) {
            Some(swap) => UdpStep::Finish(Some(swap)),
            None => UdpStep::PollSwap,
        },
        UdpEvent::Swap(swap) => match swap {
            Some(cfg) => UdpStep::Finish(Some(cfg)),
            None => UdpStep::CheckRunning,
        },
        UdpEvent::Running(running) => if running {
            UdpStep::Receive
        } else {
            UdpStep::Finish(None)
        },
        UdpEvent::Datagram(query, src) => {
            if query.len() < HEADER_LEN {
                run_proxy_loop(settings, now)
            } else {
                let target = pick_target(settings.strategy, settings.provider, failover, counter);
                UdpStep::Dispatch(Job { query, src, target, strategy: settings.strategy })
            }
        },
        UdpEvent::Nothing => run_proxy_loop(settings, now),
        UdpEvent::Dispatched(sent) => if sent {
            run_proxy_loop(settings, now)
        } else {
            UdpStep::Finish(None)
        },
    }
}

// ── Laws ───────────────────────────────────────────────────────────────

/// However long the loop runs, it looks at the settings within a round of the
/// half second being over, and right after it has looked it is not due again.
pub proof fn law_reload_is_paced<A>(settings: RelaySettings, now: u128)
    ensures
        udp_round::<A>(settings, now) is ReadConfig <==> now - settings.last_check >= 500_000_000,
        udp_round::<A>(RelaySettings { last_check: now, ..settings }, now) is PollSwap,
{
}

/// Where a query goes: to the provider of the settings under the strategy of a
/// single one, to the failover target under failover, and under round-robin to
/// Cloudflare, Google and Quad9 in turn, so that queries that follow each other
/// on the counter go to different providers.
pub proof fn law_jobs_go_where_the_strategy_says<A>(
    first: Job<A>,
    second: Job<A>,
    settings: RelaySettings,
    failover: FailoverState,
    counter: usize,
    query: Seq<u8>,
    src: A,
)
    requires
        is_job(first, settings, failover, counter, query, src),
        is_job(second, settings, failover, provider::next_count(counter), query, src),
        counter < usize::MAX,
    ensures
        first.query@ == query,
        first.src == src,
        first.strategy == settings.strategy,
        settings.strategy == DnsStrategy::Single ==> first.target == settings.provider,
        settings.strategy == DnsStrategy::Failover ==> first.target == failover@,
        settings.strategy == DnsStrategy::RoundRobin ==> {
            &&& counter % 3 == 0 ==> first.target == DnsProvider::Cloudflare && second.target
                == DnsProvider::Google
            &&& counter % 3 == 1 ==> first.target == DnsProvider::Google && second.target
                == DnsProvider::Quad9
            &&& counter % 3 == 2 ==> first.target == DnsProvider::Quad9 && second.target
                == DnsProvider::Cloudflare
        },
{
    provider::law_round_robin_takes_turns(0);
    provider::law_round_robin_takes_turns(1);
    provider::law_round_robin_takes_turns(counter);
}

} // verus!
