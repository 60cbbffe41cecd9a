//! DNS over TCP: the listener and its clients.

use vstd::prelude::*;

use crate::config::Config;
use crate::dot;
use crate::dot::frame_len;
use crate::provider;
use crate::provider::pick_target;
use crate::provider::DnsProvider;
use crate::provider::DnsStrategy;
use crate::provider::FailoverState;
use crate::relay::RelaySettings;
use crate::relay::ACCEPT_ERROR_MILLIS;
use crate::relay::ACCEPT_IDLE_MILLIS;
use crate::relay::TCP_MAX_CONNS;
use crate::wire;
use crate::wire::HEADER_LEN;

verus! {

// ── Reading ────────────────────────────────────────────────────────────

/// A read that is to give an exact number of bytes.
pub struct ReadExact {
    pub want: usize,
    pub got: Vec<u8>,
}

/// What the read does next.
#[derive(Debug, PartialEq, Eq)]
pub enum ReadStep {
    /// Read at most this many bytes.
    Read(usize),
    /// All bytes are there.
    Done,
    /// The stream ended too soon.
    UnexpectedEof,
    /// Reading failed for this reason.
    Failed(String),
}

/// What came of reading from the stream.
pub enum ReadEvent {
    /// These bytes; none at the end of the stream.
    Bytes(Vec<u8>),
    /// The call was interrupted before it read anything.
    Interrupted,
    Failed(String),
}

impl ReadExact {
    /// What was read so far is not more than what is wanted.
    pub open spec fn wf(self) -> bool {
        self.got@.len() <= self.want
    }

    /// What is left to do when nothing went wrong.
    pub open spec fn pending(self) -> ReadStep {
        if self.got@.len() < self.want {
            ReadStep::Read((self.want - self.got@.len()) as usize)
        } else {
            ReadStep::Done
        }
    }

    fn go_on(&self) -> (r: ReadStep)
        requires
            self.wf(),
        ensures
            r == self.pending(),
    {
        if self.got.len() < self.want {
            ReadStep::Read(self.want - self.got.len())
        } else {
            ReadStep::Done
        }
    }

    /// Go on after the stream gave `event`. An interrupted call is repeated;
    /// the end of the stream is an error as long as bytes are missing.
    pub fn step(&mut self, event: ReadEvent) -> (r: ReadStep)
        requires
            old(self).wf(),
            old(self).got@.len() < old(self).want,
            event matches ReadEvent::Bytes(b) ==> old(self).got@.len() + b@.len() <= old(
                self,
            ).want,
        ensures
            final(self).wf(),
            final(self).want == old(self).want,
            match event {
                ReadEvent::Bytes(b) => {
                    &&& final(self).got@ == old(self).got@ + b@
                    &&& r == (if b@.len() == 0 {
                        ReadStep::UnexpectedEof
                    } else {
                        final(self).pending()
                    })
                },
                ReadEvent::Interrupted => *final(self) == *old(self) && r == old(self).pending(),
                ReadEvent::Failed(e) => *final(self) == *old(self) && r == ReadStep::Failed(e),
            },
    {
        match event {
            ReadEvent::Bytes(bytes) => {
                let n: usize = bytes.len();
                let mut more: Vec<u8> = bytes;
                self.got.append(&mut more);
                if n == 0 {
                    ReadStep::UnexpectedEof
                } else {
                    self.go_on()
                }
            },
            ReadEvent::Interrupted => self.go_on(),
            ReadEvent::Failed(e) => ReadStep::Failed(e),
        }
    }
}

/// Begin a read of exactly `want` bytes.
pub fn read_exact(want: usize) -> (r: (ReadExact, ReadStep))
    ensures
        r.0.wf(),
        r.0.want == want,
        r.0.got@ == Seq::<u8>::empty(),
        r.1 == r.0.pending(),
{
    let read = ReadExact { want, got: Vec::new() };
    let step = read.go_on();
    (read, step)
}

// ── One client ─────────────────────────────────────────────────────────

/// What the connection of a client does next.
pub enum TcpStep {
    /// Read the two bytes that announce the length of a query.
    ReadLen,
    /// Read a query of this many bytes.
    ReadQuery(usize),
    /// Resolve this query with this provider.
    Resolve(Vec<u8>, DnsProvider),
    /// Write these bytes.
    Write(Vec<u8>),
    /// Close the connection.
    Close,
}

/// What came of a step.
pub enum TcpEvent {
    /// Of `ReadLen`: the length that the two bytes announce.
    Len([u8; 2]),
    /// Of `ReadQuery`: the query.
    Query(Vec<u8>),
    /// Of `Resolve`: the answer.
    Answer(Vec<u8>),
    /// Of `Write`: everything was written.
    Written,
    /// Of any read or write: it failed.
    Failed,
}

/// An answer as it goes over TCP: its length, then the answer itself.
pub open spec fn framed(answer: Seq<u8>) -> Seq<u8> {
    dot::length_prefix(answer.len()) + answer
}

/// An answer as it goes over TCP.
fn frame(answer: &[u8]) -> (r: Vec<u8>)
    ensures
        r@ == framed(answer@),
{
    let prefix: [u8; 2] = frame_len(answer.len());
    let mut out: Vec<u8> = Vec::new();
    out.push(prefix[0]);
    out.push(prefix[1]);
    out.extend_from_slice(answer);
    assert(out@ =~= framed(answer@));
    out
}

/// Begin to serve a client.
pub fn handle_tcp_conn() -> (r: TcpStep)
    ensures
        r is ReadLen,
{
    TcpStep::ReadLen
}

/// Go on after a step gave `event`. A client that announces an empty query, or
/// whose connection breaks, is done. A query too short to hold a header is
/// ignored, and so is an answer too long for TCP.
pub fn tcp_next(
    event: TcpEvent,
    strategy: DnsStrategy,
    provider: DnsProvider,
    failover: &FailoverState,
    counter: &mut usize,
) -> (r: TcpStep)
    ensures
        match event {
            TcpEvent::Len(b) => {
                &&& *final(counter) == *old(counter)
                &&& if wire::be16(b@, 0) == 0 {
                    r is Close
                } else {
                    r == TcpStep::ReadQuery(wire::be16(b@, 0) as usize)
                }
            },
            TcpEvent::Query(query) => if query@.len() < HEADER_LEN {
                r is ReadLen && *final(counter) == *old(counter)
            } else {
                match strategy {
                    DnsStrategy::RoundRobin => {
                        &&& r == TcpStep::Resolve(
                            query,
                            provider::provider_at(*old(counter) as int % 3),
                        )
                        &&& *final(counter) == provider::next_count(*old(counter))
                    },
                    DnsStrategy::Failover => {
                        &&& r == TcpStep::Resolve(query, failover@)
                        &&& *final(counter) == *old(counter)
                    },
                    DnsStrategy::Single => {
                        &&& r == TcpStep::Resolve(query, provider)
                        &&& *final(counter) == *old(counter)
                    },
                }
            },
            TcpEvent::Answer(answer) => {
                &&& *final(counter) == *old(counter)
                &&& if answer@.len() > u16::MAX {
                    r is ReadLen
                } else {
                    r matches TcpStep::Write(bytes) && bytes@ == framed(answer@)
                }
            },
            TcpEvent::Written => r is ReadLen && *final(counter) == *old(counter),
            TcpEvent::Failed => r is Close && *final(counter) == *old(counter),
        },
{
    match event {
        TcpEvent::Len(b) => {
            let len: usize = b[0] as usize * 256 + b[1] as usize;
            if len == 0 {
                TcpStep::Close
            } else {
                TcpStep::ReadQuery(len)
            }
        },
        TcpEvent::Query(query) => {
            if query.len() < HEADER_LEN {
                TcpStep::ReadLen
            } else {
                let target: DnsProvider = pick_target(strategy, provider, failover, counter);
                TcpStep::Resolve(query, target)
            }
        },
        TcpEvent::Answer(answer) => {
            if answer.len() > u16::MAX as usize {
                TcpStep::ReadLen
            } else {
                TcpStep::Write(frame(answer.as_slice()))
            }
        },
        TcpEvent::Written => TcpStep::ReadLen,
        TcpEvent::Failed => TcpStep::Close,
    }
}

// ── The listener ───────────────────────────────────────────────────────

/// The number of clients that are being served.
pub struct ConnCount {
    active: usize,
}

impl View for ConnCount {
    type V = nat;

    closed spec fn view(&self) -> nat {
        self.active as nat
    }
}

impl ConnCount {
    #[verifier::type_invariant]
    spec fn wf(self) -> bool {
        self.active <= TCP_MAX_CONNS
    }

    pub fn new() -> (r: Self)
        ensures
            r@ == 0,
    {
        ConnCount { active: 0 }
    }

    /// Make room for a client. False where there are too many already.
    pub fn open(&mut self) -> (r: bool)
        ensures
            r == (old(self)@ < TCP_MAX_CONNS),
            final(self)@ == old(self)@ + (if r {
                1nat
            } else {
                0nat
            }),
            final(self)@ <= TCP_MAX_CONNS,
    {
        proof {
            use_type_invariant(&*self);
        }
        if self.active >= TCP_MAX_CONNS {
            false
        } else {
            self.active = self.active + 1;
            true
        }
    }

    /// A client is gone.
    pub fn close(&mut self)
        requires
            old(self)@ > 0,
        ensures
            final(self)@ == old(self)@ - 1,
    {
        proof {
            use_type_invariant(&*self);
        }
        self.active = self.active - 1;
    }
}

/// What the listener does next.
pub enum ListenStep {
    /// See whether the relay is to go on.
    CheckRunning,
    /// Read the settings.
    ReadConfig,
    /// Accept a client, without waiting for one.
    Accept,
    /// Serve the client that was accepted, by this strategy and provider.
    Serve(DnsStrategy, DnsProvider),
    /// Drop the client that was accepted.
    Drop,
    /// Rest for this many milliseconds.
    Nap(u64),
    /// Hand these settings to the UDP loop and stop listening.
    Swap(Config),
    /// Stop listening.
    Finish,
}

/// What came of a step.
pub enum ListenEvent {
    /// Of `CheckRunning`.
    Running(bool),
    /// Of `ReadConfig`: the settings.
    ConfigRead(Config),
    /// Of `Accept`: a client.
    Accepted,
    /// Of `Accept`: no client waits.
    NoClient,
    /// Of `Accept`: it failed.
    Failed,
    /// Of `Serve`, `Drop` and `Nap`: it is done.
    Done,
}

/// Begin to listen.
pub fn spawn_tcp_thread() -> (r: ListenStep)
    ensures
        r is CheckRunning,
{
    ListenStep::CheckRunning
}

/// Go on after a step gave `event` at time `now`. A client is served where
/// there is room for it and dropped otherwise; the listener never waits for
/// one, so that it sees a shutdown and a change of the settings in time.
pub fn listen_next(
    settings: &mut RelaySettings,
    event: ListenEvent,
    conns: &mut ConnCount,
    now: u128,
) -> (r: ListenStep)
    requires
        old(settings).wf(),
    ensures
        final(settings).wf(),
        final(settings).mode == old(settings).mode,
        match event {
            ListenEvent::ConfigRead(cfg) => {
                &&& final(settings).last_check == now
                &&& if cfg.mode_spec() != old(settings).mode {
                    r == ListenStep::Swap(cfg) && final(settings).config == old(settings).config
                } else {
                    r is Accept && final(settings).config == cfg
                }
            },
            _ => *final(settings) == *old(settings),
        },
        match event {
            ListenEvent::Running(true) => r == (if old(settings).due(now) {
                ListenStep::ReadConfig
            } else {
                ListenStep::Accept
            }),
            ListenEvent::Running(false) => r is Finish,
            ListenEvent::Accepted => r == (if old(conns)@ < TCP_MAX_CONNS {
                ListenStep::Serve(old(settings).strategy, old(settings).provider)
            } else {
                ListenStep::Drop
            }),
            ListenEvent::NoClient => r == ListenStep::Nap(ACCEPT_IDLE_MILLIS),
            ListenEvent::Failed => r == ListenStep::Nap(ACCEPT_ERROR_MILLIS),
            ListenEvent::Done => r is CheckRunning,
            ListenEvent::ConfigRead(_) => true,
        },
        final(conns)@ == (if r is Serve {
            old(conns)@ + 1
        } else {
            old(conns)@
        }),
{
    match event {
        ListenEvent::Running(running) => {
            if !running {
                ListenStep::Finish
            } else if settings.reload_due(now) {
                ListenStep::ReadConfig
            } else {
                ListenStep::Accept
            }
        },
        ListenEvent::ConfigRead(cfg) => match settings.reload(cfg, now) {
            Some(swap) => ListenStep::Swap(swap),
            None => ListenStep::Accept,
        },
        ListenEvent::Accepted => {
            if conns.open() {
                ListenStep::Serve(settings.strategy, settings.provider)
            } else {
                ListenStep::Drop
            }
        },
        ListenEvent::NoClient => ListenStep::Nap(ACCEPT_IDLE_MILLIS),
        ListenEvent::Failed => ListenStep::Nap(ACCEPT_ERROR_MILLIS),
        ListenEvent::Done => ListenStep::CheckRunning,
    }
}

// ── Laws ───────────────────────────────────────────────────────────────

/// What is written for an answer that fits is read back as that answer: the
/// first two bytes announce its length and the rest is the answer.
pub proof fn law_frame_round_trip(answer: Seq<u8>)
    requires
        answer.len() <= u16::MAX,
    ensures
        framed(answer).len() == answer.len() + 2,
        wire::be16(framed(answer), 0) == answer.len(),
        framed(answer).skip(2) == answer,
{
    dot::law_length_prefix_round_trip(answer.len());
    assert(framed(answer).skip(2) =~= answer);
}

/// However a stream cuts its bytes into pieces, a read that is done has got the
/// pieces in order and exactly as many bytes as were wanted; and as long as
/// some are missing, each piece brings it closer.
pub proof fn law_read_exact(before: ReadExact, piece: Seq<u8>, after: ReadExact)
    requires
        before.wf(),
        after.wf(),
        after.want == before.want,
        after.got@ == before.got@ + piece,
        piece.len() > 0,
    ensures
        after.pending() is Done ==> after.got@.len() == after.want,
        after.pending() is Read ==> after.want - after.got@.len() < before.want
            - before.got@.len(),
{
}

/// An answer of up to 65535 bytes goes out behind two bytes that say its
/// length, the higher one first.
pub proof fn law_frame_bytes(answer: Seq<u8>)
    requires
        answer.len() <= 65535,
    ensures
        framed(answer).len() == answer.len() + 2,
        framed(answer)[0] * 256 + framed(answer)[1] == answer.len(),
        forall|i: int| 0 <= i < answer.len() ==> framed(answer)[i + 2] == #[trigger] answer[i],
{
}

/// A read is done where nothing is missing, and otherwise goes on with just
/// what is missing.
pub proof fn law_read_asks_for_what_is_missing(read: ReadExact)
    requires
        read.got@.len() <= read.want,
    ensures
        read.wf(),
        read.got@.len() == read.want ==> read.pending() is Done,
        read.got@.len() < read.want ==> (read.pending() matches ReadStep::Read(n) && n
            + read.got@.len() == read.want),
{
}

} // verus!
