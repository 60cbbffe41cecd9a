//! DNS-over-TLS: message framing and the connection pool.
//!
//! Queries over a single TLS connection are serialised: one is in flight at a
//! time. A small pool of independent connections lets concurrent workers
//! resolve in parallel. A connection is made anew when the provider changes or
//! after a failure.

use vstd::prelude::*;

use crate::provider;
use crate::provider::DnsProvider;
use crate::text;
use crate::wire;

verus! {

// ── One exchange ───────────────────────────────────────────────────────

/// The next thing to do in a DNS-over-TLS exchange.
pub enum DotAction {
    /// Write the two bytes that announce the query's length.
    WriteLen([u8; 2]),
    /// Write the query.
    WriteQuery,
    /// Read the two bytes that announce the response's length.
    ReadLen,
    /// Read a response of this many bytes.
    ReadBody(usize),
    /// The exchange is over.
    Finish(Result<Vec<u8>, String>),
}

/// What came of the last action.
pub enum DotEvent {
    /// It was done; for a read, these bytes were read.
    Done(Vec<u8>),
    /// It failed for this reason.
    Failed(String),
}

/// The length prefix of a message: its length in big-endian order, modulo
/// 65536.
pub open spec fn length_prefix(len: nat) -> Seq<u8> {
    seq![(len / 256 % 256) as u8, (len % 256) as u8]
}

/// The two bytes that announce the length of a message.
pub fn frame_len(len: usize) -> (r: [u8; 2])
    ensures
        r@ == length_prefix(len as nat),
{
    let r: [u8; 2] = [(len / 256 % 256) as u8, (len % 256) as u8];
    assert(r@ =~= length_prefix(len as nat));
    r
}

/// Begin an exchange for `query`.
pub fn dot_query(query: &[u8]) -> (r: DotAction)
    ensures
        r matches DotAction::WriteLen(p) && p@ == length_prefix(query@.len()),
{
    DotAction::WriteLen(frame_len(query.len()))
}

/// Whether `event` can come of `action`: nothing comes of a finished exchange,
/// and a read that is done read as much as it was told to.
pub open spec fn dot_event_fits(action: DotAction, event: DotEvent) -> bool {
    match action {
        DotAction::ReadLen => event matches DotEvent::Done(b) ==> b@.len() == 2,
        DotAction::ReadBody(n) => event matches DotEvent::Done(b) ==> b@.len() == n,
        DotAction::Finish(_) => false,
        _ => true,
    }
}

/// The number of actions that can still follow: an exchange is over after four.
pub open spec fn dot_actions_left(action: DotAction) -> nat {
    match action {
        DotAction::WriteLen(_) => 4,
        DotAction::WriteQuery => 3,
        DotAction::ReadLen => 2,
        DotAction::ReadBody(_) => 1,
        DotAction::Finish(_) => 0,
    }
}

/// Go on with an exchange after `action` gave `event`.
pub fn dot_next(action: DotAction, event: DotEvent) -> (r: DotAction)
    requires
        dot_event_fits(action, event),
    ensures
        dot_actions_left(r) < dot_actions_left(action),
        match (action, event) {
            (DotAction::WriteLen(_), DotEvent::Done(_)) => r is WriteQuery,
            (DotAction::WriteQuery, DotEvent::Done(_)) => r is ReadLen,
            (DotAction::ReadLen, DotEvent::Done(b)) => if wire::be16(b@, 0) == 0 {
                r matches DotAction::Finish(Err(e)) && e@ == "empty response"@
            } else {
                r matches DotAction::ReadBody(n) && n == wire::be16(b@, 0)
            },
            (DotAction::ReadBody(_), DotEvent::Done(b)) => r == DotAction::Finish(Ok(b)),
            (DotAction::WriteLen(_), DotEvent::Failed(e)) => r matches DotAction::Finish(Err(m))
                && m@ == "write: "@ + e@,
            (DotAction::WriteQuery, DotEvent::Failed(e)) => r matches DotAction::Finish(Err(m))
                && m@ == "write: "@ + e@,
            (_, DotEvent::Failed(e)) => r matches DotAction::Finish(Err(m)) && m@ == "read: "@
                + e@,
            _ => true,
        },
{
    match event {
        DotEvent::Done(bytes) => match action {
            DotAction::WriteLen(_) => DotAction::WriteQuery,
            DotAction::WriteQuery => DotAction::ReadLen,
            DotAction::ReadLen => {
                let n: usize = bytes[0] as usize * 256 + bytes[1] as usize;
                if n == 0 {
                    DotAction::Finish(Err("empty response".to_owned()))
                } else {
                    DotAction::ReadBody(n)
                }
            },
            DotAction::ReadBody(_) => DotAction::Finish(Ok(bytes)),
            DotAction::Finish(_) => action,
        },
        DotEvent::Failed(e) => match action {
            DotAction::WriteLen(_) | DotAction::WriteQuery => DotAction::Finish(
                Err(text::joined("write: ", e.as_str())),
            ),
            _ => DotAction::Finish(Err(text::joined("read: ", e.as_str()))),
        },
    }
}

// ── Connection pool ────────────────────────────────────────────────────

/// A connection to a provider over a stream of type `S`.
pub struct DotConn<S> {
    pub stream: S,
    pub provider: DnsProvider,
}

/// A fixed number of slots that queries take in turn. Each slot holds at most
/// one connection. While a query runs on a slot, its connection is out of the
/// pool and no other query may run there.
pub struct DotPool<S> {
    slots: Vec<Option<DotConn<S>>>,
    next: usize,
}

/// The next step of a query on a slot.
pub enum DotPoolAction<S> {
    /// Make a new connection to the provider.
    Connect,
    /// Run an exchange over this connection.
    Exchange(DotConn<S>),
    /// The query failed.
    Fail(String),
}

/// What a pool holds.
pub struct DotPoolView<S> {
    pub slots: Seq<Option<DotConn<S>>>,
    pub next: usize,
}

impl<S> View for DotPool<S> {
    type V = DotPoolView<S>;

    closed spec fn view(&self) -> DotPoolView<S> {
        DotPoolView { slots: self.slots@, next: self.next }
    }
}

impl<S> DotPoolView<S> {
    /// The slot that the next query takes.
    pub open spec fn turn(self) -> int {
        self.next as int % self.slots.len() as int
    }

    /// Whether a slot holds a connection to `provider`.
    pub open spec fn ready(self, slot: int, provider: DnsProvider) -> bool {
        self.slots[slot] matches Some(c) && c.provider == provider
    }
}

impl<S> DotPool<S> {
    /// A pool of `size` empty slots.
    pub fn new(size: usize) -> (r: Self)
        ensures
            r@.slots == Seq::new(size as nat, |i: int| None::<DotConn<S>>),
            r@.next == 0,
    {
        let mut slots: Vec<Option<DotConn<S>>> = Vec::with_capacity(size);
        let mut i: usize = 0;
        while i < size
            invariant
                i <= size,
                slots@ == Seq::new(i as nat, |i: int| None::<DotConn<S>>),
            decreases size - i,
        {
            slots.push(None);
            i = i + 1;
            assert(slots@ =~= Seq::new(i as nat, |i: int| None::<DotConn<S>>));
        }
        DotPool { slots, next: 0 }
    }

    /// Take the next slot in turn.
    pub fn next_slot(&mut self) -> (r: usize)
        requires
            old(self)@.slots.len() > 0,
        ensures
            r == old(self)@.turn(),
            r < final(self)@.slots.len(),
            final(self)@.slots == old(self)@.slots,
            final(self)@.next == provider::next_count(old(self)@.next),
    {
        let idx: usize = self.next % self.slots.len();
        self.next = self.next.wrapping_add(1);
        idx
    }

    /// Begin a query to `provider` on a slot. A connection to that provider
    /// leaves the slot to be used; any other stays until a new one is made.
    pub fn query(&mut self, slot: usize, provider: DnsProvider) -> (r: DotPoolAction<S>)
        requires
            slot < old(self)@.slots.len(),
        ensures
            final(self)@.next == old(self)@.next,
            if old(self)@.ready(slot as int, provider) {
                &&& r == DotPoolAction::Exchange(old(self)@.slots[slot as int]->0)
                &&& final(self)@.slots == old(self)@.slots.update(slot as int, None)
            } else {
                &&& r is Connect
                &&& final(self)@.slots == old(self)@.slots
            },
    {
        let mut taken: Option<DotConn<S>> = None;
        std::mem::swap(&mut taken, &mut self.slots[slot]);
        match taken {
            Some(conn) => {
                if conn.provider == provider {
                    DotPoolAction::Exchange(conn)
                } else {
                    self.slots[slot] = Some(conn);
                    assert(self@.slots =~= old(self)@.slots);
                    DotPoolAction::Connect
                }
            },
            None => {
                assert(self@.slots =~= old(self)@.slots);
                DotPoolAction::Connect
            },
        }
    }

    /// Go on after a new connection was asked for. Where it was made, what the
    /// slot held before is dropped; where it was not, the slot keeps it.
    pub fn connected(&mut self, slot: usize, provider: DnsProvider, outcome: Result<S, String>) -> (r:
        DotPoolAction<S>)
        requires
            slot < old(self)@.slots.len(),
        ensures
            final(self)@.next == old(self)@.next,
            match outcome {
                Ok(stream) => {
                    &&& r == DotPoolAction::Exchange(DotConn { stream, provider })
                    &&& final(self)@.slots == old(self)@.slots.update(slot as int, None)
                },
                Err(e) => {
                    &&& r == DotPoolAction::<S>::Fail(e)
                    &&& final(self)@.slots == old(self)@.slots
                },
            },
    {
        match outcome {
            Ok(stream) => {
                self.slots[slot] = None;
                DotPoolAction::Exchange(DotConn { stream, provider })
            },
            Err(e) => DotPoolAction::Fail(e),
        }
    }

    /// End a query whose exchange ran over `conn`. After a success the
    /// connection goes back into its slot; a broken one is dropped, so that
    /// the next query connects again.
    pub fn answered(
        &mut self,
        slot: usize,
        conn: DotConn<S>,
        outcome: Result<Vec<u8>, String>,
    ) -> (r: Result<Vec<u8>, String>)
        requires
            slot < old(self)@.slots.len(),
        ensures
            r == outcome,
            final(self)@.next == old(self)@.next,
            final(self)@.slots == old(self)@.slots.update(
                slot as int,
                if outcome is Ok {
                    Some(conn)
                } else {
                    None
                },
            ),
    {
        if outcome.is_ok() {
            self.slots[slot] = Some(conn);
        } else {
            self.slots[slot] = None;
        }
        outcome
    }
}

// ── Laws ───────────────────────────────────────────────────────────────

/// A length prefix says the length of every message that has one, and what a
/// receiver reads from it is that length.
pub proof fn law_length_prefix_round_trip(len: nat)
    requires
        len <= u16::MAX,
    ensures
        wire::be16(length_prefix(len), 0) == len,
{
}

/// Queries take the slots of a pool in turn: while the counter does not wrap,
/// as many queries as there are slots go to different slots.
pub proof fn law_slots_take_turns<S>(pool: DotPoolView<S>, i: int, j: int)
    requires
        pool.slots.len() > 0,
        0 <= i < j < pool.slots.len(),
        pool.next + j <= usize::MAX,
    ensures
        (DotPoolView { next: (pool.next + i) as usize, ..pool }).turn() != (DotPoolView {
            next: (pool.next + j) as usize,
            ..pool
        }).turn(),
{
    let n = pool.slots.len() as int;
    let a = pool.next + i;
    let b = pool.next + j;
    if a % n == b % n {
        vstd::arithmetic::div_mod::lemma_fundamental_div_mod(a, n);
        vstd::arithmetic::div_mod::lemma_fundamental_div_mod(b, n);
        let k = b / n - a / n;
        assert(b - a == n * k) by (nonlinear_arith)
            requires
                a == n * (a / n) + a % n,
                b == n * (b / n) + b % n,
                a % n == b % n,
                k == b / n - a / n,
        ;
        assert(false) by (nonlinear_arith)
            requires
                b - a == n * k,
                0 < b - a < n,
        ;
    }
}

/// A slot whose exchange failed is empty, so the next query on it connects
/// anew; one whose exchange succeeded serves the next query to the same
/// provider without connecting.
pub proof fn law_slot_after_an_exchange<S>(
    slots: Seq<Option<DotConn<S>>>,
    next: usize,
    slot: int,
    conn: DotConn<S>,
    provider: DnsProvider,
)
    requires
        0 <= slot < slots.len(),
    ensures
        !(DotPoolView { slots: slots.update(slot, None), next }).ready(slot, provider),
        (DotPoolView { slots: slots.update(slot, Some(conn)), next }).ready(slot, provider) == (
        conn.provider == provider),
{
}

/// A length prefix is two bytes, the higher one first, that say the length, or
/// its lowest 16 bits where it has more.
pub proof fn law_length_prefix_bytes(len: nat)
    ensures
        length_prefix(len).len() == 2,
        length_prefix(len)[0] * 256 + length_prefix(len)[1] == len % 65536,
        len <= 65535 ==> length_prefix(len)[0] * 256 + length_prefix(len)[1] == len,
{
}

/// A query on a pool leaves the next slot for the query after it, and the first
/// slot after the last one.
pub proof fn law_next_slot_is_the_next<S>(before: DotPoolView<S>, after: DotPoolView<S>)
    requires
        before.slots.len() > 0,
        before.next < usize::MAX,
        after.slots == before.slots,
        after.next == provider::next_count(before.next),
    ensures
        after.turn() == (if before.turn() + 1 < before.slots.len() {
            before.turn() + 1
        } else {
            0
        }),
        0 <= before.turn() < before.slots.len(),
{
    let w = before.slots.len() as int;
    let t = before.next as int;
    vstd::arithmetic::div_mod::lemma_fundamental_div_mod(t, w);
    let q = t / w;
    let m = t % w;
    assert(t == w * q + m);
    if m + 1 < w {
        vstd::arithmetic::div_mod::lemma_fundamental_div_mod_converse(t + 1, w, q, m + 1);
    } else {
        assert(t + 1 == w * (q + 1)) by (nonlinear_arith)
            requires
                t == w * q + m,
                m + 1 == w,
        ;
        vstd::arithmetic::div_mod::lemma_fundamental_div_mod_converse(t + 1, w, q + 1, 0);
    }
}

/// Every outcome of an action is an event of it: a failure of any, that a write
/// is done, and of a read as many bytes as were to be read. Nothing comes of the
/// end.
pub proof fn law_outcomes_of_actions(
    prefix: [u8; 2],
    n: usize,
    bytes: Vec<u8>,
    e: String,
    end: Result<Vec<u8>, String>,
    event: DotEvent,
)
    ensures
        dot_event_fits(DotAction::WriteLen(prefix), event),
        dot_event_fits(DotAction::WriteQuery, event),
        dot_event_fits(DotAction::ReadLen, DotEvent::Failed(e)),
        dot_event_fits(DotAction::ReadBody(n), DotEvent::Failed(e)),
        dot_event_fits(DotAction::ReadLen, DotEvent::Done(bytes)) <==> bytes@.len() == 2,
        dot_event_fits(DotAction::ReadBody(n), DotEvent::Done(bytes)) <==> bytes@.len() == n,
        !dot_event_fits(DotAction::Finish(end), event),
{
}

} // verus!
