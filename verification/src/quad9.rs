//! Quad9's HTTP/2 connection pool.
//!
//! Quad9's DNS-over-HTTPS endpoint requires HTTP/2. Connections are pooled so
//! that repeated queries reuse a live one. Quad9 closes idle connections, so a
//! pooled one may be dead on pickup: old ones are dropped unused, and a query
//! that fails is tried once more, on a fresh connection.

use std::collections::VecDeque;
use vstd::prelude::*;

verus! {

/// Longest time, in nanoseconds, for which an idle connection is trusted.
pub const QUAD9_CONN_MAX_IDLE: u128 = 15_000_000_000;

/// Attempts that a query gets.
pub const QUAD9_ATTEMPTS: u8 = 2;

/// A connection with a send handle of type `S`, and the time at which it was
/// made or last proved to be alive.
pub struct Quad9Conn<S> {
    pub send: S,
    pub created: u128,
}

impl<S> Quad9Conn<S> {
    /// Whether the connection is young enough to be used at time `now`. A time
    /// before its creation counts as its creation.
    pub open spec fn fresh(self, now: u128) -> bool {
        now - self.created < QUAD9_CONN_MAX_IDLE
    }
}

/// The position of the first connection that is fresh; the length where none
/// is.
pub open spec fn first_fresh<S>(conns: Seq<Quad9Conn<S>>, now: u128) -> int
    decreases conns.len(),
{
    if conns.len() == 0 {
        0
    } else if conns[0].fresh(now) {
        0
    } else {
        1 + first_fresh(conns.skip(1), now)
    }
}

/// The connection that a query gets out of the pool.
pub open spec fn taken<S>(conns: Seq<Quad9Conn<S>>, now: u128) -> Option<Quad9Conn<S>> {
    let i = first_fresh(conns, now);
    if i < conns.len() {
        Some(conns[i])
    } else {
        None
    }
}

/// The pool after a query took its connection: the stale ones before it are
/// gone too.
pub open spec fn left_after_take<S>(conns: Seq<Quad9Conn<S>>, now: u128) -> Seq<Quad9Conn<S>> {
    let i = first_fresh(conns, now);
    if i < conns.len() {
        conns.skip(i + 1)
    } else {
        Seq::empty()
    }
}

pub proof fn lemma_first_fresh<S>(conns: Seq<Quad9Conn<S>>, now: u128)
    ensures
        0 <= first_fresh(conns, now) <= conns.len(),
        first_fresh(conns, now) < conns.len() ==> conns[first_fresh(conns, now)].fresh(now),
        forall|i: int| 0 <= i < first_fresh(conns, now) ==> !(#[trigger] conns[i]).fresh(now),
    decreases conns.len(),
{
    if conns.len() > 0 && !conns[0].fresh(now) {
        lemma_first_fresh(conns.skip(1), now);
        assert forall|i: int| 0 <= i < first_fresh(conns, now) implies !(
        #[trigger] conns[i]).fresh(now) by {
            if i > 0 {
                assert(conns[i] == conns.skip(1)[i - 1]);
            }
        }
    }
}

/// The next step of a query.
pub enum Quad9Action<S> {
    /// Make a new connection.
    Connect,
    /// Send the query over this connection.
    Send(Quad9Conn<S>),
    /// The query is over.
    Finish(Result<Vec<u8>, String>),
}

/// Idle connections, oldest use first.
pub struct Quad9Pool<S> {
    conns: VecDeque<Quad9Conn<S>>,
}

impl<S> View for Quad9Pool<S> {
    type V = Seq<Quad9Conn<S>>;

    closed spec fn view(&self) -> Seq<Quad9Conn<S>> {
        self.conns@
    }
}

/// What taking a connection leads to.
pub open spec fn action_of<S>(conn: Option<Quad9Conn<S>>) -> Quad9Action<S> {
    match conn {
        Some(c) => Quad9Action::Send(c),
        None => Quad9Action::Connect,
    }
}

impl<S> Quad9Pool<S> {
    /// An empty pool.
    pub fn new() -> (r: Self)
        ensures
            r@ == Seq::<Quad9Conn<S>>::empty(),
    {
        Quad9Pool { conns: VecDeque::new() }
    }

    /// Take the first connection that is not stale at time `now`, dropping the
    /// stale ones before it. `None` where a fresh connection must be made.
    pub fn take(&mut self, now: u128) -> (r: Option<Quad9Conn<S>>)
        ensures
            r == taken(old(self)@, now),
            final(self)@ == left_after_take(old(self)@, now),
    {
        while self.conns.len() > 0
            invariant
                taken(self@, now) == taken(old(self)@, now),
                left_after_take(self@, now) == left_after_take(old(self)@, now),
            decreases self.conns@.len(),
        {
            let ghost before = self.conns@;
            proof {
                lemma_first_fresh(before, now);
            }
            match self.conns.pop_front() {
                Some(conn) => {
                    proof {
                        assert(self.conns@ =~= before.skip(1));
                        if !conn.fresh(now) {
                            lemma_first_fresh(before.skip(1), now);
                            let i = first_fresh(before.skip(1), now);
                            if i < before.len() - 1 {
                                assert(before.skip(1).skip(i + 1) =~= before.skip(i + 2));
                            }
                        }
                    }
                    if now.saturating_sub(conn.created) < QUAD9_CONN_MAX_IDLE {
                        return Some(conn);
                    }
                },
                None => {},
            }
        }
        assert(self@ =~= Seq::<Quad9Conn<S>>::empty());
        None
    }

    /// Begin a query at time `now`: use a pooled connection, or make one.
    pub fn query(&mut self, now: u128) -> (r: Quad9Action<S>)
        ensures
            r == action_of(taken(old(self)@, now)),
            final(self)@ == left_after_take(old(self)@, now),
    {
        match self.take(now) {
            Some(conn) => Quad9Action::Send(conn),
            None => Quad9Action::Connect,
        }
    }

    /// Go on after a new connection was asked for. Where it cannot be made the
    /// query fails at once.
    pub fn connected(&self, outcome: Result<S, String>, now: u128) -> (r: Quad9Action<S>)
        ensures
            match outcome {
                Ok(send) => r == Quad9Action::Send(Quad9Conn { send, created: now }),
                Err(e) => r == Quad9Action::<S>::Finish(Err(e)),
            },
    {
        match outcome {
            Ok(send) => Quad9Action::Send(Quad9Conn { send, created: now }),
            Err(e) => Quad9Action::Finish(Err(e)),
        }
    }

    /// Go on after attempt `attempt` (counted from 0) was sent. A success puts
    /// the connection back into the pool. The first failure drops every pooled
    /// connection, since the others are probably stale too, and asks for a
    /// fresh one; the second ends the query.
    pub fn sent(&mut self, attempt: u8, outcome: Result<(Vec<u8>, S), String>, now: u128) -> (r:
        Quad9Action<S>)
        requires
            attempt < QUAD9_ATTEMPTS,
        ensures
            match outcome {
                Ok((body, send)) => {
                    &&& r == Quad9Action::<S>::Finish(Ok(body))
                    &&& final(self)@ == old(self)@.push(Quad9Conn { send, created: now })
                },
                Err(e) => if attempt == 0 {
                    &&& r is Connect
                    &&& final(self)@ == Seq::<Quad9Conn<S>>::empty()
                } else {
                    &&& r == Quad9Action::<S>::Finish(Err(e))
                    &&& final(self)@ == old(self)@
                },
            },
    {
        match outcome {
            Ok((body, send)) => {
                self.conns.push_back(Quad9Conn { send, created: now });
                Quad9Action::Finish(Ok(body))
            },
            Err(e) => {
                if attempt == 0 {
                    self.conns.clear();
                    self.query(now)
                } else {
                    Quad9Action::Finish(Err(e))
                }
            },
        }
    }
}

// ── Laws ───────────────────────────────────────────────────────────────

/// A query never gets a connection that has been idle for too long, and none
/// that could be used is passed over.
pub proof fn law_taken_is_first_fresh<S>(conns: Seq<Quad9Conn<S>>, now: u128)
    ensures
        taken(conns, now) matches Some(c) ==> c.fresh(now),
        taken(conns, now) is None ==> forall|i: int|
            0 <= i < conns.len() ==> !(#[trigger] conns[i]).fresh(now),
        left_after_take(conns, now).len() <= conns.len(),
{
    lemma_first_fresh(conns, now);
}

/// A connection that a query just put back is reused by the next query within
/// the idle limit, where the pool was empty.
pub proof fn law_connection_is_reused<S>(conn: Quad9Conn<S>, now: u128)
    requires
        conn.fresh(now),
    ensures
        taken(Seq::<Quad9Conn<S>>::empty().push(conn), now) == Some(conn),
{
}

/// A query gets the first connection in the pool that was made or proved alive
/// less than 15 seconds ago; those before it are dropped, those after it stay.
/// Where there is none, the pool is left empty.
pub proof fn law_taking_splits_the_pool<S>(conns: Seq<Quad9Conn<S>>, now: u128)
    ensures
        taken(conns, now) is None ==> {
            &&& left_after_take(conns, now).len() == 0
            &&& forall|j: int|
                0 <= j < conns.len() ==> now >= (#[trigger] conns[j]).created + 15_000_000_000
        },
        taken(conns, now) matches Some(c) ==> exists|i: int|
            {
                &&& 0 <= i < conns.len()
                &&& #[trigger] conns[i] == c
                &&& now < c.created + 15_000_000_000
                &&& left_after_take(conns, now) == conns.subrange(i + 1, conns.len() as int)
                &&& forall|j: int|
                    0 <= j < i ==> now >= (#[trigger] conns[j]).created + 15_000_000_000
            },
{
    lemma_first_fresh(conns, now);
    let i = first_fresh(conns, now);
    if i < conns.len() {
        assert(conns[i].fresh(now));
        assert(conns.skip(i + 1) =~= conns.subrange(i + 1, conns.len() as int));
    }
    assert forall|j: int| 0 <= j < i implies now >= (#[trigger] conns[j]).created
        + 15_000_000_000 by {
        assert(!conns[j].fresh(now));
    }
}

/// A query that got a connection sends over it, and one that got none has one
/// made. A query has two attempts.
pub proof fn law_queries_send_or_connect<S>(conn: Option<Quad9Conn<S>>)
    ensures
        conn matches Some(c) ==> action_of(conn) == Quad9Action::Send(c),
        conn is None ==> action_of(conn) is Connect,
        QUAD9_ATTEMPTS == 2,
{
}

} // verus!
