//! TTL-aware response cache.
//!
//! Keyed by the query with its 2-byte transaction ID stripped, so queries
//! from different clients share entries. A stored response keeps the ID it
//! came with; whoever serves it rewrites the ID.

use vstd::prelude::*;

use crate::clock;
use crate::clock::Clock;
use crate::clock::NANOS_PER_SEC;
use crate::text;

verus! {

/// Number of entries at which the next insertion first empties the cache.
pub const CACHE_MAX_ENTRIES: usize = 2048;

/// Longest time, in seconds, for which a response is kept.
pub const CACHE_MAX_TTL: u64 = 3600;

// ── Model ──────────────────────────────────────────────────────────────

/// A cached response and the time at which it expires.
pub struct Cached {
    pub expires: int,
    pub response: Seq<u8>,
}

/// What identifies a query in the cache: everything but its ID.
pub open spec fn cache_key(query: Seq<u8>) -> Seq<u8> {
    query.skip(2)
}

/// What the cache `m` answers to `query` at time `now`.
pub open spec fn cache_lookup(
    m: Map<Seq<u8>, Cached>,
    query: Seq<u8>,
    now: int,
) -> Option<Seq<u8>> {
    let key = cache_key(query);
    if query.len() >= 2 && m.dom().contains(key) && m[key].expires > now {
        Some(m[key].response)
    } else {
        None
    }
}

/// The cache after a look-up: an entry found expired is gone.
pub open spec fn cache_after_lookup(
    m: Map<Seq<u8>, Cached>,
    query: Seq<u8>,
    now: int,
) -> Map<Seq<u8>, Cached> {
    if query.len() < 2 || cache_lookup(m, query, now) is Some {
        m
    } else {
        m.remove(cache_key(query))
    }
}

/// Seconds for which a response with TTL `ttl` is kept.
pub open spec fn kept_secs(ttl: u32) -> int {
    if ttl > CACHE_MAX_TTL {
        CACHE_MAX_TTL as int
    } else {
        ttl as int
    }
}

/// The cache after a response was offered to it. Nothing is stored for a
/// query too short to have an ID or a TTL of zero. A full cache is emptied
/// first: entries are cheap to fetch again.
pub open spec fn cache_after_put(
    m: Map<Seq<u8>, Cached>,
    query: Seq<u8>,
    response: Seq<u8>,
    ttl: u32,
    now: int,
) -> Map<Seq<u8>, Cached> {
    if query.len() < 2 || ttl == 0 {
        m
    } else {
        let room = if m.dom().len() >= CACHE_MAX_ENTRIES {
            Map::empty()
        } else {
            m
        };
        room.insert(
            cache_key(query),
            Cached { expires: now + kept_secs(ttl) * NANOS_PER_SEC, response },
        )
    }
}

// ── Representation ─────────────────────────────────────────────────────

struct Entry {
    key: Vec<u8>,
    expires: u128,
    response: Vec<u8>,
}

spec fn keys(entries: Seq<Entry>) -> Seq<Seq<u8>> {
    Seq::new(entries.len(), |i: int| entries[i].key@)
}

spec fn contents(entries: Seq<Entry>) -> Map<Seq<u8>, Cached> {
    Map::new(
        |k: Seq<u8>| keys(entries).contains(k),
        |k: Seq<u8>|
            {
                let i = keys(entries).index_of(k);
                Cached { expires: entries[i].expires as int, response: entries[i].response@ }
            },
    )
}

/// A cache of DNS responses.
pub struct DnsCache {
    entries: Vec<Entry>,
    clock: Clock,
}

impl View for DnsCache {
    type V = Map<Seq<u8>, Cached>;

    /// The cached responses, by query without ID.
    closed spec fn view(&self) -> Map<Seq<u8>, Cached> {
        contents(self.entries@)
    }
}

proof fn lemma_contents_at(entries: Seq<Entry>, i: int)
    requires
        keys(entries).no_duplicates(),
        0 <= i < entries.len(),
    ensures
        contents(entries).dom().contains(entries[i].key@),
        contents(entries)[entries[i].key@] == (Cached {
            expires: entries[i].expires as int,
            response: entries[i].response@,
        }),
{
    assert(keys(entries)[i] == entries[i].key@);
    let j = keys(entries).index_of(entries[i].key@);
    assert(keys(entries)[j] == entries[i].key@);
    assert(i == j);
}

proof fn lemma_contents_len(entries: Seq<Entry>)
    requires
        keys(entries).no_duplicates(),
    ensures
        contents(entries).dom().finite(),
        contents(entries).dom().len() == entries.len(),
{
    keys(entries).unique_seq_to_set();
    assert(contents(entries).dom() =~= keys(entries).to_set());
}

/// The position of the entry for `key`.
fn position(entries: &Vec<Entry>, key: &[u8]) -> (r: Option<usize>)
    ensures
        match r {
            Some(i) => i < entries@.len() && entries@[i as int].key@ == key@,
            None => !keys(entries@).contains(key@),
        },
{
    let mut i: usize = 0;
    while i < entries.len()
        invariant
            i <= entries@.len(),
            forall|j: int| 0 <= j < i ==> (#[trigger] entries@[j]).key@ != key@,
        decreases entries@.len() - i,
    {
        if text::same_bytes(entries[i].key.as_slice(), key) {
            return Some(i);
        }
        i = i + 1;
    }
    assert forall|j: int| 0 <= j < keys(entries@).len() implies keys(entries@)[j] != key@ by {
        assert(entries@[j].key@ != key@);
    }
    None
}

impl DnsCache {
    #[verifier::type_invariant]
    spec fn wf(self) -> bool {
        &&& keys(self.entries@).no_duplicates()
        &&& self.entries@.len() <= CACHE_MAX_ENTRIES
    }

    /// An empty cache.
    pub fn new() -> (r: Self)
        ensures
            r@ == Map::<Seq<u8>, Cached>::empty(),
    {
        let r = DnsCache { entries: Vec::new(), clock: Clock::new() };
        assert(r@ =~= Map::<Seq<u8>, Cached>::empty());
        r
    }

    /// The number of stored responses, expired ones included.
    pub fn len(&self) -> (r: usize)
        ensures
            r == self@.dom().len(),
            r <= CACHE_MAX_ENTRIES,
            self@.dom().finite(),
    {
        proof {
            use_type_invariant(self);
            lemma_contents_len(self.entries@);
        }
        self.entries.len()
    }

    /// The cache's own time, in nanoseconds.
    pub fn now(&self) -> (r: u128)
        ensures
            r <= clock::max_clock(),
    {
        self.clock.now()
    }

    /// Look `query` up at time `now`. An expired entry is dropped.
    pub fn get_at(&mut self, query: &[u8], now: u128) -> (r: Option<Vec<u8>>)
        ensures
            match cache_lookup(old(self)@, query@, now as int) {
                Some(resp) => r is Some && r->0@ == resp,
                None => r is None,
            },
            final(self)@ == cache_after_lookup(old(self)@, query@, now as int),
    {
        proof {
            use_type_invariant(&*self);
        }
        if query.len() < 2 {
            return None;
        }
        let key: &[u8] = vstd::slice::slice_subrange(query, 2, query.len());
        assert(key@ =~= cache_key(query@));
        match position(&self.entries, key) {
            Some(i) => {
                proof {
                    lemma_contents_at(self.entries@, i as int);
                }
                if self.entries[i].expires > now {
                    Some(vstd::slice::slice_to_vec(self.entries[i].response.as_slice()))
                } else {
                    self.remove_entry(i);
                    None
                }
            },
            None => {
                assert(self@.remove(key@) =~= self@);
                None
            },
        }
    }

    fn remove_entry(&mut self, i: usize)
        requires
            i < old(self).entries@.len(),
        ensures
            final(self)@ == old(self)@.remove(old(self).entries@[i as int].key@),
    {
        proof {
            use_type_invariant(&*self);
        }
        let ghost before = self.entries@;
        let ghost gone = before[i as int].key@;
        let mut entries: Vec<Entry> = Vec::new();
        std::mem::swap(&mut entries, &mut self.entries);
        entries.swap_remove(i);
        proof {
            let after = entries@;
            let last = before.len() - 1;
            assert forall|a: int, b: int|
                0 <= a < b < after.len() implies keys(after)[a] != keys(after)[b] by {
                let a0 = if a == i { last } else { a };
                let b0 = if b == i { last } else { b };
                assert(keys(after)[a] == keys(before)[a0]);
                assert(keys(after)[b] == keys(before)[b0]);
            }
            assert(keys(after).no_duplicates());
            assert(contents(after) =~= contents(before).remove(gone)) by {
                assert forall|k: Seq<u8>|
                    keys(after).contains(k) implies #[trigger] contents(before).remove(
                    gone,
                ).dom().contains(k) && contents(before)[k] == contents(after)[k] by {
                    let a = keys(after).index_of(k);
                    let a0 = if a == i { last } else { a };
                    assert(keys(after)[a] == keys(before)[a0]);
                    assert(after[a] == before[a0]);
                    lemma_contents_at(after, a);
                    lemma_contents_at(before, a0);
                    assert(keys(before)[i as int] == gone);
                }
                assert forall|k: Seq<u8>|
                    keys(before).contains(k) && k != gone implies #[trigger] keys(after).contains(
                    k,
                ) by {
                    let b = keys(before).index_of(k);
                    assert(b != i);
                    let a = if b == last { i as int } else { b };
                    assert(keys(after)[a] == k);
                }
            }
        }
        self.entries = entries;
    }

    /// Offer a response with TTL `ttl` (seconds) to the cache at time `now`.
    pub fn put_at(&mut self, query: &[u8], resp: &[u8], ttl: u32, now: u128)
        requires
            now <= clock::max_clock(),
        ensures
            final(self)@ == cache_after_put(old(self)@, query@, resp@, ttl, now as int),
    {
        proof {
            use_type_invariant(&*self);
            lemma_contents_len(self.entries@);
        }
        if query.len() < 2 {
            return ;
        }
        if ttl == 0 {
            return ;
        }
        let secs: u64 = if ttl as u64 > CACHE_MAX_TTL {
            CACHE_MAX_TTL
        } else {
            ttl as u64
        };
        let expires: u128 = now + secs as u128 * NANOS_PER_SEC;
        let key: &[u8] = vstd::slice::slice_subrange(query, 2, query.len());
        assert(key@ =~= cache_key(query@));

        let ghost old_map = self@;
        let mut entries: Vec<Entry> = Vec::new();
        std::mem::swap(&mut entries, &mut self.entries);
        if entries.len() >= CACHE_MAX_ENTRIES {
            entries.clear();
            assert(contents(entries@) =~= Map::<Seq<u8>, Cached>::empty());
        }
        let ghost room = entries@;
        let entry = Entry {
            key: vstd::slice::slice_to_vec(key),
            expires,
            response: vstd::slice::slice_to_vec(resp),
        };
        let ghost stored = Cached { expires: expires as int, response: resp@ };
        match position(&entries, key) {
            Some(i) => {
                entries[i] = entry;
                proof {
                    assert(keys(entries@) =~= keys(room));
                    assert forall|k: Seq<u8>| keys(room).contains(k) implies #[trigger] contents(
                        entries@,
                    )[k] == contents(room).insert(key@, stored)[k] by {
                        let j = keys(room).index_of(k);
                        lemma_contents_at(entries@, j);
                        lemma_contents_at(room, j);
                        assert(keys(room)[i as int] == key@);
                    }
                    assert(keys(room)[i as int] == key@);
                    assert(contents(entries@) =~= contents(room).insert(key@, stored));
                }
            },
            None => {
                entries.push(entry);
                proof {
                    assert(keys(entries@) =~= keys(room).push(key@));
                    assert forall|a: int, b: int|
                        0 <= a < b < entries@.len() implies keys(entries@)[a] != keys(
                        entries@,
                    )[b] by {
                        if b == room.len() {
                            assert(keys(room).contains(keys(room)[a]));
                        }
                    }
                    assert(keys(entries@).no_duplicates());
                    assert forall|k: Seq<u8>| keys(entries@).contains(k) implies contents(
                        room,
                    ).insert(key@, stored).dom().contains(k) && #[trigger] contents(entries@)[k]
                        == contents(room).insert(key@, stored)[k] by {
                        let j = keys(entries@).index_of(k);
                        lemma_contents_at(entries@, j);
                        if j < room.len() {
                            assert(keys(room)[j] == k);
                            lemma_contents_at(room, j);
                        }
                    }
                    assert forall|k: Seq<u8>| keys(room).contains(k) implies #[trigger] keys(
                        entries@,
                    ).contains(k) by {
                        let j = keys(room).index_of(k);
                        assert(keys(entries@)[j] == k);
                    }
                    assert(keys(entries@)[room.len() as int] == key@);
                    assert(contents(entries@) =~= contents(room).insert(key@, stored));
                }
            },
        }
        self.entries = entries;
    }

    /// Look `query` up now. An expired entry is dropped. The answer is the one
    /// of `get_at` for the time that the clock showed.
    pub fn get(&mut self, query: &[u8]) -> (r: Option<Vec<u8>>)
        ensures
            exists|now: int|
                0 <= now <= clock::max_clock() && #[trigger] got_at(
                    old(self)@,
                    query@,
                    now,
                    r,
                    final(self)@,
                ),
            query@.len() < 2 || !old(self)@.dom().contains(cache_key(query@)) ==> r is None,
    {
        let now: u128 = self.now();
        let r = self.get_at(query, now);
        assert(got_at(old(self)@, query@, now as int, r, self@));
        r
    }

    /// Offer a response with TTL `ttl` (seconds) to the cache now. The effect
    /// is the one of `put_at` for the time that the clock showed.
    pub fn put(&mut self, query: &[u8], resp: &[u8], ttl: u32)
        ensures
            exists|now: int|
                0 <= now <= clock::max_clock() && final(self)@ == #[trigger] cache_after_put(
                    old(self)@,
                    query@,
                    resp@,
                    ttl,
                    now,
                ),
    {
        let now: u128 = self.now();
        self.put_at(query, resp, ttl, now);
    }
}

impl Default for DnsCache {
    fn default() -> (r: Self)
        ensures
            r@ == Map::<Seq<u8>, Cached>::empty(),
    {
        Self::new()
    }
}

/// A look-up at time `now` turned the cache `before` into `after` and answered
/// `r`.
pub open spec fn got_at(
    before: Map<Seq<u8>, Cached>,
    query: Seq<u8>,
    now: int,
    r: Option<Vec<u8>>,
    after: Map<Seq<u8>, Cached>,
) -> bool {
    &&& after == cache_after_lookup(before, query, now)
    &&& match cache_lookup(before, query, now) {
        Some(resp) => r is Some && r->0@ == resp,
        None => r is None,
    }
}

// ── Laws ───────────────────────────────────────────────────────────────

/// A stored response is what every query with the same question gets, whatever
/// its transaction ID, until its time is up.
pub proof fn law_put_then_get(
    m: Map<Seq<u8>, Cached>,
    query: Seq<u8>,
    response: Seq<u8>,
    ttl: u32,
    stored_at: int,
    other: Seq<u8>,
    now: int,
)
    requires
        query.len() >= 2,
        other.len() >= 2,
        cache_key(other) == cache_key(query),
        now < stored_at + kept_secs(ttl) * NANOS_PER_SEC,
        ttl > 0,
    ensures
        cache_lookup(cache_after_put(m, query, response, ttl, stored_at), other, now) == Some(
            response,
        ),
{
}

/// From the moment its time is up, at most an hour after it was stored, a
/// response is no longer served, and looking for it removes it.
pub proof fn law_entries_expire(
    m: Map<Seq<u8>, Cached>,
    query: Seq<u8>,
    response: Seq<u8>,
    ttl: u32,
    stored_at: int,
    now: int,
)
    requires
        query.len() >= 2,
        ttl > 0,
        now >= stored_at + kept_secs(ttl) * NANOS_PER_SEC || now >= stored_at + CACHE_MAX_TTL
            * NANOS_PER_SEC,
    ensures
        cache_lookup(cache_after_put(m, query, response, ttl, stored_at), query, now) is None,
        !cache_after_lookup(
            cache_after_put(m, query, response, ttl, stored_at),
            query,
            now,
        ).dom().contains(cache_key(query)),
{
}

/// A TTL of zero stores nothing.
pub proof fn law_zero_ttl_is_not_cached(
    m: Map<Seq<u8>, Cached>,
    query: Seq<u8>,
    response: Seq<u8>,
    now: int,
)
    ensures
        cache_after_put(m, query, response, 0, now) == m,
{
}

/// While there is room, storing a response leaves the answers to other
/// questions as they were.
pub proof fn law_put_keeps_others(
    m: Map<Seq<u8>, Cached>,
    query: Seq<u8>,
    response: Seq<u8>,
    ttl: u32,
    stored_at: int,
    other: Seq<u8>,
    now: int,
)
    requires
        m.dom().len() < CACHE_MAX_ENTRIES,
        cache_key(other) != cache_key(query),
    ensures
        cache_lookup(cache_after_put(m, query, response, ttl, stored_at), other, now)
            == cache_lookup(m, other, now),
{
}

/// Looking one question up, whenever that is, leaves the answers to other
/// questions as they were, and a second look at the same moment answers the
/// same.
pub proof fn law_get_keeps_answers(
    m: Map<Seq<u8>, Cached>,
    query: Seq<u8>,
    other: Seq<u8>,
    now: int,
    later: int,
)
    ensures
        cache_key(other) != cache_key(query) ==> cache_lookup(
            cache_after_lookup(m, query, now),
            other,
            later,
        ) == cache_lookup(m, other, later),
        cache_lookup(cache_after_lookup(m, query, now), query, now) == cache_lookup(m, query, now),
{
}

/// The cache never holds more than its limit.
pub proof fn law_cache_stays_bounded(
    m: Map<Seq<u8>, Cached>,
    query: Seq<u8>,
    response: Seq<u8>,
    ttl: u32,
    now: int,
)
    requires
        m.dom().finite(),
        m.dom().len() <= CACHE_MAX_ENTRIES,
    ensures
        cache_after_put(m, query, response, ttl, now).dom().finite(),
        cache_after_put(m, query, response, ttl, now).dom().len() <= CACHE_MAX_ENTRIES,
        cache_after_lookup(m, query, now).dom().finite(),
        cache_after_lookup(m, query, now).dom().len() <= m.dom().len(),
{
    let key = cache_key(query);
    assert(Map::<Seq<u8>, Cached>::empty().dom() =~= Set::empty());
    assert(m.remove(key).dom() =~= m.dom().remove(key));
    let c = Cached { expires: now + kept_secs(ttl) * NANOS_PER_SEC, response };
    assert(m.insert(key, c).dom() =~= m.dom().insert(key));
    assert(Map::<Seq<u8>, Cached>::empty().insert(key, c).dom() =~= Set::empty().insert(key));
}

/// Two queries share an entry where all bytes behind their two ID bytes are the
/// same: storing a response for one answers the other with it, for as many
/// seconds as the TTL says and at most an hour, and with nothing after that.
pub proof fn law_same_question_shares_an_answer(
    m: Map<Seq<u8>, Cached>,
    query: Seq<u8>,
    response: Seq<u8>,
    ttl: u32,
    stored_at: int,
    other: Seq<u8>,
    now: int,
)
    requires
        query.len() >= 2,
        other.len() == query.len(),
        forall|i: int| 2 <= i < query.len() ==> other[i] == #[trigger] query[i],
        ttl > 0,
    ensures
        ({
            let secs: int = if ttl > 3600 {
                3600
            } else {
                ttl as int
            };
            cache_lookup(cache_after_put(m, query, response, ttl, stored_at), other, now) == (
            if now < stored_at + secs * 1_000_000_000 {
                Some(response)
            } else {
                None
            })
        }),
        cache_lookup(m, other, now) == cache_lookup(m, query, now),
{
    assert(other.skip(2) =~= query.skip(2));
}

/// Two queries that differ in any byte behind the ID, or in length, never share
/// an entry: storing a response for one leaves the answer to the other as it
/// was while there is room, and forgets it where there is none.
pub proof fn law_other_questions_keep_their_answers(
    m: Map<Seq<u8>, Cached>,
    query: Seq<u8>,
    response: Seq<u8>,
    ttl: u32,
    stored_at: int,
    other: Seq<u8>,
    now: int,
)
    requires
        query.len() >= 2,
        other.len() != query.len() || exists|i: int|
            2 <= i < query.len() && other[i] != #[trigger] query[i],
    ensures
        cache_lookup(cache_after_put(m, query, response, ttl, stored_at), other, now) == (if ttl
            == 0 || m.dom().len() < 2048 {
            cache_lookup(m, other, now)
        } else {
            None
        }),
{
    if other.len() >= 2 && other.skip(2) == query.skip(2) {
        assert(other.skip(2).len() == query.skip(2).len());
        let i = choose|i: int| 2 <= i < query.len() && other[i] != #[trigger] query[i];
        assert(other.skip(2)[i - 2] == query.skip(2)[i - 2]);
    }
}

/// What has no ID is neither stored nor found, and storing with a TTL of zero
/// changes no answer.
pub proof fn law_fragments_are_not_cached(
    m: Map<Seq<u8>, Cached>,
    query: Seq<u8>,
    response: Seq<u8>,
    ttl: u32,
    stored_at: int,
    other: Seq<u8>,
    now: int,
)
    ensures
        query.len() < 2 ==> cache_lookup(m, query, now) is None,
        query.len() < 2 || ttl == 0 ==> cache_lookup(
            cache_after_put(m, query, response, ttl, stored_at),
            other,
            now,
        ) == cache_lookup(m, other, now),
        query.len() < 2 ==> cache_lookup(cache_after_lookup(m, query, stored_at), other, now)
            == cache_lookup(m, other, now),
{
}

/// A look-up that finds something changes no answer, at any time. One that
/// finds nothing leaves nothing to find for its question, ever, and changes no
/// other answer.
pub proof fn law_look_up_forgets_only_what_expired(
    m: Map<Seq<u8>, Cached>,
    query: Seq<u8>,
    looked_at: int,
    other: Seq<u8>,
    now: int,
)
    requires
        query.len() >= 2,
    ensures
        cache_lookup(cache_after_lookup(m, query, looked_at), other, now) == (if cache_lookup(
            m,
            query,
            looked_at,
        ) is None && other.len() == query.len() && other.subrange(2, other.len() as int)
            == query.subrange(2, query.len() as int) {
            None
        } else {
            cache_lookup(m, other, now)
        }),
{
    if other.len() >= 2 {
        assert(other.skip(2) =~= other.subrange(2, other.len() as int));
        assert(query.skip(2) =~= query.subrange(2, query.len() as int));
        assert(other.skip(2).len() == other.len() - 2 && query.skip(2).len() == query.len() - 2);
    }
}

/// An answer that is found at some time was found, the same, at every earlier
/// time: an entry is served up to one moment and not from then on.
pub proof fn law_answers_last(m: Map<Seq<u8>, Cached>, query: Seq<u8>, earlier: int, now: int)
    requires
        earlier <= now,
        cache_lookup(m, query, now) is Some,
    ensures
        cache_lookup(m, query, earlier) == cache_lookup(m, query, now),
{
}

/// An empty cache answers nothing.
pub proof fn law_empty_cache_answers_nothing(query: Seq<u8>, now: int)
    ensures
        cache_lookup(Map::empty(), query, now) is None,
{
}

/// A look-up answers what is stored, as long as that lasts, and leaves the cache
/// as a look-up does.
pub proof fn law_look_up_answers_what_is_stored(
    before: Map<Seq<u8>, Cached>,
    query: Seq<u8>,
    now: int,
    r: Option<Vec<u8>>,
    after: Map<Seq<u8>, Cached>,
    other: Seq<u8>,
    later: int,
)
    requires
        got_at(before, query, now, r, after),
    ensures
        r is Some <==> cache_lookup(before, query, now) is Some,
        r matches Some(resp) ==> cache_lookup(before, query, now) == Some(resp@),
        r is Some ==> cache_lookup(after, other, later) == cache_lookup(before, other, later),
        r is None && query.len() >= 2 ==> cache_lookup(after, query, later) is None,
        r is None && other.len() >= 2 && query.len() >= 2 && other.subrange(2, other.len() as int)
            != query.subrange(2, query.len() as int) ==> cache_lookup(after, other, later)
            == cache_lookup(before, other, later),
{
    if query.len() >= 2 && other.len() >= 2 {
        assert(other.skip(2) =~= other.subrange(2, other.len() as int));
        assert(query.skip(2) =~= query.subrange(2, query.len() as int));
    }
}

} // verus!
