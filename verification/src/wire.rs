//! DNS wire format: the little of it that a relay has to understand.

use vstd::prelude::*;

verus! {

/// Largest DNS message accepted or sent over UDP.
pub const MAX_UDP_DNS: usize = 4096;

/// Length of the fixed header of a DNS message.
pub const HEADER_LEN: usize = 12;

// ── Model ──────────────────────────────────────────────────────────────

/// The big-endian 16-bit number at offset `i`.
pub open spec fn be16(m: Seq<u8>, i: int) -> int {
    m[i] * 256 + m[i + 1]
}

/// The big-endian 32-bit number at offset `i`.
pub open spec fn be32(m: Seq<u8>, i: int) -> int {
    be16(m, i) * 65536 + be16(m, i + 2)
}

/// The offset just past the name that starts at `pos`, or `None` where the
/// name runs off the end of the message or uses an unsupported label type.
/// A compression pointer ends a name, whatever it points at.
pub open spec fn name_end(m: Seq<u8>, pos: int) -> Option<int>
    decreases m.len() - pos,
{
    if pos < 0 || pos >= m.len() {
        None
    } else if m[pos] >= 0xC0 {
        if pos + 1 < m.len() {
            Some(pos + 2)
        } else {
            None
        }
    } else if m[pos] >= 0x40 {
        None
    } else if m[pos] == 0 {
        Some(pos + 1)
    } else if pos + 1 + m[pos] > m.len() {
        None
    } else {
        name_end(m, pos + 1 + m[pos])
    }
}

/// The offset past `n` questions (name, type, class) that start at `pos`.
pub open spec fn questions_end(m: Seq<u8>, n: nat, pos: int) -> Option<int>
    decreases n,
{
    if n == 0 {
        Some(pos)
    } else {
        match name_end(m, pos) {
            Some(e) if e + 4 <= m.len() => questions_end(m, (n - 1) as nat, e + 4),
            _ => None,
        }
    }
}

/// The TTLs of `n` resource records that start at `pos`, in order, or `None`
/// where one of the records is malformed or cut off.
pub open spec fn record_ttls(m: Seq<u8>, n: nat, pos: int) -> Option<Seq<int>>
    decreases n,
{
    if n == 0 {
        Some(Seq::empty())
    } else {
        match name_end(m, pos) {
            Some(e) if e + 10 <= m.len() && e + 10 + be16(m, e + 8) <= m.len() => {
                match record_ttls(m, (n - 1) as nat, e + 10 + be16(m, e + 8)) {
                    Some(rest) => Some(seq![be32(m, e + 4)] + rest),
                    None => None,
                }
            },
            _ => None,
        }
    }
}

/// The TTLs of every answer, authority and additional record of a message.
pub open spec fn message_ttls(m: Seq<u8>) -> Option<Seq<int>> {
    if m.len() < HEADER_LEN {
        None
    } else {
        match questions_end(m, be16(m, 4) as nat, HEADER_LEN as int) {
            Some(pos) => record_ttls(m, (be16(m, 6) + be16(m, 8) + be16(m, 10)) as nat, pos),
            None => None,
        }
    }
}

/// `t` is the least element of `ttls`.
pub open spec fn is_least(ttls: Seq<int>, t: int) -> bool {
    &&& ttls.contains(t)
    &&& forall|i: int| 0 <= i < ttls.len() ==> t <= #[trigger] ttls[i]
}

/// What a cache may do with a message: keep it for `Some(t)` seconds, or not
/// at all.
pub open spec fn is_message_ttl(m: Seq<u8>, t: Option<u32>) -> bool {
    match message_ttls(m) {
        Some(ttls) if ttls.len() > 0 => t is Some && is_least(ttls, t->0 as int),
        _ => t is None,
    }
}

/// `resp` with its transaction ID replaced by that of `query`. A message too
/// short to have an ID leaves `resp` as it is.
pub open spec fn with_id_of(resp: Seq<u8>, query: Seq<u8>) -> Seq<u8> {
    if resp.len() >= 2 && query.len() >= 2 {
        resp.update(0, query[0]).update(1, query[1])
    } else {
        resp
    }
}

/// `resp` cut to at most `max` bytes, with the TC bit set where anything was
/// cut and the flags are still there.
pub open spec fn truncated(resp: Seq<u8>, max: int) -> Seq<u8> {
    if resp.len() <= max {
        resp
    } else if max < 3 {
        resp.take(max)
    } else {
        resp.take(max).update(2, resp[2] | 0x02)
    }
}

/// The first question of a query as it stands on the wire; empty where it is
/// malformed or cut off.
pub open spec fn first_question(query: Seq<u8>) -> Seq<u8> {
    match name_end(query, HEADER_LEN as int) {
        Some(e) if e + 4 <= query.len() => query.subrange(HEADER_LEN as int, e + 4),
        _ => Seq::empty(),
    }
}

/// The SERVFAIL answer to a query: its header with QR, RA and the response
/// code set and only RD kept of the other flags, then its question. What is
/// too short to be a query is echoed.
pub open spec fn servfail_of(query: Seq<u8>) -> Seq<u8> {
    if query.len() < HEADER_LEN {
        query
    } else {
        query.take(HEADER_LEN as int).update(2, (query[2] & 0x01) | 0x80).update(3, 0x82)
            + first_question(query)
    }
}

// ── Parsing ────────────────────────────────────────────────────────────

fn read_u16(m: &[u8], i: usize) -> (r: u16)
    requires
        i + 1 < m@.len(),
    ensures
        r == be16(m@, i as int),
{
    let hi: u16 = m[i] as u16;
    let lo: u16 = m[i + 1] as u16;
    hi * 256 + lo
}

fn read_u32(m: &[u8], i: usize) -> (r: u32)
    requires
        i + 3 < m@.len(),
    ensures
        r == be32(m@, i as int),
{
    assert(i + 3 < m.len());
    let hi: u32 = read_u16(m, i) as u32;
    let lo: u32 = read_u16(m, i + 2) as u32;
    hi * 65536 + lo
}

/// Skip a (possibly compressed) name in a DNS message, returning the position
/// just past it. `None` on malformed input.
pub fn skip_name(msg: &[u8], pos: usize) -> (r: Option<usize>)
    ensures
        match name_end(msg@, pos as int) {
            Some(e) => r is Some && r->0 == e && e <= msg@.len(),
            None => r is None,
        },
{
    let mut at: usize = pos;
    while at < msg.len()
        invariant
            name_end(msg@, pos as int) == name_end(msg@, at as int),
        decreases msg@.len() - at,
    {
        let len: u8 = msg[at];
        if len >= 0xC0 {
            if msg.len() - at < 2 {
                return None;  // compression pointer cut off
            }
            return Some(at + 2);
        }
        if len >= 0x40 {
            return None;  // extended labels: unsupported
        }
        if len == 0 {
            return Some(at + 1);
        }
        let rest: usize = msg.len() - at - 1;
        if len as usize > rest {
            return None;
        }
        at = at + 1 + len as usize;
    }
    None
}

/// Minimum TTL across all answer, authority and additional records. `None`
/// where the message is malformed or holds no record: such a response is not
/// to be cached.
pub fn response_ttl(resp: &[u8]) -> (r: Option<u32>)
    ensures
        is_message_ttl(resp@, r),
{
    if resp.len() < HEADER_LEN {
        return None;
    }
    let qdcount: u16 = read_u16(resp, 4);
    let ancount: u16 = read_u16(resp, 6);
    let nscount: u16 = read_u16(resp, 8);
    let arcount: u16 = read_u16(resp, 10);

    let mut pos: usize = HEADER_LEN;
    let mut i: u16 = 0;
    while i < qdcount
        invariant
            i <= qdcount,
            pos <= resp@.len() <= usize::MAX,
            questions_end(resp@, qdcount as nat, HEADER_LEN as int) == questions_end(
                resp@,
                (qdcount - i) as nat,
                pos as int,
            ),
            message_ttls(resp@) is Some ==> questions_end(
                resp@,
                qdcount as nat,
                HEADER_LEN as int,
            ) is Some,
        decreases qdcount - i,
    {
        match skip_name(resp, pos) {
            Some(e) if e <= resp.len() && resp.len() - e >= 4 => {
                pos = e + 4;
            },
            _ => {
                return None;
            },
        }
        i = i + 1;
    }

    let total: u32 = ancount as u32 + nscount as u32 + arcount as u32;
    let ghost start = pos as int;
    let ghost mut seen = Seq::<int>::empty();
    let mut min: u32 = u32::MAX;
    let mut k: u32 = 0;
    while k < total
        invariant
            k <= total,
            pos <= resp@.len() <= usize::MAX,
            seen.len() == k,
            match record_ttls(resp@, (total - k) as nat, pos as int) {
                Some(rest) => record_ttls(resp@, total as nat, start) == Some(seen + rest),
                None => record_ttls(resp@, total as nat, start) is None,
            },
            forall|j: int| 0 <= j < seen.len() ==> min <= #[trigger] seen[j],
            k > 0 ==> seen.contains(min as int),
            k == 0 ==> min == u32::MAX,
            message_ttls(resp@) == record_ttls(resp@, total as nat, start),
        decreases total - k,
    {
        match skip_name(resp, pos) {
            Some(e) if e <= resp.len() && resp.len() - e >= 10 => {
                let ttl: u32 = read_u32(resp, e + 4);
                let rdlen: usize = read_u16(resp, e + 8) as usize;
                if rdlen > resp.len() - e - 10 {
                    return None;
                }
                let ghost prev = seen;
                let ghost prev_min = min;
                let ghost prev_pos = pos as int;
                if ttl < min {
                    min = ttl;
                }
                pos = e + 10 + rdlen;
                proof {
                    seen = seen.push(ttl as int);
                    assert(seen[k as int] == ttl);
                    if ttl >= prev_min {
                        if k > 0 {
                            let j = choose|j: int| 0 <= j < prev.len() && prev[j] == prev_min;
                            assert(seen[j] == prev_min);
                        }
                    }
                    match record_ttls(resp@, (total - k - 1) as nat, pos as int) {
                        Some(rest) => {
                            assert(prev + (seq![ttl as int] + rest) =~= seen + rest);
                        },
                        None => {},
                    }
                }
            },
            _ => {
                return None;
            },
        }
        k = k + 1;
    }
    if total == 0 {
        None
    } else {
        assert(seen + Seq::<int>::empty() =~= seen);
        Some(min)
    }
}

// ── Rewriting ──────────────────────────────────────────────────────────

/// Overwrite the transaction ID in `resp` with the one from `query`. Needed
/// when serving a cached response to a different query.
pub fn patch_id(resp: &mut [u8], query: &[u8])
    ensures
        final(resp)@ == with_id_of(old(resp)@, query@),
{
    if resp.len() >= 2 && query.len() >= 2 {
        resp[0] = query[0];
        resp[1] = query[1];
    }
}

/// Truncate a response to `max` bytes and set the TC (truncated) bit so the
/// client retries over TCP.
pub fn set_tc(resp: &mut Vec<u8>, max: usize)
    ensures
        final(resp)@ == truncated(old(resp)@, max as int),
{
    if resp.len() > max {
        resp.truncate(max);
        if resp.len() >= 3 {
            let flags: u8 = resp[2];
            resp[2] = flags | 0x02;
        }
    }
}

/// Append `msg[from..to]` to `out`.
fn append_range(out: &mut Vec<u8>, msg: &[u8], from: usize, to: usize)
    requires
        from <= to <= msg@.len(),
    ensures
        final(out)@ == old(out)@ + msg@.subrange(from as int, to as int),
{
    let mut i: usize = from;
    while i < to
        invariant
            from <= i <= to <= msg@.len(),
            out@ == old(out)@ + msg@.subrange(from as int, i as int),
        decreases to - i,
    {
        out.push(msg[i]);
        i = i + 1;
        assert(out@ =~= old(out)@ + msg@.subrange(from as int, i as int));
    }
}

/// Build a SERVFAIL response that echoes the query's ID and question, so the
/// client doesn't wait for the full timeout.
pub fn servfail(query: &[u8]) -> (r: Vec<u8>)
    ensures
        r@ == servfail_of(query@),
{
    let mut resp: Vec<u8> = Vec::with_capacity(64);
    if query.len() < HEADER_LEN {
        append_range(&mut resp, query, 0, query.len());
        return resp;
    }
    append_range(&mut resp, query, 0, HEADER_LEN);
    resp[2] = (query[2] & 0x01) | 0x80;  // QR=1, preserve RD
    resp[3] = 0x82;  // RA=1, RCODE=2 (SERVFAIL)
    if let Some(end) = skip_name(query, HEADER_LEN) {
        if end <= query.len() && query.len() - end >= 4 {
            proof {
                lemma_name_end_advances(query@, HEADER_LEN as int);
            }
            append_range(&mut resp, query, HEADER_LEN, end + 4);
        }
    }
    resp
}

// ── Laws ───────────────────────────────────────────────────────────────

proof fn lemma_name_end_ignores_id(m: Seq<u8>, query: Seq<u8>, pos: int)
    requires
        pos >= 2,
    ensures
        name_end(with_id_of(m, query), pos) == name_end(m, pos),
    decreases m.len() - pos,
{
    if pos < m.len() && pos + 1 + m[pos] <= m.len() {
        lemma_name_end_ignores_id(m, query, pos + 1 + m[pos]);
    }
}

proof fn lemma_name_end_advances(m: Seq<u8>, pos: int)
    ensures
        name_end(m, pos) matches Some(e) ==> e > pos,
    decreases m.len() - pos,
{
    if 0 <= pos < m.len() && pos + 1 + m[pos] <= m.len() {
        lemma_name_end_advances(m, pos + 1 + m[pos]);
    }
}

proof fn lemma_questions_end_ignores_id(m: Seq<u8>, query: Seq<u8>, n: nat, pos: int)
    requires
        pos >= 2,
    ensures
        questions_end(with_id_of(m, query), n, pos) == questions_end(m, n, pos),
        questions_end(m, n, pos) matches Some(e) ==> e >= pos,
    decreases n,
{
    if n > 0 {
        lemma_name_end_ignores_id(m, query, pos);
        lemma_name_end_advances(m, pos);
        if let Some(e) = name_end(m, pos) {
            lemma_questions_end_ignores_id(m, query, (n - 1) as nat, e + 4);
        }
    }
}

proof fn lemma_record_ttls_ignores_id(m: Seq<u8>, query: Seq<u8>, n: nat, pos: int)
    requires
        pos >= 2,
    ensures
        record_ttls(with_id_of(m, query), n, pos) == record_ttls(m, n, pos),
    decreases n,
{
    if n > 0 {
        lemma_name_end_ignores_id(m, query, pos);
        lemma_name_end_advances(m, pos);
        if let Some(e) = name_end(m, pos) {
            if e + 10 <= m.len() {
                lemma_record_ttls_ignores_id(m, query, (n - 1) as nat, e + 10 + be16(m, e + 8));
            }
        }
    }
}

/// Rewriting the transaction ID changes the ID and nothing else: the message
/// keeps its length, every byte from the flags on, and the TTLs of its records.
pub proof fn law_patch_changes_only_the_id(resp: Seq<u8>, query: Seq<u8>)
    ensures
        with_id_of(resp, query).len() == resp.len(),
        forall|i: int| 2 <= i < resp.len() ==> #[trigger] with_id_of(resp, query)[i] == resp[i],
        resp.len() >= 2 && query.len() >= 2 ==> with_id_of(resp, query).take(2) == query.take(2),
        message_ttls(with_id_of(resp, query)) == message_ttls(resp),
{
    let patched = with_id_of(resp, query);
    if resp.len() >= 2 && query.len() >= 2 {
        assert(patched.take(2) =~= query.take(2));
    }
    if resp.len() >= HEADER_LEN {
        lemma_questions_end_ignores_id(resp, query, be16(resp, 4) as nat, HEADER_LEN as int);
        if let Some(pos) = questions_end(resp, be16(resp, 4) as nat, HEADER_LEN as int) {
            lemma_record_ttls_ignores_id(
                resp,
                query,
                (be16(resp, 6) + be16(resp, 8) + be16(resp, 10)) as nat,
                pos,
            );
        }
    }
}

/// Rewriting the ID for one requester and then for another is the same as
/// rewriting it for the second alone.
pub proof fn law_patch_last_wins(resp: Seq<u8>, first: Seq<u8>, second: Seq<u8>)
    requires
        second.len() >= 2,
    ensures
        with_id_of(with_id_of(resp, first), second) == with_id_of(resp, second),
{
    assert(with_id_of(with_id_of(resp, first), second) =~= with_id_of(resp, second));
}

/// A truncated response fits, keeps its ID, keeps every flag, and says that it
/// was truncated exactly where something is missing.
pub proof fn law_truncation(resp: Seq<u8>, max: int)
    requires
        max >= 3,
        resp.len() >= 3,
    ensures
        truncated(resp, max).len() <= max,
        truncated(resp, max).take(2) == resp.take(2),
        resp.len() > max ==> truncated(resp, max)[2] & 0x02u8 == 0x02u8,
        truncated(resp, max)[2] & 0xFDu8 == resp[2] & 0xFDu8,
        resp.len() <= max ==> truncated(resp, max) == resp,
        truncated(truncated(resp, max), max) == truncated(resp, max),
{
    let b = resp[2];
    assert((b | 0x02u8) & 0x02u8 == 0x02u8) by (bit_vector);
    assert((b | 0x02u8) & 0xFDu8 == b & 0xFDu8) by (bit_vector);
    assert(truncated(resp, max).take(2) =~= resp.take(2));
}

/// A SERVFAIL answer to anything with a full header is a response (QR) that
/// carries the query's ID and recursion-desired bit, offers recursion (RA),
/// says SERVFAIL, and repeats the question.
pub proof fn law_servfail_answers_the_query(query: Seq<u8>)
    requires
        query.len() >= HEADER_LEN,
    ensures
        servfail_of(query).take(2) == query.take(2),
        servfail_of(query)[2] & 0x80u8 == 0x80u8,
        servfail_of(query)[2] & 0x01u8 == query[2] & 0x01u8,
        servfail_of(query)[3] & 0x80u8 == 0x80u8,
        servfail_of(query)[3] & 0x0Fu8 == 0x02u8,
        be16(servfail_of(query), 4) == be16(query, 4),
        servfail_of(query).skip(HEADER_LEN as int) == first_question(query),
        servfail_of(query).len() <= query.len(),
{
    let b = query[2];
    assert(((b & 0x01u8) | 0x80u8) & 0x80u8 == 0x80u8) by (bit_vector);
    assert(((b & 0x01u8) | 0x80u8) & 0x01u8 == b & 0x01u8) by (bit_vector);
    assert(0x82u8 & 0x80u8 == 0x80u8) by (bit_vector);
    assert(0x82u8 & 0x0Fu8 == 0x02u8) by (bit_vector);
    lemma_name_end_advances(query, HEADER_LEN as int);
    assert(servfail_of(query).take(2) =~= query.take(2));
    assert(servfail_of(query).skip(HEADER_LEN as int) =~= first_question(query));
}

/// The TTL of a message is unique, so a response has one caching time.
pub proof fn law_message_ttl_is_unique(m: Seq<u8>, a: Option<u32>, b: Option<u32>)
    requires
        is_message_ttl(m, a),
        is_message_ttl(m, b),
    ensures
        a == b,
{
    if let Some(ttls) = message_ttls(m) {
        if ttls.len() > 0 {
            let x = a->0 as int;
            let y = b->0 as int;
            let i = choose|i: int| 0 <= i < ttls.len() && ttls[i] == x;
            let j = choose|j: int| 0 <= j < ttls.len() && ttls[j] == y;
            assert(x <= ttls[j] && y <= ttls[i]);
        }
    }
}

/// Rewriting the ID, byte by byte: the first two are the query's and the rest
/// the response's, where both are long enough to have an ID; otherwise the
/// response is left alone.
pub proof fn law_patch_bytes(resp: Seq<u8>, query: Seq<u8>)
    ensures
        resp.len() >= 2 && query.len() >= 2 ==> with_id_of(resp, query) == query.subrange(0, 2)
            + resp.subrange(2, resp.len() as int),
        resp.len() < 2 || query.len() < 2 ==> with_id_of(resp, query) == resp,
{
    if resp.len() >= 2 && query.len() >= 2 {
        assert(with_id_of(resp, query) =~= query.subrange(0, 2) + resp.subrange(
            2,
            resp.len() as int,
        ));
    }
}

/// Truncation, byte by byte: what is cut is as long as allowed and differs from
/// the beginning of the response in the TC bit alone.
pub proof fn law_truncation_bytes(resp: Seq<u8>, max: int)
    requires
        max >= 0,
    ensures
        truncated(resp, max).len() == (if resp.len() < max {
            resp.len() as int
        } else {
            max
        }),
        forall|i: int|
            0 <= i < resp.len() && i < max && i != 2 ==> #[trigger] truncated(resp, max)[i]
                == resp[i],
        resp.len() > 2 && max > 2 ==> truncated(resp, max)[2] == (if resp.len() > max && resp[2]
            & 2u8 == 0u8 {
            (resp[2] + 2) as u8
        } else {
            resp[2]
        }),
{
    if resp.len() > 2 {
        let b = resp[2];
        assert(b & 2u8 == 0u8 ==> b <= 253 && (b | 0x02u8) == (b + 2) as u8) by (bit_vector);
        assert(b & 2u8 != 0u8 ==> (b | 0x02u8) == b) by (bit_vector);
    }
}

/// What is too short for a DNS header is answered by itself.
pub proof fn law_servfail_echoes_fragments(query: Seq<u8>)
    ensures
        query.len() < 12 <==> servfail_of(query) == query && servfail_of(query).len() < 12,
{
    lemma_name_end_advances(query, HEADER_LEN as int);
}

} // verus!
