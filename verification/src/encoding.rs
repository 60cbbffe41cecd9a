//! DNS messages the other way round: how names, questions and records are
//! written, and that parsing them gives back what was written.

use vstd::prelude::*;

use crate::wire;

verus! {

// ── Encoder ────────────────────────────────────────────────────────────

/// A domain name: labels, and where its end is left to another place of the
/// message, a compression pointer of two bytes.
pub struct Name {
    pub labels: Seq<Seq<u8>>,
    pub pointer: Option<(u8, u8)>,
}

/// Labels have 1 to 63 bytes; a pointer is told by its two highest bits.
pub open spec fn valid_name(n: Name) -> bool {
    &&& forall|i: int| 0 <= i < n.labels.len() ==> 1 <= (#[trigger] n.labels[i]).len() <= 63
    &&& n.pointer matches Some(p) ==> p.0 >= 192
}

/// Labels on the wire: each with its length in front.
pub open spec fn encode_labels(labels: Seq<Seq<u8>>) -> Seq<u8>
    decreases labels.len(),
{
    if labels.len() == 0 {
        Seq::empty()
    } else {
        seq![labels[0].len() as u8] + labels[0] + encode_labels(labels.skip(1))
    }
}

/// The end of a name on the wire: a pointer, or an empty label.
pub open spec fn encode_end(pointer: Option<(u8, u8)>) -> Seq<u8> {
    match pointer {
        Some(p) => seq![p.0, p.1],
        None => seq![0u8],
    }
}

/// A name on the wire.
pub open spec fn encode_name(n: Name) -> Seq<u8> {
    encode_labels(n.labels) + encode_end(n.pointer)
}

/// Whether some bytes are a name on the wire.
pub open spec fn is_name(bytes: Seq<u8>) -> bool {
    exists|n: Name| valid_name(n) && #[trigger] encode_name(n) == bytes
}

/// A number in two bytes, the higher one first.
pub open spec fn two_bytes(n: int) -> Seq<u8> {
    seq![(n / 256) as u8, (n % 256) as u8]
}

/// A number in four bytes, the highest one first.
pub open spec fn four_bytes(n: int) -> Seq<u8> {
    two_bytes(n / 65536) + two_bytes(n % 65536)
}

/// A question: a name, then type and class in four bytes.
pub struct Question {
    pub name: Name,
    pub kind: Seq<u8>,
}

pub open spec fn valid_question(q: Question) -> bool {
    valid_name(q.name) && q.kind.len() == 4
}

pub open spec fn encode_question(q: Question) -> Seq<u8> {
    encode_name(q.name) + q.kind
}

/// A resource record: a name, type and class in four bytes, the TTL, and data.
pub struct Record {
    pub name: Name,
    pub kind: Seq<u8>,
    pub ttl: u32,
    pub data: Seq<u8>,
}

pub open spec fn valid_record(r: Record) -> bool {
    valid_name(r.name) && r.kind.len() == 4 && r.data.len() <= 65535
}

pub open spec fn encode_record(r: Record) -> Seq<u8> {
    encode_name(r.name) + r.kind + four_bytes(r.ttl as int) + two_bytes(r.data.len() as int)
        + r.data
}

pub open spec fn encode_questions(qs: Seq<Question>) -> Seq<u8>
    decreases qs.len(),
{
    if qs.len() == 0 {
        Seq::empty()
    } else {
        encode_question(qs[0]) + encode_questions(qs.skip(1))
    }
}

pub open spec fn encode_records(rs: Seq<Record>) -> Seq<u8>
    decreases rs.len(),
{
    if rs.len() == 0 {
        Seq::empty()
    } else {
        encode_record(rs[0]) + encode_records(rs.skip(1))
    }
}

/// A message: ID and flags in four bytes, four lists, and whatever follows them.
pub struct Message {
    pub head: Seq<u8>,
    pub questions: Seq<Question>,
    pub answers: Seq<Record>,
    pub authority: Seq<Record>,
    pub additional: Seq<Record>,
    pub rest: Seq<u8>,
}

pub open spec fn valid_records(rs: Seq<Record>) -> bool {
    rs.len() <= 65535 && forall|i: int| 0 <= i < rs.len() ==> valid_record(#[trigger] rs[i])
}

pub open spec fn valid_message(m: Message) -> bool {
    &&& m.head.len() == 4
    &&& m.questions.len() <= 65535
    &&& forall|i: int| 0 <= i < m.questions.len() ==> valid_question(#[trigger] m.questions[i])
    &&& valid_records(m.answers)
    &&& valid_records(m.authority)
    &&& valid_records(m.additional)
}

/// Every record of a message, whatever section it is in.
pub open spec fn all_records(m: Message) -> Seq<Record> {
    m.answers + m.authority + m.additional
}

/// The header says how many entries each list has.
pub open spec fn encode_header(m: Message) -> Seq<u8> {
    m.head + two_bytes(m.questions.len() as int) + two_bytes(m.answers.len() as int) + two_bytes(
        m.authority.len() as int,
    ) + two_bytes(m.additional.len() as int)
}

/// A message on the wire.
pub open spec fn encode_message(m: Message) -> Seq<u8> {
    encode_header(m) + encode_questions(m.questions) + encode_records(all_records(m)) + m.rest
}

// ── Names ──────────────────────────────────────────────────────────────

proof fn lemma_name_is_found(m: Seq<u8>, pos: int, n: Name)
    requires
        valid_name(n),
        0 <= pos,
        pos + encode_name(n).len() <= m.len(),
        m.subrange(pos, pos + encode_name(n).len()) == encode_name(n),
    ensures
        wire::name_end(m, pos) == Some((pos + encode_name(n).len()) as int),
    decreases n.labels.len(),
{
    let bytes = encode_name(n);
    let sub = m.subrange(pos, pos + bytes.len());
    assert(m[pos] == sub[0]);
    if n.labels.len() == 0 {
        assert(bytes =~= encode_end(n.pointer));
    } else {
        let first = n.labels[0];
        let tail = Name { labels: n.labels.skip(1), pointer: n.pointer };
        assert(1 <= first.len() <= 63);
        assert(bytes =~= seq![first.len() as u8] + first + encode_name(tail));
        assert(sub[0] == first.len() as u8);
        let next = pos + 1 + first.len();
        assert(m.subrange(next, next + encode_name(tail).len()) =~= sub.subrange(
            1 + first.len() as int,
            bytes.len() as int,
        ));
        assert(sub.subrange(1 + first.len() as int, bytes.len() as int) =~= encode_name(tail));
        assert forall|i: int| 0 <= i < tail.labels.len() implies 1 <= (
        #[trigger] tail.labels[i]).len() <= 63 by {
            assert(tail.labels[i] == n.labels[i + 1]);
        }
        lemma_name_is_found(m, next, tail);
    }
}

proof fn lemma_found_is_name(m: Seq<u8>, pos: int) -> (n: Name)
    requires
        0 <= pos,
        wire::name_end(m, pos) is Some,
    ensures
        valid_name(n),
        pos < wire::name_end(m, pos)->0 <= m.len(),
        m.subrange(pos, wire::name_end(m, pos)->0) == encode_name(n),
    decreases m.len() - pos,
{
    let e = wire::name_end(m, pos)->0;
    if m[pos] >= 0xC0 {
        let n = Name { labels: Seq::empty(), pointer: Some((m[pos], m[pos + 1])) };
        assert(m.subrange(pos, e) =~= encode_name(n));
        n
    } else if m[pos] == 0 {
        let n = Name { labels: Seq::empty(), pointer: None };
        assert(m.subrange(pos, e) =~= encode_name(n));
        n
    } else {
        let len = m[pos] as int;
        let tail = lemma_found_is_name(m, pos + 1 + len);
        let first = m.subrange(pos + 1, pos + 1 + len);
        let n = Name { labels: seq![first] + tail.labels, pointer: tail.pointer };
        assert(n.labels.skip(1) =~= tail.labels);
        assert forall|i: int| 0 <= i < n.labels.len() implies 1 <= (
        #[trigger] n.labels[i]).len() <= 63 by {
            if i > 0 {
                assert(n.labels[i] == tail.labels[i - 1]);
            }
        }
        assert(encode_name(n) =~= seq![first.len() as u8] + first + encode_name(tail));
        assert(m.subrange(pos, e) =~= seq![m[pos]] + first + m.subrange(pos + 1 + len, e));
        n
    }
}

/// Skipping a name is undoing its encoding: the name that starts at `pos` ends
/// at `e` where the bytes between them are a name on the wire, and only there.
/// What runs off the message or has an unknown kind of label has no end.
pub proof fn law_name_end(m: Seq<u8>, pos: int, e: int)
    ensures
        wire::name_end(m, pos) == Some(e) <==> 0 <= pos <= e <= m.len() && is_name(
            m.subrange(pos, e),
        ),
{
    if wire::name_end(m, pos) == Some(e) {
        let n = lemma_found_is_name(m, pos);
        assert(encode_name(n) == m.subrange(pos, e));
    }
    if 0 <= pos <= e <= m.len() && is_name(m.subrange(pos, e)) {
        let n = choose|n: Name| valid_name(n) && #[trigger] encode_name(n) == m.subrange(pos, e);
        lemma_name_is_found(m, pos, n);
    }
}

// ── Questions and records ──────────────────────────────────────────────

proof fn lemma_two_bytes(m: Seq<u8>, i: int, n: int)
    requires
        0 <= n <= 65535,
        0 <= i,
        i + 2 <= m.len(),
        m.subrange(i, i + 2) == two_bytes(n),
    ensures
        wire::be16(m, i) == n,
{
    assert(m[i] == m.subrange(i, i + 2)[0]);
    assert(m[i + 1] == m.subrange(i, i + 2)[1]);
}

proof fn lemma_be16_bytes(m: Seq<u8>, i: int)
    requires
        0 <= i,
        i + 2 <= m.len(),
    ensures
        0 <= wire::be16(m, i) <= 65535,
        m.subrange(i, i + 2) == two_bytes(wire::be16(m, i)),
{
    assert(m.subrange(i, i + 2) =~= two_bytes(wire::be16(m, i)));
}

proof fn lemma_questions_are_skipped(m: Seq<u8>, pos: int, qs: Seq<Question>)
    requires
        forall|i: int| 0 <= i < qs.len() ==> valid_question(#[trigger] qs[i]),
        0 <= pos,
        pos + encode_questions(qs).len() <= m.len(),
        m.subrange(pos, pos + encode_questions(qs).len()) == encode_questions(qs),
    ensures
        wire::questions_end(m, qs.len(), pos) == Some((pos + encode_questions(qs).len()) as int),
    decreases qs.len(),
{
    if qs.len() > 0 {
        let q = qs[0];
        let tail = qs.skip(1);
        let bytes = encode_questions(qs);
        let sub = m.subrange(pos, pos + bytes.len());
        assert(valid_question(qs[0]));
        let e = pos + encode_name(q.name).len();
        assert(m.subrange(pos, e) =~= sub.take(encode_name(q.name).len() as int));
        assert(sub.take(encode_name(q.name).len() as int) =~= encode_name(q.name));
        lemma_name_is_found(m, pos, q.name);
        assert(m.subrange(e + 4, e + 4 + encode_questions(tail).len()) =~= sub.skip(
            encode_question(q).len() as int,
        ));
        assert(sub.skip(encode_question(q).len() as int) =~= encode_questions(tail));
        assert forall|i: int| 0 <= i < tail.len() implies valid_question(#[trigger] tail[i]) by {
            assert(tail[i] == qs[i + 1]);
        }
        lemma_questions_are_skipped(m, e + 4, tail);
    }
}

proof fn lemma_skipped_are_questions(m: Seq<u8>, n: nat, pos: int) -> (qs: Seq<Question>)
    requires
        0 <= pos <= m.len(),
        wire::questions_end(m, n, pos) is Some,
    ensures
        qs.len() == n,
        forall|i: int| 0 <= i < qs.len() ==> valid_question(#[trigger] qs[i]),
        pos <= wire::questions_end(m, n, pos)->0 <= m.len(),
        m.subrange(pos, wire::questions_end(m, n, pos)->0) == encode_questions(qs),
    decreases n,
{
    if n == 0 {
        let qs = Seq::<Question>::empty();
        assert(m.subrange(pos, pos) =~= encode_questions(qs));
        qs
    } else {
        let e = wire::name_end(m, pos)->0;
        let name = lemma_found_is_name(m, pos);
        let q = Question { name, kind: m.subrange(e, e + 4) };
        let tail = lemma_skipped_are_questions(m, (n - 1) as nat, e + 4);
        let qs = seq![q] + tail;
        assert(qs.skip(1) =~= tail);
        assert forall|i: int| 0 <= i < qs.len() implies valid_question(#[trigger] qs[i]) by {
            if i > 0 {
                assert(qs[i] == tail[i - 1]);
            }
        }
        let end = wire::questions_end(m, n, pos)->0;
        assert(m.subrange(pos, end) =~= m.subrange(pos, e) + m.subrange(e, e + 4) + m.subrange(
            e + 4,
            end,
        ));
        assert(encode_questions(qs) =~= encode_question(q) + encode_questions(tail));
        qs
    }
}

/// The TTLs of some records, in order.
pub open spec fn ttls_of(rs: Seq<Record>) -> Seq<int> {
    Seq::new(rs.len(), |i: int| rs[i].ttl as int)
}

proof fn lemma_records_are_read(m: Seq<u8>, pos: int, rs: Seq<Record>)
    requires
        forall|i: int| 0 <= i < rs.len() ==> valid_record(#[trigger] rs[i]),
        0 <= pos,
        pos + encode_records(rs).len() <= m.len(),
        m.subrange(pos, pos + encode_records(rs).len()) == encode_records(rs),
    ensures
        wire::record_ttls(m, rs.len(), pos) == Some(ttls_of(rs)),
    decreases rs.len(),
{
    if rs.len() == 0 {
        assert(ttls_of(rs) =~= Seq::<int>::empty());
    } else {
        let r = rs[0];
        let tail = rs.skip(1);
        let bytes = encode_records(rs);
        let sub = m.subrange(pos, pos + bytes.len());
        assert(valid_record(rs[0]));
        let nl = encode_name(r.name).len() as int;
        let e = pos + nl;
        let d = r.data.len() as int;
        let t = r.ttl as int;
        assert(encode_record(r).len() == nl + 10 + d);
        assert(m.subrange(pos, e) =~= sub.take(nl));
        assert(sub.take(nl) =~= encode_name(r.name));
        lemma_name_is_found(m, pos, r.name);
        assert(m.subrange(e + 4, e + 6) =~= sub.subrange(nl + 4, nl + 6));
        assert(sub.subrange(nl + 4, nl + 6) =~= two_bytes(t / 65536));
        assert(m.subrange(e + 6, e + 8) =~= sub.subrange(nl + 6, nl + 8));
        assert(sub.subrange(nl + 6, nl + 8) =~= two_bytes(t % 65536));
        assert(m.subrange(e + 8, e + 10) =~= sub.subrange(nl + 8, nl + 10));
        assert(sub.subrange(nl + 8, nl + 10) =~= two_bytes(d));
        lemma_two_bytes(m, e + 4, t / 65536);
        lemma_two_bytes(m, e + 6, t % 65536);
        lemma_two_bytes(m, e + 8, d);
        assert(wire::be32(m, e + 4) == t);
        let next = e + 10 + d;
        assert(m.subrange(next, next + encode_records(tail).len()) =~= sub.skip(
            encode_record(r).len() as int,
        ));
        assert(sub.skip(encode_record(r).len() as int) =~= encode_records(tail));
        assert forall|i: int| 0 <= i < tail.len() implies valid_record(#[trigger] tail[i]) by {
            assert(tail[i] == rs[i + 1]);
        }
        lemma_records_are_read(m, next, tail);
        assert(ttls_of(rs) =~= seq![t] + ttls_of(tail));
    }
}

proof fn lemma_read_are_records(m: Seq<u8>, n: nat, pos: int) -> (r: (Seq<Record>, int))
    requires
        0 <= pos <= m.len(),
        wire::record_ttls(m, n, pos) is Some,
    ensures
        r.0.len() == n,
        forall|i: int| 0 <= i < r.0.len() ==> valid_record(#[trigger] r.0[i]),
        pos <= r.1 <= m.len(),
        m.subrange(pos, r.1) == encode_records(r.0),
    decreases n,
{
    if n == 0 {
        let rs = Seq::<Record>::empty();
        assert(m.subrange(pos, pos) =~= encode_records(rs));
        (rs, pos)
    } else {
        let e = wire::name_end(m, pos)->0;
        let name = lemma_found_is_name(m, pos);
        let d = wire::be16(m, e + 8);
        lemma_be16_bytes(m, e + 4);
        lemma_be16_bytes(m, e + 6);
        lemma_be16_bytes(m, e + 8);
        let hi = wire::be16(m, e + 4);
        let lo = wire::be16(m, e + 6);
        let t = hi * 65536 + lo;
        assert(t / 65536 == hi && t % 65536 == lo && 0 <= t <= u32::MAX);
        let rec = Record {
            name,
            kind: m.subrange(e, e + 4),
            ttl: t as u32,
            data: m.subrange(e + 10, e + 10 + d),
        };
        let (tail, end) = lemma_read_are_records(m, (n - 1) as nat, e + 10 + d);
        let rs = seq![rec] + tail;
        assert(rs.skip(1) =~= tail);
        assert forall|i: int| 0 <= i < rs.len() implies valid_record(#[trigger] rs[i]) by {
            if i > 0 {
                assert(rs[i] == tail[i - 1]);
            }
        }
        assert(m.subrange(pos, end) =~= m.subrange(pos, e) + m.subrange(e, e + 4) + m.subrange(
            e + 4,
            e + 6,
        ) + m.subrange(e + 6, e + 8) + m.subrange(e + 8, e + 10) + m.subrange(e + 10, e + 10 + d)
            + m.subrange(e + 10 + d, end));
        assert(encode_records(rs) =~= encode_record(rec) + encode_records(tail));
        assert(four_bytes(t) =~= two_bytes(hi) + two_bytes(lo));
        assert(encode_record(rec) =~= m.subrange(pos, e) + m.subrange(e, e + 4) + m.subrange(
            e + 4,
            e + 6,
        ) + m.subrange(e + 6, e + 8) + m.subrange(e + 8, e + 10) + m.subrange(
            e + 10,
            e + 10 + d,
        ));
        (rs, end)
    }
}

// ── Messages ───────────────────────────────────────────────────────────

proof fn lemma_message_is_read(msg: Message)
    requires
        valid_message(msg),
    ensures
        wire::message_ttls(encode_message(msg)) == Some(ttls_of(all_records(msg))),
{
    let m = encode_message(msg);
    let h = encode_header(msg);
    let qs = encode_questions(msg.questions);
    let all = all_records(msg);
    let rs = encode_records(all);
    assert(h.len() == 12);
    assert(m.subrange(4, 6) =~= two_bytes(msg.questions.len() as int));
    assert(m.subrange(6, 8) =~= two_bytes(msg.answers.len() as int));
    assert(m.subrange(8, 10) =~= two_bytes(msg.authority.len() as int));
    assert(m.subrange(10, 12) =~= two_bytes(msg.additional.len() as int));
    lemma_two_bytes(m, 4, msg.questions.len() as int);
    lemma_two_bytes(m, 6, msg.answers.len() as int);
    lemma_two_bytes(m, 8, msg.authority.len() as int);
    lemma_two_bytes(m, 10, msg.additional.len() as int);
    let pos = 12 + qs.len() as int;
    assert(m.subrange(12, pos) =~= qs);
    lemma_questions_are_skipped(m, 12, msg.questions);
    assert(m.subrange(pos, pos + rs.len()) =~= rs);
    assert forall|i: int| 0 <= i < all.len() implies valid_record(#[trigger] all[i]) by {
        let a = msg.answers.len() as int;
        let b = msg.authority.len() as int;
        if i < a {
            assert(all[i] == msg.answers[i]);
        } else if i < a + b {
            assert(all[i] == msg.authority[i - a]);
        } else {
            assert(all[i] == msg.additional[i - a - b]);
        }
    }
    lemma_records_are_read(m, pos, all);
}

/// The caching time of a message is the least TTL of all its records, in
/// whichever section they stand and however many there are; a message without
/// records has none.
pub proof fn law_ttl_is_the_least_of_all_records(msg: Message, t: Option<u32>)
    requires
        valid_message(msg),
        wire::is_message_ttl(encode_message(msg), t),
    ensures
        t is None <==> all_records(msg).len() == 0,
        forall|i: int|
            0 <= i < all_records(msg).len() ==> t is Some && t->0 <= (
            #[trigger] all_records(msg)[i]).ttl,
        t is Some ==> exists|i: int|
            0 <= i < all_records(msg).len() && (#[trigger] all_records(msg)[i]).ttl == t->0,
{
    lemma_message_is_read(msg);
    let ttls = ttls_of(all_records(msg));
    if all_records(msg).len() > 0 {
        let x = t->0 as int;
        assert(ttls.contains(x));
        let i = choose|i: int| 0 <= i < ttls.len() && ttls[i] == x;
        assert(all_records(msg)[i].ttl == x);
        assert forall|j: int| 0 <= j < all_records(msg).len() implies t->0 <= (
        #[trigger] all_records(msg)[j]).ttl by {
            assert(x <= ttls[j]);
        }
    }
}

/// Only what is a message has a caching time: bytes that are cut off or
/// malformed anywhere have none.
pub proof fn law_only_messages_have_a_ttl(m: Seq<u8>, t: Option<u32>)
    requires
        wire::is_message_ttl(m, t),
        t is Some,
    ensures
        exists|msg: Message| valid_message(msg) && #[trigger] encode_message(msg) == m,
{
    lemma_be16_bytes(m, 4);
    lemma_be16_bytes(m, 6);
    lemma_be16_bytes(m, 8);
    lemma_be16_bytes(m, 10);
    let q = wire::be16(m, 4);
    let a = wire::be16(m, 6);
    let b = wire::be16(m, 8);
    let c = wire::be16(m, 10);
    let pos = wire::questions_end(m, q as nat, 12)->0;
    let questions = lemma_skipped_are_questions(m, q as nat, 12);
    let (rs, end) = lemma_read_are_records(m, (a + b + c) as nat, pos);
    let msg = Message {
        head: m.take(4),
        questions,
        answers: rs.take(a),
        authority: rs.subrange(a, a + b),
        additional: rs.skip(a + b),
        rest: m.skip(end),
    };
    assert(all_records(msg) =~= rs);
    assert forall|i: int| 0 <= i < msg.answers.len() implies valid_record(
        #[trigger] msg.answers[i],
    ) by {
        assert(msg.answers[i] == rs[i]);
    }
    assert forall|i: int| 0 <= i < msg.authority.len() implies valid_record(
        #[trigger] msg.authority[i],
    ) by {
        assert(msg.authority[i] == rs[a + i]);
    }
    assert forall|i: int| 0 <= i < msg.additional.len() implies valid_record(
        #[trigger] msg.additional[i],
    ) by {
        assert(msg.additional[i] == rs[a + b + i]);
    }
    assert(encode_header(msg) =~= m.take(12)) by {
        assert(m.take(12) =~= m.take(4) + m.subrange(4, 6) + m.subrange(6, 8) + m.subrange(8, 10)
            + m.subrange(10, 12));
    }
    assert(m =~= m.take(12) + m.subrange(12, pos) + m.subrange(pos, end) + m.skip(end));
    assert(encode_message(msg) == m);
}

/// A SERVFAIL answer to a query repeats its first question, whole and nothing
/// but that, where the query has one; otherwise it is a header alone.
pub proof fn law_servfail_repeats_the_question(query: Seq<u8>, e: int)
    requires
        query.len() >= 12,
    ensures
        12 <= e && e + 4 <= query.len() && is_name(query.subrange(12, e)) ==> wire::servfail_of(
            query,
        ).skip(12) == query.subrange(12, e + 4),
        (forall|k: int|
            12 <= k && k + 4 <= query.len() ==> !#[trigger] is_name(query.subrange(12, k)))
            ==> wire::servfail_of(query).len() == 12,
        wire::servfail_of(query).len() >= 12,
        wire::servfail_of(query)[0] == query[0],
        wire::servfail_of(query)[1] == query[1],
        wire::servfail_of(query)[2] == (if query[2] & 1u8 == 1u8 {
            129u8
        } else {
            128u8
        }),
        wire::servfail_of(query)[3] == 130,
        forall|i: int| 4 <= i < 12 ==> #[trigger] wire::servfail_of(query)[i] == query[i],
{
    let s = wire::servfail_of(query);
    let b = query[2];
    assert(b & 1u8 == 1u8 ==> (b & 1u8) | 0x80u8 == 129u8) by (bit_vector);
    assert(b & 1u8 != 1u8 ==> (b & 1u8) | 0x80u8 == 128u8) by (bit_vector);
    law_name_end(query, 12, e);
    if let Some(k) = wire::name_end(query, 12) {
        law_name_end(query, 12, k);
    }
    if 12 <= e && e + 4 <= query.len() && is_name(query.subrange(12, e)) {
        assert(s.skip(12) =~= query.subrange(12, e + 4));
    }
}

} // verus!
