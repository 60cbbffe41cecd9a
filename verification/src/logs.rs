//! Log lines of the proxy: the history for new subscribers, and following the
//! log file of a proxy that somebody else started.

use std::collections::VecDeque;
use vstd::prelude::*;

use crate::text;

verus! {

/// Lines that a new subscriber gets.
pub const LOG_HISTORY_CAP: usize = 500;

/// Lines that may wait for a slow subscriber.
pub const LOG_CHANNEL_CAP: usize = 1024;

/// Time between two looks at a log file, in milliseconds.
pub const TAIL_POLL_MILLIS: u64 = 200;

// ── History ────────────────────────────────────────────────────────────

/// The most recent of `lines`, as many as the history holds.
pub open spec fn recent(lines: Seq<Seq<char>>) -> Seq<Seq<char>> {
    if lines.len() > LOG_HISTORY_CAP {
        lines.skip(lines.len() - LOG_HISTORY_CAP)
    } else {
        lines
    }
}

/// The most recent log lines, oldest first.
pub struct LogHistory {
    lines: VecDeque<String>,
}

impl View for LogHistory {
    type V = Seq<Seq<char>>;

    closed spec fn view(&self) -> Seq<Seq<char>> {
        text::texts(self.lines@)
    }
}

impl LogHistory {
    #[verifier::type_invariant]
    spec fn wf(self) -> bool {
        self.lines@.len() <= LOG_HISTORY_CAP
    }

    /// An empty history.
    pub fn new() -> (r: Self)
        ensures
            r@ == Seq::<Seq<char>>::empty(),
    {
        let r = LogHistory { lines: VecDeque::with_capacity(LOG_HISTORY_CAP) };
        assert(r@ =~= Seq::<Seq<char>>::empty());
        r
    }

    /// Add a line. The oldest one makes room for it where the history is full.
    pub fn push(&mut self, line: String)
        ensures
            final(self)@ == recent(old(self)@.push(line@)),
            final(self)@.len() <= LOG_HISTORY_CAP,
    {
        proof {
            use_type_invariant(&*self);
        }
        let ghost before = self@;
        let mut lines: VecDeque<String> = VecDeque::new();
        std::mem::swap(&mut lines, &mut self.lines);
        lines.push_back(line);
        assert(text::texts(lines@) =~= before.push(line@));
        if lines.len() > LOG_HISTORY_CAP {
            let ghost full = lines@;
            lines.pop_front();
            assert(text::texts(lines@) =~= text::texts(full).skip(1));
        }
        self.lines = lines;
    }

    /// A copy of the lines, oldest first.
    pub fn snapshot(&self) -> (r: Vec<String>)
        ensures
            text::texts(r@) == self@,
    {
        let mut out: Vec<String> = Vec::new();
        let mut i: usize = 0;
        while i < self.lines.len()
            invariant
                i <= self.lines@.len(),
                out@ == self.lines@.take(i as int),
            decreases self.lines@.len() - i,
        {
            out.push(self.lines[i].clone());
            i = i + 1;
            assert(out@ =~= self.lines@.take(i as int));
        }
        assert(out@ =~= self.lines@);
        out
    }

    /// Add the lines of `buf` and return them, to be sent to the subscribers.
    pub fn absorb(&mut self, buf: &str) -> (r: Vec<String>)
        ensures
            text::texts(r@) == text::split_lines(buf@),
            final(self)@ == recent(old(self)@ + text::split_lines(buf@)),
    {
        let rows: Vec<Vec<char>> = text::lines(buf);
        let mut out: Vec<String> = Vec::new();
        let mut i: usize = 0;
        proof {
            use_type_invariant(&*self);
            assert(old(self)@ + text::texts(out@) =~= old(self)@);
        }
        while i < rows.len()
            invariant
                i <= rows@.len(),
                text::rows(rows@) == text::split_lines(buf@),
                text::texts(out@) == text::split_lines(buf@).take(i as int),
                self@ == recent(old(self)@ + text::texts(out@)),
            decreases rows@.len() - i,
        {
            let ghost sent = text::texts(out@);
            let line: String = text::from_chars(rows[i].as_slice(), 0, rows[i].len());
            proof {
                assert(line@ =~= rows@[i as int]@);
                assert(line@ == text::rows(rows@)[i as int]);
                law_recent_of_recent(old(self)@ + sent, seq![line@]);
                assert(recent(old(self)@ + sent) + seq![line@] =~= self@.push(line@));
                assert(old(self)@ + sent + seq![line@] =~= old(self)@ + sent.push(line@));
            }
            self.push(line.clone());
            out.push(line);
            i = i + 1;
            assert(text::texts(out@) =~= sent.push(line@));
            assert(text::texts(out@) =~= text::split_lines(buf@).take(i as int));
        }
        assert(text::split_lines(buf@).take(i as int) =~= text::split_lines(buf@));
        out
    }
}

// ── Following a file ───────────────────────────────────────────────────

/// Where to go on in a file of `len` bytes that was read up to `offset`: one
/// that has become shorter was rotated or truncated and is read from its start.
pub open spec fn resume_at(offset: u64, len: u64) -> u64 {
    if len < offset {
        0
    } else {
        offset
    }
}

/// How far a log file was read, in bytes.
pub struct LogTail {
    pub offset: u64,
}

impl LogTail {
    /// Follow a file of `len` bytes from its end on, so that lines of previous
    /// sessions are not replayed.
    pub fn start_log_tail(len: u64) -> (r: Self)
        ensures
            r.offset == len,
    {
        LogTail { offset: len }
    }

    /// Look at the file, which has `len` bytes now. Where there is something
    /// new, the result is the position to read from.
    pub fn poll(&mut self, len: u64) -> (r: Option<u64>)
        ensures
            final(self).offset == resume_at(old(self).offset, len),
            r == (if len > resume_at(old(self).offset, len) {
                Some(resume_at(old(self).offset, len))
            } else {
                None
            }),
    {
        if len < self.offset {
            self.offset = 0;
        }
        if len > self.offset {
            Some(self.offset)
        } else {
            None
        }
    }

    /// The file was read up to `len` bytes.
    pub fn read_up_to(&mut self, len: u64)
        ensures
            final(self).offset == len,
    {
        self.offset = len;
    }
}

// ── Laws ───────────────────────────────────────────────────────────────

/// Forgetting old lines early makes no difference: the history after any number
/// of lines holds the most recent ones of all that ever came.
pub proof fn law_recent_of_recent(lines: Seq<Seq<char>>, more: Seq<Seq<char>>)
    ensures
        recent(recent(lines) + more) == recent(lines + more),
        recent(lines).len() <= LOG_HISTORY_CAP,
{
    assert(recent(recent(lines) + more) =~= recent(lines + more));
}

/// While a file only grows, following it yields each of its bytes once: what
/// was read before and what is read next make up the file.
pub proof fn law_tail_misses_nothing(before: Seq<u8>, file: Seq<u8>)
    requires
        before.is_prefix_of(file),
        file.len() <= u64::MAX,
    ensures
        before + file.skip(resume_at(before.len() as u64, file.len() as u64) as int) == file,
{
    assert(before + file.skip(before.len() as int) =~= file);
}

/// The history is the end of everything that was logged: all of it up to 500
/// lines, and the last 500 of more.
pub proof fn law_history_is_the_last_lines(lines: Seq<Seq<char>>)
    ensures
        recent(lines).len() == (if lines.len() < 500 {
            lines.len() as int
        } else {
            500
        }),
        forall|i: int|
            0 <= i < recent(lines).len() ==> #[trigger] recent(lines)[i] == lines[lines.len()
                - recent(lines).len() + i],
{
}

/// A file that is at least as long as what was read of it is read on from
/// there; a shorter one is another file and is read from its first byte.
pub proof fn law_shorter_files_are_read_anew(offset: u64, len: u64)
    ensures
        len >= offset ==> resume_at(offset, len) == offset,
        len < offset ==> resume_at(offset, len) == 0,
{
}

/// A history holds 500 lines, up to 1024 may wait for a subscriber, and a file is
/// looked at five times a second.
pub proof fn law_log_limits()
    ensures
        LOG_HISTORY_CAP == 500,
        LOG_CHANNEL_CAP == 1024,
        TAIL_POLL_MILLIS == 200,
{
}

} // verus!
