//! Text handling on strings seen as sequences of characters.

use vstd::prelude::*;
use vstd::string::*;
use vstd::utf8::*;

verus! {

// ── Model ──────────────────────────────────────────────────────────────

/// The contents of a list of strings.
pub open spec fn texts(v: Seq<String>) -> Seq<Seq<char>> {
    Seq::new(v.len(), |i: int| v[i]@)
}

/// The contents of a list of character vectors.
pub open spec fn rows(v: Seq<Vec<char>>) -> Seq<Seq<char>> {
    Seq::new(v.len(), |i: int| v[i]@)
}

/// The first position of `c` in `s` at or after `from`; the length of `s`
/// where there is none.
pub open spec fn find(s: Seq<char>, c: char, from: int) -> int
    decreases s.len() - from,
{
    if from >= s.len() {
        s.len() as int
    } else if s[from] == c {
        from
    } else {
        find(s, c, from + 1)
    }
}

/// A line without the carriage return that its line ending began with.
pub open spec fn strip_cr(line: Seq<char>) -> Seq<char> {
    if line.len() > 0 && line.last() == '\r' {
        line.drop_last()
    } else {
        line
    }
}

/// The lines of a text. A line ends with `\n` or `\r\n`; the ending of the
/// last one is optional.
pub open spec fn split_lines(s: Seq<char>) -> Seq<Seq<char>>
    decreases s.len(),
    via split_lines_decreases
{
    if s.len() == 0 {
        Seq::empty()
    } else {
        let i = find(s, '\n', 0);
        if i >= s.len() {
            seq![s]
        } else {
            seq![strip_cr(s.take(i))] + split_lines(s.skip(i + 1))
        }
    }
}

#[via_fn]
proof fn split_lines_decreases(s: Seq<char>) {
    lemma_find(s, '\n', 0);
}

/// Characters with the Unicode property White_Space.
pub open spec fn is_white_space(c: char) -> bool {
    ||| '\u{9}' <= c <= '\u{d}'
    ||| c == ' '
    ||| c == '\u{85}'
    ||| c == '\u{a0}'
    ||| c == '\u{1680}'
    ||| '\u{2000}' <= c <= '\u{200a}'
    ||| c == '\u{2028}'
    ||| c == '\u{2029}'
    ||| c == '\u{202f}'
    ||| c == '\u{205f}'
    ||| c == '\u{3000}'
}

/// `s` without the white space that it begins with.
pub open spec fn trim_front(s: Seq<char>) -> Seq<char>
    decreases s.len(),
{
    if s.len() > 0 && is_white_space(s[0]) {
        trim_front(s.skip(1))
    } else {
        s
    }
}

/// `s` without the white space that it ends with.
pub open spec fn trim_back(s: Seq<char>) -> Seq<char>
    decreases s.len(),
{
    if s.len() > 0 && is_white_space(s.last()) {
        trim_back(s.drop_last())
    } else {
        s
    }
}

/// `s` without white space at either end.
pub open spec fn trimmed(s: Seq<char>) -> Seq<char> {
    trim_back(trim_front(s))
}

/// `needle` stands in `s` at position `i`.
pub open spec fn occurs_at(s: Seq<char>, needle: Seq<char>, i: int) -> bool {
    &&& 0 <= i
    &&& i + needle.len() <= s.len()
    &&& s.subrange(i, i + needle.len()) == needle
}

/// `needle` stands somewhere in `s`.
pub open spec fn contains_text(s: Seq<char>, needle: Seq<char>) -> bool {
    exists|i: int| occurs_at(s, needle, i)
}

/// The first position at or after `from` at which `needle` stands in `s`.
pub open spec fn find_text(s: Seq<char>, needle: Seq<char>, from: int) -> Option<int>
    decreases s.len() - from + 1,
{
    if from + needle.len() > s.len() {
        None
    } else if occurs_at(s, needle, from) {
        Some(from)
    } else {
        find_text(s, needle, from + 1)
    }
}

/// The last of the pieces into which `sep` splits `s`.
pub open spec fn last_piece(s: Seq<char>, sep: Seq<char>) -> Seq<char>
    decreases s.len(),
    via last_piece_decreases
{
    match find_text(s, sep, 0) {
        Some(i) if sep.len() > 0 => last_piece(s.skip(i + sep.len()), sep),
        _ => s,
    }
}

#[via_fn]
proof fn last_piece_decreases(s: Seq<char>, sep: Seq<char>) {
    lemma_find_text(s, sep, 0);
}

proof fn lemma_find_text(s: Seq<char>, needle: Seq<char>, from: int)
    requires
        0 <= from,
    ensures
        match find_text(s, needle, from) {
            Some(i) => {
                &&& from <= i
                &&& occurs_at(s, needle, i)
                &&& forall|j: int| from <= j < i ==> !occurs_at(s, needle, j)
            },
            None => forall|j: int| from <= j ==> !occurs_at(s, needle, j),
        },
    decreases s.len() - from + 1,
{
    if from + needle.len() <= s.len() && !occurs_at(s, needle, from) {
        lemma_find_text(s, needle, from + 1);
    }
}

pub open spec fn is_digit(c: char) -> bool {
    '0' <= c <= '9'
}

/// The value of a string of decimal digits.
pub open spec fn digits_value(s: Seq<char>) -> int
    decreases s.len(),
{
    if s.len() == 0 {
        0
    } else {
        digits_value(s.drop_last()) * 10 + (s.last() as int - '0' as int)
    }
}

pub open spec fn all_digits(s: Seq<char>) -> bool {
    forall|i: int| 0 <= i < s.len() ==> is_digit(#[trigger] s[i])
}

/// A number's text without its optional plus sign.
pub open spec fn without_plus(s: Seq<char>) -> Seq<char> {
    if s.len() > 0 && s[0] == '+' {
        s.skip(1)
    } else {
        s
    }
}

/// The 16-bit number that a text spells: an optional plus sign and at least
/// one decimal digit, nothing else.
pub open spec fn spelled_u16(s: Seq<char>) -> Option<u16> {
    let digits = without_plus(s);
    if digits.len() > 0 && all_digits(digits) && digits_value(digits) <= u16::MAX {
        Some(digits_value(digits) as u16)
    } else {
        None
    }
}

/// The decimal digits of a number, without leading zeros.
pub open spec fn decimal_text(n: nat) -> Seq<char>
    decreases n,
{
    if n < 10 {
        seq![(n + '0' as int) as char]
    } else {
        decimal_text(n / 10).push((n % 10 + '0' as int) as char)
    }
}

/// A character with ASCII capitals turned into small letters.
pub open spec fn ascii_lower_char(c: char) -> char {
    if 'A' <= c <= 'Z' {
        (c as u32 + 32) as char
    } else {
        c
    }
}

/// A text with ASCII capitals turned into small letters.
pub open spec fn ascii_lower(s: Seq<char>) -> Seq<char> {
    s.map_values(|c: char| ascii_lower_char(c))
}

/// The lowercase form of a text by the Unicode mapping.
pub uninterp spec fn unicode_lower(s: Seq<char>) -> Seq<char>;

// ── Standard library ───────────────────────────────────────────────────

/// `String::push` appends one character.
pub assume_specification[ String::push ](s: &mut String, c: char)
    ensures
        final(s)@ == old(s)@.push(c),
;

/// Calls `str::to_lowercase`. The result is a function of the text alone, the
/// Unicode lowercase mapping; on ASCII text it is the ASCII mapping. What the
/// mapping does to other text is left unsaid.
#[verifier::external_body]
pub(crate) fn lowercase(s: &str) -> (r: String)
    ensures
        r@ == unicode_lower(s@),
        is_ascii_chars(s@) ==> r@ == ascii_lower(s@),
{
    s.to_lowercase()
}

// ── Conversion and comparison ──────────────────────────────────────────

pub proof fn lemma_find(s: Seq<char>, c: char, from: int)
    requires
        0 <= from,
    ensures
        from <= s.len() ==> from <= find(s, c, from) <= s.len(),
        find(s, c, from) < s.len() ==> s[find(s, c, from)] == c,
        forall|i: int| from <= i < find(s, c, from) && i < s.len() ==> #[trigger] s[i] != c,
    decreases s.len() - from,
{
    if from < s.len() && s[from] != c {
        lemma_find(s, c, from + 1);
    }
}

/// The characters of a string.
pub fn to_chars(s: &str) -> (r: Vec<char>)
    ensures
        r@ == s@,
{
    let mut out: Vec<char> = Vec::new();
    for c in it: s.chars()
        invariant
            out@ == it.seq().take(it.index()),
            it.seq() == s@,
    {
        out.push(c);
        assert(it.seq().take(it.index() + 1) =~= it.seq().take(it.index()).push(c));
    }
    assert(s@.take(s@.len() as int) =~= s@);
    out
}

/// The string made of `chars[from..to]`.
pub fn from_chars(chars: &[char], from: usize, to: usize) -> (r: String)
    requires
        from <= to <= chars@.len(),
    ensures
        r@ == chars@.subrange(from as int, to as int),
{
    let mut out: String = String::new();
    let mut i: usize = from;
    assert(out@ =~= chars@.subrange(from as int, i as int));
    while i < to
        invariant
            from <= i <= to <= chars@.len(),
            out@ == chars@.subrange(from as int, i as int),
        decreases to - i,
    {
        out.push(chars[i]);
        i = i + 1;
        assert(out@ =~= chars@.subrange(from as int, i as int));
    }
    out
}

/// Whether two strings hold the same characters.
pub fn same_text(a: &str, b: &str) -> (r: bool)
    ensures
        r == (a@ == b@),
{
    let x: &[u8] = a.as_bytes();
    let y: &[u8] = b.as_bytes();
    proof {
        encode_utf8_decode_utf8(a@);
        encode_utf8_decode_utf8(b@);
    }
    if x.len() != y.len() {
        return false;
    }
    let mut i: usize = 0;
    while i < x.len()
        invariant
            i <= x@.len() == y@.len(),
            forall|j: int| 0 <= j < i ==> x@[j] == y@[j],
            x@ == encode_utf8(a@),
            y@ == encode_utf8(b@),
        decreases x@.len() - i,
    {
        if x[i] != y[i] {
            return false;
        }
        i = i + 1;
    }
    assert(x@ =~= y@);
    true
}

/// Whether two byte strings are the same.
pub fn same_bytes(a: &[u8], b: &[u8]) -> (r: bool)
    ensures
        r == (a@ == b@),
{
    if a.len() != b.len() {
        return false;
    }
    let mut i: usize = 0;
    while i < a.len()
        invariant
            i <= a@.len() == b@.len(),
            forall|j: int| 0 <= j < i ==> a@[j] == b@[j],
        decreases a@.len() - i,
    {
        if a[i] != b[i] {
            return false;
        }
        i = i + 1;
    }
    assert(a@ =~= b@);
    true
}

/// `head` followed by `tail`.
pub fn joined(head: &str, tail: &str) -> (r: String)
    ensures
        r@ == head@ + tail@,
{
    let mut out: String = head.to_owned();
    out.append(tail);
    out
}

// ── Lines, white space, search ─────────────────────────────────────────

/// The lines of a text, without their line endings.
pub fn lines(text: &str) -> (r: Vec<Vec<char>>)
    ensures
        rows(r@) == split_lines(text@),
{
    let chars: Vec<char> = to_chars(text);
    let mut out: Vec<Vec<char>> = Vec::new();
    let mut start: usize = 0;
    assert(chars@.skip(0) =~= chars@);
    assert(rows(out@) + split_lines(chars@) =~= split_lines(chars@));
    while start < chars.len()
        invariant
            start <= chars@.len(),
            rows(out@) + split_lines(chars@.skip(start as int)) == split_lines(chars@),
        decreases chars@.len() - start,
    {
        let ghost rest = chars@.skip(start as int);
        let mut end: usize = start;
        while end < chars.len() && chars[end] != '\n'
            invariant
                start <= end <= chars@.len(),
                rest == chars@.skip(start as int),
                find(rest, '\n', 0) == find(rest, '\n', end - start),
            decreases chars@.len() - end,
        {
            end = end + 1;
        }
        assert(find(rest, '\n', 0) == end - start);
        let mut line: Vec<char> = Vec::new();
        let mut stop: usize = end;
        if end < chars.len() && end > start && chars[end - 1] == '\r' {
            stop = end - 1;
        }
        let mut i: usize = start;
        while i < stop
            invariant
                start <= i <= stop <= chars@.len(),
                line@ == chars@.subrange(start as int, i as int),
            decreases stop - i,
        {
            line.push(chars[i]);
            i = i + 1;
            assert(line@ =~= chars@.subrange(start as int, i as int));
        }
        let ghost before = out@;
        out.push(line);
        proof {
            assert(rows(out@) =~= rows(before).push(line@));
            if end < chars@.len() {
                assert(rest.take(end - start) =~= chars@.subrange(start as int, end as int));
                assert(line@ =~= strip_cr(rest.take(end - start)));
                assert(rest.skip(end - start + 1) =~= chars@.skip(end + 1));
                assert(rows(before) + (seq![line@] + split_lines(chars@.skip(end + 1)))
                    =~= rows(before).push(line@) + split_lines(chars@.skip(end + 1)));
            } else {
                assert(line@ =~= rest);
                assert(chars@.skip(chars@.len() as int) =~= Seq::<char>::empty());
                assert(rows(before) + seq![line@] =~= rows(before).push(line@)
                    + Seq::<Seq<char>>::empty());
            }
        }
        if end < chars.len() {
            start = end + 1;
        } else {
            start = end;
        }
    }
    assert(chars@.skip(start as int) =~= Seq::<char>::empty());
    assert(rows(out@) + Seq::<Seq<char>>::empty() =~= rows(out@));
    out
}

/// Whether a character is white space.
pub fn white_space(c: char) -> (r: bool)
    ensures
        r == is_white_space(c),
{
    ('\u{9}' <= c && c <= '\u{d}') || c == ' ' || c == '\u{85}' || c == '\u{a0}' || c == '\u{1680}'
        || ('\u{2000}' <= c && c <= '\u{200a}') || c == '\u{2028}' || c == '\u{2029}' || c
        == '\u{202f}' || c == '\u{205f}' || c == '\u{3000}'
}

/// The part of `chars[from..]` that is left without white space at either end.
pub fn trim(chars: &[char], from: usize) -> (r: (usize, usize))
    requires
        from <= chars@.len(),
    ensures
        from <= r.0 <= r.1 <= chars@.len(),
        chars@.subrange(r.0 as int, r.1 as int) == trimmed(chars@.skip(from as int)),
{
    let mut lo: usize = from;
    while lo < chars.len() && white_space(chars[lo])
        invariant
            from <= lo <= chars@.len(),
            trim_front(chars@.skip(from as int)) == trim_front(chars@.skip(lo as int)),
        decreases chars@.len() - lo,
    {
        assert(chars@.skip(lo as int).skip(1) =~= chars@.skip(lo + 1));
        lo = lo + 1;
    }
    let mut hi: usize = chars.len();
    assert(chars@.skip(lo as int) =~= chars@.subrange(lo as int, hi as int));
    while hi > lo && white_space(chars[hi - 1])
        invariant
            from <= lo <= hi <= chars@.len(),
            trim_back(chars@.skip(lo as int)) == trim_back(chars@.subrange(lo as int, hi as int)),
        decreases hi,
    {
        assert(chars@.subrange(lo as int, hi as int).drop_last() =~= chars@.subrange(
            lo as int,
            hi - 1,
        ));
        hi = hi - 1;
    }
    (lo, hi)
}

/// The first position at or after `from` at which `needle` stands.
pub fn search(chars: &[char], needle: &[char], from: usize) -> (r: Option<usize>)
    requires
        from <= chars@.len(),
    ensures
        match r {
            Some(i) => {
                &&& from <= i
                &&& occurs_at(chars@, needle@, i as int)
                &&& forall|j: int| from <= j < i ==> !occurs_at(chars@, needle@, j)
            },
            None => forall|j: int| from <= j ==> !occurs_at(chars@, needle@, j),
        },
{
    let n: usize = needle.len();
    let mut i: usize = from;
    while chars.len() - i >= n
        invariant
            n == needle@.len(),
            from <= i <= chars@.len(),
            forall|j: int| from <= j < i ==> !occurs_at(chars@, needle@, j),
        decreases chars@.len() - i,
    {
        assert(i + n <= chars.len());
        let mut k: usize = 0;
        while k < n && chars[i + k] == needle[k]
            invariant
                n == needle@.len(),
                k <= n,
                i + n <= chars@.len() <= usize::MAX,
                forall|j: int| 0 <= j < k ==> chars@[i + j] == needle@[j],
            decreases n - k,
        {
            k = k + 1;
        }
        if k == n {
            assert(chars@.subrange(i as int, i + n) =~= needle@);
            return Some(i);
        }
        assert(!occurs_at(chars@, needle@, i as int)) by {
            if chars@.subrange(i as int, i + n) == needle@ {
                assert(chars@.subrange(i as int, i + n)[k as int] == needle@[k as int]);
            }
        }
        if i == chars.len() {
            return None;
        }
        i = i + 1;
    }
    None
}

/// The start of the last of the pieces into which `sep` splits `chars`.
pub fn last_split(chars: &[char], sep: &[char]) -> (r: usize)
    requires
        sep@.len() > 0,
    ensures
        r <= chars@.len(),
        chars@.skip(r as int) == last_piece(chars@, sep@),
{
    let mut start: usize = 0;
    assert(chars@.skip(0) =~= chars@);
    loop
        invariant
            start <= chars@.len(),
            sep@.len() > 0,
            last_piece(chars@.skip(start as int), sep@) == last_piece(chars@, sep@),
        decreases chars@.len() - start,
    {
        let ghost rest = chars@.skip(start as int);
        proof {
            lemma_find_text(rest, sep@, 0);
            assert forall|j: int| 0 <= j implies occurs_at(rest, sep@, j) == occurs_at(
                chars@,
                sep@,
                start + j,
            ) by {
                if j + sep@.len() <= rest.len() {
                    assert(rest.subrange(j, j + sep@.len()) =~= chars@.subrange(
                        start + j,
                        start + j + sep@.len(),
                    ));
                }
            }
        }
        match search(chars, sep, start) {
            Some(i) => {
                proof {
                    assert(occurs_at(rest, sep@, i - start));
                    let k = find_text(rest, sep@, 0)->0;
                    assert(k == i - start) by {
                        if k < i - start {
                            assert(!occurs_at(chars@, sep@, start + k));
                        }
                    }
                    assert(rest.skip(k + sep@.len()) =~= chars@.skip(i + sep@.len()));
                    assert(i + sep@.len() <= chars.len());
                }
                start = i + sep.len();
            },
            None => {
                proof {
                    if find_text(rest, sep@, 0) is Some {
                        let k = find_text(rest, sep@, 0)->0;
                        assert(!occurs_at(chars@, sep@, start + k));
                    }
                }
                return start;
            },
        }
    }
}

/// Whether `needle` stands anywhere in `chars`.
pub fn has_text(chars: &[char], needle: &str) -> (r: bool)
    ensures
        r == contains_text(chars@, needle@),
{
    let n: Vec<char> = to_chars(needle);
    match search(chars, n.as_slice(), 0) {
        Some(i) => {
            assert(occurs_at(chars@, needle@, i as int));
            true
        },
        None => false,
    }
}

// ── Numbers ────────────────────────────────────────────────────────────

proof fn lemma_digits_value_grows(s: Seq<char>, k: int)
    requires
        0 <= k <= s.len(),
        all_digits(s),
    ensures
        0 <= digits_value(s.take(k)) <= digits_value(s),
    decreases s.len(),
{
    if k == s.len() {
        assert(s.take(k) =~= s);
        if s.len() > 0 {
            assert(s.drop_last().take(k - 1) =~= s.drop_last());
            lemma_digits_value_grows(s.drop_last(), k - 1);
        }
    } else {
        assert(s.drop_last().take(k) =~= s.take(k));
        lemma_digits_value_grows(s.drop_last(), k);
        assert(is_digit(s.last()));
    }
}

/// Read a 16-bit number: an optional plus sign, then decimal digits.
pub fn parse_u16(chars: &[char]) -> (r: Option<u16>)
    ensures
        r == spelled_u16(chars@),
{
    let mut start: usize = 0;
    if chars.len() > 0 && chars[0] == '+' {
        start = 1;
    }
    let ghost digits = chars@.skip(start as int);
    assert(start == 0 ==> digits =~= chars@);
    if start == chars.len() {
        return None;
    }
    let mut value: u32 = 0;
    let mut i: usize = start;
    while i < chars.len()
        invariant
            start <= i <= chars@.len(),
            digits == chars@.skip(start as int),
            forall|j: int| 0 <= j < i - start ==> is_digit(#[trigger] digits[j]),
            value == digits_value(digits.take(i - start)),
            value <= u16::MAX,
            digits.len() > 0,
            digits == without_plus(chars@),
        decreases chars@.len() - i,
    {
        let c: char = chars[i];
        assert(c == digits[i - start]);
        if c < '0' || c > '9' {
            return None;
        }
        value = value * 10 + (c as u32 - '0' as u32);
        i = i + 1;
        assert(digits.take(i - start).drop_last() =~= digits.take(i - start - 1));
        if value > 65535 {
            proof {
                if all_digits(digits) {
                    lemma_digits_value_grows(digits, i - start);
                }
            }
            return None;
        }
    }
    assert(digits.take(digits.len() as int) =~= digits);
    Some(value as u16)
}

/// Write a number in decimal.
pub fn decimal(n: u32) -> (r: String)
    ensures
        r@ == decimal_text(n as nat),
    decreases n,
{
    let digit: char = ('0' as u8 + (n % 10) as u8) as char;
    if n < 10 {
        let mut out: String = String::new();
        out.push(digit);
        assert(out@ =~= decimal_text(n as nat));
        out
    } else {
        let mut out: String = decimal(n / 10);
        out.push(digit);
        out
    }
}

// ── Laws ───────────────────────────────────────────────────────────────

/// `s` is `word`, but for small letters that are written as capitals.
pub open spec fn in_any_case(s: Seq<char>, word: Seq<char>) -> bool {
    &&& s.len() == word.len()
    &&& forall|i: int|
        0 <= i < s.len() ==> #[trigger] s[i] == word[i] || ('a' <= word[i] <= 'z' && s[i] as int
            + 32 == word[i] as int)
}

/// The texts whose lowercase form is a given word without capitals are that
/// word in any letter case; they are all ASCII where it is.
pub proof fn law_lowercase_undoes_capitals(s: Seq<char>, word: Seq<char>)
    requires
        forall|i: int| 0 <= i < word.len() ==> !('A' <= #[trigger] word[i] <= 'Z'),
    ensures
        ascii_lower(s) == word <==> in_any_case(s, word),
        is_ascii_chars(word) && in_any_case(s, word) ==> is_ascii_chars(s),
{
    if ascii_lower(s) == word {
        assert forall|i: int| 0 <= i < s.len() implies #[trigger] s[i] == word[i] || ('a'
            <= word[i] <= 'z' && s[i] as int + 32 == word[i] as int) by {
            assert(ascii_lower(s)[i] == ascii_lower_char(s[i]));
        }
    }
    if in_any_case(s, word) {
        assert forall|i: int| 0 <= i < s.len() implies ascii_lower(s)[i] == #[trigger] word[i] by {
            assert(s[i] == s[i]);
            assert(ascii_lower(s)[i] == ascii_lower_char(s[i]));
        }
        assert(ascii_lower(s) =~= word);
    }
}

/// The contents of a list are those of its members, in order.
pub proof fn law_contents_of_lists(v: Seq<String>, w: Seq<Vec<char>>)
    ensures
        texts(v).len() == v.len(),
        forall|i: int| 0 <= i < v.len() ==> #[trigger] texts(v)[i] == v[i]@,
        rows(w).len() == w.len(),
        forall|i: int| 0 <= i < w.len() ==> #[trigger] rows(w)[i] == w[i]@,
{
}

/// A character is found at its first place: the one with none before it.
pub proof fn law_find(before: Seq<char>, c: char, after: Seq<char>)
    requires
        !before.contains(c),
    ensures
        find(before + seq![c] + after, c, 0) == before.len(),
        find(before, c, 0) == before.len(),
{
    let s = before + seq![c] + after;
    let n = before.len() as int;
    lemma_find(s, c, 0);
    lemma_find(before, c, 0);
    assert(s[n] == c);
    let i = find(s, c, 0);
    if i < n {
        assert(before[i] == s[i]);
    }
    let j = find(before, c, 0);
    if j < n {
        assert(before[j] == c);
    }
}

/// The first line of a text is what stands before its first line break, without
/// the carriage return of that break, and the other lines are those of what
/// stands behind it. A text without a line break is one line, unless it is
/// empty.
pub proof fn law_lines(line: Seq<char>, rest: Seq<char>)
    requires
        !line.contains('\n'),
    ensures
        line.len() == 0 ==> split_lines(line).len() == 0,
        line.len() > 0 ==> split_lines(line) == seq![line],
        !(line.len() > 0 && line.last() == '\r') ==> split_lines(line + seq!['\n'] + rest) == seq![
            line,
        ] + split_lines(rest),
        split_lines(line + seq!['\r', '\n'] + rest) == seq![line] + split_lines(rest),
{
    law_find(line, '\n', rest);
    let s = line + seq!['\n'] + rest;
    let n = line.len() as int;
    assert(s.take(n) =~= line);
    assert(s.skip(n + 1) =~= rest);
    let long = line.push('\r');
    assert(!long.contains('\n')) by {
        if long.contains('\n') {
            let i = choose|i: int| 0 <= i < long.len() && long[i] == '\n';
            assert(line[i] == '\n');
        }
    }
    law_find(long, '\n', rest);
    let t = line + seq!['\r', '\n'] + rest;
    assert(t =~= long + seq!['\n'] + rest);
    assert(t.take(n + 1) =~= long);
    assert(t.skip(n + 2) =~= rest);
    assert(strip_cr(long) =~= line);
}

/// White space is the characters that Unicode says it is: tab to carriage
/// return, the space, and the other spaces and separators, by their numbers.
pub proof fn law_white_space(c: char)
    ensures
        is_white_space(c) <==> ({
            let n = c as u32;
            ||| n == 9 || n == 10 || n == 11 || n == 12 || n == 13 || n == 32
            ||| n == 0x85 || n == 0xA0 || n == 0x1680
            ||| n == 0x2000 || n == 0x2001 || n == 0x2002 || n == 0x2003 || n == 0x2004 || n
                == 0x2005 || n == 0x2006 || n == 0x2007 || n == 0x2008 || n == 0x2009 || n == 0x200A
            ||| n == 0x2028 || n == 0x2029 || n == 0x202F || n == 0x205F || n == 0x3000
        }),
{
}

proof fn lemma_trim_front_skips(front: Seq<char>, rest: Seq<char>)
    requires
        forall|i: int| 0 <= i < front.len() ==> is_white_space(#[trigger] front[i]),
    ensures
        trim_front(front + rest) == trim_front(rest),
    decreases front.len(),
{
    if front.len() == 0 {
        assert(front + rest =~= rest);
    } else {
        assert(is_white_space(front[0]));
        assert((front + rest).skip(1) =~= front.skip(1) + rest);
        assert forall|i: int| 0 <= i < front.skip(1).len() implies is_white_space(
            #[trigger] front.skip(1)[i],
        ) by {
            assert(front.skip(1)[i] == front[i + 1]);
        }
        lemma_trim_front_skips(front.skip(1), rest);
    }
}

proof fn lemma_trim_back_skips(rest: Seq<char>, back: Seq<char>)
    requires
        forall|i: int| 0 <= i < back.len() ==> is_white_space(#[trigger] back[i]),
    ensures
        trim_back(rest + back) == trim_back(rest),
    decreases back.len(),
{
    if back.len() == 0 {
        assert(rest + back =~= rest);
    } else {
        assert(is_white_space(back[back.len() - 1]));
        assert((rest + back).last() == back.last());
        assert((rest + back).drop_last() =~= rest + back.drop_last());
        assert forall|i: int| 0 <= i < back.drop_last().len() implies is_white_space(
            #[trigger] back.drop_last()[i],
        ) by {
            assert(back.drop_last()[i] == back[i]);
        }
        lemma_trim_back_skips(rest, back.drop_last());
    }
}

/// Trimming takes away the white space around a text and nothing of the text.
pub proof fn law_trimming_undoes_padding(front: Seq<char>, word: Seq<char>, back: Seq<char>)
    requires
        forall|i: int| 0 <= i < front.len() ==> is_white_space(#[trigger] front[i]),
        forall|i: int| 0 <= i < back.len() ==> is_white_space(#[trigger] back[i]),
        word.len() > 0 ==> !is_white_space(word[0]) && !is_white_space(word.last()),
    ensures
        trimmed(front + word + back) == word,
{
    assert(front + word + back =~= front + (word + back));
    lemma_trim_front_skips(front, word + back);
    if word.len() == 0 {
        assert(word + back =~= back + Seq::<char>::empty());
        lemma_trim_front_skips(back, Seq::empty());
        assert(word =~= Seq::<char>::empty());
    } else {
        assert((word + back)[0] == word[0]);
        lemma_trim_back_skips(word, back);
    }
}

/// A text contains another where it is that text with something before and
/// behind it.
pub proof fn law_contains_text(s: Seq<char>, before: Seq<char>, needle: Seq<char>, after: Seq<char>)
    ensures
        contains_text(before + needle + after, needle),
        contains_text(s, needle) ==> exists|i: int|
            0 <= i && i + needle.len() <= s.len() && s == s.take(i) + needle + #[trigger] s.skip(
                i + needle.len(),
            ),
{
    let t = before + needle + after;
    let n = before.len() as int;
    assert(t.subrange(n, n + needle.len()) =~= needle);
    assert(occurs_at(t, needle, n));
    if contains_text(s, needle) {
        let i = choose|i: int| occurs_at(s, needle, i);
        assert(s =~= s.take(i) + needle + s.skip(i + needle.len()));
    }
}

/// A separator cuts a text at its first place, and what stands behind it is cut
/// again: the last piece is what holds no separator any more.
pub proof fn law_last_piece(before: Seq<char>, sep: Seq<char>, after: Seq<char>)
    requires
        sep.len() > 0,
    ensures
        !contains_text(before, sep) ==> last_piece(before, sep) == before,
        !contains_text((before + sep).drop_last(), sep) ==> last_piece(before + sep + after, sep)
            == last_piece(after, sep),
{
    lemma_find_text(before, sep, 0);
    let s = before + sep + after;
    let n = before.len() as int;
    lemma_find_text(s, sep, 0);
    assert(s.subrange(n, n + sep.len()) =~= sep);
    assert(occurs_at(s, sep, n));
    if !contains_text((before + sep).drop_last(), sep) {
        let head = (before + sep).drop_last();
        let k = find_text(s, sep, 0)->0;
        if k < n {
            assert(head.subrange(k, k + sep.len()) =~= s.subrange(k, k + sep.len()));
            assert(occurs_at(head, sep, k));
        }
        assert(s.skip(n + sep.len()) =~= after);
    }
    if !contains_text(before, sep) && find_text(before, sep, 0) is Some {
        assert(occurs_at(before, sep, find_text(before, sep, 0)->0));
    }
}

/// The ten digits.
pub open spec fn digit(d: int) -> char {
    seq!['0', '1', '2', '3', '4', '5', '6', '7', '8', '9'][d]
}

/// The decimal text of a number: a digit for a number below ten, and one digit
/// more for ten times as much and a rest.
pub proof fn law_decimal_text(n: nat, d: nat)
    requires
        d < 10,
    ensures
        decimal_text(d) == seq![digit(d as int)],
        n > 0 ==> decimal_text(10 * n + d) == decimal_text(n).push(digit(d as int)),
{
    assert((d + '0' as int) as char == digit(d as int));
    assert((10 * n + d) / 10 == n && (10 * n + d) % 10 == d);
}

proof fn lemma_digits_value_nonneg(s: Seq<char>)
    requires
        all_digits(s),
    ensures
        digits_value(s) >= 0,
{
    lemma_digits_value_grows(s, s.len() as int);
    assert(s.take(s.len() as int) =~= s);
}

/// A number is read digit by digit: one more digit makes it ten times as much
/// and that digit, as long as it fits 16 bits. A plus sign may stand in front of
/// the digits and nowhere else. What has no digits, or anything else in it, is
/// no number.
pub proof fn law_spelled_numbers(s: Seq<char>, c: char, d: int)
    requires
        0 <= d < 10,
    ensures
        spelled_u16(Seq::empty()) is None,
        spelled_u16(seq!['+']) is None,
        spelled_u16(seq![digit(d)]) == Some(d as u16),
        spelled_u16(seq!['+', digit(d)]) == Some(d as u16),
        (forall|k: int| 0 <= k < 10 ==> c != #[trigger] digit(k)) ==> spelled_u16(s.push(c)) is None,
        s.len() > 0 && s != seq!['+'] ==> spelled_u16(s.push(digit(d))) == (match spelled_u16(s) {
            Some(v) => if v * 10 + d <= 65535 {
                Some((v * 10 + d) as u16)
            } else {
                None
            },
            None => None,
        }),
{
    lemma_one_digit(d);
    assert(without_plus(seq!['+']) =~= Seq::<char>::empty());
    assert(without_plus(seq!['+', digit(d)]) =~= seq![digit(d)]);
    assert(without_plus(seq![digit(d)]) =~= seq![digit(d)]);
    if forall|k: int| 0 <= k < 10 ==> c != #[trigger] digit(k) {
        lemma_not_a_digit(c);
        let w = without_plus(s.push(c));
        if w.len() > 0 {
            assert(w[w.len() - 1] == c);
            assert(!all_digits(w));
        }
    }
    if s.len() > 0 && s != seq!['+'] {
        let w = without_plus(s);
        assert(w.len() > 0) by {
            if w.len() == 0 {
                assert(s =~= seq!['+']);
            }
        }
        assert(without_plus(s.push(digit(d))) =~= w.push(digit(d)));
        assert(w.push(digit(d)).drop_last() =~= w);
        assert(all_digits(w.push(digit(d))) <==> all_digits(w)) by {
            if all_digits(w.push(digit(d))) {
                assert forall|i: int| 0 <= i < w.len() implies is_digit(#[trigger] w[i]) by {
                    assert(w.push(digit(d))[i] == w[i]);
                }
            }
        }
        if all_digits(w) {
            lemma_digits_value_nonneg(w);
        }
    }
}

proof fn lemma_one_digit(d: int)
    requires
        0 <= d < 10,
    ensures
        is_digit(digit(d)),
        digit(d) as int - '0' as int == d,
        digit(d) != '+',
        digits_value(seq![digit(d)]) == d,
        all_digits(seq![digit(d)]),
{
    let s = seq![digit(d)];
    assert(s.drop_last() =~= Seq::<char>::empty());
    assert(digits_value(Seq::<char>::empty()) == 0);
}

proof fn lemma_not_a_digit(c: char)
    requires
        forall|k: int| 0 <= k < 10 ==> c != #[trigger] digit(k),
    ensures
        !is_digit(c),
{
    if is_digit(c) {
        let k = c as int - '0' as int;
        assert(c == digit(k));
    }
}

/// The decimal text of a 16-bit number is read back as that number, with or
/// without a plus sign.
pub proof fn law_decimal_round_trip(n: u16)
    ensures
        spelled_u16(decimal_text(n as nat)) == Some(n),
        spelled_u16(seq!['+'] + decimal_text(n as nat)) == Some(n),
    decreases n,
{
    let d = (n % 10) as int;
    law_decimal_text((n / 10) as nat, d as nat);
    if n < 10 {
        law_spelled_numbers(Seq::empty(), '0', d);
        assert(seq!['+'] + seq![digit(d)] =~= seq!['+', digit(d)]);
    } else {
        law_decimal_round_trip(n / 10);
        let t = decimal_text((n / 10) as nat);
        law_spelled_numbers(t, '0', d);
        law_spelled_numbers(seq!['+'] + t, '0', d);
        assert((seq!['+'] + t).push(digit(d)) =~= seq!['+'] + t.push(digit(d)));
        assert(t.len() > 0);
        assert(t != seq!['+']) by {
            law_spelled_numbers(Seq::empty(), '0', 0);
        }
        assert((seq!['+'] + t).len() > 1);
        assert(10 * (n / 10) + d == n);
    }
}

} // verus!
