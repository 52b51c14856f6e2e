//! Text handling on sequences of characters: lines, substrings, whitespace
//! and words. Each spec function says what a piece of text is; each
//! executable function finds it as a span of positions in a slice.

use vstd::prelude::*;
use vstd::slice::slice_subrange;

verus! {

/// The characters of a string, in order.
pub fn to_chars(s: &str) -> (chars: Vec<char>)
    ensures
        chars@ == s@,
{
    let mut chars: Vec<char> = Vec::new();
    for c in it: s.chars()
        invariant
            chars@ == it.seq().take(it.index() as int),
    {
        chars.push(c);
    }
    chars
}

/// White space as Unicode defines it: the characters that separate words
/// and that trimming removes.
pub open spec fn is_whitespace(c: char) -> bool {
    let u = c as u32;
    ||| 0x09 <= u <= 0x0d
    ||| u == 0x20
    ||| u == 0x85
    ||| u == 0xa0
    ||| u == 0x1680
    ||| 0x2000 <= u <= 0x200a
    ||| u == 0x2028
    ||| u == 0x2029
    ||| u == 0x202f
    ||| u == 0x205f
    ||| u == 0x3000
}

/// Tells whether a character is white space.
pub fn char_is_whitespace(c: char) -> (white: bool)
    ensures
        white == is_whitespace(c),
{
    let u: u32 = c as u32;
    (0x09 <= u && u <= 0x0d) || u == 0x20 || u == 0x85 || u == 0xa0 || u == 0x1680 || (0x2000 <= u
        && u <= 0x200a) || u == 0x2028 || u == 0x2029 || u == 0x202f || u == 0x205f || u == 0x3000
}

/// A stretch of a text, from position `start` up to, not including, `end`.
#[derive(Clone, Copy, Debug, PartialEq, Eq, Structural)]
pub struct Span {
    pub start: usize,
    pub end: usize,
}

impl Span {
    /// The span lies within a text of the given length.
    pub open spec fn within(self, len: nat) -> bool {
        self.start <= self.end <= len
    }

    /// The characters of `text` that the span covers.
    pub open spec fn of(self, text: Seq<char>) -> Seq<char> {
        text.subrange(self.start as int, self.end as int)
    }

    /// The same span, seen from a text in which this one begins at `base`.
    pub open spec fn shifted(self, base: usize) -> Span {
        Span { start: (self.start + base) as usize, end: (self.end + base) as usize }
    }
}

/// A span of a span is a span of the whole.
pub proof fn lemma_span_of_span(text: Seq<char>, outer: Span, inner: Span)
    requires
        outer.within(text.len()),
        inner.within(outer.of(text).len()),
    ensures
        inner.shifted(outer.start).within(text.len()),
        inner.shifted(outer.start).end <= outer.end,
        inner.shifted(outer.start).of(text) == inner.of(outer.of(text)),
{
    assert(inner.shifted(outer.start).of(text) =~= inner.of(outer.of(text)));
}

/// The slice that a span covers.
pub(crate) fn slice_of<'a>(text: &'a [char], span: Span) -> (part: &'a [char])
    requires
        span.within(text@.len()),
    ensures
        part@ == span.of(text@),
{
    slice_subrange(text, span.start, span.end)
}

/// Moves a span of a part of a text to the whole text, `outer` being the
/// span of the part.
pub(crate) fn shift(outer: Span, inner: Span, Ghost(text): Ghost<Seq<char>>) -> (span: Span)
    requires
        outer.within(text.len()),
        inner.within(outer.of(text).len()),
    ensures
        span == inner.shifted(outer.start),
        span.within(text.len()),
        span.of(text) == inner.of(outer.of(text)),
{
    proof {
        lemma_span_of_span(text, outer, inner);
    }
    Span { start: inner.start + outer.start, end: inner.end + outer.start }
}

/// Number of characters before the first line feed, or the length of the
/// text if it holds none.
pub open spec fn line_len(text: Seq<char>) -> nat
    decreases text.len(),
{
    if text.len() == 0 || text[0] == '\n' {
        0
    } else {
        1 + line_len(text.drop_first())
    }
}

/// A line without the carriage return that may end it.
pub open spec fn strip_cr(line: Seq<char>) -> Seq<char> {
    if line.len() > 0 && line.last() == '\r' {
        line.drop_last()
    } else {
        line
    }
}

/// The lines of a text. A line ends at a line feed, or at a carriage return
/// directly followed by one; neither belongs to the line. What follows the
/// last line feed is a line of its own unless it is empty, and it is taken
/// as it stands.
pub open spec fn lines(text: Seq<char>) -> Seq<Seq<char>>
    decreases text.len(),
{
    let len = line_len(text);
    if text.len() == 0 {
        Seq::empty()
    } else if len >= text.len() {
        seq![text]
    } else {
        seq![strip_cr(text.take(len as int))] + lines(text.skip(len as int + 1))
    }
}

/// `line_len` is the position of the first line feed.
pub proof fn lemma_line_len(text: Seq<char>, end: int)
    requires
        0 <= end <= text.len(),
        forall|i: int| 0 <= i < end ==> text[i] != '\n',
        end == text.len() || text[end] == '\n',
    ensures
        line_len(text) == end,
    decreases end,
{
    if end > 0 {
        let rest = text.drop_first();
        assert forall|i: int| 0 <= i < end - 1 implies rest[i] != '\n' by {
            assert(rest[i] == text[i + 1]);
        }
        lemma_line_len(rest, end - 1);
    }
}

/// The pieces of a text that a sequence of spans covers.
pub open spec fn spans_of(text: Seq<char>, spans: Seq<Span>) -> Seq<Seq<char>> {
    Seq::new(spans.len(), |k: int| spans[k].of(text))
}

/// Every span lies within a text of the given length.
pub open spec fn all_within(spans: Seq<Span>, len: nat) -> bool {
    forall|k: int| 0 <= k < spans.len() ==> (#[trigger] spans[k]).within(len)
}

/// Finds the lines of a text.
pub(crate) fn line_spans(text: &[char]) -> (spans: Vec<Span>)
    ensures
        all_within(spans@, text@.len()),
        spans_of(text@, spans@) == lines(text@),
{
    let mut spans: Vec<Span> = Vec::new();
    let mut pos: usize = 0;
    assert(text@.skip(0) =~= text@);
    assert(spans_of(text@, spans@) + lines(text@) =~= lines(text@));
    while pos < text.len()
        invariant
            pos <= text@.len(),
            all_within(spans@, text@.len()),
            spans_of(text@, spans@) + lines(text@.skip(pos as int)) == lines(text@),
        decreases text@.len() - pos,
    {
        let ghost rest = text@.skip(pos as int);
        let ghost before = spans@;
        let mut end: usize = pos;
        while end < text.len() && text[end] != '\n'
            invariant
                pos <= end <= text@.len(),
                forall|i: int| pos <= i < end ==> text@[i] != '\n',
            decreases text@.len() - end,
        {
            end += 1;
        }
        proof {
            assert forall|i: int| 0 <= i < end - pos implies rest[i] != '\n' by {
                assert(rest[i] == text@[pos + i]);
            }
            lemma_line_len(rest, end - pos);
        }
        if end == text.len() {
            let span = Span { start: pos, end };
            spans.push(span);
            proof {
                assert(span.of(text@) =~= rest);
                assert(lines(rest) =~= seq![rest]);
                assert(lines(text@.skip(end as int)) =~= Seq::<Seq<char>>::empty());
                assert(spans_of(text@, spans@) =~= spans_of(text@, before) + lines(rest));
            }
            pos = end;
        } else {
            let stop = if end > pos && text[end - 1] == '\r' {
                end - 1
            } else {
                end
            };
            let span = Span { start: pos, end: stop };
            spans.push(span);
            proof {
                let raw = rest.take(end - pos);
                assert(raw =~= text@.subrange(pos as int, end as int));
                assert(span.of(text@) =~= strip_cr(raw));
                assert(rest.skip(end - pos + 1) =~= text@.skip(end + 1));
                assert(lines(rest) == seq![strip_cr(raw)] + lines(text@.skip(end + 1)));
                assert(spans_of(text@, spans@) =~= spans_of(text@, before) + seq![strip_cr(raw)]);
                assert(spans_of(text@, spans@) + lines(text@.skip(end + 1)) =~= spans_of(
                    text@,
                    before,
                ) + lines(rest));
            }
            pos = end + 1;
        }
    }
    assert(lines(text@.skip(pos as int)) =~= Seq::<Seq<char>>::empty());
    assert(spans_of(text@, spans@) + Seq::<Seq<char>>::empty() =~= spans_of(text@, spans@));
    spans
}

/// `needle` stands in `hay` at position `at`.
pub open spec fn occurs_at(hay: Seq<char>, needle: Seq<char>, at: int) -> bool {
    &&& 0 <= at
    &&& at + needle.len() <= hay.len()
    &&& hay.subrange(at, at + needle.len()) == needle
}

/// `needle` stands somewhere in `hay`. The empty text stands everywhere.
pub open spec fn contains(hay: Seq<char>, needle: Seq<char>) -> bool {
    exists|at: int| occurs_at(hay, needle, at)
}

/// The first position at or after `from` at which `needle` stands in `hay`.
pub open spec fn find(hay: Seq<char>, needle: Seq<char>, from: int) -> Option<int>
    decreases hay.len() - from,
{
    if from < 0 || from + needle.len() > hay.len() {
        None
    } else if occurs_at(hay, needle, from) {
        Some(from)
    } else if from + needle.len() == hay.len() {
        None
    } else {
        find(hay, needle, from + 1)
    }
}

/// `find` gives the first occurrence, and none only where there is none.
pub proof fn lemma_find(hay: Seq<char>, needle: Seq<char>, from: int)
    requires
        0 <= from,
    ensures
        match find(hay, needle, from) {
            Some(at) => from <= at && occurs_at(hay, needle, at) && forall|b: int|
                from <= b < at ==> !occurs_at(hay, needle, b),
            None => forall|b: int| from <= b ==> !occurs_at(hay, needle, b),
        },
    decreases hay.len() - from,
{
    if from + needle.len() > hay.len() {
    } else if occurs_at(hay, needle, from) {
    } else if from + needle.len() == hay.len() {
    } else {
        lemma_find(hay, needle, from + 1);
    }
}

/// A text contains another exactly if `find` finds it from the start.
pub proof fn lemma_contains_is_find(hay: Seq<char>, needle: Seq<char>)
    ensures
        contains(hay, needle) == (find(hay, needle, 0) is Some),
{
    lemma_find(hay, needle, 0);
    if contains(hay, needle) {
        let at = choose|at: int| occurs_at(hay, needle, at);
        assert(occurs_at(hay, needle, at));
    }
}

/// Tells whether `needle` stands in `hay` at position `at`.
pub fn matches_at(hay: &[char], needle: &[char], at: usize) -> (found: bool)
    requires
        at + needle@.len() <= hay@.len(),
    ensures
        found == occurs_at(hay@, needle@, at as int),
{
    let len = hay.len();
    let mut i: usize = 0;
    while i < needle.len()
        invariant
            i <= needle@.len(),
            at + needle@.len() <= hay@.len() == len,
            forall|k: int| 0 <= k < i ==> hay@[at + k] == needle@[k],
        decreases needle@.len() - i,
    {
        if hay[at + i] != needle[i] {
            proof {
                let part = hay@.subrange(at as int, at + needle@.len());
                assert(part[i as int] == hay@[at + i]);
            }
            return false;
        }
        i += 1;
    }
    assert(hay@.subrange(at as int, at + needle@.len()) =~= needle@);
    true
}

/// Finds the first position at or after `from` at which `needle` stands in
/// `hay`.
pub fn find_from(hay: &[char], needle: &[char], from: usize) -> (found: Option<usize>)
    ensures
        match found {
            Some(at) => find(hay@, needle@, from as int) == Some(at as int) && at + needle@.len()
                <= hay@.len() && from <= at,
            None => find(hay@, needle@, from as int) is None,
        },
{
    if needle.len() > hay.len() || from > hay.len() - needle.len() {
        return None;
    }
    let last: usize = hay.len() - needle.len();
    let mut at: usize = from;
    loop
        invariant
            from <= at <= last,
            last == hay@.len() - needle@.len(),
            find(hay@, needle@, from as int) == find(hay@, needle@, at as int),
        decreases last - at,
    {
        if matches_at(hay, needle, at) {
            return Some(at);
        }
        if at == last {
            return None;
        }
        at += 1;
    }
}

/// Tells whether `needle` stands somewhere in `hay`.
pub fn contains_text(hay: &[char], needle: &[char]) -> (found: bool)
    ensures
        found == contains(hay@, needle@),
{
    proof {
        lemma_contains_is_find(hay@, needle@);
    }
    find_from(hay, needle, 0).is_some()
}

/// The second of the pieces into which the separator splits a line: what
/// stands between its first occurrence and the next one that does not
/// overlap it, or the end of the line. A line without the separator has no
/// second piece, which counts as empty.
pub open spec fn second_field(line: Seq<char>, separator: Seq<char>) -> Seq<char> {
    match find(line, separator, 0) {
        None => Seq::empty(),
        Some(first) => {
            let start = first + separator.len();
            match find(line, separator, start) {
                None => line.skip(start),
                Some(next) => line.subrange(start, next),
            }
        },
    }
}

/// Finds the second of the pieces into which the separator splits a line.
pub(crate) fn second_field_span(line: &[char], separator: &[char]) -> (span: Span)
    ensures
        span.within(line@.len()),
        span.of(line@) == second_field(line@, separator@),
{
    let len = line.len();
    match find_from(line, separator, 0) {
        None => {
            let span = Span { start: 0, end: 0 };
            assert(span.of(line@) =~= Seq::<char>::empty());
            span
        },
        Some(first) => {
            let start = first + separator.len();
            proof {
                lemma_find(line@, separator@, start as int);
            }
            match find_from(line, separator, start) {
                None => {
                    let span = Span { start, end: len };
                    assert(span.of(line@) =~= line@.skip(start as int));
                    span
                },
                Some(next) => Span { start, end: next },
            }
        },
    }
}

/// A text without the white space that it begins with.
pub open spec fn trim_start(text: Seq<char>) -> Seq<char>
    decreases text.len(),
{
    if text.len() > 0 && is_whitespace(text[0]) {
        trim_start(text.drop_first())
    } else {
        text
    }
}

/// A text without the white space that it ends with.
pub open spec fn trim_end(text: Seq<char>) -> Seq<char>
    decreases text.len(),
{
    if text.len() > 0 && is_whitespace(text.last()) {
        trim_end(text.drop_last())
    } else {
        text
    }
}

/// A text without the white space around it.
pub open spec fn trim(text: Seq<char>) -> Seq<char> {
    trim_end(trim_start(text))
}

/// Finds the position at which the white space that begins at `from` ends.
pub fn skip_whitespace(text: &[char], from: usize) -> (at: usize)
    requires
        from <= text@.len(),
    ensures
        from <= at <= text@.len(),
        trim_start(text@.skip(from as int)) == text@.skip(at as int),
{
    let mut at: usize = from;
    while at < text.len() && char_is_whitespace(text[at])
        invariant
            from <= at <= text@.len(),
            trim_start(text@.skip(from as int)) == trim_start(text@.skip(at as int)),
        decreases text@.len() - at,
    {
        proof {
            assert(text@.skip(at as int).drop_first() =~= text@.skip(at + 1));
        }
        at += 1;
    }
    at
}

/// Finds a text without the white space around it.
pub(crate) fn trim_span(text: &[char]) -> (span: Span)
    ensures
        span.within(text@.len()),
        span.of(text@) == trim(text@),
{
    assert(text@.skip(0) =~= text@);
    let start = skip_whitespace(text, 0);
    let mut end: usize = text.len();
    assert(text@.subrange(start as int, end as int) =~= text@.skip(start as int));
    while end > start && char_is_whitespace(text[end - 1])
        invariant
            start <= end <= text@.len(),
            trim(text@) == trim_end(text@.subrange(start as int, end as int)),
        decreases end,
    {
        proof {
            assert(text@.subrange(start as int, end as int).drop_last() =~= text@.subrange(
                start as int,
                end - 1,
            ));
        }
        end -= 1;
    }
    Span { start, end }
}

/// Number of characters before the first white space of a text.
pub open spec fn word_len(text: Seq<char>) -> nat
    decreases text.len(),
{
    if text.len() > 0 && !is_whitespace(text[0]) {
        1 + word_len(text.drop_first())
    } else {
        0
    }
}

/// The word of the given index among the words of a text, counting from 0.
/// Words are the stretches without white space, separated by any amount of
/// white space.
pub open spec fn nth_word(text: Seq<char>, n: nat) -> Option<Seq<char>>
    decreases n,
{
    let rest = trim_start(text);
    let len = word_len(rest) as int;
    if rest.len() == 0 {
        None
    } else if n == 0 {
        Some(rest.take(len))
    } else {
        nth_word(rest.skip(len), (n - 1) as nat)
    }
}

/// Finds the position at which the word that begins at `from` ends.
pub fn skip_word(text: &[char], from: usize) -> (at: usize)
    requires
        from <= text@.len(),
    ensures
        from <= at <= text@.len(),
        at - from == word_len(text@.skip(from as int)),
{
    let mut at: usize = from;
    while at < text.len() && !char_is_whitespace(text[at])
        invariant
            from <= at <= text@.len(),
            word_len(text@.skip(from as int)) == (at - from) + word_len(text@.skip(at as int)),
        decreases text@.len() - at,
    {
        proof {
            assert(text@.skip(at as int).drop_first() =~= text@.skip(at + 1));
        }
        at += 1;
    }
    at
}

/// Finds the word of the given index among the words of a text.
pub(crate) fn nth_word_span(text: &[char], n: usize) -> (found: Option<Span>)
    ensures
        match found {
            Some(span) => span.within(text@.len()) && nth_word(text@, n as nat) == Some(
                span.of(text@),
            ),
            None => nth_word(text@, n as nat) is None,
        },
{
    let mut pos: usize = 0;
    let mut left: usize = n;
    assert(text@.skip(0) =~= text@);
    loop
        invariant
            pos <= text@.len(),
            nth_word(text@, n as nat) == nth_word(text@.skip(pos as int), left as nat),
        decreases left,
    {
        let start = skip_whitespace(text, pos);
        if start == text.len() {
            return None;
        }
        let end = skip_word(text, start);
        proof {
            let rest = text@.skip(start as int);
            assert(rest.take(end - start) =~= text@.subrange(start as int, end as int));
            assert(rest.skip(end - start) =~= text@.skip(end as int));
        }
        if left == 0 {
            return Some(Span { start, end });
        }
        left -= 1;
        pos = end;
    }
}

/// A text without the run of one character that it ends with.
pub open spec fn strip_trailing(text: Seq<char>, c: char) -> Seq<char>
    decreases text.len(),
{
    if text.len() > 0 && text.last() == c {
        strip_trailing(text.drop_last(), c)
    } else {
        text
    }
}

/// Finds the length of a text without the run of `c` that it ends with.
pub fn strip_trailing_len(text: &[char], c: char) -> (len: usize)
    ensures
        len <= text@.len(),
        text@.take(len as int) == strip_trailing(text@, c),
{
    let mut len: usize = text.len();
    assert(text@.take(len as int) =~= text@);
    while len > 0 && text[len - 1] == c
        invariant
            len <= text@.len(),
            strip_trailing(text@, c) == strip_trailing(text@.take(len as int), c),
        decreases len,
    {
        proof {
            assert(text@.take(len as int).drop_last() =~= text@.take(len - 1));
        }
        len -= 1;
    }
    len
}

/// The text begins with `prefix`.
pub open spec fn starts_with(text: Seq<char>, prefix: Seq<char>) -> bool {
    occurs_at(text, prefix, 0)
}

/// The value of a decimal digit, if the character is one.
pub open spec fn digit_value(c: char) -> Option<int> {
    if '0' <= c <= '9' {
        Some(c as int - '0' as int)
    } else {
        None
    }
}

/// Every character is a decimal digit.
pub open spec fn all_digits(text: Seq<char>) -> bool {
    forall|i: int| 0 <= i < text.len() ==> digit_value(#[trigger] text[i]) is Some
}

/// The number that a run of decimal digits writes.
pub open spec fn decimal_value(digits: Seq<char>) -> int
    decreases digits.len(),
{
    if digits.len() == 0 {
        0
    } else {
        decimal_value(digits.drop_last()) * 10 + digit_value(digits.last()).unwrap_or(0)
    }
}

/// The number that a text writes in decimal: an optional sign, where
/// `signed` admits `-` beside `+`, and then one digit at least. Anything
/// else writes no number.
pub open spec fn parse_decimal(text: Seq<char>, signed: bool) -> Option<int> {
    let has_sign = text.len() > 0 && (text[0] == '+' || (signed && text[0] == '-'));
    let digits = if has_sign {
        text.drop_first()
    } else {
        text
    };
    if digits.len() == 0 || !all_digits(digits) {
        None
    } else if has_sign && text[0] == '-' {
        Some(-decimal_value(digits))
    } else {
        Some(decimal_value(digits))
    }
}

/// The number that a text writes, if it is one that eight bits hold without
/// a sign.
pub open spec fn parse_u8(text: Seq<char>) -> Option<u8> {
    match parse_decimal(text, false) {
        Some(value) => if value <= u8::MAX {
            Some(value as u8)
        } else {
            None
        },
        None => None,
    }
}

/// The number that a text writes, if it is one that thirty-two bits hold
/// with a sign.
pub open spec fn parse_i32(text: Seq<char>) -> Option<i32> {
    match parse_decimal(text, true) {
        Some(value) => if i32::MIN <= value <= i32::MAX {
            Some(value as i32)
        } else {
            None
        },
        None => None,
    }
}

/// No run of digits writes a negative number, and a number never falls
/// when a digit is appended.
pub proof fn lemma_decimal_value_nonnegative(digits: Seq<char>)
    ensures
        0 <= decimal_value(digits),
        digits.len() > 0 ==> decimal_value(digits.drop_last()) <= decimal_value(digits),
    decreases digits.len(),
{
    if digits.len() > 0 {
        lemma_decimal_value_nonnegative(digits.drop_last());
    }
}

/// Reads the number that a run of digits writes, as long as it does not
/// exceed `limit`. The result is `None` where a character is no digit, where
/// there is no digit at all, and where the number exceeds the limit.
pub fn read_digits(digits: &[char], limit: u64) -> (value: Option<u64>)
    requires
        limit <= u32::MAX,
    ensures
        match value {
            Some(v) => digits@.len() > 0 && all_digits(digits@) && decimal_value(digits@) == v
                && v <= limit,
            None => digits@.len() == 0 || !all_digits(digits@) || decimal_value(digits@) > limit,
        },
{
    if digits.len() == 0 {
        return None;
    }
    let mut value: u64 = 0;
    let mut exceeded = false;
    let mut i: usize = 0;
    assert(digits@.take(0) =~= Seq::<char>::empty());
    while i < digits.len()
        invariant
            i <= digits@.len(),
            limit <= u32::MAX,
            all_digits(digits@.take(i as int)),
            exceeded ==> decimal_value(digits@.take(i as int)) > limit,
            !exceeded ==> decimal_value(digits@.take(i as int)) == value && value <= limit,
        decreases digits@.len() - i,
    {
        let c = digits[i];
        let ghost before = digits@.take(i as int);
        let ghost after = digits@.take(i + 1);
        proof {
            assert(after.drop_last() =~= before);
            assert(after.last() == c);
            lemma_decimal_value_nonnegative(after);
        }
        if c < '0' || c > '9' {
            proof {
                assert(digit_value(digits@[i as int]) is None);
            }
            return None;
        }
        let d: u64 = (c as u32 - '0' as u32) as u64;
        if !exceeded {
            let next: u64 = value * 10 + d;
            if next > limit {
                exceeded = true;
            } else {
                value = next;
            }
        }
        proof {
            assert forall|k: int| 0 <= k < after.len() implies digit_value(
                #[trigger] after[k],
            ) is Some by {
                if k < i {
                    assert(before[k] == after[k]);
                }
            }
        }
        i += 1;
    }
    assert(digits@.take(i as int) =~= digits@);
    if exceeded {
        None
    } else {
        Some(value)
    }
}

/// Reads the number that a text writes, without a sign, if eight bits hold
/// it.
pub fn read_u8(text: &[char]) -> (value: Option<u8>)
    ensures
        value == parse_u8(text@),
{
    let signed = text.len() > 0 && text[0] == '+';
    let digits = if signed {
        slice_subrange(text, 1, text.len())
    } else {
        text
    };
    assert(signed ==> digits@ =~= text@.drop_first());
    match read_digits(digits, 255) {
        Some(v) => Some(v as u8),
        None => None,
    }
}

/// Reads the number that a text writes, with or without a sign, if
/// thirty-two bits hold it.
pub fn read_i32(text: &[char]) -> (value: Option<i32>)
    ensures
        value == parse_i32(text@),
{
    let negative = text.len() > 0 && text[0] == '-';
    let signed = negative || (text.len() > 0 && text[0] == '+');
    let digits = if signed {
        slice_subrange(text, 1, text.len())
    } else {
        text
    };
    assert(signed ==> digits@ =~= text@.drop_first());
    if negative {
        match read_digits(digits, 2147483648) {
            Some(v) => Some((0 - v as i64) as i32),
            None => None,
        }
    } else {
        match read_digits(digits, 2147483647) {
            Some(v) => Some(v as i32),
            None => None,
        }
    }
}

} // verus!
