//! Text as a sequence of characters: lines, surrounding white space,
//! prefixes and counts, each on a stretch `[from, to)` of one text.

use vstd::prelude::*;

verus! {

/// Whether `c` has the Unicode property `White_Space`.
pub uninterp spec fn white_space(c: char) -> bool;

/// `char::is_whitespace`: whether the character has the Unicode property
/// `White_Space`, which depends on the character alone.
pub assume_specification[ char::is_whitespace ](c: char) -> (yes: bool)
    ensures
        yes == white_space(c),
;

/// `String::push`: the character is appended to the end of the string.
pub assume_specification[ String::push ](text: &mut String, c: char)
    ensures
        final(text)@ == old(text)@.push(c),
;

/// The position of the first line feed of `s` at or behind `from`, or the
/// length of `s` where there is none.
pub open spec fn line_end(s: Seq<char>, from: int) -> int
    decreases s.len() - from,
{
    if from < 0 || from >= s.len() {
        s.len() as int
    } else if s[from] == '\n' {
        from
    } else {
        line_end(s, from + 1)
    }
}

/// A line without the carriage return that stood before its line feed.
pub open spec fn strip_cr(line: Seq<char>) -> Seq<char> {
    if line.len() > 0 && line.last() == '\r' {
        line.drop_last()
    } else {
        line
    }
}

/// The first line of `s` at `from`: up to the next line feed, without the
/// line ending, or up to the end of `s`.
pub open spec fn line_at(s: Seq<char>, from: int) -> Seq<char> {
    let end = line_end(s, from);
    if end < s.len() {
        strip_cr(s.subrange(from, end))
    } else {
        s.subrange(from, end)
    }
}

/// Where the line behind the one at `from` begins.
pub open spec fn next_line(s: Seq<char>, from: int) -> int {
    let end = line_end(s, from);
    if end < s.len() {
        end + 1
    } else {
        end
    }
}

/// The lines of `s` from `from` on. A line ends at a line feed, or at a
/// carriage return that a line feed follows; the ending is no part of the
/// line. The last line needs no ending, and an ending at the very end of
/// `s` begins no further line.
pub open spec fn lines_from(s: Seq<char>, from: int) -> Seq<Seq<char>>
    decreases s.len() - from,
    via lines_from_terminates
{
    if from < 0 || from >= s.len() {
        Seq::empty()
    } else {
        seq![line_at(s, from)] + lines_from(s, next_line(s, from))
    }
}

#[via_fn]
proof fn lines_from_terminates(s: Seq<char>, from: int) {
    if 0 <= from < s.len() {
        lemma_line_end(s, from);
    }
}

/// The lines of `s`.
pub open spec fn lines_of(s: Seq<char>) -> Seq<Seq<char>> {
    lines_from(s, 0)
}

/// `s` without the white space at its start.
pub open spec fn trim_start(s: Seq<char>) -> Seq<char>
    decreases s.len(),
{
    if s.len() > 0 && white_space(s[0]) {
        trim_start(s.drop_first())
    } else {
        s
    }
}

/// `s` without the white space at its end.
pub open spec fn trim_end(s: Seq<char>) -> Seq<char>
    decreases s.len(),
{
    if s.len() > 0 && white_space(s.last()) {
        trim_end(s.drop_last())
    } else {
        s
    }
}

/// `s` without the white space at its start and at its end.
pub open spec fn trimmed(s: Seq<char>) -> Seq<char> {
    trim_end(trim_start(s))
}

/// Whether `s` begins with `prefix`.
pub open spec fn starts_with(s: Seq<char>, prefix: Seq<char>) -> bool {
    prefix.len() <= s.len() && s.take(prefix.len() as int) == prefix
}

/// How often `c` occurs in `s`.
pub open spec fn count(s: Seq<char>, c: char) -> nat
    decreases s.len(),
{
    if s.len() == 0 {
        0
    } else {
        count(s.drop_last(), c) + if s.last() == c {
            1nat
        } else {
            0nat
        }
    }
}

/// The lines joined by single line feeds.
pub open spec fn join_lines(lines: Seq<Seq<char>>) -> Seq<char>
    decreases lines.len(),
{
    if lines.len() == 0 {
        Seq::empty()
    } else if lines.len() == 1 {
        lines[0]
    } else {
        join_lines(lines.drop_last()) + seq!['\n'] + lines.last()
    }
}

/// A line end lies at or behind where the search began, within the text.
pub proof fn lemma_line_end(s: Seq<char>, from: int)
    requires
        0 <= from <= s.len(),
    ensures
        from <= line_end(s, from) <= s.len(),
        line_end(s, from) < s.len() ==> s[line_end(s, from)] == '\n',
        forall|i: int| from <= i < line_end(s, from) ==> s[i] != '\n',
    decreases s.len() - from,
{
    if from < s.len() && s[from] != '\n' {
        lemma_line_end(s, from + 1);
    }
}

/// The characters of `text`, in order.
pub fn chars_of(text: &str) -> (chars: Vec<char>)
    ensures
        chars@ == text@,
{
    let mut chars: Vec<char> = Vec::new();
    for c in it: text.chars()
        invariant
            chars@ == it.seq().take(it.index()),
            it.seq() == text@,
    {
        chars.push(c);
    }
    chars
}

/// The string of the characters `chars`, in order.
pub fn string_of(chars: &Vec<char>) -> (text: String)
    ensures
        text@ == chars@,
{
    let mut text = String::new();
    let mut i: usize = 0;
    while i < chars.len()
        invariant
            0 <= i <= chars.len(),
            text@ == chars@.take(i as int),
        decreases chars.len() - i,
    {
        text.push(chars[i]);
        i += 1;
    }
    text
}

/// The position of the first line feed at or behind `from`, or the length
/// of the text.
pub(crate) fn find_line_end(text: &Vec<char>, from: usize) -> (end: usize)
    requires
        from <= text@.len(),
    ensures
        end == line_end(text@, from as int),
        from <= end <= text@.len(),
{
    let mut end = from;
    while end < text.len() && text[end] != '\n'
        invariant
            from <= end <= text.len(),
            line_end(text@, from as int) == line_end(text@, end as int),
        decreases text.len() - end,
    {
        end += 1;
    }
    end
}

/// The stretch of `[from, to)` that is left when the white space at both
/// of its ends is taken away.
pub(crate) fn trim_range(text: &Vec<char>, from: usize, to: usize) -> (kept: (usize, usize))
    requires
        from <= to <= text@.len(),
    ensures
        from <= kept.0 <= kept.1 <= to,
        text@.subrange(kept.0 as int, kept.1 as int) == trimmed(
            text@.subrange(from as int, to as int),
        ),
{
    let mut a = from;
    while a < to && text[a].is_whitespace()
        invariant
            from <= a <= to <= text.len(),
            trim_start(text@.subrange(from as int, to as int)) == trim_start(
                text@.subrange(a as int, to as int),
            ),
        decreases to - a,
    {
        assert(text@.subrange(a as int, to as int).drop_first() =~= text@.subrange(
            a + 1,
            to as int,
        ));
        a += 1;
    }
    let mut b = to;
    while a < b && text[b - 1].is_whitespace()
        invariant
            a <= b <= to <= text.len(),
            trim_end(text@.subrange(a as int, to as int)) == trim_end(
                text@.subrange(a as int, b as int),
            ),
        decreases b - a,
    {
        assert(text@.subrange(a as int, b as int).drop_last() =~= text@.subrange(
            a as int,
            b - 1,
        ));
        b -= 1;
    }
    (a, b)
}

/// Whether the stretch `[from, to)` begins with `prefix`.
pub(crate) fn range_starts_with(text: &Vec<char>, from: usize, to: usize, prefix: &Vec<char>) -> (yes: bool)
    requires
        from <= to <= text@.len(),
    ensures
        yes == starts_with(text@.subrange(from as int, to as int), prefix@),
{
    let ghost stretch = text@.subrange(from as int, to as int);
    if prefix.len() > to - from {
        return false;
    }
    let mut i: usize = 0;
    while i < prefix.len()
        invariant
            0 <= i <= prefix.len() <= to - from,
            from <= to <= text.len(),
            stretch == text@.subrange(from as int, to as int),
            forall|j: int| 0 <= j < i ==> stretch[j] == prefix@[j],
        decreases prefix.len() - i,
    {
        if text[from + i] != prefix[i] {
            return false;
        }
        i += 1;
    }
    assert(stretch.take(prefix@.len() as int) =~= prefix@);
    true
}

/// Whether the stretch `[from, to)` is exactly `other`.
pub(crate) fn range_is(text: &Vec<char>, from: usize, to: usize, other: &Vec<char>) -> (yes: bool)
    requires
        from <= to <= text@.len(),
    ensures
        yes == (text@.subrange(from as int, to as int) == other@),
{
    let ghost stretch = text@.subrange(from as int, to as int);
    if other.len() != to - from {
        return false;
    }
    let same = range_starts_with(text, from, to, other);
    assert(stretch.take(stretch.len() as int) =~= stretch);
    same
}

/// How often `c` occurs in the stretch `[from, to)`.
pub(crate) fn count_in(text: &Vec<char>, from: usize, to: usize, c: char) -> (n: usize)
    requires
        from <= to <= text@.len(),
    ensures
        n == count(text@.subrange(from as int, to as int), c),
        n <= to - from,
{
    let mut n: usize = 0;
    let mut i = from;
    assert(count(text@.subrange(from as int, from as int), c) == 0);
    while i < to
        invariant
            from <= i <= to <= text.len(),
            n == count(text@.subrange(from as int, i as int), c),
            n <= i - from,
        decreases to - i,
    {
        assert(text@.subrange(from as int, i + 1).drop_last() =~= text@.subrange(
            from as int,
            i as int,
        ));
        if text[i] == c {
            n += 1;
        }
        i += 1;
    }
    n
}

} // verus!
