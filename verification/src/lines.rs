//! Splitting a text into lines, in the way of `str::lines`.
//!
//! A line ends at a line feed, or at a carriage return directly followed by
//! one. The last line needs no line ending.

use vstd::prelude::*;

verus! {

/// The position of the first line feed in `s`, or `s.len()` if it has none.
pub open spec fn line_end(s: Seq<char>) -> int
    decreases s.len(),
{
    if s.len() == 0 || s[0] == '\n' {
        0
    } else {
        1 + line_end(s.drop_first())
    }
}

/// A terminated line without the carriage return that may precede its
/// line feed.
pub open spec fn without_cr(line: Seq<char>) -> Seq<char> {
    if line.len() > 0 && line.last() == '\r' {
        line.drop_last()
    } else {
        line
    }
}

/// The lines of `s`. A line ends at a line feed, or at a carriage return
/// directly followed by one; neither belongs to the line. The last line
/// needs no line ending, and the empty text has no line. A carriage return
/// that no line feed follows is part of its line.
pub open spec fn lines(s: Seq<char>) -> Seq<Seq<char>>
    decreases s.len(),
{
    let end = line_end(s);
    if s.len() == 0 {
        Seq::empty()
    } else if 0 <= end < s.len() {
        seq![without_cr(s.take(end))] + lines(s.skip(end + 1))
    } else {
        seq![s]
    }
}

/// The lines held by a list of character buffers.
pub open spec fn lines_view(found: Seq<Vec<char>>) -> Seq<Seq<char>> {
    found.map_values(|line: Vec<char>| line@)
}

/// The first line of `s` ends within `s`, before any line feed, and at one
/// unless `s` has none.
pub proof fn lemma_line_end_is_first(s: Seq<char>)
    ensures
        0 <= line_end(s) <= s.len(),
        forall|j: int| 0 <= j < line_end(s) ==> s[j] != '\n',
        line_end(s) < s.len() ==> s[line_end(s)] == '\n',
    decreases s.len(),
{
    if s.len() > 0 && s[0] != '\n' {
        let rest = s.drop_first();
        lemma_line_end_is_first(rest);
        assert forall|j: int| 0 <= j < line_end(s) implies s[j] != '\n' by {
            if j > 0 {
                assert(s[j] == rest[j - 1]);
            }
        }
    }
}

/// A position `end` that no line feed precedes, and that holds one unless
/// it is the end of `s`, is where the first line of `s` ends.
pub proof fn lemma_line_end(s: Seq<char>, end: int)
    requires
        0 <= end <= s.len(),
        forall|j: int| 0 <= j < end ==> s[j] != '\n',
        end < s.len() ==> s[end] == '\n',
    ensures
        line_end(s) == end,
    decreases end,
{
    if end > 0 {
        lemma_line_end(s.drop_first(), end - 1);
    }
}

/// The characters of `text`.
pub fn chars_of(text: &str) -> (chars: Vec<char>)
    ensures
        chars@ == text@,
{
    let mut chars: Vec<char> = Vec::new();
    for c in it: text.chars()
        invariant
            it.seq() == text@,
            chars@ == it.seq().take(it.index() as int),
    {
        chars.push(c);
    }
    chars
}

/// Splits `text` into its lines.
pub fn split_lines(text: &str) -> (found: Vec<Vec<char>>)
    ensures
        lines_view(found@) == lines(text@),
{
    let chars = chars_of(text);
    let mut found: Vec<Vec<char>> = Vec::new();
    let mut pos: usize = 0;
    assert(chars@.skip(0) =~= chars@);
    while pos < chars.len()
        invariant
            pos <= chars.len(),
            lines(chars@) == lines_view(found@) + lines(chars@.skip(pos as int)),
        decreases chars.len() - pos,
    {
        let ghost rest = chars@.skip(pos as int);
        let mut line: Vec<char> = Vec::new();
        let mut end: usize = pos;
        while end < chars.len() && chars[end] != '\n'
            invariant
                pos <= end <= chars.len(),
                line@ == chars@.subrange(pos as int, end as int),
                forall|j: int| pos <= j < end ==> chars[j] != '\n',
            decreases chars.len() - end,
        {
            line.push(chars[end]);
            end += 1;
        }
        proof {
            lemma_line_end(rest, end - pos);
        }
        if end < chars.len() {
            if line.len() > 0 && line[line.len() - 1] == '\r' {
                line.pop();
            }
            assert(line@ =~= without_cr(rest.take(end - pos)));
            assert(rest.skip(end - pos + 1) =~= chars@.skip(end + 1));
            pos = end + 1;
        } else {
            pos = end;
        }
        found.push(line);
    }
    found
}

/// No line holds a line feed.
pub proof fn lemma_lines_hold_no_line_feed(s: Seq<char>)
    ensures
        forall|i: int, j: int|
            0 <= i < lines(s).len() && 0 <= j < lines(s)[i].len() ==> lines(s)[i][j] != '\n',
    decreases s.len(),
{
    let end = line_end(s);
    lemma_line_end_is_first(s);
    if s.len() > 0 && end < s.len() {
        let rest = s.skip(end + 1);
        lemma_lines_hold_no_line_feed(rest);
        assert forall|i: int, j: int|
            0 <= i < lines(s).len() && 0 <= j < lines(s)[i].len() implies lines(s)[i][j]
            != '\n' by {
            if i > 0 {
                assert(lines(s)[i] == lines(rest)[i - 1]);
            }
        }
    }
}

} // verus!
