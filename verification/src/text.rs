//! Text primitives shared by the line protocols: ASCII case folding,
//! prefix tests, slicing by characters and joining of lines.

use vstd::prelude::*;
use vstd::string::StrSliceExecFns;
use vstd::string::StringExecFns;

verus! {

/// The upper-case form of an ASCII letter; every other character is itself.
pub open spec fn ascii_upper(c: char) -> char {
    if 'a' <= c && c <= 'z' {
        ((c as u32) - 32) as char
    } else {
        c
    }
}

/// Two characters that differ at most in ASCII case.
pub open spec fn same_letter(a: char, b: char) -> bool {
    ascii_upper(a) == ascii_upper(b)
}

/// `a` and `b` have the same length and agree character by character up to
/// ASCII case.
pub open spec fn eq_ignore_case(a: Seq<char>, b: Seq<char>) -> bool {
    &&& a.len() == b.len()
    &&& forall|i: int| 0 <= i < b.len() ==> same_letter(#[trigger] a[i], b[i])
}

/// `s` begins with `prefix`, up to ASCII case.
pub open spec fn starts_with_ignore_case(s: Seq<char>, prefix: Seq<char>) -> bool {
    &&& prefix.len() <= s.len()
    &&& forall|i: int| 0 <= i < prefix.len() ==> same_letter(#[trigger] s[i], prefix[i])
}

/// `s` begins with `prefix`, character for character.
pub open spec fn starts_with(s: Seq<char>, prefix: Seq<char>) -> bool {
    &&& prefix.len() <= s.len()
    &&& forall|i: int| 0 <= i < prefix.len() ==> #[trigger] s[i] == prefix[i]
}

/// The parts joined by the separator between neighbours: no separator before
/// the first part and none after the last.
pub open spec fn join_with(parts: Seq<Seq<char>>, separator: Seq<char>) -> Seq<char>
    decreases parts.len(),
{
    if parts.len() == 0 {
        Seq::empty()
    } else if parts.len() == 1 {
        parts[0]
    } else {
        join_with(parts.drop_last(), separator) + separator + parts.last()
    }
}

/// The lines joined by a single line feed between neighbours.
pub open spec fn join_lines(lines: Seq<Seq<char>>) -> Seq<char> {
    join_with(lines, seq!['\n'])
}

/// Whether `line` holds no line feed.
pub open spec fn is_single_line(line: Seq<char>) -> bool {
    forall|i: int| 0 <= i < line.len() ==> #[trigger] line[i] != '\n'
}

/// The length of the longest suffix of `text` without a line feed.
pub open spec fn trailing_line_len(text: Seq<char>) -> nat
    decreases text.len(),
{
    if text.len() == 0 || text.last() == '\n' {
        0
    } else {
        1 + trailing_line_len(text.drop_last())
    }
}

/// The lines of `text`: what stands between its line feeds, in order. A text
/// without a line feed is one line, also where it is empty.
pub open spec fn split_lines(text: Seq<char>) -> Seq<Seq<char>>
    decreases text.len(),
    via split_lines_decreases
{
    let tail = trailing_line_len(text);
    if tail >= text.len() {
        seq![text]
    } else {
        split_lines(text.take(text.len() - tail - 1)).push(text.skip(text.len() - tail))
    }
}

#[via_fn]
proof fn split_lines_decreases(text: Seq<char>) {
}

/// After a line feed, a line without line feeds is the whole trailing line.
pub proof fn lemma_trailing_line(front: Seq<char>, line: Seq<char>)
    requires
        is_single_line(line),
    ensures
        trailing_line_len(front + seq!['\n'] + line) == line.len(),
        trailing_line_len(line) == line.len(),
    decreases line.len(),
{
    let text = front + seq!['\n'] + line;
    if line.len() == 0 {
        assert(text.last() == '\n');
    } else {
        let shorter = line.drop_last();
        assert(is_single_line(shorter)) by {
            assert forall|i: int| 0 <= i < shorter.len() implies #[trigger] shorter[i] != '\n' by {
                assert(shorter[i] == line[i]);
            }
        }
        lemma_trailing_line(front, shorter);
        assert(text.drop_last() =~= front + seq!['\n'] + shorter);
        assert(text.last() == line.last());
        assert(line.last() == line[line.len() - 1]);
    }
}

/// Joining and splitting are inverse to each other: at least one line, none
/// of them with a line feed in it, comes back from the joined text exactly
/// as it was.
pub proof fn lemma_split_join(lines: Seq<Seq<char>>)
    requires
        lines.len() > 0,
        forall|i: int| 0 <= i < lines.len() ==> is_single_line(#[trigger] lines[i]),
    ensures
        split_lines(join_lines(lines)) == lines,
    decreases lines.len(),
{
    let text = join_lines(lines);
    if lines.len() == 1 {
        lemma_trailing_line(Seq::empty(), lines[0]);
        assert(split_lines(text) =~= lines);
    } else {
        let front = lines.drop_last();
        let joined = join_lines(front);
        let last = lines.last();
        assert forall|i: int| 0 <= i < front.len() implies is_single_line(#[trigger] front[i]) by {
            assert(front[i] == lines[i]);
        }
        lemma_split_join(front);
        lemma_trailing_line(joined, last);
        assert(text == joined + seq!['\n'] + last);
        assert(text.take(text.len() - last.len() - 1) =~= joined);
        assert(text.skip(text.len() - last.len()) =~= last);
        assert(split_lines(text) == split_lines(joined).push(last));
        assert(front.push(last) =~= lines);
    }
}

/// Tests whether two characters differ at most in ASCII case.
pub fn is_same_letter(a: char, b: char) -> (same: bool)
    ensures
        same == same_letter(a, b),
{
    let x: u32 = a as u32;
    let y: u32 = b as u32;
    let fx: u32 = if 97 <= x && x <= 122 {
        x - 32
    } else {
        x
    };
    let fy: u32 = if 97 <= y && y <= 122 {
        y - 32
    } else {
        y
    };
    fx == fy
}

/// Tests whether `s` begins with `prefix`, ignoring ASCII case.
pub fn has_prefix_ignore_case(s: &str, prefix: &str) -> (found: bool)
    ensures
        found == starts_with_ignore_case(s@, prefix@),
{
    let n: usize = prefix.unicode_len();
    if s.unicode_len() < n {
        return false;
    }
    let mut i: usize = 0;
    while i < n
        invariant
            i <= n,
            n == prefix@.len(),
            n <= s@.len(),
            forall|j: int| 0 <= j < i ==> same_letter(#[trigger] s@[j], prefix@[j]),
        decreases n - i,
    {
        if !is_same_letter(s.get_char(i), prefix.get_char(i)) {
            return false;
        }
        i += 1;
    }
    true
}

/// Tests whether `s` is `other`, ignoring ASCII case.
pub fn equals_ignore_case(s: &str, other: &str) -> (same: bool)
    ensures
        same == eq_ignore_case(s@, other@),
{
    s.unicode_len() == other.unicode_len() && has_prefix_ignore_case(s, other)
}

/// Tests whether `s` begins with `prefix`, character for character.
pub fn has_prefix(s: &str, prefix: &str) -> (found: bool)
    ensures
        found == starts_with(s@, prefix@),
{
    let n: usize = prefix.unicode_len();
    if s.unicode_len() < n {
        return false;
    }
    let mut i: usize = 0;
    while i < n
        invariant
            i <= n,
            n == prefix@.len(),
            n <= s@.len(),
            forall|j: int| 0 <= j < i ==> #[trigger] s@[j] == prefix@[j],
        decreases n - i,
    {
        if s.get_char(i) != prefix.get_char(i) {
            return false;
        }
        i += 1;
    }
    true
}

/// Tests whether two strings hold the same characters.
pub fn equals(s: &str, other: &str) -> (same: bool)
    ensures
        same == (s@ == other@),
{
    let same: bool = s.unicode_len() == other.unicode_len() && has_prefix(s, other);
    proof {
        if same {
            assert(s@ =~= other@);
        }
    }
    same
}

/// The part of `s` from character `from` to the end.
pub fn tail_from(s: &str, from: usize) -> (tail: &str)
    requires
        from <= s@.len(),
    ensures
        tail@ == s@.skip(from as int),
{
    let n: usize = s.unicode_len();
    let tail: &str = s.substring_char(from, n);
    proof {
        assert(s@.subrange(from as int, n as int) =~= s@.skip(from as int));
    }
    tail
}

/// Joins the parts from index `from` on, with the separator between
/// neighbours.
pub fn join_from(parts: &Vec<String>, from: usize, separator: &str) -> (text: String)
    requires
        from <= parts.len(),
    ensures
        text@ == join_with(parts.deep_view().skip(from as int), separator@),
{
    let mut text: String = String::new();
    let mut i: usize = from;
    let ghost rest = parts.deep_view().skip(from as int);
    while i < parts.len()
        invariant
            from <= i <= parts.len(),
            rest == parts.deep_view().skip(from as int),
            text@ == join_with(rest.take(i - from), separator@),
        decreases parts.len() - i,
    {
        proof {
            let next = rest.take(i - from + 1);
            assert(next.drop_last() =~= rest.take(i - from));
            assert(next.last() == parts@[i as int]@);
            if i == from {
                assert(text@ + parts@[i as int]@ =~= parts@[i as int]@);
            }
        }
        if i > from {
            text.append(separator);
        }
        text.append(parts[i].as_str());
        i += 1;
    }
    proof {
        assert(rest.take(parts.len() - from) =~= rest);
    }
    text
}

/// Joins the lines with a line feed between neighbours.
pub fn join(lines: &Vec<String>) -> (text: String)
    ensures
        text@ == join_lines(lines.deep_view()),
{
    proof {
        reveal_strlit("\n");
        assert("\n"@ =~= seq!['\n']);
        assert(lines.deep_view().skip(0) =~= lines.deep_view());
    }
    join_from(lines, 0, "\n")
}

} // verus!
