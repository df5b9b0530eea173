//! Words of a text: splitting at white space, and counting how often each
//! word occurs.

use vstd::hash_map::StringHashMap;
use vstd::prelude::*;

verus! {

/// Whether `char::is_whitespace` holds of a character: whether Unicode
/// counts it as white space.
pub uninterp spec fn is_white_space(c: char) -> bool;

/// What `str::to_lowercase` makes of a string: its lower-case form by the
/// rules of Unicode.
pub uninterp spec fn lowercase_of(s: Seq<char>) -> Seq<char>;

/// Calls `char::is_whitespace`. The result is what `is_white_space` names.
#[verifier::external_body]
fn is_whitespace(c: char) -> (white: bool)
    ensures
        white == is_white_space(c),
{
    c.is_whitespace()
}

/// Calls `str::to_lowercase`. The result is the string that `lowercase_of`
/// names.
#[verifier::external_body]
pub(crate) fn to_lowercase(s: &str) -> (lower: String)
    ensures
        lower@ == lowercase_of(s@),
{
    s.to_lowercase()
}

/// Calls `String::push`, which appends one character.
#[verifier::external_body]
fn push_char(s: &mut String, c: char)
    ensures
        final(s)@ == old(s)@.push(c),
{
    s.push(c)
}

/// The number of marks at the end of `breaks` that are not set: the length
/// of the word that a text ends with.
pub open spec fn trailing_word_len(breaks: Seq<bool>) -> nat
    decreases breaks.len(),
{
    if breaks.len() == 0 || breaks.last() {
        0
    } else {
        1 + trailing_word_len(breaks.drop_last())
    }
}

/// The words of `text`, where `breaks` marks for each character whether it
/// separates words: the longest stretches of characters that are not marked,
/// in order. A mark at the end belongs to no word; otherwise the last word is
/// the longest unmarked suffix, and the words before it are the words of
/// what precedes it.
pub open spec fn words_where(text: Seq<char>, breaks: Seq<bool>) -> Seq<Seq<char>>
    recommends
        text.len() == breaks.len(),
    decreases breaks.len(),
    via words_where_decreases
{
    if breaks.len() == 0 {
        Seq::empty()
    } else if breaks.last() {
        words_where(text.take(breaks.len() - 1), breaks.drop_last())
    } else {
        let start = breaks.len() - trailing_word_len(breaks);
        words_where(text.take(start), breaks.take(start)).push(
            text.subrange(start, breaks.len() as int),
        )
    }
}

#[via_fn]
proof fn words_where_decreases(text: Seq<char>, breaks: Seq<bool>) {
    lemma_trailing_word_fits(breaks);
}

/// For each character of `text`, whether it is white space.
pub open spec fn white_space_in(text: Seq<char>) -> Seq<bool> {
    text.map_values(|c: char| is_white_space(c))
}

/// The words of `text`, in order: its longest stretches without white space.
pub open spec fn words_of(text: Seq<char>) -> Seq<Seq<char>> {
    words_where(text, white_space_in(text))
}

/// The trailing word is part of the text.
pub proof fn lemma_trailing_word_fits(breaks: Seq<bool>)
    ensures
        trailing_word_len(breaks) <= breaks.len(),
    decreases breaks.len(),
{
    if breaks.len() > 0 && !breaks.last() {
        lemma_trailing_word_fits(breaks.drop_last());
    }
}

/// A text has at most as many words as characters, and none of its words is
/// empty.
pub proof fn lemma_words_where(text: Seq<char>, breaks: Seq<bool>)
    requires
        text.len() == breaks.len(),
    ensures
        words_where(text, breaks).len() <= text.len(),
        forall|i: int|
            0 <= i < words_where(text, breaks).len() ==> (#[trigger] words_where(
                text,
                breaks,
            )[i]).len() > 0,
    decreases breaks.len(),
{
    lemma_trailing_word_fits(breaks);
    if breaks.len() == 0 {
    } else if breaks.last() {
        lemma_words_where(text.take(breaks.len() - 1), breaks.drop_last());
    } else {
        let start = breaks.len() - trailing_word_len(breaks);
        lemma_words_where(text.take(start), breaks.take(start));
    }
}

/// How often `word` occurs among `words`.
pub open spec fn occurrences(words: Seq<Seq<char>>, word: Seq<char>) -> nat
    decreases words.len(),
{
    if words.len() == 0 {
        0
    } else {
        occurrences(words.drop_last(), word) + if words.last() == word {
            1nat
        } else {
            0nat
        }
    }
}

/// A word occurs at most as often as there are words.
pub proof fn lemma_occurrences_bounded(words: Seq<Seq<char>>, word: Seq<char>)
    ensures
        occurrences(words, word) <= words.len(),
    decreases words.len(),
{
    if words.len() > 0 {
        lemma_occurrences_bounded(words.drop_last(), word);
    }
}

/// The lower-case forms of `words`, in order.
pub open spec fn lowered(words: Seq<Seq<char>>) -> Seq<Seq<char>> {
    words.map_values(|word: Seq<char>| lowercase_of(word))
}

/// How often each word occurs in `words`: a word is a key exactly when it
/// occurs, and its value is the number of its occurrences.
pub open spec fn tally_of(words: Seq<Seq<char>>) -> Map<Seq<char>, u32> {
    Map::new(
        |word: Seq<char>| occurrences(words, word) > 0,
        |word: Seq<char>| occurrences(words, word) as u32,
    )
}

/// Splits `text` into its words, given for each of its characters whether it
/// separates words.
pub fn split_marked(text: &str, breaks: &[bool]) -> (words: Vec<String>)
    requires
        breaks@.len() == text@.len(),
    ensures
        words.deep_view() == words_where(text@, breaks@),
{
    let mut words: Vec<String> = Vec::new();
    let mut current: String = String::new();
    let mut n: usize = 0;
    let ghost all = text@;
    let ghost marks = breaks@;
    for c in it: text.chars()
        invariant
            it.seq() == all,
            marks == breaks@,
            marks.len() == all.len(),
            n == it.index(),
            current@.len() <= n,
            current@ == all.subrange(n - current@.len(), n as int),
            trailing_word_len(marks.take(n as int)) == current@.len(),
            words.deep_view() == words_where(
                all.take(n - current@.len()),
                marks.take(n - current@.len()),
            ),
    {
        let ghost seen = marks.take(n as int);
        let ghost next = marks.take(n + 1);
        let ghost before = words.deep_view();
        let ghost word = current@;
        let ghost start = n - word.len();
        proof {
            assert(next.drop_last() =~= seen);
            assert(next.last() == breaks@[n as int]);
        }
        if breaks[n] {
            if !current.as_str().is_empty() {
                proof {
                    assert(seen.len() > 0 && !seen.last()) by {
                        if seen.len() == 0 || seen.last() {
                            assert(trailing_word_len(seen) == 0);
                        }
                    }
                    assert(all.take(n as int).take(start) =~= all.take(start));
                    assert(seen.take(start) =~= marks.take(start));
                    assert(all.take(n as int).subrange(start, n as int) =~= word);
                    assert(words_where(all.take(n as int), seen) == before.push(word));
                    assert(all.take(n + 1).take(n as int) =~= all.take(n as int));
                    assert(words_where(all.take(n + 1), next) == before.push(word));
                }
                words.push(current);
                current = String::new();
                proof {
                    assert(words.deep_view() =~= before.push(word));
                    assert(current@ =~= all.subrange(n + 1, n + 1));
                }
            } else {
                proof {
                    assert(all.take(n as int).take(n as int) =~= all.take(n as int));
                    assert(seen.take(n as int) =~= seen);
                    assert(all.take(n + 1).take(n as int) =~= all.take(n as int));
                    assert(words_where(all.take(n + 1), next) == before);
                    assert(current@ =~= all.subrange(n + 1, n + 1));
                }
            }
        } else {
            push_char(&mut current, c);
            proof {
                assert(current@ =~= all.subrange(start, n + 1));
            }
        }
        n += 1;
    }
    let ghost word = current@;
    let ghost before = words.deep_view();
    proof {
        assert(all.take(all.len() as int) =~= all);
        assert(marks.take(marks.len() as int) =~= marks);
    }
    if !current.as_str().is_empty() {
        proof {
            assert(marks.len() > 0 && !marks.last()) by {
                if marks.len() == 0 || marks.last() {
                    assert(trailing_word_len(marks) == 0);
                }
            }
        }
        words.push(current);
        proof {
            assert(words.deep_view() =~= before.push(word));
        }
    }
    words
}

/// Splits `text` into its words.
pub fn split_words(text: &str) -> (words: Vec<String>)
    ensures
        words.deep_view() == words_of(text@),
{
    let mut breaks: Vec<bool> = Vec::new();
    let ghost all = text@;
    for c in it: text.chars()
        invariant
            it.seq() == all,
            breaks@ == white_space_in(all.take(it.index())),
    {
        let white: bool = is_whitespace(c);
        breaks.push(white);
        proof {
            assert(breaks@ =~= white_space_in(all.take(it.index() + 1)));
        }
    }
    proof {
        assert(all.take(all.len() as int) =~= all);
    }
    split_marked(text, breaks.as_slice())
}

/// The words in lower case, in order.
pub fn lower_all(words: &Vec<String>) -> (lower: Vec<String>)
    ensures
        lower.deep_view() == lowered(words.deep_view()),
{
    let mut lower: Vec<String> = Vec::new();
    let mut i: usize = 0;
    while i < words.len()
        invariant
            i <= words.len(),
            lower.deep_view() == lowered(words.deep_view().take(i as int)),
        decreases words.len() - i,
    {
        let ghost before = lower.deep_view();
        let word: String = to_lowercase(words[i].as_str());
        let ghost made = word@;
        lower.push(word);
        i += 1;
        proof {
            assert(lower.deep_view() =~= before.push(made));
            assert(before.push(made) =~= lowered(words.deep_view().take(i as int)));
        }
    }
    proof {
        assert(words.deep_view().take(words.len() as int) =~= words.deep_view());
    }
    lower
}

/// Counts how often each of `words` occurs among them. There are at most as
/// many words as a count can hold.
pub fn tally(words: &Vec<String>) -> (counts: StringHashMap<u32>)
    requires
        words.len() <= u32::MAX,
    ensures
        counts@ == tally_of(words.deep_view()),
{
    let ghost keys = words.deep_view();
    let mut counts: StringHashMap<u32> = StringHashMap::new();
    proof {
        assert(counts@ =~= tally_of(keys.take(0)));
    }
    let mut i: usize = 0;
    while i < words.len()
        invariant
            i <= words.len(),
            keys == words.deep_view(),
            keys.len() <= u32::MAX,
            counts@ == tally_of(keys.take(i as int)),
        decreases words.len() - i,
    {
        let key: String = words[i].clone();
        let ghost seen = keys.take(i as int);
        let ghost next = keys.take(i + 1);
        proof {
            assert(next.drop_last() =~= seen);
            assert(next.last() == key@);
            lemma_occurrences_bounded(seen, key@);
        }
        let count: u32 = match counts.get(key.as_str()) {
            Some(count) => *count,
            None => 0,
        };
        counts.insert(key, count + 1);
        i += 1;
        proof {
            assert(counts@ =~= tally_of(next)) by {
                assert forall|word: Seq<char>| #[trigger]
                    counts@.dom().contains(word) == tally_of(next).dom().contains(word) by {}
                assert forall|word: Seq<char>| counts@.dom().contains(word) implies #[trigger]
                    counts@[word] == tally_of(next)[word] by {
                    lemma_occurrences_bounded(seen, word);
                }
            }
        }
    }
    proof {
        assert(keys.take(words.len() as int) =~= keys);
    }
    counts
}

/// Counts how often each word occurs in `text`, the words taken in lower
/// case. The text is limited to as many characters as a count can hold.
pub fn count_words(text: &str) -> (counts: StringHashMap<u32>)
    requires
        text@.len() <= u32::MAX,
    ensures
        counts@ == tally_of(lowered(words_of(text@))),
{
    let words: Vec<String> = split_words(text);
    proof {
        lemma_words_where(text@, white_space_in(text@));
    }
    let keys: Vec<String> = lower_all(&words);
    proof {
        assert(keys.deep_view().len() == words.deep_view().len());
        assert(words.deep_view().len() == words.len());
        assert(keys.deep_view().len() == keys.len());
    }
    tally(&keys)
}

} // verus!
