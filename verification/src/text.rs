//! Text helpers: comparison of string slices and splitting on white space.

use vstd::prelude::*;
use vstd::string::StrSliceExecFns;
use vstd::string::StringSliceAdditionalSpecFns;
use vstd::utf8::encode_utf8_decode_utf8;

verus! {

/// Tells whether two string slices hold the same characters.
pub fn same_text(a: &str, b: &str) -> (same: bool)
    ensures
        same == (a@ == b@),
{
    let left = a.as_bytes();
    let right = b.as_bytes();
    proof {
        encode_utf8_decode_utf8(a@);
        encode_utf8_decode_utf8(b@);
    }
    if left.len() != right.len() {
        return false;
    }
    let mut i: usize = 0;
    while i < left.len()
        invariant
            left@ == a.spec_bytes(),
            right@ == b.spec_bytes(),
            left@.len() == right@.len(),
            i <= left@.len(),
            forall|j: int| 0 <= j < i ==> left@[j] == right@[j],
        decreases left@.len() - i,
    {
        if left[i] != right[i] {
            return false;
        }
        i += 1;
    }
    assert(left@ =~= right@);
    true
}

/// The characters with the Unicode property `White_Space`.
pub open spec fn is_space(c: char) -> bool {
    let code = c as u32;
    ||| 0x09 <= code <= 0x0D
    ||| code == 0x20
    ||| code == 0x85
    ||| code == 0xA0
    ||| code == 0x1680
    ||| 0x2000 <= code <= 0x200A
    ||| code == 0x2028
    ||| code == 0x2029
    ||| code == 0x202F
    ||| code == 0x205F
    ||| code == 0x3000
}

/// Tells whether a character is white space.
pub fn is_whitespace(c: char) -> (space: bool)
    ensures
        space == is_space(c),
{
    let code: u32 = c as u32;
    (0x09 <= code && code <= 0x0D) || code == 0x20 || code == 0x85 || code == 0xA0
        || code == 0x1680 || (0x2000 <= code && code <= 0x200A) || code == 0x2028
        || code == 0x2029 || code == 0x202F || code == 0x205F || code == 0x3000
}

/// The end of the run of characters other than white space that begins at
/// `from`: the first position at or after `from` that holds white space, or
/// the length of the text.
pub open spec fn word_end(text: Seq<char>, from: int) -> int
    decreases text.len() - from,
{
    if 0 <= from < text.len() && !is_space(text[from]) {
        word_end(text, from + 1)
    } else {
        from
    }
}

/// The words of `text` at or after position `from`.
pub open spec fn words_from(text: Seq<char>, from: int) -> Seq<Seq<char>>
    decreases text.len() - from, 1int,
{
    if from < 0 || from >= text.len() {
        Seq::empty()
    } else if is_space(text[from]) {
        words_from(text, from + 1)
    } else {
        proof {
            lemma_word_end_bounds(text, from);
        }
        seq![text.subrange(from, word_end(text, from))] + words_from(
            text,
            word_end(text, from),
        )
    }
}

/// The words of a text: its maximal runs of characters other than white
/// space, in their order.
pub open spec fn words(text: Seq<char>) -> Seq<Seq<char>> {
    words_from(text, 0)
}

/// The texts that a sequence of strings holds.
pub open spec fn texts(strings: Seq<String>) -> Seq<Seq<char>> {
    Seq::new(strings.len(), |i: int| strings[i]@)
}

/// A run of characters other than white space that starts at `from` and is
/// followed by white space or by the end of the text ends at `to`.
pub proof fn lemma_word_end(text: Seq<char>, from: int, to: int)
    requires
        0 <= from <= to <= text.len(),
        forall|k: int| from <= k < to ==> !is_space(#[trigger] text[k]),
        to == text.len() || is_space(text[to]),
    ensures
        word_end(text, from) == to,
    decreases to - from,
{
    if from < to {
        lemma_word_end(text, from + 1, to);
    }
}

/// The end of a word lies after its start and within the text.
pub proof fn lemma_word_end_bounds(text: Seq<char>, from: int)
    requires
        0 <= from < text.len(),
        !is_space(text[from]),
    ensures
        from < word_end(text, from) <= text.len(),
    decreases text.len() - from,
{
    reveal_with_fuel(word_end, 2);
    if from + 1 < text.len() && !is_space(text[from + 1]) {
        lemma_word_end_bounds(text, from + 1);
    }
}

/// A run of characters other than white space holds none up to its end.
pub proof fn lemma_word_has_no_space(text: Seq<char>, from: int, at: int)
    requires
        0 <= from <= at < word_end(text, from),
    ensures
        at < text.len(),
        !is_space(text[at]),
    decreases text.len() - from,
{
    if from < at {
        lemma_word_has_no_space(text, from + 1, at);
    }
}

/// Every word is a run of one character or more, none of them white space.
pub proof fn lemma_words_are_runs(text: Seq<char>, from: int, i: int)
    requires
        0 <= i < words_from(text, from).len(),
    ensures
        words_from(text, from)[i].len() > 0,
        forall|k: int|
            0 <= k < words_from(text, from)[i].len() ==> !is_space(
                #[trigger] words_from(text, from)[i][k],
            ),
    decreases text.len() - from, 1int,
{
    if from < 0 || from >= text.len() {
    } else if is_space(text[from]) {
        lemma_words_are_runs(text, from + 1, i);
    } else {
        lemma_word_end_bounds(text, from);
        let end = word_end(text, from);
        let word = text.subrange(from, end);
        if i > 0 {
            assert(words_from(text, from)[i] == words_from(text, end)[i - 1]);
            lemma_words_are_runs(text, end, i - 1);
        } else {
            assert(words_from(text, from)[i] == word);
            assert forall|k: int| 0 <= k < word.len() implies !is_space(#[trigger] word[k]) by {
                lemma_word_has_no_space(text, from, from + k);
            }
        }
    }
}

/// Closing a word that runs from `start` to `end` moves it from the text that
/// is still to be split to the words already found.
proof fn lemma_close_word(text: Seq<char>, found: Seq<Seq<char>>, start: int, end: int)
    requires
        0 <= start < end <= text.len(),
        forall|k: int| start <= k < end ==> !is_space(#[trigger] text[k]),
        end == text.len() || is_space(text[end]),
        words(text) == found + words_from(text, start),
    ensures
        words(text) == found.push(text.subrange(start, end)) + words_from(text, end + 1),
{
    lemma_word_end(text, start, end);
    reveal_with_fuel(words_from, 2);
    assert(words_from(text, end) == words_from(text, end + 1));
    assert(found + (seq![text.subrange(start, end)] + words_from(text, end + 1))
        =~= found.push(text.subrange(start, end)) + words_from(text, end + 1));
}

/// Splits a text into its words.
pub fn split_whitespace(text: &str) -> (parts: Vec<String>)
    ensures
        texts(parts@) == words(text@),
{
    let length = text.unicode_len();
    let mut parts: Vec<String> = Vec::new();
    let mut start: usize = 0;
    let mut inside = false;
    let mut i: usize = 0;
    assert(texts(parts@) + words_from(text@, 0) =~= words(text@));
    for c in it: text.chars()
        invariant
            it.seq() == text@,
            length == text@.len(),
            i == it.index(),
            inside ==> start < i,
            inside ==> forall|k: int| start <= k < i ==> !is_space(#[trigger] text@[k]),
            inside ==> words(text@) == texts(parts@) + words_from(text@, start as int),
            !inside ==> words(text@) == texts(parts@) + words_from(text@, i as int),
    {
        assert(c == text@[i as int]);
        if is_whitespace(c) {
            if inside {
                let word = text.substring_char(start, i).to_owned();
                proof {
                    lemma_close_word(text@, texts(parts@), start as int, i as int);
                    assert(texts(parts@.push(word)) =~= texts(parts@).push(word@));
                }
                parts.push(word);
                inside = false;
            }
        } else if !inside {
            start = i;
            inside = true;
        }
        i += 1;
    }
    if inside {
        let word = text.substring_char(start, i).to_owned();
        proof {
            lemma_close_word(text@, texts(parts@), start as int, i as int);
            assert(texts(parts@.push(word)) =~= texts(parts@).push(word@));
        }
        parts.push(word);
    }
    assert(texts(parts@) + Seq::<Seq<char>>::empty() =~= texts(parts@));
    parts
}

} // verus!
