//! Letter-level operations on text.
//!
//! A text is viewed as its sequence of Unicode scalar values, so every
//! operation here counts and cuts whole letters, never bytes.

use vstd::prelude::*;
use vstd::string::*;

verus! {

/// The position of the first `letter` in `text`, or `text.len()` when there is none.
pub open spec fn first_position(text: Seq<char>, letter: char) -> int
    decreases text.len(),
{
    if text.len() == 0 {
        0
    } else if text[0] == letter {
        0
    } else {
        1 + first_position(text.drop_first(), letter)
    }
}

/// `first_position` is the least index that holds `letter`.
pub proof fn lemma_first_position(text: Seq<char>, letter: char)
    ensures
        0 <= first_position(text, letter) <= text.len(),
        first_position(text, letter) < text.len() ==> text[first_position(text, letter)] == letter,
        forall|j: int| 0 <= j < first_position(text, letter) ==> text[j] != letter,
    decreases text.len(),
{
    if text.len() > 0 && text[0] != letter {
        let rest = text.drop_first();
        lemma_first_position(rest, letter);
        assert forall|j: int| 0 <= j < first_position(text, letter) implies text[j] != letter by {
            if j > 0 {
                assert(text[j] == rest[j - 1]);
            }
        }
    }
}

/// An index that holds `letter` and has no `letter` before it is `first_position`.
pub proof fn lemma_first_position_is(text: Seq<char>, letter: char, at: int)
    requires
        0 <= at <= text.len(),
        at < text.len() ==> text[at] == letter,
        forall|j: int| 0 <= j < at ==> text[j] != letter,
    ensures
        first_position(text, letter) == at,
{
    lemma_first_position(text, letter);
}

/// The letters of an optional text.
pub open spec fn text_view(text: Option<String>) -> Option<Seq<char>> {
    match text {
        Some(t) => Some(t@),
        None => None,
    }
}

/// The number of letters in `text`.
pub fn letter_count(text: &str) -> (count: usize)
    ensures
        count == text@.len(),
{
    text.unicode_len()
}

/// Whether `text` begins with the letters of `prefix`.
pub fn starts_with(text: &str, prefix: &str) -> (found: bool)
    ensures
        found == prefix@.is_prefix_of(text@),
{
    let n: usize = prefix.unicode_len();
    if text.unicode_len() < n {
        return false;
    }
    let mut i: usize = 0;
    while i < n
        invariant
            i <= n,
            n == prefix@.len(),
            n <= text@.len(),
            forall|j: int| 0 <= j < i ==> text@[j] == prefix@[j],
        decreases n - i,
    {
        if text.get_char(i) != prefix.get_char(i) {
            assert(text@.subrange(0, n as int)[i as int] != prefix@[i as int]);
            return false;
        }
        i += 1;
    }
    assert(prefix@ =~= text@.subrange(0, n as int));
    true
}

/// Whether `text` ends with the letters of `suffix`.
pub fn ends_with(text: &str, suffix: &str) -> (found: bool)
    ensures
        found == suffix@.is_suffix_of(text@),
{
    let n: usize = suffix.unicode_len();
    let m: usize = text.unicode_len();
    if m < n {
        return false;
    }
    let start: usize = m - n;
    let mut i: usize = 0;
    while i < n
        invariant
            i <= n,
            n == suffix@.len(),
            m == text@.len(),
            start == m - n,
            forall|j: int| 0 <= j < i ==> text@[start + j] == suffix@[j],
        decreases n - i,
    {
        if text.get_char(start + i) != suffix.get_char(i) {
            assert(text@.subrange(start as int, m as int)[i as int] != suffix@[i as int]);
            return false;
        }
        i += 1;
    }
    assert(suffix@ =~= text@.subrange(start as int, m as int));
    true
}

/// The index of the first `letter` in `text`, if it holds one.
pub fn find_letter(text: &str, letter: char) -> (found: Option<usize>)
    ensures
        match found {
            Some(at) => at < text@.len() && at == first_position(text@, letter),
            None => first_position(text@, letter) == text@.len(),
        },
{
    let n: usize = text.unicode_len();
    let mut i: usize = 0;
    while i < n
        invariant
            i <= n,
            n == text@.len(),
            forall|j: int| 0 <= j < i ==> text@[j] != letter,
        decreases n - i,
    {
        if text.get_char(i) == letter {
            proof {
                lemma_first_position_is(text@, letter, i as int);
            }
            return Some(i);
        }
        i += 1;
    }
    proof {
        lemma_first_position_is(text@, letter, n as int);
    }
    None
}

/// `text` without its first `count` letters.
pub fn skip_letters(text: &str, count: usize) -> (rest: &str)
    requires
        count <= text@.len(),
    ensures
        rest@ == text@.skip(count as int),
{
    let n: usize = text.unicode_len();
    text.substring_char(count, n)
}

/// The first `count` letters of `text`.
pub fn take_letters(text: &str, count: usize) -> (head: &str)
    requires
        count <= text@.len(),
    ensures
        head@ == text@.take(count as int),
{
    text.substring_char(0, count)
}

} // verus!
