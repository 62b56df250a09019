//! The check that a text is free of precomposed accented vowels.
//!
//! The matchers of this library know vowels with a breathing, not vowels
//! that carry an acute, a grave or a circumflex in one letter. A text with
//! such a letter has to be turned away before anything is classified.

use regex::Regex;
use vstd::prelude::*;

verus! {

/// The vowels that carry an accent in one precomposed letter.
pub open spec fn accented_letters() -> Seq<char> {
    "άἄἅὰἂἃᾴᾲᾷᾶέὲἔἒἕἓήἤἥὴἢἣῆῄῂῇίἴἵὶἲἳόὄὅὸὂὃώὤὥὼὣὢῶῴῲῷύὔὕὺὒὓ"@
}

/// Whether `pattern` is a bracketed class of letters and nothing else: "[",
/// at least one letter, then "]", with every letter of the class outside
/// ASCII, so that none of them means anything but itself.
pub open spec fn is_letter_class(pattern: Seq<char>) -> bool {
    &&& 3 <= pattern.len() <= 256
    &&& pattern.first() == '['
    &&& pattern.last() == ']'
    &&& forall|i: int| 1 <= i < pattern.len() - 1 ==> (#[trigger] pattern[i]) as u32 >= 0x80
}

/// The letters of a bracketed class.
pub open spec fn class_letters(pattern: Seq<char>) -> Seq<char> {
    pattern.subrange(1, pattern.len() - 1)
}

/// Whether `text` holds at least one of `letters`.
pub open spec fn holds_letter_of(text: Seq<char>, letters: Seq<char>) -> bool {
    exists|i: int| 0 <= i < text.len() && letters.contains(#[trigger] text[i])
}

/// `regex::Regex::new` on a bracketed class of letters, then
/// `Regex::is_match` on `text`. A class of literal letters matches any one
/// of its letters, and `is_match` finds a match anywhere in the text; so
/// the answer is whether `text` holds a letter of the class. Such a pattern
/// is valid and small, so it compiles.
#[verifier::external_body]
fn class_matches(pattern: &str, text: &str) -> (found: bool)
    requires
        is_letter_class(pattern@),
    ensures
        found == holds_letter_of(text@, class_letters(pattern@)),
{
    Regex::new(pattern).unwrap().is_match(text)
}

/// Whether `contents` is free of vowels with a precomposed accent.
pub fn check_contents(contents: &str) -> (clean: bool)
    ensures
        clean == !holds_letter_of(contents@, accented_letters()),
{
    let pattern = "[άἄἅὰἂἃᾴᾲᾷᾶέὲἔἒἕἓήἤἥὴἢἣῆῄῂῇίἴἵὶἲἳόὄὅὸὂὃώὤὥὼὣὢῶῴῲῷύὔὕὺὒὓ]";
    proof {
        reveal_strlit("[άἄἅὰἂἃᾴᾲᾷᾶέὲἔἒἕἓήἤἥὴἢἣῆῄῂῇίἴἵὶἲἳόὄὅὸὂὃώὤὥὼὣὢῶῴῲῷύὔὕὺὒὓ]");
        reveal_strlit("άἄἅὰἂἃᾴᾲᾷᾶέὲἔἒἕἓήἤἥὴἢἣῆῄῂῇίἴἵὶἲἳόὄὅὸὂὃώὤὥὼὣὢῶῴῲῷύὔὕὺὒὓ");
        assert(is_letter_class(pattern@));
        assert(class_letters(pattern@) =~= accented_letters());
    }
    !class_matches(pattern, contents)
}

} // verus!
