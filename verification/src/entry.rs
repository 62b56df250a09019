//! The principal parts of a verb as they are given, and their alternates.

use crate::text::{find_letter, first_position, skip_letters, take_letters, text_view};
use vstd::prelude::*;
use vstd::string::*;

verus! {

/// What an entry is: the letters of each principal part that was given.
pub struct PrincipalParts {
    pub present: Option<Seq<char>>,
    pub future: Option<Seq<char>>,
    pub aorist: Option<Seq<char>>,
    pub aorist_passive: Option<Seq<char>>,
}

/// What split principal parts are: each given form, and each alternate that
/// followed a slash.
pub struct Alternates {
    pub present: Option<Seq<char>>,
    pub future: Option<Seq<char>>,
    pub future_alt: Option<Seq<char>>,
    pub aorist: Option<Seq<char>>,
    pub aorist_alt: Option<Seq<char>>,
    pub aorist_passive: Option<Seq<char>>,
    pub aorist_passive_alt: Option<Seq<char>>,
}

/// The primary form of a principal part: what stands before its first slash,
/// or all of it where it has none.
pub open spec fn primary_form(text: Seq<char>) -> Seq<char> {
    text.take(first_position(text, '/'))
}

/// The alternate form of a principal part: what stands between its first
/// slash and the next one (or the end), or nothing where it has no slash.
pub open spec fn alternate_form(text: Seq<char>) -> Option<Seq<char>> {
    let at = first_position(text, '/');
    if at < text.len() {
        Some(primary_form(text.skip(at + 1)))
    } else {
        None
    }
}

/// The primary form of an optional principal part.
pub open spec fn primary_of(text: Option<Seq<char>>) -> Option<Seq<char>> {
    match text {
        Some(t) => Some(primary_form(t)),
        None => None,
    }
}

/// The alternate form of an optional principal part.
pub open spec fn alternate_of(text: Option<Seq<char>>) -> Option<Seq<char>> {
    match text {
        Some(t) => alternate_form(t),
        None => None,
    }
}

/// The principal parts with their alternates split off. The present is
/// taken whole: it has no alternate.
pub open spec fn split_alternates(parts: PrincipalParts) -> Alternates {
    Alternates {
        present: parts.present,
        future: primary_of(parts.future),
        future_alt: alternate_of(parts.future),
        aorist: primary_of(parts.aorist),
        aorist_alt: alternate_of(parts.aorist),
        aorist_passive: primary_of(parts.aorist_passive),
        aorist_passive_alt: alternate_of(parts.aorist_passive),
    }
}

/// The principal parts of one verb, as given.
#[derive(Debug, PartialEq, Eq)]
pub struct VerbEntry {
    pub present: Option<String>,
    pub future: Option<String>,
    pub aorist: Option<String>,
    pub aorist_passive: Option<String>,
}

impl View for VerbEntry {
    type V = PrincipalParts;

    open spec fn view(&self) -> PrincipalParts {
        PrincipalParts {
            present: text_view(self.present),
            future: text_view(self.future),
            aorist: text_view(self.aorist),
            aorist_passive: text_view(self.aorist_passive),
        }
    }
}

/// The principal parts of one verb, alternates apart.
#[derive(Debug, PartialEq, Eq)]
pub struct VerbAlternates {
    pub present: Option<String>,
    pub future: Option<String>,
    pub future_alt: Option<String>,
    pub aorist: Option<String>,
    pub aorist_alt: Option<String>,
    pub aorist_passive: Option<String>,
    pub aorist_passive_alt: Option<String>,
}

impl View for VerbAlternates {
    type V = Alternates;

    open spec fn view(&self) -> Alternates {
        Alternates {
            present: text_view(self.present),
            future: text_view(self.future),
            future_alt: text_view(self.future_alt),
            aorist: text_view(self.aorist),
            aorist_alt: text_view(self.aorist_alt),
            aorist_passive: text_view(self.aorist_passive),
            aorist_passive_alt: text_view(self.aorist_passive_alt),
        }
    }
}

/// What stands before the first slash of `text`.
fn before_slash(text: &str) -> (head: &str)
    ensures
        head@ == primary_form(text@),
{
    match find_letter(text, '/') {
        Some(at) => take_letters(text, at),
        None => {
            assert(text@.take(text@.len() as int) =~= text@);
            text
        },
    }
}

/// Splits an optional principal part at its first slash.
pub fn split_alternate(text: &Option<String>) -> (forms: (Option<String>, Option<String>))
    ensures
        text_view(forms.0) == primary_of(text_view(*text)),
        text_view(forms.1) == alternate_of(text_view(*text)),
{
    match text {
        Some(t) => {
            let whole = t.as_str();
            match find_letter(whole, '/') {
                Some(at) => {
                    let primary = String::from_str(take_letters(whole, at));
                    let rest = skip_letters(skip_letters(whole, at), 1);
                    assert(whole@.skip(at as int).skip(1) =~= whole@.skip(at + 1));
                    (Some(primary), Some(String::from_str(before_slash(rest))))
                },
                None => {
                    assert(whole@.take(whole@.len() as int) =~= whole@);
                    (Some(String::from_str(whole)), None)
                },
            }
        },
        None => (None, None),
    }
}

impl VerbEntry {
    /// An entry of the four principal parts, each of them given or not.
    pub fn new(
        present: Option<String>,
        future: Option<String>,
        aorist: Option<String>,
        aorist_passive: Option<String>,
    ) -> (entry: VerbEntry)
        ensures
            entry@ == (PrincipalParts {
                present: text_view(present),
                future: text_view(future),
                aorist: text_view(aorist),
                aorist_passive: text_view(aorist_passive),
            }),
    {
        VerbEntry { present, future, aorist, aorist_passive }
    }

    /// Splits each principal part but the present into its primary form and
    /// its alternate.
    pub fn check_alternates(&self) -> (alternates: VerbAlternates)
        ensures
            alternates@ == split_alternates(self@),
    {
        let present = match &self.present {
            Some(v) => Some(v.clone()),
            None => None,
        };
        let (future, future_alt) = split_alternate(&self.future);
        let (aorist, aorist_alt) = split_alternate(&self.aorist);
        let (aorist_passive, aorist_passive_alt) = split_alternate(&self.aorist_passive);
        VerbAlternates {
            present,
            future,
            future_alt,
            aorist,
            aorist_alt,
            aorist_passive,
            aorist_passive_alt,
        }
    }
}

} // verus!
