//! Stems tagged with their grammatical category, and conjugated cells.

use crate::text::{letter_count, take_letters};
use vstd::prelude::*;
use vstd::string::*;

verus! {

/// The grammatical category that a principal part's ending reveals.
#[derive(Clone, Copy, PartialEq, Eq, Structural, Debug)]
pub enum Category {
    PresActIndReg,
    PresActIndAlp,
    PresActIndEps,
    PresActIndOmi,
    PresPassIndReg,
    PresPassIndAlp,
    PresPassIndEps,
    PresPassIndOmi,
    FutActIndReg,
    FutActIndEps,
    FutMidIndReg,
    FutMidIndEps,
    FutPassIndReg,
    AorActIndWk,
    AorActIndStr,
    AorMidIndWk,
    AorMidIndStr,
    AorPassIndWk,
}

/// What a classified stem is: its category and the letters of the bare stem.
pub struct StemVariant {
    pub category: Category,
    pub stem: Seq<char>,
}

/// The name of a category.
pub open spec fn category_name(category: Category) -> Seq<char> {
    match category {
        Category::PresActIndReg => "PresActIndReg"@,
        Category::PresActIndAlp => "PresActIndAlp"@,
        Category::PresActIndEps => "PresActIndEps"@,
        Category::PresActIndOmi => "PresActIndOmi"@,
        Category::PresPassIndReg => "PresPassIndReg"@,
        Category::PresPassIndAlp => "PresPassIndAlp"@,
        Category::PresPassIndEps => "PresPassIndEps"@,
        Category::PresPassIndOmi => "PresPassIndOmi"@,
        Category::FutActIndReg => "FutActIndReg"@,
        Category::FutActIndEps => "FutActIndEps"@,
        Category::FutMidIndReg => "FutMidIndReg"@,
        Category::FutMidIndEps => "FutMidIndEps"@,
        Category::FutPassIndReg => "FutPassIndReg"@,
        Category::AorActIndWk => "AorActIndWk"@,
        Category::AorActIndStr => "AorActIndStr"@,
        Category::AorMidIndWk => "AorMidIndWk"@,
        Category::AorMidIndStr => "AorMidIndStr"@,
        Category::AorPassIndWk => "AorPassIndWk"@,
    }
}

/// A stem with its category spelled out: the name of the category, a colon,
/// and the stem in quotes.
pub open spec fn description(variant: StemVariant) -> Seq<char> {
    category_name(variant.category) + ": \""@ + variant.stem + "\""@
}

impl Category {
    /// The name of this category.
    pub fn name(self) -> (name: &'static str)
        ensures
            name@ == category_name(self),
    {
        match self {
            Category::PresActIndReg => "PresActIndReg",
            Category::PresActIndAlp => "PresActIndAlp",
            Category::PresActIndEps => "PresActIndEps",
            Category::PresActIndOmi => "PresActIndOmi",
            Category::PresPassIndReg => "PresPassIndReg",
            Category::PresPassIndAlp => "PresPassIndAlp",
            Category::PresPassIndEps => "PresPassIndEps",
            Category::PresPassIndOmi => "PresPassIndOmi",
            Category::FutActIndReg => "FutActIndReg",
            Category::FutActIndEps => "FutActIndEps",
            Category::FutMidIndReg => "FutMidIndReg",
            Category::FutMidIndEps => "FutMidIndEps",
            Category::FutPassIndReg => "FutPassIndReg",
            Category::AorActIndWk => "AorActIndWk",
            Category::AorActIndStr => "AorActIndStr",
            Category::AorMidIndWk => "AorMidIndWk",
            Category::AorMidIndStr => "AorMidIndStr",
            Category::AorPassIndWk => "AorPassIndWk",
        }
    }
}

/// A bare stem under the category it was classified as.
#[derive(Debug, PartialEq, Eq)]
pub enum TenseVoiceMoodVariant {
    PresActIndReg(String),
    PresActIndAlp(String),
    PresActIndEps(String),
    PresActIndOmi(String),
    PresPassIndReg(String),
    PresPassIndAlp(String),
    PresPassIndEps(String),
    PresPassIndOmi(String),
    FutActIndReg(String),
    FutActIndEps(String),
    FutMidIndReg(String),
    FutMidIndEps(String),
    FutPassIndReg(String),
    AorActIndWk(String),
    AorActIndStr(String),
    AorMidIndWk(String),
    AorMidIndStr(String),
    AorPassIndWk(String),
}

impl View for TenseVoiceMoodVariant {
    type V = StemVariant;

    open spec fn view(&self) -> StemVariant {
        match self {
            TenseVoiceMoodVariant::PresActIndReg(s) => StemVariant { category: Category::PresActIndReg, stem: s@ },
            TenseVoiceMoodVariant::PresActIndAlp(s) => StemVariant { category: Category::PresActIndAlp, stem: s@ },
            TenseVoiceMoodVariant::PresActIndEps(s) => StemVariant { category: Category::PresActIndEps, stem: s@ },
            TenseVoiceMoodVariant::PresActIndOmi(s) => StemVariant { category: Category::PresActIndOmi, stem: s@ },
            TenseVoiceMoodVariant::PresPassIndReg(s) => StemVariant { category: Category::PresPassIndReg, stem: s@ },
            TenseVoiceMoodVariant::PresPassIndAlp(s) => StemVariant { category: Category::PresPassIndAlp, stem: s@ },
            TenseVoiceMoodVariant::PresPassIndEps(s) => StemVariant { category: Category::PresPassIndEps, stem: s@ },
            TenseVoiceMoodVariant::PresPassIndOmi(s) => StemVariant { category: Category::PresPassIndOmi, stem: s@ },
            TenseVoiceMoodVariant::FutActIndReg(s) => StemVariant { category: Category::FutActIndReg, stem: s@ },
            TenseVoiceMoodVariant::FutActIndEps(s) => StemVariant { category: Category::FutActIndEps, stem: s@ },
            TenseVoiceMoodVariant::FutMidIndReg(s) => StemVariant { category: Category::FutMidIndReg, stem: s@ },
            TenseVoiceMoodVariant::FutMidIndEps(s) => StemVariant { category: Category::FutMidIndEps, stem: s@ },
            TenseVoiceMoodVariant::FutPassIndReg(s) => StemVariant { category: Category::FutPassIndReg, stem: s@ },
            TenseVoiceMoodVariant::AorActIndWk(s) => StemVariant { category: Category::AorActIndWk, stem: s@ },
            TenseVoiceMoodVariant::AorActIndStr(s) => StemVariant { category: Category::AorActIndStr, stem: s@ },
            TenseVoiceMoodVariant::AorMidIndWk(s) => StemVariant { category: Category::AorMidIndWk, stem: s@ },
            TenseVoiceMoodVariant::AorMidIndStr(s) => StemVariant { category: Category::AorMidIndStr, stem: s@ },
            TenseVoiceMoodVariant::AorPassIndWk(s) => StemVariant { category: Category::AorPassIndWk, stem: s@ },
        }
    }
}

/// The first letter of `stem` as a text of its own; empty where the stem is empty.
pub open spec fn first_letter(stem: Seq<char>) -> Seq<char> {
    if stem.len() == 0 {
        stem
    } else {
        stem.take(1)
    }
}

/// What an optional variant is, as a value of the model.
pub open spec fn variant_view(variant: Option<TenseVoiceMoodVariant>) -> Option<StemVariant> {
    match variant {
        Some(v) => Some(v@),
        None => None,
    }
}

impl TenseVoiceMoodVariant {
    /// Tags `stem` with `category`.
    pub fn new(category: Category, stem: String) -> (variant: TenseVoiceMoodVariant)
        ensures
            variant@ == (StemVariant { category, stem: stem@ }),
    {
        match category {
            Category::PresActIndReg => TenseVoiceMoodVariant::PresActIndReg(stem),
            Category::PresActIndAlp => TenseVoiceMoodVariant::PresActIndAlp(stem),
            Category::PresActIndEps => TenseVoiceMoodVariant::PresActIndEps(stem),
            Category::PresActIndOmi => TenseVoiceMoodVariant::PresActIndOmi(stem),
            Category::PresPassIndReg => TenseVoiceMoodVariant::PresPassIndReg(stem),
            Category::PresPassIndAlp => TenseVoiceMoodVariant::PresPassIndAlp(stem),
            Category::PresPassIndEps => TenseVoiceMoodVariant::PresPassIndEps(stem),
            Category::PresPassIndOmi => TenseVoiceMoodVariant::PresPassIndOmi(stem),
            Category::FutActIndReg => TenseVoiceMoodVariant::FutActIndReg(stem),
            Category::FutActIndEps => TenseVoiceMoodVariant::FutActIndEps(stem),
            Category::FutMidIndReg => TenseVoiceMoodVariant::FutMidIndReg(stem),
            Category::FutMidIndEps => TenseVoiceMoodVariant::FutMidIndEps(stem),
            Category::FutPassIndReg => TenseVoiceMoodVariant::FutPassIndReg(stem),
            Category::AorActIndWk => TenseVoiceMoodVariant::AorActIndWk(stem),
            Category::AorActIndStr => TenseVoiceMoodVariant::AorActIndStr(stem),
            Category::AorMidIndWk => TenseVoiceMoodVariant::AorMidIndWk(stem),
            Category::AorMidIndStr => TenseVoiceMoodVariant::AorMidIndStr(stem),
            Category::AorPassIndWk => TenseVoiceMoodVariant::AorPassIndWk(stem),
        }
    }

    /// The category of this variant.
    pub fn category(&self) -> (category: Category)
        ensures
            category == self@.category,
    {
        match self {
            TenseVoiceMoodVariant::PresActIndReg(_) => Category::PresActIndReg,
            TenseVoiceMoodVariant::PresActIndAlp(_) => Category::PresActIndAlp,
            TenseVoiceMoodVariant::PresActIndEps(_) => Category::PresActIndEps,
            TenseVoiceMoodVariant::PresActIndOmi(_) => Category::PresActIndOmi,
            TenseVoiceMoodVariant::PresPassIndReg(_) => Category::PresPassIndReg,
            TenseVoiceMoodVariant::PresPassIndAlp(_) => Category::PresPassIndAlp,
            TenseVoiceMoodVariant::PresPassIndEps(_) => Category::PresPassIndEps,
            TenseVoiceMoodVariant::PresPassIndOmi(_) => Category::PresPassIndOmi,
            TenseVoiceMoodVariant::FutActIndReg(_) => Category::FutActIndReg,
            TenseVoiceMoodVariant::FutActIndEps(_) => Category::FutActIndEps,
            TenseVoiceMoodVariant::FutMidIndReg(_) => Category::FutMidIndReg,
            TenseVoiceMoodVariant::FutMidIndEps(_) => Category::FutMidIndEps,
            TenseVoiceMoodVariant::FutPassIndReg(_) => Category::FutPassIndReg,
            TenseVoiceMoodVariant::AorActIndWk(_) => Category::AorActIndWk,
            TenseVoiceMoodVariant::AorActIndStr(_) => Category::AorActIndStr,
            TenseVoiceMoodVariant::AorMidIndWk(_) => Category::AorMidIndWk,
            TenseVoiceMoodVariant::AorMidIndStr(_) => Category::AorMidIndStr,
            TenseVoiceMoodVariant::AorPassIndWk(_) => Category::AorPassIndWk,
        }
    }

    /// The bare stem of this variant.
    pub fn stem(&self) -> (stem: &str)
        ensures
            stem@ == self@.stem,
    {
        match self {
            TenseVoiceMoodVariant::PresActIndReg(s) => s.as_str(),
            TenseVoiceMoodVariant::PresActIndAlp(s) => s.as_str(),
            TenseVoiceMoodVariant::PresActIndEps(s) => s.as_str(),
            TenseVoiceMoodVariant::PresActIndOmi(s) => s.as_str(),
            TenseVoiceMoodVariant::PresPassIndReg(s) => s.as_str(),
            TenseVoiceMoodVariant::PresPassIndAlp(s) => s.as_str(),
            TenseVoiceMoodVariant::PresPassIndEps(s) => s.as_str(),
            TenseVoiceMoodVariant::PresPassIndOmi(s) => s.as_str(),
            TenseVoiceMoodVariant::FutActIndReg(s) => s.as_str(),
            TenseVoiceMoodVariant::FutActIndEps(s) => s.as_str(),
            TenseVoiceMoodVariant::FutMidIndReg(s) => s.as_str(),
            TenseVoiceMoodVariant::FutMidIndEps(s) => s.as_str(),
            TenseVoiceMoodVariant::FutPassIndReg(s) => s.as_str(),
            TenseVoiceMoodVariant::AorActIndWk(s) => s.as_str(),
            TenseVoiceMoodVariant::AorActIndStr(s) => s.as_str(),
            TenseVoiceMoodVariant::AorMidIndWk(s) => s.as_str(),
            TenseVoiceMoodVariant::AorMidIndStr(s) => s.as_str(),
            TenseVoiceMoodVariant::AorPassIndWk(s) => s.as_str(),
        }
    }

    /// This variant spelled out: the name of its category, a colon, and the
    /// stem in quotes.
    pub fn describe(&self) -> (text: String)
        ensures
            text@ == description(self@),
    {
        let mut text = String::from_str(self.category().name());
        text.append(": \"");
        text.append(self.stem());
        text.append("\"");
        text
    }

    /// The first letter of the stem, as a text; the empty text for an empty stem.
    pub fn first_char(&self) -> (first: String)
        ensures
            first@ == first_letter(self@.stem),
    {
        let stem = self.stem();
        if letter_count(stem) == 0 {
            String::from_str(stem)
        } else {
            String::from_str(take_letters(stem, 1))
        }
    }
}

/// The forms of a text-holding vector, each as its letters.
pub open spec fn forms_view(forms: Seq<String>) -> Seq<Seq<char>> {
    Seq::new(forms.len(), |i: int| forms[i]@)
}

/// One cell of a paradigm: its forms in the order of person and number, or no cell at all.
#[derive(Debug, PartialEq, Eq)]
pub enum Conjugated {
    Forms(Vec<String>),
    Absent,
}

impl View for Conjugated {
    type V = Option<Seq<Seq<char>>>;

    open spec fn view(&self) -> Option<Seq<Seq<char>>> {
        match self {
            Conjugated::Forms(forms) => Some(forms_view(forms@)),
            Conjugated::Absent => None,
        }
    }
}

impl Conjugated {
    /// The forms of this cell, where it has any.
    pub fn to_vec(&self) -> (forms: Option<&Vec<String>>)
        ensures
            forms == match self {
                Conjugated::Forms(v) => Some(v),
                Conjugated::Absent => None,
            },
    {
        match self {
            Conjugated::Forms(v) => Some(v),
            Conjugated::Absent => None,
        }
    }
}

} // verus!
