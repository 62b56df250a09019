//! Classifying principal parts into stems.
//!
//! Each principal part has an ordered table of endings. The first ending of
//! the table that the text ends with gives the category, and says how many
//! letters leave the tail of the text to bare the stem.

use crate::entry::{Alternates, VerbAlternates};
use crate::text::{ends_with, letter_count, take_letters};
use crate::types::{variant_view, Category, StemVariant, TenseVoiceMoodVariant};
use vstd::prelude::*;
use vstd::string::*;

verus! {

/// Which principal part a text is read as. The alternate future has a table
/// of its own.
#[derive(Clone, Copy, PartialEq, Eq, Structural, Debug)]
pub enum PrincipalPart {
    Present,
    Future,
    FutureAlternate,
    Aorist,
    AoristPassive,
}

/// One row of an ending table: a text that ends with `suffix` is of
/// `category`, and its stem is the text without its last `strip` letters.
pub struct SuffixRule {
    pub suffix: &'static str,
    pub strip: usize,
    pub category: Category,
}

impl SuffixRule {
    /// A rule never strips more than its suffix has matched.
    pub open spec fn well_formed(self) -> bool {
        self.strip <= self.suffix@.len()
    }
}

/// The endings of the present, passive before active and contracted before plain.
pub open spec fn present_rules() -> Seq<SuffixRule> {
    seq![
        SuffixRule { suffix: "αομαι", strip: 5, category: Category::PresPassIndAlp },
        SuffixRule { suffix: "εομαι", strip: 5, category: Category::PresPassIndEps },
        SuffixRule { suffix: "οομαι", strip: 5, category: Category::PresPassIndOmi },
        SuffixRule { suffix: "ομαι", strip: 4, category: Category::PresPassIndReg },
        SuffixRule { suffix: "αω", strip: 2, category: Category::PresActIndAlp },
        SuffixRule { suffix: "εω", strip: 2, category: Category::PresActIndEps },
        SuffixRule { suffix: "οω", strip: 2, category: Category::PresActIndOmi },
        SuffixRule { suffix: "ω", strip: 1, category: Category::PresActIndReg },
    ]
}

/// The endings of the future. The consonant that marks the tense is matched
/// but stays with the stem; the passive marker leaves with the ending.
pub open spec fn future_rules() -> Seq<SuffixRule> {
    seq![
        SuffixRule { suffix: "θησομαι", strip: 7, category: Category::FutPassIndReg },
        SuffixRule { suffix: "σομαι", strip: 4, category: Category::FutMidIndReg },
        SuffixRule { suffix: "ξομαι", strip: 4, category: Category::FutMidIndReg },
        SuffixRule { suffix: "σω", strip: 1, category: Category::FutActIndReg },
        SuffixRule { suffix: "ξω", strip: 1, category: Category::FutActIndReg },
        SuffixRule { suffix: "ψω", strip: 1, category: Category::FutActIndReg },
        SuffixRule { suffix: "ουμαι", strip: 5, category: Category::FutMidIndEps },
        SuffixRule { suffix: "ω", strip: 1, category: Category::FutActIndEps },
    ]
}

/// The endings of an alternate future: those of the future but for "ψω".
pub open spec fn future_alternate_rules() -> Seq<SuffixRule> {
    seq![
        SuffixRule { suffix: "θησομαι", strip: 7, category: Category::FutPassIndReg },
        SuffixRule { suffix: "σομαι", strip: 4, category: Category::FutMidIndReg },
        SuffixRule { suffix: "ξομαι", strip: 4, category: Category::FutMidIndReg },
        SuffixRule { suffix: "σω", strip: 1, category: Category::FutActIndReg },
        SuffixRule { suffix: "ξω", strip: 1, category: Category::FutActIndReg },
        SuffixRule { suffix: "ουμαι", strip: 5, category: Category::FutMidIndEps },
        SuffixRule { suffix: "ω", strip: 1, category: Category::FutActIndEps },
    ]
}

/// The endings of the aorist active and middle, the plain "α" last.
pub open spec fn aorist_rules() -> Seq<SuffixRule> {
    seq![
        SuffixRule { suffix: "αμην", strip: 4, category: Category::AorMidIndWk },
        SuffixRule { suffix: "ομην", strip: 4, category: Category::AorMidIndStr },
        SuffixRule { suffix: "ην", strip: 2, category: Category::AorPassIndWk },
        SuffixRule { suffix: "ον", strip: 2, category: Category::AorActIndStr },
        SuffixRule { suffix: "α", strip: 1, category: Category::AorActIndWk },
    ]
}

/// The one ending of the aorist passive.
pub open spec fn aorist_passive_rules() -> Seq<SuffixRule> {
    seq![SuffixRule { suffix: "ην", strip: 2, category: Category::AorPassIndWk }]
}

/// The ending table of a principal part.
pub open spec fn suffix_rules(part: PrincipalPart) -> Seq<SuffixRule> {
    match part {
        PrincipalPart::Present => present_rules(),
        PrincipalPart::Future => future_rules(),
        PrincipalPart::FutureAlternate => future_alternate_rules(),
        PrincipalPart::Aorist => aorist_rules(),
        PrincipalPart::AoristPassive => aorist_passive_rules(),
    }
}

/// The variant that `rules` give `text`: category and stem by the first rule
/// whose suffix ends the text, or none where no suffix does.
pub open spec fn first_suffix_match(rules: Seq<SuffixRule>, text: Seq<char>) -> Option<StemVariant>
    decreases rules.len(),
{
    if rules.len() == 0 {
        None
    } else if rules[0].suffix@.is_suffix_of(text) {
        Some(
            StemVariant {
                category: rules[0].category,
                stem: text.take(text.len() - rules[0].strip),
            },
        )
    } else {
        first_suffix_match(rules.drop_first(), text)
    }
}

/// The variant that `text` is classified as when read as `part`.
pub open spec fn classify(part: PrincipalPart, text: Seq<char>) -> Option<StemVariant> {
    first_suffix_match(suffix_rules(part), text)
}

/// The variant of an optional text: none where there is no text.
pub open spec fn classify_optional(part: PrincipalPart, text: Option<Seq<char>>) -> Option<
    StemVariant,
> {
    match text {
        Some(t) => classify(part, t),
        None => None,
    }
}

/// What a stem set is: each slot's variant, where the principal part was
/// given and could be classified.
pub struct StemSet {
    pub present: Option<StemVariant>,
    pub future: Option<StemVariant>,
    pub future_alt: Option<StemVariant>,
    pub aorist: Option<StemVariant>,
    pub aorist_alt: Option<StemVariant>,
    pub aorist_passive: Option<StemVariant>,
    pub aorist_passive_alt: Option<StemVariant>,
}

/// The stem set of a verb's split principal parts, each slot classified by
/// the table of its own principal part.
pub open spec fn classify_all(parts: Alternates) -> StemSet {
    StemSet {
        present: classify_optional(PrincipalPart::Present, parts.present),
        future: classify_optional(PrincipalPart::Future, parts.future),
        future_alt: classify_optional(PrincipalPart::FutureAlternate, parts.future_alt),
        aorist: classify_optional(PrincipalPart::Aorist, parts.aorist),
        aorist_alt: classify_optional(PrincipalPart::Aorist, parts.aorist_alt),
        aorist_passive: classify_optional(PrincipalPart::AoristPassive, parts.aorist_passive),
        aorist_passive_alt: classify_optional(
            PrincipalPart::AoristPassive,
            parts.aorist_passive_alt,
        ),
    }
}

/// A text whose last letter differs from the last letter of `suffix` does
/// not end with `suffix`.
pub proof fn lemma_other_last_letter(suffix: Seq<char>, text: Seq<char>)
    requires
        suffix.len() > 0,
        text.len() > 0,
        suffix.last() != text.last(),
    ensures
        !suffix.is_suffix_of(text),
{
    if suffix.len() <= text.len() {
        let tail = text.subrange(text.len() - suffix.len(), text.len() as int);
        assert(tail[suffix.len() - 1] == text.last());
    }
}

/// A text that does not have the first letter of a two-letter `suffix`
/// before its last letter does not end with `suffix`.
pub proof fn lemma_other_letter_before_last(suffix: Seq<char>, text: Seq<char>)
    requires
        suffix.len() == 2,
        text.len() >= 2 ==> text[text.len() - 2] != suffix[0],
    ensures
        !suffix.is_suffix_of(text),
{
    if text.len() >= 2 {
        let tail = text.subrange(text.len() - 2, text.len() as int);
        assert(tail[0] == text[text.len() - 2]);
    }
}

/// A present that ends in "ω", with none of "α", "ε" and "ο" before it, is
/// a regular active present, and its stem is the text without that "ω".
pub proof fn lemma_plain_omega_is_regular_present(text: Seq<char>)
    requires
        text.len() > 0,
        text.last() == 'ω',
        text.len() >= 2 ==> {
            let before = text[text.len() - 2];
            before != 'α' && before != 'ε' && before != 'ο'
        },
    ensures
        classify(PrincipalPart::Present, text) == Some(
            StemVariant { category: Category::PresActIndReg, stem: text.drop_last() },
        ),
{
    reveal_strlit("αομαι");
    reveal_strlit("εομαι");
    reveal_strlit("οομαι");
    reveal_strlit("ομαι");
    reveal_strlit("αω");
    reveal_strlit("εω");
    reveal_strlit("οω");
    reveal_strlit("ω");
    let rules = present_rules();
    lemma_other_last_letter("αομαι"@, text);
    lemma_other_last_letter("εομαι"@, text);
    lemma_other_last_letter("οομαι"@, text);
    lemma_other_last_letter("ομαι"@, text);
    lemma_other_letter_before_last("αω"@, text);
    lemma_other_letter_before_last("εω"@, text);
    lemma_other_letter_before_last("οω"@, text);
    assert("ω"@ =~= text.subrange(text.len() - 1, text.len() as int));
    assert(text.take(text.len() - 1) =~= text.drop_last());
    lemma_first_suffix_match_at(rules, text, 7);
}

/// Where the rule at `index` is the first of `rules` whose suffix ends
/// `text`, it is the one that classifies.
pub proof fn lemma_first_suffix_match_at(rules: Seq<SuffixRule>, text: Seq<char>, index: int)
    requires
        0 <= index < rules.len(),
        rules[index].suffix@.is_suffix_of(text),
        forall|k: int| 0 <= k < index ==> !(#[trigger] rules[k]).suffix@.is_suffix_of(text),
    ensures
        first_suffix_match(rules, text) == Some(
            StemVariant {
                category: rules[index].category,
                stem: text.take(text.len() - rules[index].strip),
            },
        ),
    decreases index,
{
    if index > 0 {
        let rest = rules.drop_first();
        assert(!rules[0].suffix@.is_suffix_of(text));
        assert forall|k: int| 0 <= k < index - 1 implies !(#[trigger] rest[k]).suffix@.is_suffix_of(
            text,
        ) by {
            assert(rest[k] == rules[k + 1]);
        }
        lemma_first_suffix_match_at(rest, text, index - 1);
    }
}

impl PrincipalPart {
    /// The ending table of this principal part as a vector.
    pub fn suffix_table(self) -> (table: Vec<SuffixRule>)
        ensures
            table@ == suffix_rules(self),
            forall|i: int| 0 <= i < table@.len() ==> (#[trigger] table@[i]).well_formed(),
    {
        proof {
            reveal_strlit("αομαι");
            reveal_strlit("εομαι");
            reveal_strlit("οομαι");
            reveal_strlit("ομαι");
            reveal_strlit("αω");
            reveal_strlit("εω");
            reveal_strlit("οω");
            reveal_strlit("ω");
            reveal_strlit("θησομαι");
            reveal_strlit("σομαι");
            reveal_strlit("ξομαι");
            reveal_strlit("σω");
            reveal_strlit("ξω");
            reveal_strlit("ψω");
            reveal_strlit("ουμαι");
            reveal_strlit("αμην");
            reveal_strlit("ομην");
            reveal_strlit("ην");
            reveal_strlit("ον");
            reveal_strlit("α");
        }
        match self {
            PrincipalPart::Present => {
                let table = vec![
                    SuffixRule { suffix: "αομαι", strip: 5, category: Category::PresPassIndAlp },
                    SuffixRule { suffix: "εομαι", strip: 5, category: Category::PresPassIndEps },
                    SuffixRule { suffix: "οομαι", strip: 5, category: Category::PresPassIndOmi },
                    SuffixRule { suffix: "ομαι", strip: 4, category: Category::PresPassIndReg },
                    SuffixRule { suffix: "αω", strip: 2, category: Category::PresActIndAlp },
                    SuffixRule { suffix: "εω", strip: 2, category: Category::PresActIndEps },
                    SuffixRule { suffix: "οω", strip: 2, category: Category::PresActIndOmi },
                    SuffixRule { suffix: "ω", strip: 1, category: Category::PresActIndReg },
                ];
                assert(table@ =~= present_rules());
                table
            },
            PrincipalPart::Future => {
                let table = vec![
                    SuffixRule { suffix: "θησομαι", strip: 7, category: Category::FutPassIndReg },
                    SuffixRule { suffix: "σομαι", strip: 4, category: Category::FutMidIndReg },
                    SuffixRule { suffix: "ξομαι", strip: 4, category: Category::FutMidIndReg },
                    SuffixRule { suffix: "σω", strip: 1, category: Category::FutActIndReg },
                    SuffixRule { suffix: "ξω", strip: 1, category: Category::FutActIndReg },
                    SuffixRule { suffix: "ψω", strip: 1, category: Category::FutActIndReg },
                    SuffixRule { suffix: "ουμαι", strip: 5, category: Category::FutMidIndEps },
                    SuffixRule { suffix: "ω", strip: 1, category: Category::FutActIndEps },
                ];
                assert(table@ =~= future_rules());
                table
            },
            PrincipalPart::FutureAlternate => {
                let table = vec![
                    SuffixRule { suffix: "θησομαι", strip: 7, category: Category::FutPassIndReg },
                    SuffixRule { suffix: "σομαι", strip: 4, category: Category::FutMidIndReg },
                    SuffixRule { suffix: "ξομαι", strip: 4, category: Category::FutMidIndReg },
                    SuffixRule { suffix: "σω", strip: 1, category: Category::FutActIndReg },
                    SuffixRule { suffix: "ξω", strip: 1, category: Category::FutActIndReg },
                    SuffixRule { suffix: "ουμαι", strip: 5, category: Category::FutMidIndEps },
                    SuffixRule { suffix: "ω", strip: 1, category: Category::FutActIndEps },
                ];
                assert(table@ =~= future_alternate_rules());
                table
            },
            PrincipalPart::Aorist => {
                let table = vec![
                    SuffixRule { suffix: "αμην", strip: 4, category: Category::AorMidIndWk },
                    SuffixRule { suffix: "ομην", strip: 4, category: Category::AorMidIndStr },
                    SuffixRule { suffix: "ην", strip: 2, category: Category::AorPassIndWk },
                    SuffixRule { suffix: "ον", strip: 2, category: Category::AorActIndStr },
                    SuffixRule { suffix: "α", strip: 1, category: Category::AorActIndWk },
                ];
                assert(table@ =~= aorist_rules());
                table
            },
            PrincipalPart::AoristPassive => {
                let table = vec![
                    SuffixRule { suffix: "ην", strip: 2, category: Category::AorPassIndWk },
                ];
                assert(table@ =~= aorist_passive_rules());
                table
            },
        }
    }

    /// Classifies `text`, read as this principal part: the category and bare
    /// stem by the first ending of the table that it ends with, or nothing
    /// where it ends with none of them.
    pub fn classify(self, text: &str) -> (variant: Option<TenseVoiceMoodVariant>)
        ensures
            variant_view(variant) == classify(self, text@),
    {
        let table = self.suffix_table();
        let count: usize = letter_count(text);
        let mut i: usize = 0;
        assert(table@.skip(0) =~= table@);
        while i < table.len()
            invariant
                i <= table@.len(),
                count == text@.len(),
                table@ == suffix_rules(self),
                forall|k: int| 0 <= k < table@.len() ==> (#[trigger] table@[k]).well_formed(),
                first_suffix_match(table@, text@) == first_suffix_match(
                    table@.skip(i as int),
                    text@,
                ),
            decreases table@.len() - i,
        {
            let rule = &table[i];
            proof {
                assert(table@.skip(i as int)[0] == table@[i as int]);
                assert(table@.skip(i as int).drop_first() =~= table@.skip(i + 1));
            }
            if ends_with(text, rule.suffix) {
                assert(rule.well_formed());
                let stem = String::from_str(take_letters(text, count - rule.strip));
                return Some(TenseVoiceMoodVariant::new(rule.category, stem));
            }
            i += 1;
        }
        None
    }
}

/// The classified stems of one verb, one slot for each principal part and
/// for each alternate.
#[derive(Debug, PartialEq, Eq)]
pub struct VerbStemSet {
    pub pres_stem: Option<TenseVoiceMoodVariant>,
    pub fut_stem: Option<TenseVoiceMoodVariant>,
    pub fut_stem_alt: Option<TenseVoiceMoodVariant>,
    pub aorist_stem: Option<TenseVoiceMoodVariant>,
    pub aorist_stem_alt: Option<TenseVoiceMoodVariant>,
    pub aor_pass_stem: Option<TenseVoiceMoodVariant>,
    pub aor_pass_stem_alt: Option<TenseVoiceMoodVariant>,
}

impl View for VerbStemSet {
    type V = StemSet;

    open spec fn view(&self) -> StemSet {
        StemSet {
            present: variant_view(self.pres_stem),
            future: variant_view(self.fut_stem),
            future_alt: variant_view(self.fut_stem_alt),
            aorist: variant_view(self.aorist_stem),
            aorist_alt: variant_view(self.aorist_stem_alt),
            aorist_passive: variant_view(self.aor_pass_stem),
            aorist_passive_alt: variant_view(self.aor_pass_stem_alt),
        }
    }
}

/// Classifies an optional text as `part`.
fn classify_slot(part: PrincipalPart, text: &Option<String>) -> (variant: Option<
    TenseVoiceMoodVariant,
>)
    ensures
        variant_view(variant) == classify_optional(part, crate::text::text_view(*text)),
{
    match text {
        Some(t) => part.classify(t.as_str()),
        None => None,
    }
}

impl VerbAlternates {
    /// Classifies each principal part and each alternate into its stem.
    pub fn parse(&self) -> (stems: VerbStemSet)
        ensures
            stems@ == classify_all(self@),
    {
        VerbStemSet {
            pres_stem: classify_slot(PrincipalPart::Present, &self.present),
            fut_stem: classify_slot(PrincipalPart::Future, &self.future),
            fut_stem_alt: classify_slot(PrincipalPart::FutureAlternate, &self.future_alt),
            aorist_stem: classify_slot(PrincipalPart::Aorist, &self.aorist),
            aorist_stem_alt: classify_slot(PrincipalPart::Aorist, &self.aorist_alt),
            aor_pass_stem: classify_slot(PrincipalPart::AoristPassive, &self.aorist_passive),
            aor_pass_stem_alt: classify_slot(
                PrincipalPart::AoristPassive,
                &self.aorist_passive_alt,
            ),
        }
    }
}

} // verus!
