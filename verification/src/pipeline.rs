//! From the principal parts of a verb to its paradigm.

use crate::conjugate::{
    active_present, any_present, cell_forms, diagnostics, diagnostics_of, fits, generate,
    six_forms_each, slots, stem_in, Cell, Contraction, Paradigm, Slot, Verb,
};
use crate::entry::{split_alternates, Alternates, PrincipalParts, VerbEntry};
use crate::stems::{
    classify, classify_all, classify_optional, first_suffix_match, lemma_first_suffix_match_at,
    lemma_other_last_letter, present_rules, suffix_rules, PrincipalPart, StemSet, SuffixRule,
};
use crate::types::{Category, StemVariant};
use vstd::prelude::*;

verus! {

/// The paradigm of a verb with the principal parts `parts`: alternates
/// split off, each form classified, every cell generated.
pub open spec fn paradigm_of(parts: PrincipalParts) -> Paradigm {
    generate(classify_all(split_alternates(parts)))
}

/// A present that ends in "ω" is classified, and as an active present.
pub proof fn lemma_omega_present_is_active(text: Seq<char>)
    requires
        "ω"@.is_suffix_of(text),
    ensures
        classify(PrincipalPart::Present, text) is Some,
        active_present(classify(PrincipalPart::Present, text)->0.category) is Some,
{
    reveal_strlit("αομαι");
    reveal_strlit("εομαι");
    reveal_strlit("οομαι");
    reveal_strlit("ομαι");
    reveal_strlit("αω");
    reveal_strlit("εω");
    reveal_strlit("οω");
    reveal_strlit("ω");
    let rules = present_rules();
    assert(text.subrange(text.len() - 1, text.len() as int)[0] == text.last());
    lemma_other_last_letter("αομαι"@, text);
    lemma_other_last_letter("εομαι"@, text);
    lemma_other_last_letter("οομαι"@, text);
    lemma_other_last_letter("ομαι"@, text);
    if "αω"@.is_suffix_of(text) {
        lemma_first_suffix_match_at(rules, text, 4);
    } else if "εω"@.is_suffix_of(text) {
        lemma_first_suffix_match_at(rules, text, 5);
    } else if "οω"@.is_suffix_of(text) {
        lemma_first_suffix_match_at(rules, text, 6);
    } else {
        lemma_first_suffix_match_at(rules, text, 7);
    }
}

/// A verb of which only the present is given has none of the future and
/// aorist cells; and where that present ends in "ω", it has both present
/// cells.
pub proof fn lemma_present_only(parts: PrincipalParts)
    requires
        parts.present is Some,
        parts.future is None,
        parts.aorist is None,
        parts.aorist_passive is None,
    ensures
        ({
            let verb = paradigm_of(parts);
            &&& verb.fai is None
            &&& verb.fai2 is None
            &&& verb.fmi is None
            &&& verb.fmi2 is None
            &&& verb.fpi is None
            &&& verb.fpi2 is None
            &&& verb.aai is None
            &&& verb.aai2 is None
            &&& verb.ami is None
            &&& verb.ami2 is None
            &&& verb.api is None
            &&& verb.api2 is None
            &&& "ω"@.is_suffix_of(parts.present->0) ==> verb.pai is Some && verb.ppi is Some
        }),
{
    if "ω"@.is_suffix_of(parts.present->0) {
        lemma_omega_present_is_active(parts.present->0);
    }
}

/// The principal part whose ending table classifies the stem of `slot`.
pub open spec fn part_of(slot: Slot) -> PrincipalPart {
    match slot {
        Slot::Present => PrincipalPart::Present,
        Slot::Future => PrincipalPart::Future,
        Slot::FutureAlt => PrincipalPart::FutureAlternate,
        Slot::Aorist | Slot::AoristAlt => PrincipalPart::Aorist,
        Slot::AoristPassive | Slot::AoristPassiveAlt => PrincipalPart::AoristPassive,
    }
}

/// A text is classified under the category of one of the rules.
pub proof fn lemma_category_is_of_a_rule(rules: Seq<SuffixRule>, text: Seq<char>)
    ensures
        first_suffix_match(rules, text) is Some ==> exists|k: int|
            0 <= k < rules.len() && (#[trigger] rules[k]).category == first_suffix_match(
                rules,
                text,
            )->0.category,
{
    lemma_classified_by_a_rule(rules, text);
}

/// Whatever a principal part is classified as gives cells in each slot that
/// its ending table serves.
pub proof fn lemma_classified_fits(slot: Slot, text: Seq<char>)
    ensures
        classify(part_of(slot), text) is Some ==> fits(
            slot,
            classify(part_of(slot), text)->0.category,
        ),
{
    let rules = suffix_rules(part_of(slot));
    lemma_category_is_of_a_rule(rules, text);
    assert forall|k: int| 0 <= k < rules.len() implies fits(slot, (#[trigger] rules[k]).category) by {
    }
}

/// Where every stem of the first slots fits its slot, there is no diagnostic.
pub proof fn lemma_fitting_stems_are_silent(verb: StemSet, first: Seq<Slot>)
    requires
        forall|i: int|
            0 <= i < first.len() && stem_in(verb, #[trigger] first[i]) is Some ==> fits(
                first[i],
                stem_in(verb, first[i])->0.category,
            ),
    ensures
        diagnostics_of(verb, first) == Seq::<Seq<char>>::empty(),
    decreases first.len(),
{
    if first.len() > 0 {
        let before = first.drop_last();
        assert forall|i: int|
            0 <= i < before.len() && stem_in(verb, #[trigger] before[i]) is Some implies fits(
            before[i],
            stem_in(verb, before[i])->0.category,
        ) by {
            assert(before[i] == first[i]);
        }
        lemma_fitting_stems_are_silent(verb, before);
        assert(first.last() == first[first.len() - 1]);
    }
}

/// Stems that come from classifying a verb's principal parts give rise to
/// no diagnostic: the ending tables and the cells agree on the categories.
pub proof fn lemma_classified_stems_are_silent(parts: Alternates)
    ensures
        diagnostics(classify_all(parts)) == Seq::<Seq<char>>::empty(),
{
    let verb = classify_all(parts);
    let all = slots();
    assert forall|i: int| 0 <= i < all.len() && stem_in(verb, #[trigger] all[i]) is Some implies fits(
        all[i],
        stem_in(verb, all[i])->0.category,
    ) by {
        let slot = all[i];
        let text = match slot {
            Slot::Present => parts.present,
            Slot::Future => parts.future,
            Slot::FutureAlt => parts.future_alt,
            Slot::Aorist => parts.aorist,
            Slot::AoristAlt => parts.aorist_alt,
            Slot::AoristPassive => parts.aorist_passive,
            Slot::AoristPassiveAlt => parts.aorist_passive_alt,
        };
        assert(stem_in(verb, slot) == classify_optional(part_of(slot), text));
        lemma_classified_fits(slot, text->0);
    }
    lemma_fitting_stems_are_silent(verb, all);
}

/// Whether `category` is a present whose stem vowel fuses with the endings.
pub open spec fn is_contracted_present(category: Category) -> bool {
    any_present(category) is Some && any_present(category) != Some(Contraction::Regular)
}

/// The cell that a principal part is itself a form of: the first person
/// singular of its own tense and voice.
pub open spec fn citation_cell(part: PrincipalPart, category: Category) -> Cell {
    match part {
        PrincipalPart::Present => if active_present(category) is Some {
            Cell::PresentActive
        } else {
            Cell::PresentPassive
        },
        PrincipalPart::Future | PrincipalPart::FutureAlternate => match category {
            Category::FutMidIndReg | Category::FutMidIndEps => Cell::FutureMiddle,
            _ => Cell::FutureActive,
        },
        PrincipalPart::Aorist => match category {
            Category::AorMidIndWk | Category::AorMidIndStr => Cell::AoristMiddle,
            _ => Cell::AoristActive,
        },
        PrincipalPart::AoristPassive => Cell::AoristPassive,
    }
}

/// A text that ends with `suffix` is its stem, bared of the last `strip`
/// letters, followed by the last `strip` letters of `suffix`.
pub proof fn lemma_stem_and_ending(
    text: Seq<char>,
    suffix: Seq<char>,
    strip: int,
    ending: Seq<char>,
)
    requires
        suffix.is_suffix_of(text),
        0 <= strip <= suffix.len(),
        suffix.skip(suffix.len() - strip) == ending,
    ensures
        text.take(text.len() - strip) + ending == text,
{
    let tail = text.subrange(text.len() - suffix.len(), text.len() as int);
    assert(tail.skip(suffix.len() - strip) =~= text.skip(text.len() - strip));
    assert(text.take(text.len() - strip) + text.skip(text.len() - strip) =~= text);
}

/// A text that is classified is classified by one of the rules, whose
/// suffix ends it.
pub proof fn lemma_classified_by_a_rule(rules: Seq<SuffixRule>, text: Seq<char>)
    ensures
        first_suffix_match(rules, text) is Some ==> exists|k: int|
            0 <= k < rules.len() && (#[trigger] rules[k]).suffix@.is_suffix_of(text)
                && first_suffix_match(rules, text) == Some(
                StemVariant {
                    category: rules[k].category,
                    stem: text.take(text.len() - rules[k].strip),
                },
            ),
    decreases rules.len(),
{
    if rules.len() > 0 && !rules[0].suffix@.is_suffix_of(text) {
        let rest = rules.drop_first();
        lemma_classified_by_a_rule(rest, text);
        if first_suffix_match(rest, text) is Some {
            let k = choose|k: int|
                0 <= k < rest.len() && (#[trigger] rest[k]).suffix@.is_suffix_of(text)
                    && first_suffix_match(rest, text) == Some(
                    StemVariant {
                        category: rest[k].category,
                        stem: text.take(text.len() - rest[k].strip),
                    },
                );
            assert(rules[k + 1] == rest[k]);
        }
    }
}

/// A principal part comes back as the first form of its own cell: the stem
/// that classification bares, followed by the first ending of that cell, is
/// the text that was classified. A contracted present is the exception: it
/// is given uncontracted, and its first form is the contracted one.
pub proof fn lemma_principal_part_is_first_form(
    part: PrincipalPart,
    text: Seq<char>,
    verb: StemSet,
)
    requires
        classify(part, text) is Some,
        !is_contracted_present(classify(part, text)->0.category),
    ensures
        ({
            let variant = classify(part, text)->0;
            let forms = cell_forms(citation_cell(part, variant.category), Some(variant), verb);
            forms is Some && forms->0[0] == text
        }),
{
    reveal_strlit("ομαι");
    reveal_strlit("ω");
    reveal_strlit("θησομαι");
    reveal_strlit("σομαι");
    reveal_strlit("ξομαι");
    reveal_strlit("σω");
    reveal_strlit("ξω");
    reveal_strlit("ψω");
    reveal_strlit("ουμαι");
    reveal_strlit("αμην");
    reveal_strlit("ομην");
    reveal_strlit("ην");
    reveal_strlit("ον");
    reveal_strlit("α");
    let rules = suffix_rules(part);
    lemma_classified_by_a_rule(rules, text);
    let k = choose|k: int|
        0 <= k < rules.len() && (#[trigger] rules[k]).suffix@.is_suffix_of(text)
            && first_suffix_match(rules, text) == Some(
            StemVariant {
                category: rules[k].category,
                stem: text.take(text.len() - rules[k].strip),
            },
        );
    match part {
        PrincipalPart::Present => {
            if k == 3 {
                assert("ομαι"@.skip(0) =~= "ομαι"@);
                lemma_stem_and_ending(text, "ομαι"@, 4, "ομαι"@);
            } else if k == 7 {
                assert("ω"@.skip(0) =~= "ω"@);
                lemma_stem_and_ending(text, "ω"@, 1, "ω"@);
            }
        },
        PrincipalPart::Future => {
            if k == 0 {
                assert("θησομαι"@.skip(0) =~= "θησομαι"@);
                lemma_stem_and_ending(text, "θησομαι"@, 7, "θησομαι"@);
            } else if k == 1 {
                assert("σομαι"@.skip(1) =~= "ομαι"@);
                lemma_stem_and_ending(text, "σομαι"@, 4, "ομαι"@);
            } else if k == 2 {
                assert("ξομαι"@.skip(1) =~= "ομαι"@);
                lemma_stem_and_ending(text, "ξομαι"@, 4, "ομαι"@);
            } else if k == 3 {
                assert("σω"@.skip(1) =~= "ω"@);
                lemma_stem_and_ending(text, "σω"@, 1, "ω"@);
            } else if k == 4 {
                assert("ξω"@.skip(1) =~= "ω"@);
                lemma_stem_and_ending(text, "ξω"@, 1, "ω"@);
            } else if k == 5 {
                assert("ψω"@.skip(1) =~= "ω"@);
                lemma_stem_and_ending(text, "ψω"@, 1, "ω"@);
            } else if k == 6 {
                assert("ουμαι"@.skip(0) =~= "ουμαι"@);
                lemma_stem_and_ending(text, "ουμαι"@, 5, "ουμαι"@);
            } else if k == 7 {
                assert("ω"@.skip(0) =~= "ω"@);
                lemma_stem_and_ending(text, "ω"@, 1, "ω"@);
            }
        },
        PrincipalPart::FutureAlternate => {
            if k == 0 {
                assert("θησομαι"@.skip(0) =~= "θησομαι"@);
                lemma_stem_and_ending(text, "θησομαι"@, 7, "θησομαι"@);
            } else if k == 1 {
                assert("σομαι"@.skip(1) =~= "ομαι"@);
                lemma_stem_and_ending(text, "σομαι"@, 4, "ομαι"@);
            } else if k == 2 {
                assert("ξομαι"@.skip(1) =~= "ομαι"@);
                lemma_stem_and_ending(text, "ξομαι"@, 4, "ομαι"@);
            } else if k == 3 {
                assert("σω"@.skip(1) =~= "ω"@);
                lemma_stem_and_ending(text, "σω"@, 1, "ω"@);
            } else if k == 4 {
                assert("ξω"@.skip(1) =~= "ω"@);
                lemma_stem_and_ending(text, "ξω"@, 1, "ω"@);
            } else if k == 5 {
                assert("ουμαι"@.skip(0) =~= "ουμαι"@);
                lemma_stem_and_ending(text, "ουμαι"@, 5, "ουμαι"@);
            } else if k == 6 {
                assert("ω"@.skip(0) =~= "ω"@);
                lemma_stem_and_ending(text, "ω"@, 1, "ω"@);
            }
        },
        PrincipalPart::Aorist => {
            if k == 0 {
                assert("αμην"@.skip(0) =~= "αμην"@);
                lemma_stem_and_ending(text, "αμην"@, 4, "αμην"@);
            } else if k == 1 {
                assert("ομην"@.skip(0) =~= "ομην"@);
                lemma_stem_and_ending(text, "ομην"@, 4, "ομην"@);
            } else if k == 2 {
                assert("ην"@.skip(0) =~= "ην"@);
                lemma_stem_and_ending(text, "ην"@, 2, "ην"@);
            } else if k == 3 {
                assert("ον"@.skip(0) =~= "ον"@);
                lemma_stem_and_ending(text, "ον"@, 2, "ον"@);
            } else if k == 4 {
                assert("α"@.skip(0) =~= "α"@);
                lemma_stem_and_ending(text, "α"@, 1, "α"@);
            }
        },
        PrincipalPart::AoristPassive => {
            if k == 0 {
                assert("ην"@.skip(0) =~= "ην"@);
                lemma_stem_and_ending(text, "ην"@, 2, "ην"@);
            }
        },
    }
}

/// Conjugates one verb from its principal parts.
pub fn conjugate_entry(entry: &VerbEntry) -> (verb: Verb)
    ensures
        verb@ == paradigm_of(entry@),
        six_forms_each(verb@),
{
    entry.check_alternates().parse().conjugate()
}

/// Conjugates every verb of `entries`, in their order.
pub fn conjugate_all(entries: &Vec<VerbEntry>) -> (verbs: Vec<Verb>)
    ensures
        verbs@.len() == entries@.len(),
        forall|i: int|
            0 <= i < entries@.len() ==> (#[trigger] verbs@[i])@ == paradigm_of(entries@[i]@),
        forall|i: int| 0 <= i < entries@.len() ==> six_forms_each((#[trigger] verbs@[i])@),
{
    let mut verbs: Vec<Verb> = Vec::new();
    let mut i: usize = 0;
    while i < entries.len()
        invariant
            i <= entries@.len(),
            verbs@.len() == i,
            forall|k: int| 0 <= k < i ==> (#[trigger] verbs@[k])@ == paradigm_of(entries@[k]@),
            forall|k: int| 0 <= k < i ==> six_forms_each((#[trigger] verbs@[k])@),
        decreases entries@.len() - i,
    {
        verbs.push(conjugate_entry(&entries[i]));
        i += 1;
    }
    verbs
}

} // verus!
