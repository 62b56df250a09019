//! Generating the cells of a paradigm from the classified stems.
//!
//! A cell is a base (the stem, augmented or restored where the tense asks
//! for it) followed in turn by each of the six endings of an ending set.
//! Which ending set a cell takes, if any, follows from the category of the
//! stem in its slot.

use crate::augment::{forward, inverse};
use crate::stems::{StemSet, VerbStemSet};
use crate::types::{
    description, forms_view, variant_view, Category, Conjugated, StemVariant, TenseVoiceMoodVariant,
};
use vstd::prelude::*;
use vstd::string::*;

verus! {

/// How a stem's final vowel fuses with the endings.
#[derive(Clone, Copy, PartialEq, Eq, Structural, Debug)]
pub enum Contraction {
    Regular,
    Alpha,
    Epsilon,
    Omicron,
}

/// The sets of six endings, each in the order first, second, third person
/// singular, then plural.
#[derive(Clone, Copy, PartialEq, Eq, Structural, Debug)]
pub enum EndingSet {
    PrimaryActive(Contraction),
    PrimaryMiddle(Contraction),
    SecondaryActive(Contraction),
    SecondaryMiddle(Contraction),
    WeakAoristActive,
    WeakAoristMiddle,
    AoristPassive,
    FuturePassive,
    DeponentFuture,
}

/// The six endings of an ending set.
pub open spec fn ending_table(set: EndingSet) -> Seq<Seq<char>> {
    match set {
        EndingSet::PrimaryActive(Contraction::Regular) => seq!["ω"@, "εις"@, "ει"@, "ομεν"@, "ετε"@, "ουσι"@],
        EndingSet::PrimaryActive(Contraction::Alpha) => seq!["ω"@, "ᾳς"@, "ᾳ"@, "ωμεν"@, "ατε"@, "ωσι"@],
        EndingSet::PrimaryActive(Contraction::Epsilon) => seq!["ω"@, "εις"@, "ει"@, "ουμεν"@, "ειτε"@, "ουσι"@],
        EndingSet::PrimaryActive(Contraction::Omicron) => seq!["ω"@, "οις"@, "οι"@, "ουμεν"@, "ουτε"@, "ουσι"@],
        EndingSet::PrimaryMiddle(Contraction::Regular) => seq!["ομαι"@, "ῃ"@, "εται"@, "ομεθα"@, "εσθε"@, "ονται"@],
        EndingSet::PrimaryMiddle(Contraction::Alpha) => seq!["ωμαι"@, "ῳ"@, "αται"@, "ωμεθα"@, "ασθε"@, "ωνται"@],
        EndingSet::PrimaryMiddle(Contraction::Epsilon) => seq!["ουμαι"@, "ῃ"@, "ειται"@, "ουμεθα"@, "εισθε"@, "ουνται"@],
        EndingSet::PrimaryMiddle(Contraction::Omicron) => seq!["ουμαι"@, "ου"@, "ουται"@, "ουμεθα"@, "ουσθε"@, "ουνται"@],
        EndingSet::SecondaryActive(Contraction::Regular) => seq!["ον"@, "ες"@, "ε"@, "ομεν"@, "ετε"@, "ον"@],
        EndingSet::SecondaryActive(Contraction::Alpha) => seq!["ων"@, "ας"@, "α"@, "ωμεν"@, "ατε"@, "ων"@],
        EndingSet::SecondaryActive(Contraction::Epsilon) => seq!["ουν"@, "εις"@, "ει"@, "ουμεν"@, "ειτε"@, "ουν"@],
        EndingSet::SecondaryActive(Contraction::Omicron) => seq!["ουν"@, "ους"@, "ου"@, "ουμεν"@, "ουτε"@, "ουν"@],
        EndingSet::SecondaryMiddle(Contraction::Regular) => seq!["ομην"@, "ου"@, "ετο"@, "ομεθα"@, "εσθε"@, "οντο"@],
        EndingSet::SecondaryMiddle(Contraction::Alpha) => seq!["ωμην"@, "ω"@, "ατο"@, "ωμεθα"@, "ασθε"@, "ωντο"@],
        EndingSet::SecondaryMiddle(Contraction::Epsilon) => seq!["ουμην"@, "ου"@, "ειτο"@, "ουμεθα"@, "εισθε"@, "ουντο"@],
        EndingSet::SecondaryMiddle(Contraction::Omicron) => seq!["ουμην"@, "ου"@, "ουτο"@, "ουμεθα"@, "ουσθε"@, "ουντο"@],
        EndingSet::WeakAoristActive => seq!["α"@, "ας"@, "ε"@, "αμεν"@, "ατε"@, "αν"@],
        EndingSet::WeakAoristMiddle => seq!["αμην"@, "ω"@, "ατο"@, "αμεθα"@, "ασθε"@, "αντο"@],
        EndingSet::AoristPassive => seq!["ην"@, "ης"@, "η"@, "ημεν"@, "ητε"@, "ησαν"@],
        EndingSet::FuturePassive => seq!["ησομαι"@, "ησῃ"@, "ησεται"@, "ησομεθα"@, "ησεσθε"@, "ησονται"@],
        EndingSet::DeponentFuture => seq!["θησομαι"@, "θησῃ"@, "θησεται"@, "θησομεθα"@, "θησεσθε"@, "θησονται"@],
    }
}

/// The ten kinds of cell. A future, aorist or aorist-passive cell exists
/// once for the primary form and once for the alternate.
#[derive(Clone, Copy, PartialEq, Eq, Structural, Debug)]
pub enum Cell {
    PresentActive,
    PresentPassive,
    ImperfectActive,
    ImperfectPassive,
    FutureActive,
    FutureMiddle,
    FuturePassive,
    AoristActive,
    AoristMiddle,
    AoristPassive,
}

/// The contraction of an active present, where `category` is one.
pub open spec fn active_present(category: Category) -> Option<Contraction> {
    match category {
        Category::PresActIndReg => Some(Contraction::Regular),
        Category::PresActIndAlp => Some(Contraction::Alpha),
        Category::PresActIndEps => Some(Contraction::Epsilon),
        Category::PresActIndOmi => Some(Contraction::Omicron),
        _ => None,
    }
}

/// The contraction of a present of either voice, where `category` is one.
pub open spec fn any_present(category: Category) -> Option<Contraction> {
    match category {
        Category::PresPassIndReg => Some(Contraction::Regular),
        Category::PresPassIndAlp => Some(Contraction::Alpha),
        Category::PresPassIndEps => Some(Contraction::Epsilon),
        Category::PresPassIndOmi => Some(Contraction::Omicron),
        _ => active_present(category),
    }
}

/// The ending set that a cell takes from a stem of `category`, or none where
/// a stem of that category has no such cell.
pub open spec fn ending_set(cell: Cell, category: Category) -> Option<EndingSet> {
    match cell {
        Cell::PresentActive => match active_present(category) {
            Some(c) => Some(EndingSet::PrimaryActive(c)),
            None => None,
        },
        Cell::PresentPassive => match any_present(category) {
            Some(c) => Some(EndingSet::PrimaryMiddle(c)),
            None => None,
        },
        Cell::ImperfectActive => match active_present(category) {
            Some(c) => Some(EndingSet::SecondaryActive(c)),
            None => None,
        },
        Cell::ImperfectPassive => match any_present(category) {
            Some(c) => Some(EndingSet::SecondaryMiddle(c)),
            None => None,
        },
        Cell::FutureActive => match category {
            Category::FutActIndReg => Some(EndingSet::PrimaryActive(Contraction::Regular)),
            Category::FutActIndEps => Some(EndingSet::PrimaryActive(Contraction::Epsilon)),
            Category::FutPassIndReg => Some(EndingSet::DeponentFuture),
            _ => None,
        },
        Cell::FutureMiddle => match category {
            Category::FutActIndReg | Category::FutMidIndReg => Some(
                EndingSet::PrimaryMiddle(Contraction::Regular),
            ),
            Category::FutActIndEps | Category::FutMidIndEps => Some(
                EndingSet::PrimaryMiddle(Contraction::Epsilon),
            ),
            _ => None,
        },
        Cell::FuturePassive => match category {
            Category::AorPassIndWk => Some(EndingSet::FuturePassive),
            _ => None,
        },
        Cell::AoristActive => match category {
            Category::AorActIndStr => Some(EndingSet::SecondaryActive(Contraction::Regular)),
            Category::AorActIndWk => Some(EndingSet::WeakAoristActive),
            Category::AorPassIndWk => Some(EndingSet::AoristPassive),
            _ => None,
        },
        Cell::AoristMiddle => match category {
            Category::AorActIndStr | Category::AorMidIndStr => Some(
                EndingSet::SecondaryMiddle(Contraction::Regular),
            ),
            Category::AorActIndWk | Category::AorMidIndWk => Some(EndingSet::WeakAoristMiddle),
            _ => None,
        },
        Cell::AoristPassive => match category {
            Category::AorPassIndWk => Some(EndingSet::AoristPassive),
            _ => None,
        },
    }
}

/// The base that a cell's endings follow: for an imperfect the augment and
/// the stem behind it, for a future passive the stem without its augment,
/// and else the stem as it is. The verb's other stems give the context.
pub open spec fn base(cell: Cell, stem: Seq<char>, verb: StemSet) -> Seq<char> {
    match cell {
        Cell::ImperfectActive | Cell::ImperfectPassive => {
            let parts = forward(verb.aorist, stem);
            parts.0 + parts.1
        },
        Cell::FuturePassive => inverse(verb.present, stem),
        _ => stem,
    }
}

/// `base` followed by each of `endings` in turn.
pub open spec fn inflect(base: Seq<char>, endings: Seq<Seq<char>>) -> Seq<Seq<char>> {
    Seq::new(endings.len(), |i: int| base + endings[i])
}

/// The forms of one cell, given the stem in the slot that the cell is built
/// from, or no cell where the slot is empty or its category has no such cell.
pub open spec fn cell_forms(cell: Cell, slot: Option<StemVariant>, verb: StemSet) -> Option<
    Seq<Seq<char>>,
> {
    match slot {
        Some(variant) => match ending_set(cell, variant.category) {
            Some(set) => Some(inflect(base(cell, variant.stem, verb), ending_table(set))),
            None => None,
        },
        None => None,
    }
}

/// What a conjugated verb is: its sixteen cells.
pub struct Paradigm {
    pub pai: Option<Seq<Seq<char>>>,
    pub ppi: Option<Seq<Seq<char>>>,
    pub iai: Option<Seq<Seq<char>>>,
    pub ipi: Option<Seq<Seq<char>>>,
    pub fai: Option<Seq<Seq<char>>>,
    pub fai2: Option<Seq<Seq<char>>>,
    pub fmi: Option<Seq<Seq<char>>>,
    pub fmi2: Option<Seq<Seq<char>>>,
    pub fpi: Option<Seq<Seq<char>>>,
    pub fpi2: Option<Seq<Seq<char>>>,
    pub aai: Option<Seq<Seq<char>>>,
    pub aai2: Option<Seq<Seq<char>>>,
    pub ami: Option<Seq<Seq<char>>>,
    pub ami2: Option<Seq<Seq<char>>>,
    pub api: Option<Seq<Seq<char>>>,
    pub api2: Option<Seq<Seq<char>>>,
}

/// The paradigm of a verb, each cell from the slot it belongs to.
pub open spec fn generate(verb: StemSet) -> Paradigm {
    Paradigm {
        pai: cell_forms(Cell::PresentActive, verb.present, verb),
        ppi: cell_forms(Cell::PresentPassive, verb.present, verb),
        iai: cell_forms(Cell::ImperfectActive, verb.present, verb),
        ipi: cell_forms(Cell::ImperfectPassive, verb.present, verb),
        fai: cell_forms(Cell::FutureActive, verb.future, verb),
        fai2: cell_forms(Cell::FutureActive, verb.future_alt, verb),
        fmi: cell_forms(Cell::FutureMiddle, verb.future, verb),
        fmi2: cell_forms(Cell::FutureMiddle, verb.future_alt, verb),
        fpi: cell_forms(Cell::FuturePassive, verb.aorist_passive, verb),
        fpi2: cell_forms(Cell::FuturePassive, verb.aorist_passive_alt, verb),
        aai: cell_forms(Cell::AoristActive, verb.aorist, verb),
        aai2: cell_forms(Cell::AoristActive, verb.aorist_alt, verb),
        ami: cell_forms(Cell::AoristMiddle, verb.aorist, verb),
        ami2: cell_forms(Cell::AoristMiddle, verb.aorist_alt, verb),
        api: cell_forms(Cell::AoristPassive, verb.aorist_passive, verb),
        api2: cell_forms(Cell::AoristPassive, verb.aorist_passive_alt, verb),
    }
}

/// The seven slots of a stem set, in the order in which they are conjugated.
#[derive(Clone, Copy, PartialEq, Eq, Structural, Debug)]
pub enum Slot {
    Present,
    Future,
    FutureAlt,
    Aorist,
    AoristAlt,
    AoristPassive,
    AoristPassiveAlt,
}

/// The seven slots in their order.
pub open spec fn slots() -> Seq<Slot> {
    seq![
        Slot::Present,
        Slot::Future,
        Slot::FutureAlt,
        Slot::Aorist,
        Slot::AoristAlt,
        Slot::AoristPassive,
        Slot::AoristPassiveAlt,
    ]
}

/// The stem that `verb` has in `slot`.
pub open spec fn stem_in(verb: StemSet, slot: Slot) -> Option<StemVariant> {
    match slot {
        Slot::Present => verb.present,
        Slot::Future => verb.future,
        Slot::FutureAlt => verb.future_alt,
        Slot::Aorist => verb.aorist,
        Slot::AoristAlt => verb.aorist_alt,
        Slot::AoristPassive => verb.aorist_passive,
        Slot::AoristPassiveAlt => verb.aorist_passive_alt,
    }
}

/// Whether a stem of `category` gives at least one of the cells of `slot`.
pub open spec fn fits(slot: Slot, category: Category) -> bool {
    match slot {
        Slot::Present => ending_set(Cell::PresentPassive, category) is Some,
        Slot::Future | Slot::FutureAlt => ending_set(Cell::FutureActive, category) is Some
            || ending_set(Cell::FutureMiddle, category) is Some,
        Slot::Aorist | Slot::AoristAlt => ending_set(Cell::AoristActive, category) is Some
            || ending_set(Cell::AoristMiddle, category) is Some,
        Slot::AoristPassive | Slot::AoristPassiveAlt => ending_set(Cell::AoristPassive, category)
            is Some,
    }
}

/// How the diagnostic for a stem that does not fit `slot` begins.
pub open spec fn complaint(slot: Slot) -> Seq<char> {
    match slot {
        Slot::Present => "Unable to conjugate present and imperfect for "@,
        Slot::Future => "Unable to conjugate future voice for "@,
        Slot::FutureAlt => "Unable to conjugate second future voice for "@,
        Slot::Aorist => "Unable to conjugate aorist active and middle for "@,
        Slot::AoristAlt => "Unable to conjugate second aorist active and middle for "@,
        Slot::AoristPassive => "Unable to conjugate aorist passive for "@,
        Slot::AoristPassiveAlt => "Unable to conjugate second aorist passive for "@,
    }
}

/// The diagnostic for a stem that does not fit `slot`: it names the cells
/// that are left out, the category of the stem, and the stem in quotes.
pub open spec fn diagnostic(slot: Slot, variant: StemVariant) -> Seq<char> {
    complaint(slot) + description(variant)
}

/// The diagnostics for the first slots of a verb, in their order: one for
/// each slot whose stem is of a category that gives none of its cells.
pub open spec fn diagnostics_of(verb: StemSet, slots: Seq<Slot>) -> Seq<Seq<char>>
    decreases slots.len(),
{
    if slots.len() == 0 {
        Seq::empty()
    } else {
        let before = diagnostics_of(verb, slots.drop_last());
        match stem_in(verb, slots.last()) {
            Some(variant) => if fits(slots.last(), variant.category) {
                before
            } else {
                before.push(diagnostic(slots.last(), variant))
            },
            None => before,
        }
    }
}

/// The diagnostics for a verb.
pub open spec fn diagnostics(verb: StemSet) -> Seq<Seq<char>> {
    diagnostics_of(verb, slots())
}

/// Whether a cell is absent or has exactly six forms.
pub open spec fn absent_or_six(cell: Option<Seq<Seq<char>>>) -> bool {
    cell is Some ==> cell->0.len() == 6
}

/// Whether every cell of a paradigm that is there has exactly six forms.
pub open spec fn six_forms_each(verb: Paradigm) -> bool {
    &&& absent_or_six(verb.pai)
    &&& absent_or_six(verb.ppi)
    &&& absent_or_six(verb.iai)
    &&& absent_or_six(verb.ipi)
    &&& absent_or_six(verb.fai)
    &&& absent_or_six(verb.fai2)
    &&& absent_or_six(verb.fmi)
    &&& absent_or_six(verb.fmi2)
    &&& absent_or_six(verb.fpi)
    &&& absent_or_six(verb.fpi2)
    &&& absent_or_six(verb.aai)
    &&& absent_or_six(verb.aai2)
    &&& absent_or_six(verb.ami)
    &&& absent_or_six(verb.ami2)
    &&& absent_or_six(verb.api)
    &&& absent_or_six(verb.api2)
}

/// Every ending set has six endings.
pub proof fn lemma_six_endings(set: EndingSet)
    ensures
        ending_table(set).len() == 6,
{
}

/// A cell that is generated has exactly six forms, whatever the stem, its
/// category and the rest of the verb.
pub proof fn lemma_cell_has_six_forms(cell: Cell, slot: Option<StemVariant>, verb: StemSet)
    ensures
        absent_or_six(cell_forms(cell, slot, verb)),
{
    if slot is Some {
        let set = ending_set(cell, slot->0.category);
        if set is Some {
            lemma_six_endings(set->0);
        }
    }
}

/// Every cell of a generated paradigm is absent or has exactly six forms.
pub proof fn lemma_generate_six_forms(verb: StemSet)
    ensures
        six_forms_each(generate(verb)),
{
    lemma_cell_has_six_forms(Cell::PresentActive, verb.present, verb);
    lemma_cell_has_six_forms(Cell::PresentPassive, verb.present, verb);
    lemma_cell_has_six_forms(Cell::ImperfectActive, verb.present, verb);
    lemma_cell_has_six_forms(Cell::ImperfectPassive, verb.present, verb);
    lemma_cell_has_six_forms(Cell::FutureActive, verb.future, verb);
    lemma_cell_has_six_forms(Cell::FutureActive, verb.future_alt, verb);
    lemma_cell_has_six_forms(Cell::FutureMiddle, verb.future, verb);
    lemma_cell_has_six_forms(Cell::FutureMiddle, verb.future_alt, verb);
    lemma_cell_has_six_forms(Cell::FuturePassive, verb.aorist_passive, verb);
    lemma_cell_has_six_forms(Cell::FuturePassive, verb.aorist_passive_alt, verb);
    lemma_cell_has_six_forms(Cell::AoristActive, verb.aorist, verb);
    lemma_cell_has_six_forms(Cell::AoristActive, verb.aorist_alt, verb);
    lemma_cell_has_six_forms(Cell::AoristMiddle, verb.aorist, verb);
    lemma_cell_has_six_forms(Cell::AoristMiddle, verb.aorist_alt, verb);
    lemma_cell_has_six_forms(Cell::AoristPassive, verb.aorist_passive, verb);
    lemma_cell_has_six_forms(Cell::AoristPassive, verb.aorist_passive_alt, verb);
}

/// The letters of each of a row of endings.
pub open spec fn letters_of(endings: Seq<&'static str>) -> Seq<Seq<char>> {
    Seq::new(endings.len(), |i: int| endings[i]@)
}

impl EndingSet {
    /// The six endings of this set.
    pub fn endings(self) -> (endings: [&'static str; 6])
        ensures
            letters_of(endings@) == ending_table(self),
    {
        let endings = match self {
            EndingSet::PrimaryActive(Contraction::Regular) => ["ω", "εις", "ει", "ομεν", "ετε", "ουσι"],
            EndingSet::PrimaryActive(Contraction::Alpha) => ["ω", "ᾳς", "ᾳ", "ωμεν", "ατε", "ωσι"],
            EndingSet::PrimaryActive(Contraction::Epsilon) => ["ω", "εις", "ει", "ουμεν", "ειτε", "ουσι"],
            EndingSet::PrimaryActive(Contraction::Omicron) => ["ω", "οις", "οι", "ουμεν", "ουτε", "ουσι"],
            EndingSet::PrimaryMiddle(Contraction::Regular) => ["ομαι", "ῃ", "εται", "ομεθα", "εσθε", "ονται"],
            EndingSet::PrimaryMiddle(Contraction::Alpha) => ["ωμαι", "ῳ", "αται", "ωμεθα", "ασθε", "ωνται"],
            EndingSet::PrimaryMiddle(Contraction::Epsilon) => ["ουμαι", "ῃ", "ειται", "ουμεθα", "εισθε", "ουνται"],
            EndingSet::PrimaryMiddle(Contraction::Omicron) => ["ουμαι", "ου", "ουται", "ουμεθα", "ουσθε", "ουνται"],
            EndingSet::SecondaryActive(Contraction::Regular) => ["ον", "ες", "ε", "ομεν", "ετε", "ον"],
            EndingSet::SecondaryActive(Contraction::Alpha) => ["ων", "ας", "α", "ωμεν", "ατε", "ων"],
            EndingSet::SecondaryActive(Contraction::Epsilon) => ["ουν", "εις", "ει", "ουμεν", "ειτε", "ουν"],
            EndingSet::SecondaryActive(Contraction::Omicron) => ["ουν", "ους", "ου", "ουμεν", "ουτε", "ουν"],
            EndingSet::SecondaryMiddle(Contraction::Regular) => ["ομην", "ου", "ετο", "ομεθα", "εσθε", "οντο"],
            EndingSet::SecondaryMiddle(Contraction::Alpha) => ["ωμην", "ω", "ατο", "ωμεθα", "ασθε", "ωντο"],
            EndingSet::SecondaryMiddle(Contraction::Epsilon) => ["ουμην", "ου", "ειτο", "ουμεθα", "εισθε", "ουντο"],
            EndingSet::SecondaryMiddle(Contraction::Omicron) => ["ουμην", "ου", "ουτο", "ουμεθα", "ουσθε", "ουντο"],
            EndingSet::WeakAoristActive => ["α", "ας", "ε", "αμεν", "ατε", "αν"],
            EndingSet::WeakAoristMiddle => ["αμην", "ω", "ατο", "αμεθα", "ασθε", "αντο"],
            EndingSet::AoristPassive => ["ην", "ης", "η", "ημεν", "ητε", "ησαν"],
            EndingSet::FuturePassive => ["ησομαι", "ησῃ", "ησεται", "ησομεθα", "ησεσθε", "ησονται"],
            EndingSet::DeponentFuture => ["θησομαι", "θησῃ", "θησεται", "θησομεθα", "θησεσθε", "θησονται"],
        };
        assert(letters_of(endings@) =~= ending_table(self));
        endings
    }
}

impl Cell {
    /// The ending set that this cell takes from a stem of `category`, if any.
    pub fn ending_set(self, category: Category) -> (set: Option<EndingSet>)
        ensures
            set == ending_set(self, category),
    {
        let active = match category {
            Category::PresActIndReg => Some(Contraction::Regular),
            Category::PresActIndAlp => Some(Contraction::Alpha),
            Category::PresActIndEps => Some(Contraction::Epsilon),
            Category::PresActIndOmi => Some(Contraction::Omicron),
            _ => None,
        };
        let either = match category {
            Category::PresPassIndReg => Some(Contraction::Regular),
            Category::PresPassIndAlp => Some(Contraction::Alpha),
            Category::PresPassIndEps => Some(Contraction::Epsilon),
            Category::PresPassIndOmi => Some(Contraction::Omicron),
            _ => active,
        };
        match self {
            Cell::PresentActive => match active {
                Some(c) => Some(EndingSet::PrimaryActive(c)),
                None => None,
            },
            Cell::PresentPassive => match either {
                Some(c) => Some(EndingSet::PrimaryMiddle(c)),
                None => None,
            },
            Cell::ImperfectActive => match active {
                Some(c) => Some(EndingSet::SecondaryActive(c)),
                None => None,
            },
            Cell::ImperfectPassive => match either {
                Some(c) => Some(EndingSet::SecondaryMiddle(c)),
                None => None,
            },
            Cell::FutureActive => match category {
                Category::FutActIndReg => Some(EndingSet::PrimaryActive(Contraction::Regular)),
                Category::FutActIndEps => Some(EndingSet::PrimaryActive(Contraction::Epsilon)),
                Category::FutPassIndReg => Some(EndingSet::DeponentFuture),
                _ => None,
            },
            Cell::FutureMiddle => match category {
                Category::FutActIndReg | Category::FutMidIndReg => Some(
                    EndingSet::PrimaryMiddle(Contraction::Regular),
                ),
                Category::FutActIndEps | Category::FutMidIndEps => Some(
                    EndingSet::PrimaryMiddle(Contraction::Epsilon),
                ),
                _ => None,
            },
            Cell::FuturePassive => match category {
                Category::AorPassIndWk => Some(EndingSet::FuturePassive),
                _ => None,
            },
            Cell::AoristActive => match category {
                Category::AorActIndStr => Some(EndingSet::SecondaryActive(Contraction::Regular)),
                Category::AorActIndWk => Some(EndingSet::WeakAoristActive),
                Category::AorPassIndWk => Some(EndingSet::AoristPassive),
                _ => None,
            },
            Cell::AoristMiddle => match category {
                Category::AorActIndStr | Category::AorMidIndStr => Some(
                    EndingSet::SecondaryMiddle(Contraction::Regular),
                ),
                Category::AorActIndWk | Category::AorMidIndWk => Some(EndingSet::WeakAoristMiddle),
                _ => None,
            },
            Cell::AoristPassive => match category {
                Category::AorPassIndWk => Some(EndingSet::AoristPassive),
                _ => None,
            },
        }
    }
}

impl Slot {
    /// Whether a stem of `category` gives at least one of the cells of this slot.
    pub fn fits(self, category: Category) -> (fitting: bool)
        ensures
            fitting == fits(self, category),
    {
        match self {
            Slot::Present => Cell::PresentPassive.ending_set(category).is_some(),
            Slot::Future | Slot::FutureAlt => Cell::FutureActive.ending_set(category).is_some()
                || Cell::FutureMiddle.ending_set(category).is_some(),
            Slot::Aorist | Slot::AoristAlt => Cell::AoristActive.ending_set(category).is_some()
                || Cell::AoristMiddle.ending_set(category).is_some(),
            Slot::AoristPassive | Slot::AoristPassiveAlt => Cell::AoristPassive.ending_set(
                category,
            ).is_some(),
        }
    }

    /// How the diagnostic for a stem that does not fit this slot begins.
    pub fn complaint(self) -> (begin: &'static str)
        ensures
            begin@ == complaint(self),
    {
        match self {
            Slot::Present => "Unable to conjugate present and imperfect for ",
            Slot::Future => "Unable to conjugate future voice for ",
            Slot::FutureAlt => "Unable to conjugate second future voice for ",
            Slot::Aorist => "Unable to conjugate aorist active and middle for ",
            Slot::AoristAlt => "Unable to conjugate second aorist active and middle for ",
            Slot::AoristPassive => "Unable to conjugate aorist passive for ",
            Slot::AoristPassiveAlt => "Unable to conjugate second aorist passive for ",
        }
    }
}

/// The six forms of `base` with each of `endings` behind it.
pub fn inflected(base: &str, endings: &[&'static str; 6]) -> (forms: Vec<String>)
    ensures
        forms_view(forms@) == inflect(base@, letters_of(endings@)),
{
    let mut forms: Vec<String> = Vec::new();
    let mut i: usize = 0;
    while i < 6
        invariant
            i <= 6,
            forms@.len() == i,
            forall|k: int| 0 <= k < i ==> (#[trigger] forms@[k])@ == base@ + endings@[k]@,
        decreases 6 - i,
    {
        let mut form = String::from_str(base);
        form.append(endings[i]);
        forms.push(form);
        i += 1;
    }
    assert(forms_view(forms@) =~= inflect(base@, letters_of(endings@)));
    forms
}

/// A conjugated verb: sixteen cells, each with its forms or absent. The
/// cells whose name ends in 2 are those of the alternate forms.
#[derive(Debug, PartialEq, Eq)]
pub struct Verb {
    pub pai: Conjugated,
    pub ppi: Conjugated,
    pub iai: Conjugated,
    pub ipi: Conjugated,
    pub fai: Conjugated,
    pub fai2: Conjugated,
    pub fmi: Conjugated,
    pub fmi2: Conjugated,
    pub fpi: Conjugated,
    pub fpi2: Conjugated,
    pub aai: Conjugated,
    pub aai2: Conjugated,
    pub ami: Conjugated,
    pub ami2: Conjugated,
    pub api: Conjugated,
    pub api2: Conjugated,
}

impl View for Verb {
    type V = Paradigm;

    open spec fn view(&self) -> Paradigm {
        Paradigm {
            pai: self.pai@,
            ppi: self.ppi@,
            iai: self.iai@,
            ipi: self.ipi@,
            fai: self.fai@,
            fai2: self.fai2@,
            fmi: self.fmi@,
            fmi2: self.fmi2@,
            fpi: self.fpi@,
            fpi2: self.fpi2@,
            aai: self.aai@,
            aai2: self.aai2@,
            ami: self.ami@,
            ami2: self.ami2@,
            api: self.api@,
            api2: self.api2@,
        }
    }
}

impl VerbStemSet {
    /// The base that the endings of `cell` follow on `stem`.
    fn base(&self, cell: Cell, stem: &str) -> (built: String)
        ensures
            built@ == base(cell, stem@, self@),
    {
        match cell {
            Cell::ImperfectActive | Cell::ImperfectPassive => {
                let (augment, rest) = VerbStemSet::aug_and_stem(&self.aorist_stem, stem);
                let mut built = String::from_str(augment);
                built.append(rest);
                built
            },
            Cell::FuturePassive => VerbStemSet::remove_aug(&self.pres_stem, stem),
            _ => String::from_str(stem),
        }
    }

    /// Generates one cell from the stem in `slot`, which is the slot of this
    /// verb that the cell belongs to.
    pub fn conjugate_cell(&self, cell: Cell, slot: &Option<TenseVoiceMoodVariant>) -> (forms:
        Conjugated)
        ensures
            forms@ == cell_forms(cell, variant_view(*slot), self@),
            absent_or_six(forms@),
    {
        proof {
            lemma_cell_has_six_forms(cell, variant_view(*slot), self@);
        }
        match slot {
            Some(variant) => match cell.ending_set(variant.category()) {
                Some(set) => {
                    let built = self.base(cell, variant.stem());
                    let endings = set.endings();
                    Conjugated::Forms(inflected(built.as_str(), &endings))
                },
                None => Conjugated::Absent,
            },
            None => Conjugated::Absent,
        }
    }

    /// The stem in `slot`.
    pub fn stem_in(&self, slot: Slot) -> (stem: &Option<TenseVoiceMoodVariant>)
        ensures
            variant_view(*stem) == stem_in(self@, slot),
    {
        match slot {
            Slot::Present => &self.pres_stem,
            Slot::Future => &self.fut_stem,
            Slot::FutureAlt => &self.fut_stem_alt,
            Slot::Aorist => &self.aorist_stem,
            Slot::AoristAlt => &self.aorist_stem_alt,
            Slot::AoristPassive => &self.aor_pass_stem,
            Slot::AoristPassiveAlt => &self.aor_pass_stem_alt,
        }
    }

    /// The diagnostics for this verb: one for each slot whose stem is of a
    /// category that gives none of the slot's cells, in the order of the
    /// slots. Such a stem leaves its cells absent and nothing else.
    pub fn diagnostics(&self) -> (notes: Vec<String>)
        ensures
            forms_view(notes@) == diagnostics(self@),
    {
        let order = vec![
            Slot::Present,
            Slot::Future,
            Slot::FutureAlt,
            Slot::Aorist,
            Slot::AoristAlt,
            Slot::AoristPassive,
            Slot::AoristPassiveAlt,
        ];
        assert(order@ =~= slots());
        let mut notes: Vec<String> = Vec::new();
        let mut i: usize = 0;
        assert(forms_view(notes@) =~= diagnostics_of(self@, order@.take(0)));
        while i < order.len()
            invariant
                i <= order@.len(),
                forms_view(notes@) == diagnostics_of(self@, order@.take(i as int)),
            decreases order@.len() - i,
        {
            let slot = order[i];
            proof {
                let next = order@.take(i + 1);
                assert(next.drop_last() =~= order@.take(i as int));
                assert(next.last() == slot);
            }
            let ghost before = forms_view(notes@);
            match self.stem_in(slot) {
                Some(variant) => {
                    if !slot.fits(variant.category()) {
                        let mut note = String::from_str(slot.complaint());
                        note.append(variant.describe().as_str());
                        notes.push(note);
                        assert(forms_view(notes@) =~= before.push(diagnostic(slot, variant@)));
                    }
                },
                None => {},
            }
            i += 1;
        }
        assert(order@.take(order@.len() as int) =~= order@);
        notes
    }

    /// Generates the paradigm of this verb: every cell that its stems give
    /// rise to, each with six forms, and every other cell absent.
    pub fn conjugate(&self) -> (verb: Verb)
        ensures
            verb@ == generate(self@),
            six_forms_each(verb@),
    {
        Verb {
            pai: self.conjugate_cell(Cell::PresentActive, &self.pres_stem),
            ppi: self.conjugate_cell(Cell::PresentPassive, &self.pres_stem),
            iai: self.conjugate_cell(Cell::ImperfectActive, &self.pres_stem),
            ipi: self.conjugate_cell(Cell::ImperfectPassive, &self.pres_stem),
            fai: self.conjugate_cell(Cell::FutureActive, &self.fut_stem),
            fai2: self.conjugate_cell(Cell::FutureActive, &self.fut_stem_alt),
            fmi: self.conjugate_cell(Cell::FutureMiddle, &self.fut_stem),
            fmi2: self.conjugate_cell(Cell::FutureMiddle, &self.fut_stem_alt),
            fpi: self.conjugate_cell(Cell::FuturePassive, &self.aor_pass_stem),
            fpi2: self.conjugate_cell(Cell::FuturePassive, &self.aor_pass_stem_alt),
            aai: self.conjugate_cell(Cell::AoristActive, &self.aorist_stem),
            aai2: self.conjugate_cell(Cell::AoristActive, &self.aorist_stem_alt),
            ami: self.conjugate_cell(Cell::AoristMiddle, &self.aorist_stem),
            ami2: self.conjugate_cell(Cell::AoristMiddle, &self.aorist_stem_alt),
            api: self.conjugate_cell(Cell::AoristPassive, &self.aor_pass_stem),
            api2: self.conjugate_cell(Cell::AoristPassive, &self.aor_pass_stem_alt),
        }
    }
}

} // verus!
