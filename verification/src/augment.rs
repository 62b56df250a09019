//! The verbal augment of compound verbs, and its removal.
//!
//! Both directions are ordered tables of rules that are matched against the
//! start of a stem. The first rule whose pattern begins the stem, and whose
//! condition the sibling stem meets, decides.

use crate::stems::VerbStemSet;
use crate::text::{
    find_letter, first_position, lemma_first_position_is, skip_letters, starts_with, take_letters,
};
use crate::types::{variant_view, StemVariant, TenseVoiceMoodVariant};
use vstd::prelude::*;
use vstd::string::*;

verus! {

/// What a rule asks of the sibling stem that gives it context.
pub enum Condition {
    /// Nothing: the rule applies whatever the context.
    Always,
    /// There is no sibling stem.
    Absent,
    /// There is a sibling stem, and it begins with these letters.
    Begins(&'static str),
}

impl Condition {
    /// Whether `context` meets this condition.
    pub open spec fn spec_holds(self, context: Option<StemVariant>) -> bool {
        match self {
            Condition::Always => true,
            Condition::Absent => context is None,
            Condition::Begins(letters) => context is Some && letters@.is_prefix_of(
                context->0.stem,
            ),
        }
    }

    /// Whether `context` meets this condition.
    pub fn holds(&self, context: &Option<TenseVoiceMoodVariant>) -> (met: bool)
        ensures
            met == self.spec_holds(variant_view(*context)),
    {
        match self {
            Condition::Always => true,
            Condition::Absent => context.is_none(),
            Condition::Begins(letters) => match context {
                Some(variant) => starts_with(variant.stem(), letters),
                None => false,
            },
        }
    }
}

/// One row of the augment table: a stem that begins with `pattern`, in a
/// context that meets `when`, loses its first `strip` letters and takes `augment`.
pub struct AugmentRule {
    pub pattern: &'static str,
    pub when: Condition,
    pub strip: usize,
    pub augment: &'static str,
}

impl AugmentRule {
    /// Whether this rule decides for `stem` in the context `aorist`.
    pub open spec fn applies(self, aorist: Option<StemVariant>, stem: Seq<char>) -> bool {
        self.pattern@.is_prefix_of(stem) && self.when.spec_holds(aorist)
    }

    /// A rule never strips more than its pattern has matched.
    pub open spec fn well_formed(self) -> bool {
        self.strip <= self.pattern@.len()
    }
}

/// The augment table, in matching order. Longer prefixes stand before the
/// shorter ones that begin them (the row for "περιαγ" does not, and so never
/// decides). Under "ἀνα" and under a bare "ἐ" or "ἑ" the augment is the
/// lengthened vowel where the aorist begins with that vowel, and the regular
/// compound form in every other case, also where the verb has no aorist.
pub open spec fn augment_rules() -> Seq<AugmentRule> {
    seq![
        AugmentRule { pattern: "ἀμφι", when: Condition::Always, strip: 4, augment: "ἀμφε" },
        AugmentRule { pattern: "ἀνα", when: Condition::Begins("ἠ"), strip: 1, augment: "ἠ" },
        AugmentRule { pattern: "ἀνα", when: Condition::Always, strip: 3, augment: "ἀνε" },
        AugmentRule { pattern: "ἀντι", when: Condition::Always, strip: 4, augment: "ἀντε" },
        AugmentRule { pattern: "ἀπο", when: Condition::Always, strip: 3, augment: "ἀπε" },
        AugmentRule { pattern: "ἀφι", when: Condition::Always, strip: 0, augment: "" },
        AugmentRule { pattern: "αἰ", when: Condition::Always, strip: 2, augment: "ᾐ" },
        AugmentRule { pattern: "αἱ", when: Condition::Always, strip: 2, augment: "ᾑ" },
        AugmentRule { pattern: "ἀ", when: Condition::Always, strip: 1, augment: "ἠ" },
        AugmentRule { pattern: "ἁ", when: Condition::Always, strip: 1, augment: "ἡ" },
        AugmentRule { pattern: "δια", when: Condition::Always, strip: 3, augment: "διε" },
        AugmentRule { pattern: "διε", when: Condition::Always, strip: 3, augment: "διει" },
        AugmentRule { pattern: "διο", when: Condition::Always, strip: 3, augment: "διω" },
        AugmentRule { pattern: "εἰσ", when: Condition::Always, strip: 3, augment: "εἰσε" },
        AugmentRule { pattern: "ἐκ", when: Condition::Always, strip: 2, augment: "ἐξε" },
        AugmentRule { pattern: "ἐμ", when: Condition::Always, strip: 2, augment: "ἐνε" },
        AugmentRule { pattern: "ἐγ", when: Condition::Always, strip: 2, augment: "ἐνε" },
        AugmentRule { pattern: "ἐνε", when: Condition::Always, strip: 3, augment: "ἐνει" },
        AugmentRule { pattern: "ἐνα", when: Condition::Always, strip: 3, augment: "ἐνη" },
        AugmentRule { pattern: "ἐν", when: Condition::Always, strip: 2, augment: "ἐνε" },
        AugmentRule { pattern: "ἐπε", when: Condition::Always, strip: 3, augment: "ἐπει" },
        AugmentRule { pattern: "ἐπα", when: Condition::Always, strip: 3, augment: "ἐπη" },
        AugmentRule { pattern: "ἐπι", when: Condition::Always, strip: 3, augment: "ἐπε" },
        AugmentRule { pattern: "εὐ", when: Condition::Always, strip: 2, augment: "ηὐ" },
        AugmentRule { pattern: "εὑ", when: Condition::Always, strip: 2, augment: "ηὑ" },
        AugmentRule { pattern: "ἐ", when: Condition::Begins("ἠ"), strip: 1, augment: "ἠ" },
        AugmentRule { pattern: "ἐ", when: Condition::Always, strip: 1, augment: "εἰ" },
        AugmentRule { pattern: "ἑ", when: Condition::Begins("ἡ"), strip: 1, augment: "ἡ" },
        AugmentRule { pattern: "ἑ", when: Condition::Always, strip: 1, augment: "εἱ" },
        AugmentRule { pattern: "καταγ", when: Condition::Always, strip: 5, augment: "κατηγ" },
        AugmentRule { pattern: "κατα", when: Condition::Always, strip: 4, augment: "κατε" },
        AugmentRule { pattern: "μεταγ", when: Condition::Always, strip: 4, augment: "μετη" },
        AugmentRule { pattern: "μετα", when: Condition::Always, strip: 4, augment: "μετε" },
        AugmentRule { pattern: "παραγ", when: Condition::Always, strip: 4, augment: "παρη" },
        AugmentRule { pattern: "παρα", when: Condition::Always, strip: 4, augment: "παρε" },
        AugmentRule { pattern: "παρε", when: Condition::Always, strip: 4, augment: "παρει" },
        AugmentRule { pattern: "περι", when: Condition::Always, strip: 4, augment: "περιε" },
        AugmentRule { pattern: "περιαγ", when: Condition::Always, strip: 5, augment: "περιη" },
        AugmentRule { pattern: "προσ", when: Condition::Always, strip: 4, augment: "προσε" },
        AugmentRule { pattern: "προ", when: Condition::Always, strip: 3, augment: "πρου" },
        AugmentRule { pattern: "συγ", when: Condition::Always, strip: 3, augment: "συνε" },
        AugmentRule { pattern: "συλλ", when: Condition::Always, strip: 3, augment: "συνε" },
        AugmentRule { pattern: "συμ", when: Condition::Always, strip: 3, augment: "συνε" },
        AugmentRule { pattern: "συρ", when: Condition::Always, strip: 3, augment: "συνε" },
        AugmentRule { pattern: "συσ", when: Condition::Always, strip: 3, augment: "συνε" },
        AugmentRule { pattern: "οἰ", when: Condition::Always, strip: 2, augment: "ᾠ" },
        AugmentRule { pattern: "οἱ", when: Condition::Always, strip: 2, augment: "ᾡ" },
        AugmentRule { pattern: "ὀ", when: Condition::Always, strip: 1, augment: "ὠ" },
        AugmentRule { pattern: "ὁ", when: Condition::Always, strip: 1, augment: "ὡ" },
        AugmentRule { pattern: "ὑπο", when: Condition::Always, strip: 3, augment: "ὑπε" },
    ]
}

/// The augment and the remaining stem that `rules` give `stem`: those of the
/// first rule that applies, or the syllabic augment before the whole stem.
pub open spec fn augment_with(
    rules: Seq<AugmentRule>,
    aorist: Option<StemVariant>,
    stem: Seq<char>,
) -> (Seq<char>, Seq<char>)
    decreases rules.len(),
{
    if rules.len() == 0 {
        ("ἐ"@, stem)
    } else if rules[0].applies(aorist, stem) {
        (rules[0].augment@, stem.skip(rules[0].strip as int))
    } else {
        augment_with(rules.drop_first(), aorist, stem)
    }
}

/// The augment of `stem` and the stem that remains behind it, given the
/// verb's aorist stem as context.
pub open spec fn forward(aorist: Option<StemVariant>, stem: Seq<char>) -> (Seq<char>, Seq<char>) {
    augment_with(augment_rules(), aorist, stem)
}

/// The augment table as a vector.
pub fn augment_table() -> (table: Vec<AugmentRule>)
    ensures
        table@ == augment_rules(),
        forall|i: int| 0 <= i < table@.len() ==> (#[trigger] table@[i]).well_formed(),
{
    let table = vec![
        AugmentRule { pattern: "ἀμφι", when: Condition::Always, strip: 4, augment: "ἀμφε" },
        AugmentRule { pattern: "ἀνα", when: Condition::Begins("ἠ"), strip: 1, augment: "ἠ" },
        AugmentRule { pattern: "ἀνα", when: Condition::Always, strip: 3, augment: "ἀνε" },
        AugmentRule { pattern: "ἀντι", when: Condition::Always, strip: 4, augment: "ἀντε" },
        AugmentRule { pattern: "ἀπο", when: Condition::Always, strip: 3, augment: "ἀπε" },
        AugmentRule { pattern: "ἀφι", when: Condition::Always, strip: 0, augment: "" },
        AugmentRule { pattern: "αἰ", when: Condition::Always, strip: 2, augment: "ᾐ" },
        AugmentRule { pattern: "αἱ", when: Condition::Always, strip: 2, augment: "ᾑ" },
        AugmentRule { pattern: "ἀ", when: Condition::Always, strip: 1, augment: "ἠ" },
        AugmentRule { pattern: "ἁ", when: Condition::Always, strip: 1, augment: "ἡ" },
        AugmentRule { pattern: "δια", when: Condition::Always, strip: 3, augment: "διε" },
        AugmentRule { pattern: "διε", when: Condition::Always, strip: 3, augment: "διει" },
        AugmentRule { pattern: "διο", when: Condition::Always, strip: 3, augment: "διω" },
        AugmentRule { pattern: "εἰσ", when: Condition::Always, strip: 3, augment: "εἰσε" },
        AugmentRule { pattern: "ἐκ", when: Condition::Always, strip: 2, augment: "ἐξε" },
        AugmentRule { pattern: "ἐμ", when: Condition::Always, strip: 2, augment: "ἐνε" },
        AugmentRule { pattern: "ἐγ", when: Condition::Always, strip: 2, augment: "ἐνε" },
        AugmentRule { pattern: "ἐνε", when: Condition::Always, strip: 3, augment: "ἐνει" },
        AugmentRule { pattern: "ἐνα", when: Condition::Always, strip: 3, augment: "ἐνη" },
        AugmentRule { pattern: "ἐν", when: Condition::Always, strip: 2, augment: "ἐνε" },
        AugmentRule { pattern: "ἐπε", when: Condition::Always, strip: 3, augment: "ἐπει" },
        AugmentRule { pattern: "ἐπα", when: Condition::Always, strip: 3, augment: "ἐπη" },
        AugmentRule { pattern: "ἐπι", when: Condition::Always, strip: 3, augment: "ἐπε" },
        AugmentRule { pattern: "εὐ", when: Condition::Always, strip: 2, augment: "ηὐ" },
        AugmentRule { pattern: "εὑ", when: Condition::Always, strip: 2, augment: "ηὑ" },
        AugmentRule { pattern: "ἐ", when: Condition::Begins("ἠ"), strip: 1, augment: "ἠ" },
        AugmentRule { pattern: "ἐ", when: Condition::Always, strip: 1, augment: "εἰ" },
        AugmentRule { pattern: "ἑ", when: Condition::Begins("ἡ"), strip: 1, augment: "ἡ" },
        AugmentRule { pattern: "ἑ", when: Condition::Always, strip: 1, augment: "εἱ" },
        AugmentRule { pattern: "καταγ", when: Condition::Always, strip: 5, augment: "κατηγ" },
        AugmentRule { pattern: "κατα", when: Condition::Always, strip: 4, augment: "κατε" },
        AugmentRule { pattern: "μεταγ", when: Condition::Always, strip: 4, augment: "μετη" },
        AugmentRule { pattern: "μετα", when: Condition::Always, strip: 4, augment: "μετε" },
        AugmentRule { pattern: "παραγ", when: Condition::Always, strip: 4, augment: "παρη" },
        AugmentRule { pattern: "παρα", when: Condition::Always, strip: 4, augment: "παρε" },
        AugmentRule { pattern: "παρε", when: Condition::Always, strip: 4, augment: "παρει" },
        AugmentRule { pattern: "περι", when: Condition::Always, strip: 4, augment: "περιε" },
        AugmentRule { pattern: "περιαγ", when: Condition::Always, strip: 5, augment: "περιη" },
        AugmentRule { pattern: "προσ", when: Condition::Always, strip: 4, augment: "προσε" },
        AugmentRule { pattern: "προ", when: Condition::Always, strip: 3, augment: "πρου" },
        AugmentRule { pattern: "συγ", when: Condition::Always, strip: 3, augment: "συνε" },
        AugmentRule { pattern: "συλλ", when: Condition::Always, strip: 3, augment: "συνε" },
        AugmentRule { pattern: "συμ", when: Condition::Always, strip: 3, augment: "συνε" },
        AugmentRule { pattern: "συρ", when: Condition::Always, strip: 3, augment: "συνε" },
        AugmentRule { pattern: "συσ", when: Condition::Always, strip: 3, augment: "συνε" },
        AugmentRule { pattern: "οἰ", when: Condition::Always, strip: 2, augment: "ᾠ" },
        AugmentRule { pattern: "οἱ", when: Condition::Always, strip: 2, augment: "ᾡ" },
        AugmentRule { pattern: "ὀ", when: Condition::Always, strip: 1, augment: "ὠ" },
        AugmentRule { pattern: "ὁ", when: Condition::Always, strip: 1, augment: "ὡ" },
        AugmentRule { pattern: "ὑπο", when: Condition::Always, strip: 3, augment: "ὑπε" },
    ];
    proof {
        reveal_strlit("ἀμφι");
        reveal_strlit("ἀνα");
        reveal_strlit("ἀντι");
        reveal_strlit("ἀπο");
        reveal_strlit("ἀφι");
        reveal_strlit("αἰ");
        reveal_strlit("αἱ");
        reveal_strlit("ἀ");
        reveal_strlit("ἁ");
        reveal_strlit("δια");
        reveal_strlit("διε");
        reveal_strlit("διο");
        reveal_strlit("εἰσ");
        reveal_strlit("ἐκ");
        reveal_strlit("ἐμ");
        reveal_strlit("ἐγ");
        reveal_strlit("ἐνε");
        reveal_strlit("ἐνα");
        reveal_strlit("ἐν");
        reveal_strlit("ἐπε");
        reveal_strlit("ἐπα");
        reveal_strlit("ἐπι");
        reveal_strlit("εὐ");
        reveal_strlit("εὑ");
        reveal_strlit("ἐ");
        reveal_strlit("ἑ");
        reveal_strlit("καταγ");
        reveal_strlit("κατα");
        reveal_strlit("μεταγ");
        reveal_strlit("μετα");
        reveal_strlit("παραγ");
        reveal_strlit("παρα");
        reveal_strlit("παρε");
        reveal_strlit("περι");
        reveal_strlit("περιαγ");
        reveal_strlit("προσ");
        reveal_strlit("προ");
        reveal_strlit("συγ");
        reveal_strlit("συλλ");
        reveal_strlit("συμ");
        reveal_strlit("συρ");
        reveal_strlit("συσ");
        reveal_strlit("οἰ");
        reveal_strlit("οἱ");
        reveal_strlit("ὀ");
        reveal_strlit("ὁ");
        reveal_strlit("ὑπο");
        assert(table@ =~= augment_rules());
    }
    table
}

/// What a removal rule does to a stem that it has matched.
pub enum Restore {
    /// The first `strip` letters give way to `put`.
    Replace { strip: usize, put: &'static str },
    /// The first `letter` of the stem, wherever it stands, gives way to `put`;
    /// a stem without that letter stays as it is.
    ReplaceFirst { letter: char, put: &'static str },
    /// Nothing is left of the stem.
    Erase,
}

/// `stem` with `put` in place of its first `letter`, or `stem` itself where
/// it holds no such letter.
pub open spec fn replace_first(stem: Seq<char>, letter: char, put: Seq<char>) -> Seq<char> {
    let at = first_position(stem, letter);
    if at < stem.len() {
        stem.take(at) + put + stem.skip(at + 1)
    } else {
        stem
    }
}

impl Restore {
    /// What this action makes of `stem`.
    pub open spec fn apply(self, stem: Seq<char>) -> Seq<char> {
        match self {
            Restore::Replace { strip, put } => put@ + stem.skip(strip as int),
            Restore::ReplaceFirst { letter, put } => replace_first(stem, letter, put@),
            Restore::Erase => Seq::empty(),
        }
    }
}

/// One row of the removal table: a stem that begins with `pattern`, in a
/// context that meets `when`, undergoes `action`.
pub struct RestoreRule {
    pub pattern: &'static str,
    pub when: Condition,
    pub action: Restore,
}

impl RestoreRule {
    /// Whether this rule decides for `stem` in the context `present`.
    pub open spec fn applies(self, present: Option<StemVariant>, stem: Seq<char>) -> bool {
        self.pattern@.is_prefix_of(stem) && self.when.spec_holds(present)
    }

    /// A rule never strips more than its pattern has matched.
    pub open spec fn well_formed(self) -> bool {
        match self.action {
            Restore::Replace { strip, put } => strip <= self.pattern@.len(),
            _ => true,
        }
    }
}

/// The removal table, in matching order: augmented prefixes, each with the
/// prefix that it stands for. Where two prefixes take one augment, the
/// letter behind the augment tells them apart; where the lengthened vowel
/// stands for more than one short vowel, the present does. Under "δι" and
/// "ὑπ" the first "ε" of the stem is the augment.
pub open spec fn restore_rules() -> Seq<RestoreRule> {
    seq![
        RestoreRule { pattern: "ἀμφε", when: Condition::Always, action: Restore::Replace { strip: 4, put: "ἀμφι" } },
        RestoreRule { pattern: "ἀνε", when: Condition::Always, action: Restore::Replace { strip: 3, put: "ἀνα" } },
        RestoreRule { pattern: "ἀντε", when: Condition::Always, action: Restore::Replace { strip: 4, put: "ἀντι" } },
        RestoreRule { pattern: "ἀπε", when: Condition::Always, action: Restore::Replace { strip: 3, put: "ἀπο" } },
        RestoreRule { pattern: "δι", when: Condition::Always, action: Restore::ReplaceFirst { letter: 'ε', put: "α" } },
        RestoreRule { pattern: "εἰσε", when: Condition::Always, action: Restore::Replace { strip: 4, put: "εἰσ" } },
        RestoreRule { pattern: "εἰ", when: Condition::Always, action: Restore::Replace { strip: 2, put: "ἐ" } },
        RestoreRule { pattern: "εἱ", when: Condition::Always, action: Restore::Replace { strip: 2, put: "ἑ" } },
        RestoreRule { pattern: "ἐξε", when: Condition::Always, action: Restore::Replace { strip: 3, put: "ἐκ" } },
        RestoreRule { pattern: "ἐνεπ", when: Condition::Always, action: Restore::Replace { strip: 3, put: "ἐμ" } },
        RestoreRule { pattern: "ἐνεβ", when: Condition::Always, action: Restore::Replace { strip: 3, put: "ἐμ" } },
        RestoreRule { pattern: "ἐνεφ", when: Condition::Always, action: Restore::Replace { strip: 3, put: "ἐμ" } },
        RestoreRule { pattern: "ἐνεψ", when: Condition::Always, action: Restore::Replace { strip: 3, put: "ἐμ" } },
        RestoreRule { pattern: "ἐνεκ", when: Condition::Always, action: Restore::Replace { strip: 3, put: "ἐγ" } },
        RestoreRule { pattern: "ἐνεγ", when: Condition::Always, action: Restore::Replace { strip: 3, put: "ἐγ" } },
        RestoreRule { pattern: "ἐνεχ", when: Condition::Always, action: Restore::Replace { strip: 3, put: "ἐγ" } },
        RestoreRule { pattern: "ἐνεξ", when: Condition::Always, action: Restore::Replace { strip: 3, put: "ἐγ" } },
        RestoreRule { pattern: "ἐνει", when: Condition::Always, action: Restore::Replace { strip: 4, put: "ἐνε" } },
        RestoreRule { pattern: "ἐνη", when: Condition::Always, action: Restore::Replace { strip: 3, put: "ἐνα" } },
        RestoreRule { pattern: "ἐνε", when: Condition::Always, action: Restore::Replace { strip: 3, put: "ἐν" } },
        RestoreRule { pattern: "ἐπει", when: Condition::Always, action: Restore::Replace { strip: 4, put: "ἐπε" } },
        RestoreRule { pattern: "ἐπη", when: Condition::Always, action: Restore::Replace { strip: 3, put: "ἐπα" } },
        RestoreRule { pattern: "ἐπε", when: Condition::Absent, action: Restore::Erase },
        RestoreRule { pattern: "ἐπε", when: Condition::Begins("ἐπι"), action: Restore::Replace { strip: 3, put: "ἐπι" } },
        RestoreRule { pattern: "ἐπε", when: Condition::Always, action: Restore::Replace { strip: 1, put: "" } },
        RestoreRule { pattern: "ηὐ", when: Condition::Always, action: Restore::Replace { strip: 2, put: "εὐ" } },
        RestoreRule { pattern: "ηὑ", when: Condition::Always, action: Restore::Replace { strip: 2, put: "εὑ" } },
        RestoreRule { pattern: "ἐ", when: Condition::Always, action: Restore::Replace { strip: 1, put: "" } },
        RestoreRule { pattern: "ᾐ", when: Condition::Always, action: Restore::Replace { strip: 1, put: "αἰ" } },
        RestoreRule { pattern: "ᾑ", when: Condition::Always, action: Restore::Replace { strip: 1, put: "αἱ" } },
        RestoreRule { pattern: "ἠ", when: Condition::Absent, action: Restore::Erase },
        RestoreRule { pattern: "ἠ", when: Condition::Begins("ἀ"), action: Restore::Replace { strip: 1, put: "ἀ" } },
        RestoreRule { pattern: "ἠ", when: Condition::Always, action: Restore::Replace { strip: 1, put: "ἐ" } },
        RestoreRule { pattern: "ἡ", when: Condition::Absent, action: Restore::Erase },
        RestoreRule { pattern: "ἡ", when: Condition::Begins("ἁ"), action: Restore::Replace { strip: 1, put: "ἁ" } },
        RestoreRule { pattern: "ἡ", when: Condition::Always, action: Restore::Replace { strip: 1, put: "ἑ" } },
        RestoreRule { pattern: "κατη", when: Condition::Always, action: Restore::Replace { strip: 4, put: "κατα" } },
        RestoreRule { pattern: "κατε", when: Condition::Always, action: Restore::Replace { strip: 4, put: "κατα" } },
        RestoreRule { pattern: "μετη", when: Condition::Always, action: Restore::Replace { strip: 4, put: "μετα" } },
        RestoreRule { pattern: "μετε", when: Condition::Always, action: Restore::Replace { strip: 4, put: "μετα" } },
        RestoreRule { pattern: "παρη", when: Condition::Always, action: Restore::Replace { strip: 4, put: "παρα" } },
        RestoreRule { pattern: "παρε", when: Condition::Always, action: Restore::Replace { strip: 4, put: "παρα" } },
        RestoreRule { pattern: "περιε", when: Condition::Always, action: Restore::Replace { strip: 5, put: "περι" } },
        RestoreRule { pattern: "περιη", when: Condition::Always, action: Restore::Replace { strip: 5, put: "περια" } },
        RestoreRule { pattern: "προσε", when: Condition::Always, action: Restore::Replace { strip: 5, put: "προσ" } },
        RestoreRule { pattern: "πρου", when: Condition::Always, action: Restore::Replace { strip: 4, put: "προ" } },
        RestoreRule { pattern: "συνεγ", when: Condition::Always, action: Restore::Replace { strip: 4, put: "συγ" } },
        RestoreRule { pattern: "συνεκ", when: Condition::Always, action: Restore::Replace { strip: 4, put: "συγ" } },
        RestoreRule { pattern: "συνεξ", when: Condition::Always, action: Restore::Replace { strip: 4, put: "συγ" } },
        RestoreRule { pattern: "συνεχ", when: Condition::Always, action: Restore::Replace { strip: 4, put: "συγ" } },
        RestoreRule { pattern: "συνελ", when: Condition::Always, action: Restore::Replace { strip: 4, put: "συλ" } },
        RestoreRule { pattern: "συνεβ", when: Condition::Always, action: Restore::Replace { strip: 4, put: "συμ" } },
        RestoreRule { pattern: "συνεμ", when: Condition::Always, action: Restore::Replace { strip: 4, put: "συμ" } },
        RestoreRule { pattern: "συνεπ", when: Condition::Always, action: Restore::Replace { strip: 4, put: "συμ" } },
        RestoreRule { pattern: "συνεφ", when: Condition::Always, action: Restore::Replace { strip: 4, put: "συμ" } },
        RestoreRule { pattern: "συνερ", when: Condition::Always, action: Restore::Replace { strip: 4, put: "συρ" } },
        RestoreRule { pattern: "συνεσ", when: Condition::Always, action: Restore::Replace { strip: 4, put: "συσ" } },
        RestoreRule { pattern: "ᾠ", when: Condition::Always, action: Restore::Replace { strip: 1, put: "οἰ" } },
        RestoreRule { pattern: "ᾡ", when: Condition::Always, action: Restore::Replace { strip: 1, put: "οἱ" } },
        RestoreRule { pattern: "ὠ", when: Condition::Always, action: Restore::Replace { strip: 1, put: "ὀ" } },
        RestoreRule { pattern: "ὡ", when: Condition::Always, action: Restore::Replace { strip: 1, put: "ὁ" } },
        RestoreRule { pattern: "ὑπ", when: Condition::Always, action: Restore::ReplaceFirst { letter: 'ε', put: "ο" } },
    ]
}

/// What `rules` make of an augmented `stem`: the action of the first rule
/// that applies, or else the stem without its first "ε".
pub open spec fn restore_with(
    rules: Seq<RestoreRule>,
    present: Option<StemVariant>,
    stem: Seq<char>,
) -> Seq<char>
    decreases rules.len(),
{
    if rules.len() == 0 {
        replace_first(stem, 'ε', Seq::empty())
    } else if rules[0].applies(present, stem) {
        rules[0].action.apply(stem)
    } else {
        restore_with(rules.drop_first(), present, stem)
    }
}

/// The unaugmented form of an augmented `stem`, given the verb's present
/// stem as context.
pub open spec fn inverse(present: Option<StemVariant>, stem: Seq<char>) -> Seq<char> {
    restore_with(restore_rules(), present, stem)
}

/// The removal table as a vector.
pub fn restore_table() -> (table: Vec<RestoreRule>)
    ensures
        table@ == restore_rules(),
        forall|i: int| 0 <= i < table@.len() ==> (#[trigger] table@[i]).well_formed(),
{
    let table = vec![
        RestoreRule { pattern: "ἀμφε", when: Condition::Always, action: Restore::Replace { strip: 4, put: "ἀμφι" } },
        RestoreRule { pattern: "ἀνε", when: Condition::Always, action: Restore::Replace { strip: 3, put: "ἀνα" } },
        RestoreRule { pattern: "ἀντε", when: Condition::Always, action: Restore::Replace { strip: 4, put: "ἀντι" } },
        RestoreRule { pattern: "ἀπε", when: Condition::Always, action: Restore::Replace { strip: 3, put: "ἀπο" } },
        RestoreRule { pattern: "δι", when: Condition::Always, action: Restore::ReplaceFirst { letter: 'ε', put: "α" } },
        RestoreRule { pattern: "εἰσε", when: Condition::Always, action: Restore::Replace { strip: 4, put: "εἰσ" } },
        RestoreRule { pattern: "εἰ", when: Condition::Always, action: Restore::Replace { strip: 2, put: "ἐ" } },
        RestoreRule { pattern: "εἱ", when: Condition::Always, action: Restore::Replace { strip: 2, put: "ἑ" } },
        RestoreRule { pattern: "ἐξε", when: Condition::Always, action: Restore::Replace { strip: 3, put: "ἐκ" } },
        RestoreRule { pattern: "ἐνεπ", when: Condition::Always, action: Restore::Replace { strip: 3, put: "ἐμ" } },
        RestoreRule { pattern: "ἐνεβ", when: Condition::Always, action: Restore::Replace { strip: 3, put: "ἐμ" } },
        RestoreRule { pattern: "ἐνεφ", when: Condition::Always, action: Restore::Replace { strip: 3, put: "ἐμ" } },
        RestoreRule { pattern: "ἐνεψ", when: Condition::Always, action: Restore::Replace { strip: 3, put: "ἐμ" } },
        RestoreRule { pattern: "ἐνεκ", when: Condition::Always, action: Restore::Replace { strip: 3, put: "ἐγ" } },
        RestoreRule { pattern: "ἐνεγ", when: Condition::Always, action: Restore::Replace { strip: 3, put: "ἐγ" } },
        RestoreRule { pattern: "ἐνεχ", when: Condition::Always, action: Restore::Replace { strip: 3, put: "ἐγ" } },
        RestoreRule { pattern: "ἐνεξ", when: Condition::Always, action: Restore::Replace { strip: 3, put: "ἐγ" } },
        RestoreRule { pattern: "ἐνει", when: Condition::Always, action: Restore::Replace { strip: 4, put: "ἐνε" } },
        RestoreRule { pattern: "ἐνη", when: Condition::Always, action: Restore::Replace { strip: 3, put: "ἐνα" } },
        RestoreRule { pattern: "ἐνε", when: Condition::Always, action: Restore::Replace { strip: 3, put: "ἐν" } },
        RestoreRule { pattern: "ἐπει", when: Condition::Always, action: Restore::Replace { strip: 4, put: "ἐπε" } },
        RestoreRule { pattern: "ἐπη", when: Condition::Always, action: Restore::Replace { strip: 3, put: "ἐπα" } },
        RestoreRule { pattern: "ἐπε", when: Condition::Absent, action: Restore::Erase },
        RestoreRule { pattern: "ἐπε", when: Condition::Begins("ἐπι"), action: Restore::Replace { strip: 3, put: "ἐπι" } },
        RestoreRule { pattern: "ἐπε", when: Condition::Always, action: Restore::Replace { strip: 1, put: "" } },
        RestoreRule { pattern: "ηὐ", when: Condition::Always, action: Restore::Replace { strip: 2, put: "εὐ" } },
        RestoreRule { pattern: "ηὑ", when: Condition::Always, action: Restore::Replace { strip: 2, put: "εὑ" } },
        RestoreRule { pattern: "ἐ", when: Condition::Always, action: Restore::Replace { strip: 1, put: "" } },
        RestoreRule { pattern: "ᾐ", when: Condition::Always, action: Restore::Replace { strip: 1, put: "αἰ" } },
        RestoreRule { pattern: "ᾑ", when: Condition::Always, action: Restore::Replace { strip: 1, put: "αἱ" } },
        RestoreRule { pattern: "ἠ", when: Condition::Absent, action: Restore::Erase },
        RestoreRule { pattern: "ἠ", when: Condition::Begins("ἀ"), action: Restore::Replace { strip: 1, put: "ἀ" } },
        RestoreRule { pattern: "ἠ", when: Condition::Always, action: Restore::Replace { strip: 1, put: "ἐ" } },
        RestoreRule { pattern: "ἡ", when: Condition::Absent, action: Restore::Erase },
        RestoreRule { pattern: "ἡ", when: Condition::Begins("ἁ"), action: Restore::Replace { strip: 1, put: "ἁ" } },
        RestoreRule { pattern: "ἡ", when: Condition::Always, action: Restore::Replace { strip: 1, put: "ἑ" } },
        RestoreRule { pattern: "κατη", when: Condition::Always, action: Restore::Replace { strip: 4, put: "κατα" } },
        RestoreRule { pattern: "κατε", when: Condition::Always, action: Restore::Replace { strip: 4, put: "κατα" } },
        RestoreRule { pattern: "μετη", when: Condition::Always, action: Restore::Replace { strip: 4, put: "μετα" } },
        RestoreRule { pattern: "μετε", when: Condition::Always, action: Restore::Replace { strip: 4, put: "μετα" } },
        RestoreRule { pattern: "παρη", when: Condition::Always, action: Restore::Replace { strip: 4, put: "παρα" } },
        RestoreRule { pattern: "παρε", when: Condition::Always, action: Restore::Replace { strip: 4, put: "παρα" } },
        RestoreRule { pattern: "περιε", when: Condition::Always, action: Restore::Replace { strip: 5, put: "περι" } },
        RestoreRule { pattern: "περιη", when: Condition::Always, action: Restore::Replace { strip: 5, put: "περια" } },
        RestoreRule { pattern: "προσε", when: Condition::Always, action: Restore::Replace { strip: 5, put: "προσ" } },
        RestoreRule { pattern: "πρου", when: Condition::Always, action: Restore::Replace { strip: 4, put: "προ" } },
        RestoreRule { pattern: "συνεγ", when: Condition::Always, action: Restore::Replace { strip: 4, put: "συγ" } },
        RestoreRule { pattern: "συνεκ", when: Condition::Always, action: Restore::Replace { strip: 4, put: "συγ" } },
        RestoreRule { pattern: "συνεξ", when: Condition::Always, action: Restore::Replace { strip: 4, put: "συγ" } },
        RestoreRule { pattern: "συνεχ", when: Condition::Always, action: Restore::Replace { strip: 4, put: "συγ" } },
        RestoreRule { pattern: "συνελ", when: Condition::Always, action: Restore::Replace { strip: 4, put: "συλ" } },
        RestoreRule { pattern: "συνεβ", when: Condition::Always, action: Restore::Replace { strip: 4, put: "συμ" } },
        RestoreRule { pattern: "συνεμ", when: Condition::Always, action: Restore::Replace { strip: 4, put: "συμ" } },
        RestoreRule { pattern: "συνεπ", when: Condition::Always, action: Restore::Replace { strip: 4, put: "συμ" } },
        RestoreRule { pattern: "συνεφ", when: Condition::Always, action: Restore::Replace { strip: 4, put: "συμ" } },
        RestoreRule { pattern: "συνερ", when: Condition::Always, action: Restore::Replace { strip: 4, put: "συρ" } },
        RestoreRule { pattern: "συνεσ", when: Condition::Always, action: Restore::Replace { strip: 4, put: "συσ" } },
        RestoreRule { pattern: "ᾠ", when: Condition::Always, action: Restore::Replace { strip: 1, put: "οἰ" } },
        RestoreRule { pattern: "ᾡ", when: Condition::Always, action: Restore::Replace { strip: 1, put: "οἱ" } },
        RestoreRule { pattern: "ὠ", when: Condition::Always, action: Restore::Replace { strip: 1, put: "ὀ" } },
        RestoreRule { pattern: "ὡ", when: Condition::Always, action: Restore::Replace { strip: 1, put: "ὁ" } },
        RestoreRule { pattern: "ὑπ", when: Condition::Always, action: Restore::ReplaceFirst { letter: 'ε', put: "ο" } },
    ];
    proof {
        reveal_strlit("ἀμφε");
        reveal_strlit("ἀνε");
        reveal_strlit("ἀντε");
        reveal_strlit("ἀπε");
        reveal_strlit("δι");
        reveal_strlit("εἰσε");
        reveal_strlit("εἰ");
        reveal_strlit("εἱ");
        reveal_strlit("ἐξε");
        reveal_strlit("ἐνεπ");
        reveal_strlit("ἐνεβ");
        reveal_strlit("ἐνεφ");
        reveal_strlit("ἐνεψ");
        reveal_strlit("ἐνεκ");
        reveal_strlit("ἐνεγ");
        reveal_strlit("ἐνεχ");
        reveal_strlit("ἐνεξ");
        reveal_strlit("ἐνει");
        reveal_strlit("ἐνη");
        reveal_strlit("ἐνε");
        reveal_strlit("ἐπει");
        reveal_strlit("ἐπη");
        reveal_strlit("ἐπε");
        reveal_strlit("ηὐ");
        reveal_strlit("ηὑ");
        reveal_strlit("ἐ");
        reveal_strlit("ᾐ");
        reveal_strlit("ᾑ");
        reveal_strlit("ἠ");
        reveal_strlit("ἡ");
        reveal_strlit("κατη");
        reveal_strlit("κατε");
        reveal_strlit("μετη");
        reveal_strlit("μετε");
        reveal_strlit("παρη");
        reveal_strlit("παρε");
        reveal_strlit("περιε");
        reveal_strlit("περιη");
        reveal_strlit("προσε");
        reveal_strlit("πρου");
        reveal_strlit("συνεγ");
        reveal_strlit("συνεκ");
        reveal_strlit("συνεξ");
        reveal_strlit("συνεχ");
        reveal_strlit("συνελ");
        reveal_strlit("συνεβ");
        reveal_strlit("συνεμ");
        reveal_strlit("συνεπ");
        reveal_strlit("συνεφ");
        reveal_strlit("συνερ");
        reveal_strlit("συνεσ");
        reveal_strlit("ᾠ");
        reveal_strlit("ᾡ");
        reveal_strlit("ὠ");
        reveal_strlit("ὡ");
        reveal_strlit("ὑπ");
        assert(table@ =~= restore_rules());
    }
    table
}

/// A stem whose letter at `at` differs from that of `pattern` does not
/// begin with `pattern`.
pub proof fn lemma_other_letter(pattern: Seq<char>, stem: Seq<char>, at: int)
    requires
        0 <= at < pattern.len(),
        at < stem.len() ==> stem[at] != pattern[at],
    ensures
        !pattern.is_prefix_of(stem),
{
    if pattern.len() <= stem.len() {
        assert(stem.subrange(0, pattern.len() as int)[at] == stem[at]);
    }
}

/// Where the rule at `index` is the first of `rules` that applies, it gives
/// the augment and the remaining stem.
pub proof fn lemma_augment_with_at(
    rules: Seq<AugmentRule>,
    aorist: Option<StemVariant>,
    stem: Seq<char>,
    index: int,
)
    requires
        0 <= index < rules.len(),
        rules[index].applies(aorist, stem),
        forall|k: int| 0 <= k < index ==> !(#[trigger] rules[k]).applies(aorist, stem),
    ensures
        augment_with(rules, aorist, stem) == (
            rules[index].augment@,
            stem.skip(rules[index].strip as int),
        ),
    decreases index,
{
    if index > 0 {
        let rest = rules.drop_first();
        assert(!rules[0].applies(aorist, stem));
        assert forall|k: int| 0 <= k < index - 1 implies !(#[trigger] rest[k]).applies(
            aorist,
            stem,
        ) by {
            assert(rest[k] == rules[k + 1]);
        }
        lemma_augment_with_at(rest, aorist, stem, index - 1);
    }
}

/// Where the rule at `index` is the first of `rules` that applies, its
/// action gives the restored stem.
pub proof fn lemma_restore_with_at(
    rules: Seq<RestoreRule>,
    present: Option<StemVariant>,
    stem: Seq<char>,
    index: int,
)
    requires
        0 <= index < rules.len(),
        rules[index].applies(present, stem),
        forall|k: int| 0 <= k < index ==> !(#[trigger] rules[k]).applies(present, stem),
    ensures
        restore_with(rules, present, stem) == rules[index].action.apply(stem),
    decreases index,
{
    if index > 0 {
        let rest = rules.drop_first();
        assert(!rules[0].applies(present, stem));
        assert forall|k: int| 0 <= k < index - 1 implies !(#[trigger] rest[k]).applies(
            present,
            stem,
        ) by {
            assert(rest[k] == rules[k + 1]);
        }
        lemma_restore_with_at(rest, present, stem, index - 1);
    }
}

/// A stem that does not begin with `shorter` does not begin with a pattern
/// that `shorter` begins.
pub proof fn lemma_longer_prefix(shorter: Seq<char>, longer: Seq<char>, stem: Seq<char>)
    requires
        shorter.is_prefix_of(longer),
        !shorter.is_prefix_of(stem),
    ensures
        !longer.is_prefix_of(stem),
{
    if longer.is_prefix_of(stem) {
        assert(stem.subrange(0, shorter.len() as int) =~= longer.subrange(0, shorter.len() as int));
    }
}

/// A stem that begins with "ἀνα" takes "ἠ" in place of its first letter
/// where the aorist begins with "ἠ", and "ἀνε" in place of the three letters
/// in every other case, also where there is no aorist.
pub proof fn lemma_forward_of_ana(aorist: Option<StemVariant>, stem: Seq<char>)
    requires
        "ἀνα"@.is_prefix_of(stem),
    ensures
        forward(aorist, stem) == if Condition::Begins("ἠ").spec_holds(aorist) {
            ("ἠ"@, stem.skip(1))
        } else {
            ("ἀνε"@, stem.skip(3))
        },
{
    reveal_strlit("ἀμφι");
    reveal_strlit("ἀνα");
    let rules = augment_rules();
    assert(forall|k: int| 0 <= k < 3 ==> stem[k] == stem.subrange(0, 3)[k]);
    lemma_other_letter("ἀμφι"@, stem, 1);
    if Condition::Begins("ἠ").spec_holds(aorist) {
        lemma_augment_with_at(rules, aorist, stem, 1);
    } else {
        lemma_augment_with_at(rules, aorist, stem, 2);
    }
}

/// A stem that begins with "ἐ" and with none of the compound prefixes in "ἐ"
/// takes "ἠ" in place of that letter where the aorist begins with "ἠ", and
/// "εἰ" in every other case, also where there is no aorist.
pub proof fn lemma_forward_of_smooth_epsilon(aorist: Option<StemVariant>, stem: Seq<char>)
    requires
        "ἐ"@.is_prefix_of(stem),
        !"ἐκ"@.is_prefix_of(stem),
        !"ἐμ"@.is_prefix_of(stem),
        !"ἐγ"@.is_prefix_of(stem),
        !"ἐν"@.is_prefix_of(stem),
        !"ἐπε"@.is_prefix_of(stem),
        !"ἐπα"@.is_prefix_of(stem),
        !"ἐπι"@.is_prefix_of(stem),
    ensures
        forward(aorist, stem) == if Condition::Begins("ἠ").spec_holds(aorist) {
            ("ἠ"@, stem.skip(1))
        } else {
            ("εἰ"@, stem.skip(1))
        },
{
    reveal_strlit("ἀμφι");
    reveal_strlit("ἀνα");
    reveal_strlit("ἀντι");
    reveal_strlit("ἀπο");
    reveal_strlit("ἀφι");
    reveal_strlit("αἰ");
    reveal_strlit("αἱ");
    reveal_strlit("ἀ");
    reveal_strlit("ἁ");
    reveal_strlit("δια");
    reveal_strlit("διε");
    reveal_strlit("διο");
    reveal_strlit("εἰσ");
    reveal_strlit("ἐκ");
    reveal_strlit("ἐμ");
    reveal_strlit("ἐγ");
    reveal_strlit("ἐνε");
    reveal_strlit("ἐνα");
    reveal_strlit("ἐν");
    reveal_strlit("ἐπε");
    reveal_strlit("ἐπα");
    reveal_strlit("ἐπι");
    reveal_strlit("εὐ");
    reveal_strlit("εὑ");
    reveal_strlit("ἐ");
    let rules = augment_rules();
    assert(forall|k: int| 0 <= k < 1 ==> stem[k] == stem.subrange(0, 1)[k]);
    lemma_other_letter("ἀμφι"@, stem, 0);
    lemma_other_letter("ἀνα"@, stem, 0);
    lemma_other_letter("ἀντι"@, stem, 0);
    lemma_other_letter("ἀπο"@, stem, 0);
    lemma_other_letter("ἀφι"@, stem, 0);
    lemma_other_letter("αἰ"@, stem, 0);
    lemma_other_letter("αἱ"@, stem, 0);
    lemma_other_letter("ἀ"@, stem, 0);
    lemma_other_letter("ἁ"@, stem, 0);
    lemma_other_letter("δια"@, stem, 0);
    lemma_other_letter("διε"@, stem, 0);
    lemma_other_letter("διο"@, stem, 0);
    lemma_other_letter("εἰσ"@, stem, 0);
    lemma_longer_prefix("ἐν"@, "ἐνε"@, stem);
    lemma_longer_prefix("ἐν"@, "ἐνα"@, stem);
    lemma_other_letter("εὐ"@, stem, 0);
    lemma_other_letter("εὑ"@, stem, 0);
    if Condition::Begins("ἠ").spec_holds(aorist) {
        lemma_augment_with_at(rules, aorist, stem, 25);
    } else {
        lemma_augment_with_at(rules, aorist, stem, 26);
    }
}

/// A stem that begins with "ἑ" takes "ἡ" in place of that letter where the
/// aorist begins with "ἡ", and "εἱ" in every other case, also where there is
/// no aorist.
pub proof fn lemma_forward_of_rough_epsilon(aorist: Option<StemVariant>, stem: Seq<char>)
    requires
        "ἑ"@.is_prefix_of(stem),
    ensures
        forward(aorist, stem) == if Condition::Begins("ἡ").spec_holds(aorist) {
            ("ἡ"@, stem.skip(1))
        } else {
            ("εἱ"@, stem.skip(1))
        },
{
    reveal_strlit("ἀμφι");
    reveal_strlit("ἀνα");
    reveal_strlit("ἀντι");
    reveal_strlit("ἀπο");
    reveal_strlit("ἀφι");
    reveal_strlit("αἰ");
    reveal_strlit("αἱ");
    reveal_strlit("ἀ");
    reveal_strlit("ἁ");
    reveal_strlit("δια");
    reveal_strlit("διε");
    reveal_strlit("διο");
    reveal_strlit("εἰσ");
    reveal_strlit("ἐκ");
    reveal_strlit("ἐμ");
    reveal_strlit("ἐγ");
    reveal_strlit("ἐνε");
    reveal_strlit("ἐνα");
    reveal_strlit("ἐν");
    reveal_strlit("ἐπε");
    reveal_strlit("ἐπα");
    reveal_strlit("ἐπι");
    reveal_strlit("εὐ");
    reveal_strlit("εὑ");
    reveal_strlit("ἐ");
    reveal_strlit("ἑ");
    let rules = augment_rules();
    assert(forall|k: int| 0 <= k < 1 ==> stem[k] == stem.subrange(0, 1)[k]);
    lemma_other_letter("ἀμφι"@, stem, 0);
    lemma_other_letter("ἀνα"@, stem, 0);
    lemma_other_letter("ἀντι"@, stem, 0);
    lemma_other_letter("ἀπο"@, stem, 0);
    lemma_other_letter("ἀφι"@, stem, 0);
    lemma_other_letter("αἰ"@, stem, 0);
    lemma_other_letter("αἱ"@, stem, 0);
    lemma_other_letter("ἀ"@, stem, 0);
    lemma_other_letter("ἁ"@, stem, 0);
    lemma_other_letter("δια"@, stem, 0);
    lemma_other_letter("διε"@, stem, 0);
    lemma_other_letter("διο"@, stem, 0);
    lemma_other_letter("εἰσ"@, stem, 0);
    lemma_other_letter("ἐκ"@, stem, 0);
    lemma_other_letter("ἐμ"@, stem, 0);
    lemma_other_letter("ἐγ"@, stem, 0);
    lemma_other_letter("ἐνε"@, stem, 0);
    lemma_other_letter("ἐνα"@, stem, 0);
    lemma_other_letter("ἐν"@, stem, 0);
    lemma_other_letter("ἐπε"@, stem, 0);
    lemma_other_letter("ἐπα"@, stem, 0);
    lemma_other_letter("ἐπι"@, stem, 0);
    lemma_other_letter("εὐ"@, stem, 0);
    lemma_other_letter("εὑ"@, stem, 0);
    lemma_other_letter("ἐ"@, stem, 0);
    if Condition::Begins("ἡ").spec_holds(aorist) {
        lemma_augment_with_at(rules, aorist, stem, 27);
    } else {
        lemma_augment_with_at(rules, aorist, stem, 28);
    }
}

/// A stem that begins with "ἀνα", of a verb without an aorist, takes the
/// regular compound augment "ἀνε" in place of these three letters.
pub proof fn lemma_forward_of_ana_without_aorist(stem: Seq<char>)
    requires
        "ἀνα"@.is_prefix_of(stem),
    ensures
        forward(None, stem) == ("ἀνε"@, stem.skip(3)),
{
    lemma_forward_of_ana(None, stem);
}

/// A stem that begins with "ἀπο" takes the augment "ἀπε" in place of these
/// three letters, whatever follows them and whatever the aorist.
pub proof fn lemma_forward_of_apo(aorist: Option<StemVariant>, stem: Seq<char>)
    requires
        "ἀπο"@.is_prefix_of(stem),
    ensures
        forward(aorist, stem) == ("ἀπε"@, stem.skip(3)),
{
    reveal_strlit("ἀμφι");
    reveal_strlit("ἀνα");
    reveal_strlit("ἀντι");
    reveal_strlit("ἀπο");
    let rules = augment_rules();
    assert(stem[1] == stem.subrange(0, 3)[1]);
    lemma_other_letter("ἀμφι"@, stem, 1);
    lemma_other_letter("ἀνα"@, stem, 1);
    lemma_other_letter("ἀντι"@, stem, 1);
    lemma_augment_with_at(rules, aorist, stem, 4);
}

/// A stem that begins with "ἀπε" gets "ἀπο" back in place of these three
/// letters, whatever follows them and whatever the present.
pub proof fn lemma_inverse_of_ape(present: Option<StemVariant>, stem: Seq<char>)
    requires
        "ἀπε"@.is_prefix_of(stem),
    ensures
        inverse(present, stem) == "ἀπο"@ + stem.skip(3),
{
    reveal_strlit("ἀμφε");
    reveal_strlit("ἀνε");
    reveal_strlit("ἀντε");
    reveal_strlit("ἀπε");
    let rules = restore_rules();
    assert(stem[1] == stem.subrange(0, 3)[1]);
    lemma_other_letter("ἀμφε"@, stem, 1);
    lemma_other_letter("ἀνε"@, stem, 1);
    lemma_other_letter("ἀντε"@, stem, 1);
    lemma_restore_with_at(rules, present, stem, 3);
}

/// Taking the augment off what `forward` made of a stem in "ἀπο" gives the
/// stem back.
pub proof fn lemma_apo_round_trip(
    aorist: Option<StemVariant>,
    present: Option<StemVariant>,
    stem: Seq<char>,
)
    requires
        "ἀπο"@.is_prefix_of(stem),
    ensures
        inverse(present, forward(aorist, stem).0 + forward(aorist, stem).1) == stem,
{
    reveal_strlit("ἀπο");
    reveal_strlit("ἀπε");
    lemma_forward_of_apo(aorist, stem);
    let augmented = "ἀπε"@ + stem.skip(3);
    assert(augmented.subrange(0, 3) =~= "ἀπε"@);
    lemma_inverse_of_ape(present, augmented);
    assert(augmented.skip(3) =~= stem.skip(3));
    assert("ἀπο"@ + stem.skip(3) =~= stem);
}

/// A stem that begins with "ὑπο" takes the augment "ὑπε" in place of these
/// three letters, whatever follows them and whatever the aorist.
pub proof fn lemma_forward_of_hupo(aorist: Option<StemVariant>, stem: Seq<char>)
    requires
        "ὑπο"@.is_prefix_of(stem),
    ensures
        forward(aorist, stem) == ("ὑπε"@, stem.skip(3)),
{
    reveal_strlit("ἀμφι");
    reveal_strlit("ἀνα");
    reveal_strlit("ἀντι");
    reveal_strlit("ἀπο");
    reveal_strlit("ἀφι");
    reveal_strlit("αἰ");
    reveal_strlit("αἱ");
    reveal_strlit("ἀ");
    reveal_strlit("ἁ");
    reveal_strlit("δια");
    reveal_strlit("διε");
    reveal_strlit("διο");
    reveal_strlit("εἰσ");
    reveal_strlit("ἐκ");
    reveal_strlit("ἐμ");
    reveal_strlit("ἐγ");
    reveal_strlit("ἐνε");
    reveal_strlit("ἐνα");
    reveal_strlit("ἐν");
    reveal_strlit("ἐπε");
    reveal_strlit("ἐπα");
    reveal_strlit("ἐπι");
    reveal_strlit("εὐ");
    reveal_strlit("εὑ");
    reveal_strlit("ἐ");
    reveal_strlit("ἑ");
    reveal_strlit("καταγ");
    reveal_strlit("κατα");
    reveal_strlit("μεταγ");
    reveal_strlit("μετα");
    reveal_strlit("παραγ");
    reveal_strlit("παρα");
    reveal_strlit("παρε");
    reveal_strlit("περι");
    reveal_strlit("περιαγ");
    reveal_strlit("προσ");
    reveal_strlit("προ");
    reveal_strlit("συγ");
    reveal_strlit("συλλ");
    reveal_strlit("συμ");
    reveal_strlit("συρ");
    reveal_strlit("συσ");
    reveal_strlit("οἰ");
    reveal_strlit("οἱ");
    reveal_strlit("ὀ");
    reveal_strlit("ὁ");
    reveal_strlit("ὑπο");
    let rules = augment_rules();
    assert(stem[0] == stem.subrange(0, 3)[0]);
    lemma_other_letter("ἀμφι"@, stem, 0);
    lemma_other_letter("ἀνα"@, stem, 0);
    lemma_other_letter("ἀντι"@, stem, 0);
    lemma_other_letter("ἀπο"@, stem, 0);
    lemma_other_letter("ἀφι"@, stem, 0);
    lemma_other_letter("αἰ"@, stem, 0);
    lemma_other_letter("αἱ"@, stem, 0);
    lemma_other_letter("ἀ"@, stem, 0);
    lemma_other_letter("ἁ"@, stem, 0);
    lemma_other_letter("δια"@, stem, 0);
    lemma_other_letter("διε"@, stem, 0);
    lemma_other_letter("διο"@, stem, 0);
    lemma_other_letter("εἰσ"@, stem, 0);
    lemma_other_letter("ἐκ"@, stem, 0);
    lemma_other_letter("ἐμ"@, stem, 0);
    lemma_other_letter("ἐγ"@, stem, 0);
    lemma_other_letter("ἐνε"@, stem, 0);
    lemma_other_letter("ἐνα"@, stem, 0);
    lemma_other_letter("ἐν"@, stem, 0);
    lemma_other_letter("ἐπε"@, stem, 0);
    lemma_other_letter("ἐπα"@, stem, 0);
    lemma_other_letter("ἐπι"@, stem, 0);
    lemma_other_letter("εὐ"@, stem, 0);
    lemma_other_letter("εὑ"@, stem, 0);
    lemma_other_letter("ἐ"@, stem, 0);
    lemma_other_letter("ἑ"@, stem, 0);
    lemma_other_letter("καταγ"@, stem, 0);
    lemma_other_letter("κατα"@, stem, 0);
    lemma_other_letter("μεταγ"@, stem, 0);
    lemma_other_letter("μετα"@, stem, 0);
    lemma_other_letter("παραγ"@, stem, 0);
    lemma_other_letter("παρα"@, stem, 0);
    lemma_other_letter("παρε"@, stem, 0);
    lemma_other_letter("περι"@, stem, 0);
    lemma_other_letter("περιαγ"@, stem, 0);
    lemma_other_letter("προσ"@, stem, 0);
    lemma_other_letter("προ"@, stem, 0);
    lemma_other_letter("συγ"@, stem, 0);
    lemma_other_letter("συλλ"@, stem, 0);
    lemma_other_letter("συμ"@, stem, 0);
    lemma_other_letter("συρ"@, stem, 0);
    lemma_other_letter("συσ"@, stem, 0);
    lemma_other_letter("οἰ"@, stem, 0);
    lemma_other_letter("οἱ"@, stem, 0);
    lemma_other_letter("ὀ"@, stem, 0);
    lemma_other_letter("ὁ"@, stem, 0);
    lemma_augment_with_at(rules, aorist, stem, 49);
}

/// A stem that begins with "ὑπε" gets "ὑπο" back in place of these three
/// letters, whatever follows them and whatever the present.
pub proof fn lemma_inverse_of_hupe(present: Option<StemVariant>, stem: Seq<char>)
    requires
        "ὑπε"@.is_prefix_of(stem),
    ensures
        inverse(present, stem) == "ὑπο"@ + stem.skip(3),
{
    reveal_strlit("ἀμφε");
    reveal_strlit("ἀνε");
    reveal_strlit("ἀντε");
    reveal_strlit("ἀπε");
    reveal_strlit("δι");
    reveal_strlit("εἰσε");
    reveal_strlit("εἰ");
    reveal_strlit("εἱ");
    reveal_strlit("ἐξε");
    reveal_strlit("ἐνεπ");
    reveal_strlit("ἐνεβ");
    reveal_strlit("ἐνεφ");
    reveal_strlit("ἐνεψ");
    reveal_strlit("ἐνεκ");
    reveal_strlit("ἐνεγ");
    reveal_strlit("ἐνεχ");
    reveal_strlit("ἐνεξ");
    reveal_strlit("ἐνει");
    reveal_strlit("ἐνη");
    reveal_strlit("ἐνε");
    reveal_strlit("ἐπει");
    reveal_strlit("ἐπη");
    reveal_strlit("ἐπε");
    reveal_strlit("ηὐ");
    reveal_strlit("ηὑ");
    reveal_strlit("ἐ");
    reveal_strlit("ᾐ");
    reveal_strlit("ᾑ");
    reveal_strlit("ἠ");
    reveal_strlit("ἡ");
    reveal_strlit("κατη");
    reveal_strlit("κατε");
    reveal_strlit("μετη");
    reveal_strlit("μετε");
    reveal_strlit("παρη");
    reveal_strlit("παρε");
    reveal_strlit("περιε");
    reveal_strlit("περιη");
    reveal_strlit("προσε");
    reveal_strlit("πρου");
    reveal_strlit("συνεγ");
    reveal_strlit("συνεκ");
    reveal_strlit("συνεξ");
    reveal_strlit("συνεχ");
    reveal_strlit("συνελ");
    reveal_strlit("συνεβ");
    reveal_strlit("συνεμ");
    reveal_strlit("συνεπ");
    reveal_strlit("συνεφ");
    reveal_strlit("συνερ");
    reveal_strlit("συνεσ");
    reveal_strlit("ᾠ");
    reveal_strlit("ᾡ");
    reveal_strlit("ὠ");
    reveal_strlit("ὡ");
    reveal_strlit("ὑπ");
    reveal_strlit("ὑπε");
    reveal_strlit("ὑπο");
    reveal_strlit("ο");
    let rules = restore_rules();
    assert(forall|k: int| 0 <= k < 3 ==> stem[k] == stem.subrange(0, 3)[k]);
    lemma_other_letter("ἀμφε"@, stem, 0);
    lemma_other_letter("ἀνε"@, stem, 0);
    lemma_other_letter("ἀντε"@, stem, 0);
    lemma_other_letter("ἀπε"@, stem, 0);
    lemma_other_letter("δι"@, stem, 0);
    lemma_other_letter("εἰσε"@, stem, 0);
    lemma_other_letter("εἰ"@, stem, 0);
    lemma_other_letter("εἱ"@, stem, 0);
    lemma_other_letter("ἐξε"@, stem, 0);
    lemma_other_letter("ἐνεπ"@, stem, 0);
    lemma_other_letter("ἐνεβ"@, stem, 0);
    lemma_other_letter("ἐνεφ"@, stem, 0);
    lemma_other_letter("ἐνεψ"@, stem, 0);
    lemma_other_letter("ἐνεκ"@, stem, 0);
    lemma_other_letter("ἐνεγ"@, stem, 0);
    lemma_other_letter("ἐνεχ"@, stem, 0);
    lemma_other_letter("ἐνεξ"@, stem, 0);
    lemma_other_letter("ἐνει"@, stem, 0);
    lemma_other_letter("ἐνη"@, stem, 0);
    lemma_other_letter("ἐνε"@, stem, 0);
    lemma_other_letter("ἐπει"@, stem, 0);
    lemma_other_letter("ἐπη"@, stem, 0);
    lemma_other_letter("ἐπε"@, stem, 0);
    lemma_other_letter("ηὐ"@, stem, 0);
    lemma_other_letter("ηὑ"@, stem, 0);
    lemma_other_letter("ἐ"@, stem, 0);
    lemma_other_letter("ᾐ"@, stem, 0);
    lemma_other_letter("ᾑ"@, stem, 0);
    lemma_other_letter("ἠ"@, stem, 0);
    lemma_other_letter("ἡ"@, stem, 0);
    lemma_other_letter("κατη"@, stem, 0);
    lemma_other_letter("κατε"@, stem, 0);
    lemma_other_letter("μετη"@, stem, 0);
    lemma_other_letter("μετε"@, stem, 0);
    lemma_other_letter("παρη"@, stem, 0);
    lemma_other_letter("παρε"@, stem, 0);
    lemma_other_letter("περιε"@, stem, 0);
    lemma_other_letter("περιη"@, stem, 0);
    lemma_other_letter("προσε"@, stem, 0);
    lemma_other_letter("πρου"@, stem, 0);
    lemma_other_letter("συνεγ"@, stem, 0);
    lemma_other_letter("συνεκ"@, stem, 0);
    lemma_other_letter("συνεξ"@, stem, 0);
    lemma_other_letter("συνεχ"@, stem, 0);
    lemma_other_letter("συνελ"@, stem, 0);
    lemma_other_letter("συνεβ"@, stem, 0);
    lemma_other_letter("συνεμ"@, stem, 0);
    lemma_other_letter("συνεπ"@, stem, 0);
    lemma_other_letter("συνεφ"@, stem, 0);
    lemma_other_letter("συνερ"@, stem, 0);
    lemma_other_letter("συνεσ"@, stem, 0);
    lemma_other_letter("ᾠ"@, stem, 0);
    lemma_other_letter("ᾡ"@, stem, 0);
    lemma_other_letter("ὠ"@, stem, 0);
    lemma_other_letter("ὡ"@, stem, 0);
    assert("ὑπ"@ =~= stem.subrange(0, 2));
    lemma_restore_with_at(rules, present, stem, 61);
    lemma_first_position_is(stem, 'ε', 2);
    assert(stem.take(2) + "ο"@ + stem.skip(3) =~= "ὑπο"@ + stem.skip(3));
}

/// Taking the augment off what `forward` made of a stem in "ὑπο" gives the
/// stem back.
pub proof fn lemma_hupo_round_trip(
    aorist: Option<StemVariant>,
    present: Option<StemVariant>,
    stem: Seq<char>,
)
    requires
        "ὑπο"@.is_prefix_of(stem),
    ensures
        inverse(present, forward(aorist, stem).0 + forward(aorist, stem).1) == stem,
{
    reveal_strlit("ὑπο");
    reveal_strlit("ὑπε");
    lemma_forward_of_hupo(aorist, stem);
    let augmented = "ὑπε"@ + stem.skip(3);
    assert(augmented.subrange(0, 3) =~= "ὑπε"@);
    lemma_inverse_of_hupe(present, augmented);
    assert(augmented.skip(3) =~= stem.skip(3));
    assert("ὑπο"@ + stem.skip(3) =~= stem);
}

/// `stem` with `put` in place of its first `letter`, if it has one.
pub fn replace_first_letter(stem: &str, letter: char, put: &str) -> (replaced: String)
    ensures
        replaced@ == replace_first(stem@, letter, put@),
{
    match find_letter(stem, letter) {
        Some(at) => {
            let mut replaced = String::from_str(take_letters(stem, at));
            replaced.append(put);
            replaced.append(skip_letters(skip_letters(stem, at), 1));
            assert(stem@.skip(at as int).skip(1) =~= stem@.skip(at + 1));
            replaced
        },
        None => String::from_str(stem),
    }
}

impl Restore {
    /// Carries this action out on `stem`.
    fn perform(&self, stem: &str) -> (restored: String)
        requires
            match *self {
                Restore::Replace { strip, put } => strip <= stem@.len(),
                _ => true,
            },
        ensures
            restored@ == self.apply(stem@),
    {
        match self {
            Restore::Replace { strip, put } => {
                let mut restored = String::from_str(put);
                restored.append(skip_letters(stem, *strip));
                restored
            },
            Restore::ReplaceFirst { letter, put } => replace_first_letter(stem, *letter, put),
            Restore::Erase => String::new(),
        }
    }
}

impl VerbStemSet {
    /// Splits `stem` into its augment and the stem that remains behind it,
    /// with the verb's aorist stem as context.
    pub fn aug_and_stem<'a>(opt_aor: &Option<TenseVoiceMoodVariant>, stem: &'a str) -> (parts: (
        &'a str,
        &'a str,
    ))
        ensures
            (parts.0@, parts.1@) == forward(variant_view(*opt_aor), stem@),
    {
        let table = augment_table();
        let ghost aorist = variant_view(*opt_aor);
        let mut i: usize = 0;
        assert(table@.skip(0) =~= table@);
        while i < table.len()
            invariant
                i <= table@.len(),
                table@ == augment_rules(),
                aorist == variant_view(*opt_aor),
                forall|k: int| 0 <= k < table@.len() ==> (#[trigger] table@[k]).well_formed(),
                augment_with(table@, aorist, stem@) == augment_with(
                    table@.skip(i as int),
                    aorist,
                    stem@,
                ),
            decreases table@.len() - i,
        {
            let rule = &table[i];
            proof {
                assert(table@.skip(i as int)[0] == table@[i as int]);
                assert(table@.skip(i as int).drop_first() =~= table@.skip(i + 1));
            }
            if starts_with(stem, rule.pattern) && rule.when.holds(opt_aor) {
                assert(rule.well_formed());
                return (rule.augment, skip_letters(stem, rule.strip));
            }
            i += 1;
        }
        ("ἐ", stem)
    }

    /// Removes the augment from an augmented `stem`, with the verb's present
    /// stem as context.
    pub fn remove_aug(opt_pres: &Option<TenseVoiceMoodVariant>, stem: &str) -> (restored: String)
        ensures
            restored@ == inverse(variant_view(*opt_pres), stem@),
    {
        let table = restore_table();
        let ghost present = variant_view(*opt_pres);
        let mut i: usize = 0;
        assert(table@.skip(0) =~= table@);
        while i < table.len()
            invariant
                i <= table@.len(),
                table@ == restore_rules(),
                present == variant_view(*opt_pres),
                forall|k: int| 0 <= k < table@.len() ==> (#[trigger] table@[k]).well_formed(),
                restore_with(table@, present, stem@) == restore_with(
                    table@.skip(i as int),
                    present,
                    stem@,
                ),
            decreases table@.len() - i,
        {
            let rule = &table[i];
            proof {
                assert(table@.skip(i as int)[0] == table@[i as int]);
                assert(table@.skip(i as int).drop_first() =~= table@.skip(i + 1));
            }
            if starts_with(stem, rule.pattern) && rule.when.holds(opt_pres) {
                assert(rule.well_formed());
                return rule.action.perform(stem);
            }
            i += 1;
        }
        proof {
            reveal_strlit("");
            assert(""@ =~= Seq::<char>::empty());
        }
        replace_first_letter(stem, 'ε', "")
    }
}

} // verus!
