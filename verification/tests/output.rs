use greek_conjugator::augment::replace_first_letter;
use greek_conjugator::conjugate::{Cell, Contraction, EndingSet, Slot, Verb};
use greek_conjugator::entry::VerbEntry;
use greek_conjugator::output::join_forms;
use greek_conjugator::stems::VerbStemSet;
use greek_conjugator::types::{Category, Conjugated, TenseVoiceMoodVariant};

fn cell(all: &[&str]) -> Conjugated {
    Conjugated::Forms(all.iter().map(|form| form.to_string()).collect())
}

fn luo() -> Verb {
    VerbEntry::new(
        Some("λυω".to_string()),
        Some("λυσομαι".to_string()),
        None,
        Some("ελυθην".to_string()),
    )
    .check_alternates()
    .parse()
    .conjugate()
}

fn no_stems() -> VerbStemSet {
    VerbStemSet {
        pres_stem: None,
        fut_stem: None,
        fut_stem_alt: None,
        aorist_stem: None,
        aorist_stem_alt: None,
        aor_pass_stem: None,
        aor_pass_stem_alt: None,
    }
}

#[test]
fn to_vec_of_a_cell() {
    let forms = cell(&["α", "β"]);
    assert_eq!(forms.to_vec(), Some(&vec!["α".to_string(), "β".to_string()]));
    assert_eq!(Conjugated::Absent.to_vec(), None);
}

#[test]
fn line_joins_with_comma_and_space() {
    let forms = cell(&["λυω", "λυεις", "λυει", "λυομεν", "λυετε", "λυουσι"]);
    assert_eq!(forms.line(), Some("λυω, λυεις, λυει, λυομεν, λυετε, λυουσι".to_string()));
    assert_eq!(cell(&["λυω"]).line(), Some("λυω".to_string()));
    assert_eq!(cell(&[]).line(), Some(String::new()));
    assert_eq!(cell(&["", ""]).line(), Some(", ".to_string()));
    assert_eq!(Conjugated::Absent.line(), None);
}

#[test]
fn join_forms_with_any_separator() {
    let forms = vec!["α".to_string(), "β".to_string(), "γ".to_string()];
    assert_eq!(join_forms(&forms, ","), "α,β,γ");
    assert_eq!(join_forms(&forms, ""), "αβγ");
    assert_eq!(join_forms(&forms, " — "), "α — β — γ");
    assert_eq!(join_forms(&Vec::new(), ", "), "");
}

#[test]
fn cells_come_in_fixed_order() {
    let verb = Verb {
        pai: cell(&["1"]),
        ppi: cell(&["2"]),
        iai: cell(&["3"]),
        ipi: cell(&["4"]),
        fai: cell(&["5"]),
        fai2: cell(&["6"]),
        fmi: cell(&["7"]),
        fmi2: cell(&["8"]),
        fpi: cell(&["9"]),
        fpi2: cell(&["10"]),
        aai: cell(&["11"]),
        aai2: cell(&["12"]),
        ami: cell(&["13"]),
        ami2: cell(&["14"]),
        api: cell(&["15"]),
        api2: cell(&["16"]),
    };
    let cells = verb.cells();
    assert_eq!(cells.len(), 16);
    for (at, one) in cells.iter().enumerate() {
        assert_eq!(**one, cell(&[&format!("{}", at + 1)]));
    }
    let lines: Vec<String> = (1..17).map(|n| format!("{}", n)).collect();
    assert_eq!(verb.lines(), lines);
    assert_eq!(verb.rows().len(), 16);
}

#[test]
fn rows_skip_absent_cells() {
    let verb = luo();
    let rows = verb.rows();
    assert_eq!(rows.len(), 7);
    assert_eq!(rows[0], verb.pai.to_vec().unwrap());
    assert_eq!(rows[1], verb.ppi.to_vec().unwrap());
    assert_eq!(rows[2], verb.iai.to_vec().unwrap());
    assert_eq!(rows[3], verb.ipi.to_vec().unwrap());
    assert_eq!(rows[4], verb.fmi.to_vec().unwrap());
    assert_eq!(rows[5], verb.fpi.to_vec().unwrap());
    assert_eq!(rows[6], verb.api.to_vec().unwrap());
    assert_eq!(verb.fai, Conjugated::Absent);
}

#[test]
fn lines_are_the_rows_joined() {
    let verb = luo();
    assert_eq!(
        verb.lines(),
        vec![
            "λυω, λυεις, λυει, λυομεν, λυετε, λυουσι",
            "λυομαι, λυῃ, λυεται, λυομεθα, λυεσθε, λυονται",
            "ἐλυον, ἐλυες, ἐλυε, ἐλυομεν, ἐλυετε, ἐλυον",
            "ἐλυομην, ἐλυου, ἐλυετο, ἐλυομεθα, ἐλυεσθε, ἐλυοντο",
            "λυσομαι, λυσῃ, λυσεται, λυσομεθα, λυσεσθε, λυσονται",
            "λυθησομαι, λυθησῃ, λυθησεται, λυθησομεθα, λυθησεσθε, λυθησονται",
            "ελυθην, ελυθης, ελυθη, ελυθημεν, ελυθητε, ελυθησαν",
        ]
    );
}

#[test]
fn a_verb_without_cells_has_no_rows() {
    let verb = no_stems().conjugate();
    assert!(verb.rows().is_empty());
    assert!(verb.lines().is_empty());
}

#[test]
fn replace_first_letter_replaces_one() {
    assert_eq!(replace_first_letter("διελεχθε", 'ε', "α"), "διαλεχθε");
    assert_eq!(replace_first_letter("διωχθ", 'ε', "α"), "διωχθ");
    assert_eq!(replace_first_letter("ελυθ", 'ε', ""), "λυθ");
    assert_eq!(replace_first_letter("", 'ε', "α"), "");
    assert_eq!(replace_first_letter("λυε", 'ε', "ομαι"), "λυομαι");
}

#[test]
fn ending_sets_have_their_endings() {
    assert_eq!(
        EndingSet::PrimaryActive(Contraction::Regular).endings(),
        ["ω", "εις", "ει", "ομεν", "ετε", "ουσι"]
    );
    assert_eq!(EndingSet::WeakAoristActive.endings(), ["α", "ας", "ε", "αμεν", "ατε", "αν"]);
    assert_eq!(EndingSet::AoristPassive.endings(), ["ην", "ης", "η", "ημεν", "ητε", "ησαν"]);
    assert_eq!(
        EndingSet::FuturePassive.endings(),
        ["ησομαι", "ησῃ", "ησεται", "ησομεθα", "ησεσθε", "ησονται"]
    );
    assert_eq!(
        EndingSet::PrimaryMiddle(Contraction::Alpha).endings(),
        ["ωμαι", "ῳ", "αται", "ωμεθα", "ασθε", "ωνται"]
    );
}

#[test]
fn cells_take_their_ending_sets() {
    assert_eq!(
        Cell::PresentActive.ending_set(Category::PresActIndOmi),
        Some(EndingSet::PrimaryActive(Contraction::Omicron))
    );
    assert_eq!(Cell::PresentActive.ending_set(Category::PresPassIndOmi), None);
    assert_eq!(
        Cell::ImperfectPassive.ending_set(Category::PresPassIndEps),
        Some(EndingSet::SecondaryMiddle(Contraction::Epsilon))
    );
    assert_eq!(
        Cell::FutureActive.ending_set(Category::FutPassIndReg),
        Some(EndingSet::DeponentFuture)
    );
    assert_eq!(Cell::FutureMiddle.ending_set(Category::FutPassIndReg), None);
    assert_eq!(
        Cell::AoristActive.ending_set(Category::AorPassIndWk),
        Some(EndingSet::AoristPassive)
    );
    assert_eq!(
        Cell::AoristMiddle.ending_set(Category::AorMidIndStr),
        Some(EndingSet::SecondaryMiddle(Contraction::Regular))
    );
    assert_eq!(
        Cell::FuturePassive.ending_set(Category::AorPassIndWk),
        Some(EndingSet::FuturePassive)
    );
    assert_eq!(Cell::AoristPassive.ending_set(Category::AorActIndWk), None);
}

#[test]
fn conjugate_cell_reads_the_slot_it_is_given() {
    let mut stems = no_stems();
    stems.aorist_stem = Some(TenseVoiceMoodVariant::AorActIndWk("ἠλθ".to_string()));
    let present = Some(TenseVoiceMoodVariant::PresActIndReg("ἐρχ".to_string()));
    assert_eq!(
        stems.conjugate_cell(Cell::ImperfectActive, &present),
        cell(&["ἠρχον", "ἠρχες", "ἠρχε", "ἠρχομεν", "ἠρχετε", "ἠρχον"])
    );
    assert_eq!(stems.conjugate_cell(Cell::FutureActive, &present), Conjugated::Absent);
    assert_eq!(stems.conjugate_cell(Cell::PresentActive, &None), Conjugated::Absent);
}

#[test]
fn stems_of_parse_give_no_diagnostics() {
    let stems = VerbEntry::new(
        Some("παιδευω".to_string()),
        Some("παιδευσω/παιδευσομαι".to_string()),
        Some("επαιδευσα/εγραφην".to_string()),
        Some("επαιδευθην".to_string()),
    )
    .check_alternates()
    .parse();
    assert!(stems.diagnostics().is_empty());
    assert!(no_stems().diagnostics().is_empty());
}

#[test]
fn a_stem_in_a_foreign_slot_is_named_and_left_out() {
    let stems = VerbStemSet {
        pres_stem: Some(TenseVoiceMoodVariant::AorActIndWk("ελυσ".to_string())),
        fut_stem: Some(TenseVoiceMoodVariant::PresActIndReg("λυ".to_string())),
        fut_stem_alt: Some(TenseVoiceMoodVariant::AorPassIndWk("ελυθ".to_string())),
        aorist_stem: Some(TenseVoiceMoodVariant::FutActIndReg("λυσ".to_string())),
        aorist_stem_alt: Some(TenseVoiceMoodVariant::PresPassIndAlp("τιμ".to_string())),
        aor_pass_stem: Some(TenseVoiceMoodVariant::AorActIndStr("ελιπ".to_string())),
        aor_pass_stem_alt: Some(TenseVoiceMoodVariant::FutMidIndEps("φαν".to_string())),
    };
    assert_eq!(
        stems.diagnostics(),
        vec![
            "Unable to conjugate present and imperfect for AorActIndWk: \"ελυσ\"",
            "Unable to conjugate future voice for PresActIndReg: \"λυ\"",
            "Unable to conjugate second future voice for AorPassIndWk: \"ελυθ\"",
            "Unable to conjugate aorist active and middle for FutActIndReg: \"λυσ\"",
            "Unable to conjugate second aorist active and middle for PresPassIndAlp: \"τιμ\"",
            "Unable to conjugate aorist passive for AorActIndStr: \"ελιπ\"",
            "Unable to conjugate second aorist passive for FutMidIndEps: \"φαν\"",
        ]
    );
    let verb = stems.conjugate();
    assert!(verb.rows().is_empty());
}

#[test]
fn only_the_foreign_slot_is_left_out() {
    let mut stems = no_stems();
    stems.pres_stem = Some(TenseVoiceMoodVariant::PresActIndReg("λυ".to_string()));
    stems.fut_stem = Some(TenseVoiceMoodVariant::AorActIndWk("ελυσ".to_string()));
    stems.aorist_stem = Some(TenseVoiceMoodVariant::AorPassIndWk("εβ".to_string()));
    assert_eq!(
        stems.diagnostics(),
        vec!["Unable to conjugate future voice for AorActIndWk: \"ελυσ\""]
    );
    let verb = stems.conjugate();
    assert_eq!(verb.fai, Conjugated::Absent);
    assert_eq!(verb.fmi, Conjugated::Absent);
    assert_eq!(verb.pai, cell(&["λυω", "λυεις", "λυει", "λυομεν", "λυετε", "λυουσι"]));
    assert_eq!(verb.aai, cell(&["εβην", "εβης", "εβη", "εβημεν", "εβητε", "εβησαν"]));
    assert_eq!(verb.ami, Conjugated::Absent);
}

#[test]
fn slots_know_their_categories() {
    assert!(Slot::Present.fits(Category::PresPassIndOmi));
    assert!(!Slot::Present.fits(Category::FutActIndReg));
    assert!(Slot::Future.fits(Category::FutPassIndReg));
    assert!(Slot::FutureAlt.fits(Category::FutMidIndEps));
    assert!(!Slot::Future.fits(Category::AorPassIndWk));
    assert!(Slot::Aorist.fits(Category::AorPassIndWk));
    assert!(Slot::AoristAlt.fits(Category::AorMidIndStr));
    assert!(Slot::AoristPassive.fits(Category::AorPassIndWk));
    assert!(!Slot::AoristPassiveAlt.fits(Category::AorActIndWk));
    assert_eq!(Slot::Future.complaint(), "Unable to conjugate future voice for ");
    assert_eq!(Category::AorMidIndStr.name(), "AorMidIndStr");
}

#[test]
fn stem_in_gives_the_slot() {
    let mut stems = no_stems();
    stems.aor_pass_stem_alt = Some(TenseVoiceMoodVariant::AorPassIndWk("ελυθ".to_string()));
    assert_eq!(stems.stem_in(Slot::AoristPassiveAlt), &stems.aor_pass_stem_alt);
    assert_eq!(stems.stem_in(Slot::AoristPassive), &None);
    assert_eq!(stems.stem_in(Slot::Present), &None);
}
