use greek_conjugator::stems::PrincipalPart;
use greek_conjugator::types::{Category, TenseVoiceMoodVariant};

fn classified(category: Category, stem: &str) -> Option<TenseVoiceMoodVariant> {
    Some(TenseVoiceMoodVariant::new(category, stem.to_string()))
}

#[test]
fn classify_present_samples() {
    assert_eq!(PrincipalPart::Present.classify("παιδευω"), classified(Category::PresActIndReg, "παιδευ"));
    assert_eq!(PrincipalPart::Present.classify("λυω"), classified(Category::PresActIndReg, "λυ"));
    assert_eq!(PrincipalPart::Present.classify("τιμαω"), classified(Category::PresActIndAlp, "τιμ"));
    assert_eq!(PrincipalPart::Present.classify("ποιεω"), classified(Category::PresActIndEps, "ποι"));
    assert_eq!(PrincipalPart::Present.classify("δηλοω"), classified(Category::PresActIndOmi, "δηλ"));
    assert_eq!(PrincipalPart::Present.classify("ερχομαι"), classified(Category::PresPassIndReg, "ερχ"));
    assert_eq!(PrincipalPart::Present.classify("τιμαομαι"), classified(Category::PresPassIndAlp, "τιμ"));
    assert_eq!(PrincipalPart::Present.classify("ποιεομαι"), classified(Category::PresPassIndEps, "ποι"));
    assert_eq!(PrincipalPart::Present.classify("δηλοομαι"), classified(Category::PresPassIndOmi, "δηλ"));
    assert_eq!(PrincipalPart::Present.classify("παιδευομαι"), classified(Category::PresPassIndReg, "παιδευ"));
    assert_eq!(PrincipalPart::Present.classify("ω"), classified(Category::PresActIndReg, ""));
    assert_eq!(PrincipalPart::Present.classify("αω"), classified(Category::PresActIndAlp, ""));
    assert_eq!(PrincipalPart::Present.classify("ομαι"), classified(Category::PresPassIndReg, ""));
    assert_eq!(PrincipalPart::Present.classify("γραφω"), classified(Category::PresActIndReg, "γραφ"));
    assert_eq!(PrincipalPart::Present.classify("ἀγω"), classified(Category::PresActIndReg, "ἀγ"));
    assert_eq!(PrincipalPart::Present.classify("ειμι"), None);
    assert_eq!(PrincipalPart::Present.classify("παιδευ"), None);
    assert_eq!(PrincipalPart::Present.classify(""), None);
    assert_eq!(PrincipalPart::Present.classify("λυει"), None);
    assert_eq!(PrincipalPart::Present.classify("ωα"), None);
    assert_eq!(PrincipalPart::Present.classify("βουλομαι"), classified(Category::PresPassIndReg, "βουλ"));
    assert_eq!(PrincipalPart::Present.classify("θεαομαι"), classified(Category::PresPassIndAlp, "θε"));
    assert_eq!(PrincipalPart::Present.classify("φοβεομαι"), classified(Category::PresPassIndEps, "φοβ"));
    assert_eq!(PrincipalPart::Present.classify("ἀξιοομαι"), classified(Category::PresPassIndOmi, "ἀξι"));
    assert_eq!(PrincipalPart::Present.classify("ιω"), classified(Category::PresActIndReg, "ι"));
    assert_eq!(PrincipalPart::Present.classify("υω"), classified(Category::PresActIndReg, "υ"));
    assert_eq!(PrincipalPart::Present.classify("ηω"), classified(Category::PresActIndReg, "η"));
}

#[test]
fn classify_future_samples() {
    assert_eq!(PrincipalPart::Future.classify("παιδευσω"), classified(Category::FutActIndReg, "παιδευσ"));
    assert_eq!(PrincipalPart::Future.classify("λυσω"), classified(Category::FutActIndReg, "λυσ"));
    assert_eq!(PrincipalPart::Future.classify("ἀξω"), classified(Category::FutActIndReg, "ἀξ"));
    assert_eq!(PrincipalPart::Future.classify("γραψω"), classified(Category::FutActIndReg, "γραψ"));
    assert_eq!(PrincipalPart::Future.classify("λυθησομαι"), classified(Category::FutPassIndReg, "λυ"));
    assert_eq!(PrincipalPart::Future.classify("λυσομαι"), classified(Category::FutMidIndReg, "λυσ"));
    assert_eq!(PrincipalPart::Future.classify("δεξομαι"), classified(Category::FutMidIndReg, "δεξ"));
    assert_eq!(PrincipalPart::Future.classify("μενω"), classified(Category::FutActIndEps, "μεν"));
    assert_eq!(PrincipalPart::Future.classify("βαλω"), classified(Category::FutActIndEps, "βαλ"));
    assert_eq!(PrincipalPart::Future.classify("φανουμαι"), classified(Category::FutMidIndEps, "φαν"));
    assert_eq!(PrincipalPart::Future.classify("μαχουμαι"), classified(Category::FutMidIndEps, "μαχ"));
    assert_eq!(PrincipalPart::Future.classify("ω"), classified(Category::FutActIndEps, ""));
    assert_eq!(PrincipalPart::Future.classify("σω"), classified(Category::FutActIndReg, "σ"));
    assert_eq!(PrincipalPart::Future.classify("ξω"), classified(Category::FutActIndReg, "ξ"));
    assert_eq!(PrincipalPart::Future.classify("ψω"), classified(Category::FutActIndReg, "ψ"));
    assert_eq!(PrincipalPart::Future.classify("σομαι"), classified(Category::FutMidIndReg, "σ"));
    assert_eq!(PrincipalPart::Future.classify("θησομαι"), classified(Category::FutPassIndReg, ""));
    assert_eq!(PrincipalPart::Future.classify("ουμαι"), classified(Category::FutMidIndEps, ""));
    assert_eq!(PrincipalPart::Future.classify("ξομαι"), classified(Category::FutMidIndReg, "ξ"));
    assert_eq!(PrincipalPart::Future.classify("λυσ"), None);
    assert_eq!(PrincipalPart::Future.classify(""), None);
    assert_eq!(PrincipalPart::Future.classify("παιδευσει"), None);
    assert_eq!(PrincipalPart::Future.classify("γενησομαι"), classified(Category::FutMidIndReg, "γενησ"));
    assert_eq!(PrincipalPart::Future.classify("λημψομαι"), None);
    assert_eq!(PrincipalPart::Future.classify("ὀψομαι"), None);
    assert_eq!(PrincipalPart::Future.classify("ἐρω"), classified(Category::FutActIndEps, "ἐρ"));
}

#[test]
fn classify_alternate_future_samples() {
    assert_eq!(PrincipalPart::FutureAlternate.classify("παιδευσω"), classified(Category::FutActIndReg, "παιδευσ"));
    assert_eq!(PrincipalPart::FutureAlternate.classify("λυσω"), classified(Category::FutActIndReg, "λυσ"));
    assert_eq!(PrincipalPart::FutureAlternate.classify("ἀξω"), classified(Category::FutActIndReg, "ἀξ"));
    assert_eq!(PrincipalPart::FutureAlternate.classify("γραψω"), classified(Category::FutActIndEps, "γραψ"));
    assert_eq!(PrincipalPart::FutureAlternate.classify("λυθησομαι"), classified(Category::FutPassIndReg, "λυ"));
    assert_eq!(PrincipalPart::FutureAlternate.classify("λυσομαι"), classified(Category::FutMidIndReg, "λυσ"));
    assert_eq!(PrincipalPart::FutureAlternate.classify("δεξομαι"), classified(Category::FutMidIndReg, "δεξ"));
    assert_eq!(PrincipalPart::FutureAlternate.classify("μενω"), classified(Category::FutActIndEps, "μεν"));
    assert_eq!(PrincipalPart::FutureAlternate.classify("βαλω"), classified(Category::FutActIndEps, "βαλ"));
    assert_eq!(PrincipalPart::FutureAlternate.classify("φανουμαι"), classified(Category::FutMidIndEps, "φαν"));
    assert_eq!(PrincipalPart::FutureAlternate.classify("μαχουμαι"), classified(Category::FutMidIndEps, "μαχ"));
    assert_eq!(PrincipalPart::FutureAlternate.classify("ω"), classified(Category::FutActIndEps, ""));
    assert_eq!(PrincipalPart::FutureAlternate.classify("σω"), classified(Category::FutActIndReg, "σ"));
    assert_eq!(PrincipalPart::FutureAlternate.classify("ξω"), classified(Category::FutActIndReg, "ξ"));
    assert_eq!(PrincipalPart::FutureAlternate.classify("ψω"), classified(Category::FutActIndEps, "ψ"));
    assert_eq!(PrincipalPart::FutureAlternate.classify("σομαι"), classified(Category::FutMidIndReg, "σ"));
    assert_eq!(PrincipalPart::FutureAlternate.classify("θησομαι"), classified(Category::FutPassIndReg, ""));
    assert_eq!(PrincipalPart::FutureAlternate.classify("ουμαι"), classified(Category::FutMidIndEps, ""));
    assert_eq!(PrincipalPart::FutureAlternate.classify("ξομαι"), classified(Category::FutMidIndReg, "ξ"));
    assert_eq!(PrincipalPart::FutureAlternate.classify("λυσ"), None);
    assert_eq!(PrincipalPart::FutureAlternate.classify(""), None);
    assert_eq!(PrincipalPart::FutureAlternate.classify("παιδευσει"), None);
    assert_eq!(PrincipalPart::FutureAlternate.classify("γενησομαι"), classified(Category::FutMidIndReg, "γενησ"));
    assert_eq!(PrincipalPart::FutureAlternate.classify("λημψομαι"), None);
    assert_eq!(PrincipalPart::FutureAlternate.classify("ὀψομαι"), None);
    assert_eq!(PrincipalPart::FutureAlternate.classify("ἐρω"), classified(Category::FutActIndEps, "ἐρ"));
}

#[test]
fn classify_aorist_samples() {
    assert_eq!(PrincipalPart::Aorist.classify("επαιδευσα"), classified(Category::AorActIndWk, "επαιδευσ"));
    assert_eq!(PrincipalPart::Aorist.classify("ελυσα"), classified(Category::AorActIndWk, "ελυσ"));
    assert_eq!(PrincipalPart::Aorist.classify("ελυσαμην"), classified(Category::AorMidIndWk, "ελυσ"));
    assert_eq!(PrincipalPart::Aorist.classify("εγενομην"), classified(Category::AorMidIndStr, "εγεν"));
    assert_eq!(PrincipalPart::Aorist.classify("εβην"), classified(Category::AorPassIndWk, "εβ"));
    assert_eq!(PrincipalPart::Aorist.classify("εγραφην"), classified(Category::AorPassIndWk, "εγραφ"));
    assert_eq!(PrincipalPart::Aorist.classify("ελιπον"), classified(Category::AorActIndStr, "ελιπ"));
    assert_eq!(PrincipalPart::Aorist.classify("ἠγαγον"), classified(Category::AorActIndStr, "ἠγαγ"));
    assert_eq!(PrincipalPart::Aorist.classify("α"), classified(Category::AorActIndWk, ""));
    assert_eq!(PrincipalPart::Aorist.classify("αμην"), classified(Category::AorMidIndWk, ""));
    assert_eq!(PrincipalPart::Aorist.classify("ομην"), classified(Category::AorMidIndStr, ""));
    assert_eq!(PrincipalPart::Aorist.classify("ην"), classified(Category::AorPassIndWk, ""));
    assert_eq!(PrincipalPart::Aorist.classify("ον"), classified(Category::AorActIndStr, ""));
    assert_eq!(PrincipalPart::Aorist.classify("ελυσ"), None);
    assert_eq!(PrincipalPart::Aorist.classify(""), None);
    assert_eq!(PrincipalPart::Aorist.classify("ελυσε"), None);
    assert_eq!(PrincipalPart::Aorist.classify("ἠλθον"), classified(Category::AorActIndStr, "ἠλθ"));
    assert_eq!(PrincipalPart::Aorist.classify("εδεξαμην"), classified(Category::AorMidIndWk, "εδεξ"));
    assert_eq!(PrincipalPart::Aorist.classify("εστην"), classified(Category::AorPassIndWk, "εστ"));
    assert_eq!(PrincipalPart::Aorist.classify("ειδον"), classified(Category::AorActIndStr, "ειδ"));
    assert_eq!(PrincipalPart::Aorist.classify("ἡκα"), classified(Category::AorActIndWk, "ἡκ"));
}

#[test]
fn classify_aorist_passive_samples() {
    assert_eq!(PrincipalPart::AoristPassive.classify("επαιδευθην"), classified(Category::AorPassIndWk, "επαιδευθ"));
    assert_eq!(PrincipalPart::AoristPassive.classify("ελυθην"), classified(Category::AorPassIndWk, "ελυθ"));
    assert_eq!(PrincipalPart::AoristPassive.classify("εγραφην"), classified(Category::AorPassIndWk, "εγραφ"));
    assert_eq!(PrincipalPart::AoristPassive.classify("ην"), classified(Category::AorPassIndWk, ""));
    assert_eq!(PrincipalPart::AoristPassive.classify("ελυθη"), None);
    assert_eq!(PrincipalPart::AoristPassive.classify(""), None);
    assert_eq!(PrincipalPart::AoristPassive.classify("επαιδευσα"), None);
    assert_eq!(PrincipalPart::AoristPassive.classify("ἠχθην"), classified(Category::AorPassIndWk, "ἠχθ"));
    assert_eq!(PrincipalPart::AoristPassive.classify("ελυθον"), None);
    assert_eq!(PrincipalPart::AoristPassive.classify("εληφθην"), classified(Category::AorPassIndWk, "εληφθ"));
    assert_eq!(PrincipalPart::AoristPassive.classify("αμην"), classified(Category::AorPassIndWk, "αμ"));
}

#[test]
fn classify_gives_the_variant_of_its_category() {
    assert_eq!(
        PrincipalPart::Present.classify("παιδευω"),
        Some(TenseVoiceMoodVariant::PresActIndReg("παιδευ".to_string()))
    );
    assert_eq!(
        PrincipalPart::Aorist.classify("ελυσαμην"),
        Some(TenseVoiceMoodVariant::AorMidIndWk("ελυσ".to_string()))
    );
    assert_eq!(
        PrincipalPart::AoristPassive.classify("ελυθην"),
        Some(TenseVoiceMoodVariant::AorPassIndWk("ελυθ".to_string()))
    );
}

#[test]
fn classify_longer_ending_wins() {
    assert_eq!(
        PrincipalPart::Present.classify("τιμαομαι"),
        classified(Category::PresPassIndAlp, "τιμ")
    );
    assert_eq!(PrincipalPart::Present.classify("τιμαω"), classified(Category::PresActIndAlp, "τιμ"));
    assert_eq!(
        PrincipalPart::Future.classify("λυθησομαι"),
        classified(Category::FutPassIndReg, "λυ")
    );
    assert_eq!(
        PrincipalPart::Aorist.classify("ελυσαμην"),
        classified(Category::AorMidIndWk, "ελυσ")
    );
}

#[test]
fn classify_future_keeps_the_tense_consonant() {
    assert_eq!(PrincipalPart::Future.classify("λυσω"), classified(Category::FutActIndReg, "λυσ"));
    assert_eq!(PrincipalPart::Future.classify("ἀξω"), classified(Category::FutActIndReg, "ἀξ"));
    assert_eq!(PrincipalPart::Future.classify("γραψω"), classified(Category::FutActIndReg, "γραψ"));
    assert_eq!(
        PrincipalPart::Future.classify("λυσομαι"),
        classified(Category::FutMidIndReg, "λυσ")
    );
    assert_eq!(
        PrincipalPart::Future.classify("δεξομαι"),
        classified(Category::FutMidIndReg, "δεξ")
    );
}

// Whether an alternate future in "ψω" is meant to fall through to the plain
// "ω" is a question for a philologist; until it is answered the two tables differ.
#[test]
fn classify_alternate_future_does_not_know_psi() {
    assert_eq!(PrincipalPart::Future.classify("γραψω"), classified(Category::FutActIndReg, "γραψ"));
    assert_eq!(
        PrincipalPart::FutureAlternate.classify("γραψω"),
        classified(Category::FutActIndEps, "γραψ")
    );
}

#[test]
fn classify_alternate_future_passive_loses_its_whole_ending() {
    assert_eq!(
        PrincipalPart::FutureAlternate.classify("λυθησομαι"),
        classified(Category::FutPassIndReg, "λυ")
    );
}

#[test]
fn classify_plain_omega_is_regular_present() {
    for word in ["παιδευω", "λυω", "γραφω", "ἀγω", "ω", "πιστευω", "ιω", "ηω"] {
        let mut stem = word.to_string();
        stem.pop();
        assert_eq!(
            PrincipalPart::Present.classify(word),
            classified(Category::PresActIndReg, &stem)
        );
    }
}

#[test]
fn classify_stem_may_be_empty() {
    assert_eq!(PrincipalPart::Present.classify("ω"), classified(Category::PresActIndReg, ""));
    assert_eq!(PrincipalPart::Present.classify("ομαι"), classified(Category::PresPassIndReg, ""));
    assert_eq!(PrincipalPart::Aorist.classify("α"), classified(Category::AorActIndWk, ""));
    assert_eq!(PrincipalPart::AoristPassive.classify("ην"), classified(Category::AorPassIndWk, ""));
    let variant = PrincipalPart::Present.classify("ω").unwrap();
    assert_eq!(variant.first_char(), "");
}

#[test]
fn classify_unknown_ending_is_unclassifiable() {
    assert_eq!(PrincipalPart::Present.classify("ειμι"), None);
    assert_eq!(PrincipalPart::Present.classify(""), None);
    assert_eq!(PrincipalPart::Future.classify("λυσει"), None);
    assert_eq!(PrincipalPart::Aorist.classify("ελυσε"), None);
    assert_eq!(PrincipalPart::AoristPassive.classify("επαιδευσα"), None);
    assert_eq!(PrincipalPart::AoristPassive.classify("ελυθον"), None);
}

#[test]
fn classify_counts_letters_not_bytes() {
    let variant = PrincipalPart::Present.classify("ἀγαπαω").unwrap();
    assert_eq!(variant.category(), Category::PresActIndAlp);
    assert_eq!(variant.stem(), "ἀγαπ");
    assert_eq!(variant.stem().chars().count(), 4);
}

#[test]
fn variant_accessors() {
    let variant = TenseVoiceMoodVariant::AorActIndStr("ἠγαγ".to_string());
    assert_eq!(variant.category(), Category::AorActIndStr);
    assert_eq!(variant.stem(), "ἠγαγ");
    assert_eq!(variant.first_char(), "ἠ");
    assert_eq!(variant.describe(), "AorActIndStr: \"ἠγαγ\"");
    assert_eq!(TenseVoiceMoodVariant::new(Category::AorActIndStr, "ἠγαγ".to_string()), variant);
    assert_eq!(TenseVoiceMoodVariant::PresActIndReg("λυ".to_string()).first_char(), "λ");
    assert_eq!(TenseVoiceMoodVariant::PresActIndReg("".to_string()).first_char(), "");
}

#[test]
fn variant_new_matches_every_category() {
    let all = [
        Category::PresActIndReg,
        Category::PresActIndAlp,
        Category::PresActIndEps,
        Category::PresActIndOmi,
        Category::PresPassIndReg,
        Category::PresPassIndAlp,
        Category::PresPassIndEps,
        Category::PresPassIndOmi,
        Category::FutActIndReg,
        Category::FutActIndEps,
        Category::FutMidIndReg,
        Category::FutMidIndEps,
        Category::FutPassIndReg,
        Category::AorActIndWk,
        Category::AorActIndStr,
        Category::AorMidIndWk,
        Category::AorMidIndStr,
        Category::AorPassIndWk,
    ];
    for category in all {
        let variant = TenseVoiceMoodVariant::new(category, "στεμ".to_string());
        assert_eq!(variant.category(), category);
        assert_eq!(variant.stem(), "στεμ");
        assert_eq!(format!("{:?}", variant), format!("{}({:?})", category.name(), "στεμ"));
    }
}
