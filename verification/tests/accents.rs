use greek_conjugator::accents::check_contents;

#[test]
fn unaccented_text_is_clean() {
    assert!(check_contents("Present,Future,Aorist,Aorist_Passive\nπαιδευω,παιδευσω,επαιδευσα,επαιδευθην\n"));
    assert!(check_contents("ἀποστελλω ἁπτω ἐχω ἑπομαι ἠ ἡ ἰ ἱ ὀ ὁ ὐ ὑ ὠ ὡ ᾐ ᾑ ᾠ ᾡ ᾳ ῃ ῳ"));
    assert!(check_contents(""));
    assert!(check_contents("abc [xyz] ^-\\"));
}

#[test]
fn an_accented_vowel_anywhere_is_found() {
    assert!(!check_contents("ά"));
    assert!(!check_contents("παιδεύω"));
    assert!(!check_contents("παιδευω,παιδευσω,επαιδευσα,ἐπαιδεύθην"));
    assert!(!check_contents("λυω\nλυσω\nἔλυσα"));
    assert!(!check_contents("abcῷ"));
}

#[test]
fn each_accented_vowel_is_found() {
    let letters = "άἄἅὰἂἃᾴᾲᾷᾶέὲἔἒἕἓήἤἥὴἢἣῆῄῂῇίἴἵὶἲἳόὄὅὸὂὃώὤὥὼὣὢῶῴῲῷύὔὕὺὒὓ";
    assert_eq!(letters.chars().count(), 54);
    for letter in letters.chars() {
        assert!(!check_contents(&format!("λυ{}ω", letter)), "{}", letter);
    }
}

#[test]
fn letters_outside_the_class_are_not_found() {
    for letter in "αεηιουωἀἁἐἑἠἡἰἱὀὁὐὑὠὡᾀᾁᾐᾑᾠᾡᾳῃῳϊϋ".chars() {
        assert!(check_contents(&format!("λυ{}ω", letter)), "{}", letter);
    }
    assert!(check_contents("α\u{301}"));
}
