use successions::report::format_num;
use successions::saisie::interpreter_saisie;

#[test]
fn separateurs_de_milliers() {
    assert_eq!(format_num(0), "0");
    assert_eq!(format_num(100), "100");
    assert_eq!(format_num(1_000), "1 000");
    assert_eq!(format_num(1_234_567), "1 234 567");
    assert_eq!(format_num(-1_234), "-1 234");
    // Le signe compte comme un caractère du premier groupe
    assert_eq!(format_num(-123_456), "-123 456");
    assert_eq!(format_num(i32::MIN), "-2 147 483 648");
    assert_eq!(format_num(i32::MAX).replace(' ', ""), i32::MAX.to_string());
}

#[test]
fn saisie_d_un_champ() {
    // Pendant la frappe, un 0 de tête n'est pas écrit
    assert_eq!(interpreter_saisie("0123", false, false, 5), None);
    assert_eq!(interpreter_saisie("0123", true, false, 5), Some(123));
    // Champ vide : valeur par défaut
    assert_eq!(interpreter_saisie("", true, true, 5), Some(2));
    assert_eq!(interpreter_saisie("", false, false, 5), Some(0));
    // Saisie illisible : valeur actuelle pendant la frappe, défaut en fin de saisie
    assert_eq!(interpreter_saisie("12a", false, false, 7), Some(7));
    assert_eq!(interpreter_saisie("12a", true, true, 7), Some(2));
    assert_eq!(interpreter_saisie("-5", true, false, 7), Some(0));
    assert_eq!(interpreter_saisie("+12", true, false, 0), Some(12));
    // Au-delà de i32::MAX : valeur actuelle pendant la frappe, défaut en fin de saisie
    assert_eq!(interpreter_saisie("4000000000", true, false, 3), Some(0));
    assert_eq!(interpreter_saisie("4000000000", false, false, 3), Some(3));
    // Le nombre d'enfants est au moins 1
    assert_eq!(interpreter_saisie("0", true, true, 3), Some(2));
    assert_eq!(interpreter_saisie("1", true, true, 3), Some(1));
    assert_eq!(interpreter_saisie("0", true, false, 3), Some(0));
    assert_eq!(interpreter_saisie("5000000000", true, false, 9), Some(0));
}
