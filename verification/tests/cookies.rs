use successions::data::cookies::set_cookie;
use successions::data::InputState;

#[test]
fn test_set_cookie() {
    let max_age = 400 * 24 * 3600;
    assert_eq!(max_age, 34560000);
    let mut js = String::new();
    set_cookie(&mut js, "nb_enfants", 3, 2);
    set_cookie(&mut js, "dettes", 0, 0);
    let expected = format!(
        r#"cookieStore.set({{name: "nb_enfants", value: 3, expires: Date.now() + 34560000}}), cookieStore.delete("dettes"), "#
    );
    assert_eq!(&js, &expected)
}

#[test]
fn test_new_from_cookies() {
    let cookies = "nb_enfants=3; dettes=180; forfait_mobilier=0; dispense_recompense=1";
    let input = InputState::new_from_cookies(cookies);
    assert_eq!(input.residence_principale, 0);
    assert_eq!(input.nb_enfants, 3);
    assert_eq!(input.dettes, 180);
    assert_eq!(input.forfait_mobilier, false);
    assert_eq!(input.dispense_recompense, true);
}

#[test]
fn cookies_valeurs_negatives_et_defauts() {
    let mut js = String::new();
    set_cookie(&mut js, "age_vous", -12, 0);
    assert_eq!(
        js,
        r#"cookieStore.set({name: "age_vous", value: -12, expires: Date.now() + 34560000}), "#
    );
    let defaut = InputState::new();
    assert_eq!(defaut.nb_enfants, 2);
    assert!(defaut.ordre_deces && defaut.deces_survivant_apres_70_ans && defaut.dispense_recompense);
    let js = defaut.to_cookies();
    assert!(js.starts_with(r#"await Promise.all([cookieStore.delete("nb_enfants"), cookieStore.delete("dettes"), "#));
    assert!(js.ends_with(r#"cookieStore.delete("per_conjoint_conjoint"), ]);"#));
    assert!(!js.contains("cookieStore.set"));
}

#[test]
fn cookies_ecrits_puis_relus() {
    let input = InputState {
        nb_enfants: 3,
        placements: 250_000,
        ordre_deces: false,
        age_vous: 66,
        av_conjoint_enfants: 40_000,
        ..InputState::new()
    };
    let js = input.to_cookies();
    assert!(js.contains(r#"cookieStore.set({name: "nb_enfants", value: 3, expires: Date.now() + 34560000}), "#));
    assert!(js.contains(r#"cookieStore.set({name: "ordre_deces", value: 0, expires: Date.now() + 34560000}), "#));
    assert!(js.contains(r#"cookieStore.delete("dettes"), "#));
    // Ce que le navigateur rend des cookies ainsi créés
    let cookies = "nb_enfants=3; placements=250000; ordre_deces=0; age_vous=66; av_conjoint_enfants=40000";
    assert_eq!(InputState::new_from_cookies(cookies), input);
}

#[test]
fn cookies_recalculs_et_erreurs() {
    // Forfait mobilier : les biens meublants sont recalculés
    let input = InputState::new_from_cookies(
        "forfait_mobilier=1; residence_principale=200000; placements=180000; biens_meublants=5",
    );
    assert!(input.forfait_mobilier);
    assert_eq!(input.biens_meublants, 8_500);
    // Survivant déjà âgé de 70 ans : décès après 70 ans acquis
    let input = InputState::new_from_cookies("deces_survivant_apres_70_ans=0; age_conjoint=70");
    assert!(input.deces_survivant_apres_70_ans);
    assert!(input.survivant_a_70_ans());
    let input = InputState::new_from_cookies("deces_survivant_apres_70_ans=0; age_conjoint=69");
    assert!(!input.deces_survivant_apres_70_ans);
    // Cookies mal formés, inconnus ou illisibles ignorés ; blancs ignorés
    let input = InputState::new_from_cookies(
        "a=b=c;;inconnu=4; nb_enfants=x; dettes=99999999999; \t placements = +12 ; age_vous=-3",
    );
    assert_eq!(input.nb_enfants, 2);
    assert_eq!(input.dettes, 0);
    assert_eq!(input.placements, 12);
    assert_eq!(input.age_vous, -3);
    assert_eq!(InputState::new_from_cookies(""), InputState::new());
}
