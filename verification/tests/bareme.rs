use successions::data::bareme::{
    bareme_usufruit, declaration_succession, droits_en_ligne_direct, partage_succession,
    prelevements_assurance_vie,
};

// Les barèmes rendent des centimes : 50_00 centimes valent 50,00 €.

#[test]
fn test_bareme_usufruit() {
    // Usufruit et nue-propriété en dixièmes : (0.4, 0.6) s'écrit (4, 6)
    assert_eq!(bareme_usufruit(61), (4, 6));
    assert_eq!(bareme_usufruit(66), (4, 6));
    assert_eq!(bareme_usufruit(70), (4, 6));
    assert_eq!(bareme_usufruit(71), (3, 7));
}

#[test]
fn compute_test_droits_en_ligne_direct() {
    assert_eq!(droits_en_ligne_direct(1_000), 50_00);
    assert_eq!(droits_en_ligne_direct(10_000), 596_40);
    assert_eq!(droits_en_ligne_direct(14_000), 1_090_95);
    assert_eq!(droits_en_ligne_direct(100_000), 18_194_35);
    assert_eq!(droits_en_ligne_direct(800_000), 182_961_95);
    assert_eq!(droits_en_ligne_direct(1_000_000), 252_678_15);
    assert_eq!(droits_en_ligne_direct(2_000_000), 662_394_30);
}

#[test]
fn data_test_droits_en_ligne_direct() {
    assert_eq!(droits_en_ligne_direct(1_000), 50_00);
    assert_eq!(droits_en_ligne_direct(10_000), 596_40);
    assert_eq!(droits_en_ligne_direct(14_000), 1_090_95);
    assert_eq!(droits_en_ligne_direct(100_000), 18_194_35);
    assert_eq!(droits_en_ligne_direct(800_000), 182_961_95);
    assert_eq!(droits_en_ligne_direct(1_000_000), 252_678_15);
    assert_eq!(droits_en_ligne_direct(2_000_000), 662_394_30);
}

#[test]
fn compute_test_prelevements_assurance_vie() {
    assert_eq!(prelevements_assurance_vie(47_500), 9_500_00);
    assert_eq!(prelevements_assurance_vie(700_000), 140_000_00);
    assert_eq!(prelevements_assurance_vie(747_500), 154_843_75);
}

#[test]
fn data_test_prelevements_assurance_vie() {
    assert_eq!(prelevements_assurance_vie(47_500), 9_500_00);
    assert_eq!(prelevements_assurance_vie(700_000), 140_000_00);
    assert_eq!(prelevements_assurance_vie(747_500), 154_843_75);
}

#[test]
fn compute_test_emoluments_partage_succession() {
    // Valeurs dans chaque tranche
    assert_eq!(partage_succession(3_000), 174_13);
    assert_eq!(partage_succession(10_000), 461_08);
    assert_eq!(partage_succession(30_000), 836_14);
    assert_eq!(partage_succession(100_000), 1_793_98);
    // Bornes exactes
    assert_eq!(partage_succession(6_500), 377_29);
    assert_eq!(partage_succession(17_000), 628_66);
    assert_eq!(partage_succession(60_000), 1_314_94);
    // Si l'assiette est nulle alors les émoluments sont nuls
    assert_eq!(partage_succession(0), 0);
}

#[test]
fn data_test_emoluments_partage_succession() {
    assert_eq!(partage_succession(3_000), 174_13);
    assert_eq!(partage_succession(10_000), 461_08);
    assert_eq!(partage_succession(30_000), 836_14);
    assert_eq!(partage_succession(100_000), 1_793_98);
    assert_eq!(partage_succession(6_500), 377_29);
    assert_eq!(partage_succession(17_000), 628_66);
    assert_eq!(partage_succession(60_000), 1_314_94);
}

#[test]
fn compute_test_emoluments_declaration_succession() {
    // Valeurs dans chaque tranche
    assert_eq!(declaration_succession(3_000), 55_73);
    assert_eq!(declaration_succession(10_000), 156_49);
    assert_eq!(declaration_succession(20_000), 248_85);
    assert_eq!(declaration_succession(100_000), 676_29);
    // Bornes exactes
    assert_eq!(declaration_succession(6_500), 120_74);
    assert_eq!(declaration_succession(17_000), 227_97);
    assert_eq!(declaration_succession(30_000), 318_45);
}

#[test]
fn data_test_emoluments_declaration_succession() {
    assert_eq!(declaration_succession(3_000), 55_73);
    assert_eq!(declaration_succession(10_000), 156_49);
    assert_eq!(declaration_succession(20_000), 248_85);
    assert_eq!(declaration_succession(100_000), 676_29);
    assert_eq!(declaration_succession(6_500), 120_74);
    assert_eq!(declaration_succession(17_000), 227_97);
    assert_eq!(declaration_succession(30_000), 318_45);
}

#[test]
fn baremes_nuls_et_croissants() {
    assert_eq!(droits_en_ligne_direct(0), 0);
    assert_eq!(prelevements_assurance_vie(0), 0);
    assert_eq!(declaration_succession(0), 0);
    let mut precedent = (0, 0, 0, 0);
    for p in (0..3_000_000).step_by(7_919) {
        let courant = (
            droits_en_ligne_direct(p),
            prelevements_assurance_vie(p),
            partage_succession(p),
            declaration_succession(p),
        );
        assert!(courant.0 >= precedent.0 && courant.1 >= precedent.1);
        assert!(courant.2 >= precedent.2 && courant.3 >= precedent.3);
        precedent = courant;
    }
}

#[test]
fn baremes_tranches_hautes() {
    // 45 % au-delà de 1 805 677 € : 574 948,95 € de droits à cette borne
    assert_eq!(droits_en_ligne_direct(1_805_677), 574_948_95);
    assert_eq!(droits_en_ligne_direct(1_805_678), 574_949_40);
    // 31,25 % au-delà de 700 000 €, arrondi au centime (demi-centime arrondi au-dessus)
    assert_eq!(prelevements_assurance_vie(700_001), 140_000_31);
    assert_eq!(prelevements_assurance_vie(700_002), 140_000_63);
    // Usufruit de 9/10 avant 21 ans et de 1/10 à partir de 91 ans
    assert_eq!(bareme_usufruit(20), (9, 1));
    assert_eq!(bareme_usufruit(91), (1, 9));
    assert_eq!(bareme_usufruit(-5), (9, 1));
}
