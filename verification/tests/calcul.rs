use successions::data::compute::compute;
use successions::data::{
    calcul_biens_meublants, FractionnementPropriete, InputState, OptionState, ResultState,
    EPSILON,
};

#[test]
fn test_calcul_biens_meublants() {
    assert_eq!(calcul_biens_meublants(200_000, 180_000, 0), 8_500);
    assert_eq!(calcul_biens_meublants(200_000, 180_000, 20_000), 8_000);
}

#[test]
fn compute_test_fractionnement() {
    for t in [(1, 2), (2, 3), (3, 4), (4, 4)] {
        let fractionnement = FractionnementPropriete::new_qd_pp(t.0);
        // Fractions en douzièmes : 1/t.1 de la succession vaut 12/t.1 douzièmes
        assert_eq!(fractionnement.pp_survivant, 12 / t.1);
        assert_eq!(fractionnement.us_survivant, 0);
    }
}

#[test]
fn data_test_fractionnement() {
    for t in [(1, 2), (2, 3), (3, 4), (4, 4)] {
        let fractionnement = FractionnementPropriete::new_qd_pp(t.0);
        assert_eq!(fractionnement.pp_survivant, 12 / t.1);
        assert_eq!(fractionnement.us_survivant, 0);
    }
}

#[test]
fn fractionnements_des_options() {
    let f = FractionnementPropriete::new_totalite_us();
    assert_eq!((f.pp_survivant, f.us_survivant), (0, 12));
    let f = FractionnementPropriete::new_1_4_pp();
    assert_eq!((f.pp_survivant, f.us_survivant), (3, 0));
    let f = FractionnementPropriete::new_1_4_pp_3_4_us();
    assert_eq!((f.pp_survivant, f.us_survivant), (3, 9));
    let f = FractionnementPropriete::new_qd_pp(0);
    assert_eq!((f.pp_survivant, f.us_survivant), (9, 0));
}

fn base() -> InputState {
    InputState {
        nb_enfants: 2,
        age_vous: 65,
        age_conjoint: 64,
        ignorer_couts_partage: true,
        ignorer_declaration_succession: true,
        ..Default::default()
    }
}

fn calcul(input: InputState) -> ResultState {
    assert!(input.est_valide());
    let mut result = ResultState::default();
    assert!(result.accepte_calcul());
    compute(input, &mut result);
    result
}

fn options(r: &ResultState) -> [&OptionState; 4] {
    [&r.option_totalite_us, &r.option_1_4_pp, &r.option_1_4_pp_3_4_us, &r.option_qd_pp]
}

// (droits 1er décès, droits 2ème décès, cumul État, cumul par enfant, cumul notaire)
fn resume(o: &OptionState) -> (i32, i32, i32, i32, i32) {
    (
        o.premier_total.droits_succession,
        o.deuxieme_total.droits_succession,
        o.cumul_etat,
        o.cumul_enfant,
        o.cumul_notaire,
    )
}

#[test]
fn scenario_couts_de_partage() {
    let r = calcul(InputState {
        nb_enfants: 3,
        residence_principale: 400_000,
        placements: 500_000,
        biens_meublants: 20_000,
        dettes: 50_000,
        frais_funeraires: 4_000,
        donations_partages: 100_000,
        age_vous: 78,
        age_conjoint: 74,
        av_vous_enfants: 90_000,
        av_conjoint_conjoint: 50_000,
        ignorer_couts_partage: false,
        ..base()
    });
    assert_eq!(r.deuxieme_av_enfant.net, 30_000);
    assert_eq!(r.premier_av_survivant.net, 50_000);
    assert_eq!(resume(&r.option_totalite_us), (1_332, 32_580, 56_811, 312_540, 11_565));
    assert_eq!(resume(&r.option_1_4_pp), (3_741, 55_470, 84_971, 302_499, 13_532));
    assert_eq!(resume(&r.option_1_4_pp_3_4_us), (0, 55_383, 81_131, 303_781, 13_526));
    assert_eq!(resume(&r.option_qd_pp), (3_741, 55_470, 84_971, 302_499, 13_532));
}

#[test]
fn scenario_enfant_unique() {
    let r = calcul(InputState {
        nb_enfants: 1,
        placements: 300_000,
        age_vous: 50,
        age_conjoint: 45,
        ignorer_couts_partage: false,
        ..base()
    });
    // Pas de partage au 2ème décès avec un seul enfant
    for o in options(&r) {
        assert_eq!(o.deuxieme_enfant.droits_partage, 0);
        assert_eq!(o.deuxieme_total.emoluments_partage, 0);
    }
    assert_eq!(resume(&r.option_totalite_us), (0, 8_194, 8_194, 291_806, 0));
    assert_eq!(resume(&r.option_1_4_pp), (865, 15_387, 20_001, 277_607, 2_392));
    assert_eq!(resume(&r.option_qd_pp), (0, 22_580, 26_330, 271_278, 2_392));
}

#[test]
fn scenario_succession_deficitaire() {
    let r = calcul(InputState {
        placements: 10_000,
        dettes: 80_000,
        av_vous_conjoint: 30_000,
        ordre_deces: true,
        ..base()
    });
    // Actif net fiscal remis à 0 : aucun impôt
    assert_eq!(r.premier_deces_civil.actif_net_succession, -35_000);
    assert_eq!(r.premier_deces_fiscal.actif_net_succession, 0);
    for o in options(&r) {
        assert_eq!(o.cumul_etat, 0);
        assert_eq!(o.premier_enfant.part_fiscale, 0);
    }
    assert_eq!(r.option_qd_pp.cumul_enfant, -19_999);
    assert_eq!(r.option_1_4_pp.premier_enfant.flux_financier_avec_av, -13_125);
}

#[test]
fn conservation_du_patrimoine() {
    // Enfants + État + notaire = patrimoine transmis (à la troncature près), coûts de partage
    // et de déclaration compris : chaque option est vérifiée
    let cas = [
        InputState { residence_principale: 300_000, placements: 600_000, ..base() },
        InputState { placements: 900_000, dettes: 100_000, frais_funeraires: 3_000, ..base() },
        InputState {
            nb_enfants: 3,
            placements: 900_000,
            av_vous_conjoint: 200_000,
            av_vous_enfants: 210_001,
            ordre_deces: true,
            av_conjoint_conjoint: 220_000,
            av_conjoint_enfants: 230_000,
            age_conjoint: 85,
            dispense_recompense: true,
            ..base()
        },
        InputState {
            nb_enfants: 3,
            residence_principale: 400_000,
            placements: 500_000,
            biens_meublants: 20_000,
            forfait_mobilier: true,
            dettes: 50_000,
            frais_funeraires: 4_000,
            per_vous_conjoint: 100_000,
            per_conjoint_conjoint: 120_000,
            deces_survivant_apres_70_ans: true,
            ignorer_couts_partage: false,
            ignorer_declaration_succession: false,
            ..base()
        },
    ];
    for input in cas {
        let r = calcul(input);
        let patrimoine = input.residence_principale + input.placements + input.biens_meublants
            - input.dettes - input.frais_funeraires + input.av_vous_conjoint
            + input.av_conjoint_conjoint + input.av_vous_enfants + input.av_conjoint_enfants
            + input.per_vous_conjoint + input.per_conjoint_conjoint;
        for o in options(&r) {
            let total = o.cumul_total + o.cumul_etat + o.cumul_notaire;
            assert!((total - patrimoine).abs() < EPSILON * input.nb_enfants);
            assert_eq!(o.cumul_total, o.cumul_enfant * input.nb_enfants);
            assert!(o.cumul_etat >= 0);
        }
        assert!(r.check.option_totalite_us && r.check.option_1_4_pp);
        assert!(r.check.option_1_4_pp_3_4_us && r.check.option_qd_pp);
    }
}

#[test]
fn emoluments_de_declaration() {
    let sans = calcul(InputState { placements: 900_000, ..base() });
    let avec = calcul(InputState {
        placements: 900_000,
        ignorer_declaration_succession: false,
        ..base()
    });
    for (o, p) in options(&sans).into_iter().zip(options(&avec)) {
        assert_eq!(o.cumul_notaire, 0);
        assert!(p.cumul_notaire > 0);
        assert_eq!(
            p.cumul_notaire,
            p.premier_total.emoluments_declaration_succession
                + p.deuxieme_total.emoluments_declaration_succession
        );
    }
}

#[test]
fn entrees_hors_domaine() {
    assert!(!InputState { nb_enfants: 0, ..base() }.est_valide());
    assert!(!InputState { dettes: -1, ..base() }.est_valide());
    assert!(!InputState { placements: 20_000_001, ..base() }.est_valide());
    assert!(InputState { placements: 20_000_000, ..base() }.est_valide());
    // Les donations-partages ne réduisent que l'abattement : pas de borne
    let grandes = InputState { placements: 900_000, donations_partages: i32::MAX, ..base() };
    assert!(grandes.est_valide());
    let r = calcul(grandes);
    assert_eq!(r.option_totalite_us.premier_enfant.abattement, 0);
    let mut r = ResultState::default();
    r.option_qd_pp.premier_enfant.extinction_us = 20_001;
    assert!(!r.accepte_calcul());
}

#[test]
fn cumuls_d_une_option() {
    let mut o = OptionState::default();
    o.premier_enfant.flux_financier_avec_av = 100;
    o.deuxieme_enfant.flux_financier_avec_av = 250;
    o.premier_etat = 10;
    o.deuxieme_etat = 20;
    o.premier_notaire = 3;
    o.deuxieme_notaire = 4;
    o.cumul(3);
    assert_eq!((o.cumul_enfant, o.cumul_etat, o.cumul_notaire, o.cumul_total), (350, 30, 7, 1_050));
}

#[test]
fn symetrie_des_epoux() {
    let i1 = InputState {
        nb_enfants: 3,
        residence_principale: 250_000,
        placements: 400_000,
        age_vous: 72,
        age_conjoint: 66,
        av_vous_conjoint: 80_000,
        av_conjoint_enfants: 120_000,
        per_vous_conjoint: 50_000,
        ordre_deces: true,
        ignorer_couts_partage: false,
        ignorer_declaration_succession: false,
        ..base()
    };
    let i2 = InputState {
        ordre_deces: false,
        age_vous: i1.age_conjoint,
        age_conjoint: i1.age_vous,
        av_vous_conjoint: i1.av_conjoint_conjoint,
        av_conjoint_conjoint: i1.av_vous_conjoint,
        av_vous_enfants: i1.av_conjoint_enfants,
        av_conjoint_enfants: i1.av_vous_enfants,
        per_vous_conjoint: i1.per_conjoint_conjoint,
        per_conjoint_conjoint: i1.per_vous_conjoint,
        ..i1
    };
    assert_eq!(calcul(i1), calcul(i2));
}

#[test]
fn part_du_survivant_au_deuxieme_deces() {
    // Coûts de partage et de déclaration comptés : le survivant reçoit de la pleine propriété
    // (option 1/4 PP) et paie sa part des coûts au 1er décès
    let r = calcul(InputState {
        placements: 800_000,
        av_vous_conjoint: 60_000,
        per_vous_conjoint: 40_000,
        ordre_deces: true,
        ignorer_couts_partage: false,
        ignorer_declaration_succession: false,
        ..base()
    });
    let o = r.option_1_4_pp;
    let s = o.premier_survivant;
    assert_eq!(s.heritage_pp, 100_000);
    assert!(s.droits_partage > 0 && s.emoluments_partage > 0);
    assert!(s.emoluments_declaration_succession > 0);
    assert_eq!(
        s.flux_financier_avec_av,
        s.heritage_pp - s.droits_partage - s.emoluments_partage
            - s.emoluments_declaration_succession + r.premier_av_survivant.net
    );
    assert_eq!(r.premier_per, 40_000);
    assert_eq!(
        o.deuxieme_total.part_civile,
        r.premier_deces_civil.part_survivant_hors_succession + s.flux_financier_avec_av
            + r.premier_per
    );
    assert!(r.check.option_totalite_us && r.check.option_1_4_pp);
    assert!(r.check.option_1_4_pp_3_4_us && r.check.option_qd_pp);
}
