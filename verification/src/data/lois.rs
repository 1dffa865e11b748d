//! Propriétés d'ensemble de la simulation.
use vstd::prelude::*;

use crate::data::bareme::{
    abs_int, div_tronquee, lemme_div_tronquee, lemme_part, lemme_prelevements_bornes,
    lemme_droits_bornes, droits_cents, prelevements_cents, usufruit_dixiemes, max_int,
};
use crate::data::compute::{part_fiscale_de, droits_enfant};
use crate::data::compute::{
    av_defunt_conjoint, av_defunt_enfants, av_du_survivant, beneficiaire_calcule, cumuls_de,
    droits_partage_de, emoluments_partage_de, option_calculee, option_complete,
    premier_deces_liquide, resultat_calcule, fraction, total_distribue, patrimoine_transmis,
    per_du_defunt, per_du_survivant, option_verifiee,
};
use crate::data::quotite_disponible_douziemes;
use crate::data::{
    age_survivant, entree_valide, fractionnement_valide, FractionnementPropriete, InputState,
    OptionState, ResultState, EPSILON, PremierDeces, BeneficiaireState, HeritierState,
};

verus! {

/// Encadrement d'une part tronquée : `d × q` est à moins de `d` de `k × a`, du côté de zéro.
proof fn lemme_encadrement(k: int, a: int, d: int)
    requires
        d > 0,
        k >= 0,
    ensures
        a >= 0 ==> k * a - d < d * div_tronquee(k * a, d) <= k * a,
        a <= 0 ==> k * a <= d * div_tronquee(k * a, d) < k * a + d,
{
    assert(a >= 0 ==> k * a >= 0) by (nonlinear_arith)
        requires
            k >= 0,
    ;
    assert(a <= 0 ==> k * a <= 0) by (nonlinear_arith)
        requires
            k >= 0,
    ;
    lemme_div_tronquee(k * a, d);
}

/// Au premier décès, les parts civiles du conjoint survivant et des enfants totalisent l'actif
/// net successoral civil, à moins de `2 × nb_enfants + 2` euros près (chaque part étant
/// tronquée à l'euro).
pub proof fn loi_partage_actif_successoral(
    avant: OptionState,
    o: OptionState,
    f: FractionnementPropriete,
    i: InputState,
    r: ResultState,
)
    requires
        entree_valide(i),
        fractionnement_valide(f),
        option_calculee(avant, o, f, i, r),
    ensures
        abs_int(
            o.premier_survivant.part_civile + i.nb_enfants * o.premier_enfant.part_civile
                - r.premier_deces_civil.actif_net_succession,
        ) < 2 * i.nb_enfants + 2,
{
    reveal(option_calculee);
    let a = r.premier_deces_civil.actif_net_succession as int;
    let nb = i.nb_enfants as int;
    let pp = f.pp_survivant as int;
    let us12 = f.us_survivant as int;
    let ppe = 12 - pp - us12;
    let us = usufruit_dixiemes(age_survivant(i));
    let np = 10 - us;
    let k2 = us12 * us;
    let k4 = us12 * np;
    let q1 = o.premier_survivant.heritage_pp as int;
    let q2 = o.premier_survivant.heritage_us as int;
    let q3 = o.premier_enfant.heritage_pp as int;
    let q4 = o.premier_enfant.heritage_np as int;
    assert(k2 >= 0 && k4 >= 0 && k2 + k4 == 10 * us12) by (nonlinear_arith)
        requires
            k2 == us12 * us,
            k4 == us12 * np,
            np == 10 - us,
            us12 >= 0,
            1 <= us <= 9,
    ;
    assert(12 * nb > 0 && 120 * nb > 0);
    lemme_encadrement(pp, a, 12);
    lemme_encadrement(k2, a, 120);
    lemme_encadrement(ppe, a, 12 * nb);
    lemme_encadrement(k4, a, 120 * nb);
    // Les poids des quatre parts totalisent 120 douzièmes-dixièmes
    assert(10 * nb * (pp * a) + nb * (k2 * a) + 10 * nb * (ppe * a) + nb * (k4 * a) == 120 * nb
        * a) by (nonlinear_arith)
        requires
            k2 + k4 == 10 * us12,
            ppe == 12 - pp - us12,
    ;
    let s = q1 + q2 + nb * (q3 + q4);
    assert(120 * nb * s == 10 * nb * (12 * q1) + nb * (120 * q2) + 10 * nb * ((12 * nb) * q3)
        + nb * ((120 * nb) * q4)) by (nonlinear_arith)
        requires
            s == q1 + q2 + nb * (q3 + q4),
    ;
    if a >= 0 {
        assert(120 * nb * s <= 120 * nb * a && 120 * nb * s > 120 * nb * a - 240 * nb - 240 * nb
            * nb) by (nonlinear_arith)
            requires
                120 * nb * s == 10 * nb * (12 * q1) + nb * (120 * q2) + 10 * nb * ((12 * nb) * q3)
                    + nb * ((120 * nb) * q4),
                10 * nb * (pp * a) + nb * (k2 * a) + 10 * nb * (ppe * a) + nb * (k4 * a) == 120
                    * nb * a,
                pp * a - 12 < 12 * q1 <= pp * a,
                k2 * a - 120 < 120 * q2 <= k2 * a,
                ppe * a - 12 * nb < (12 * nb) * q3 <= ppe * a,
                k4 * a - 120 * nb < (120 * nb) * q4 <= k4 * a,
                nb >= 1,
        ;
        assert(a - 2 - 2 * nb < s <= a) by (nonlinear_arith)
            requires
                120 * nb * s <= 120 * nb * a,
                120 * nb * s > 120 * nb * a - 240 * nb - 240 * nb * nb,
                nb >= 1,
        ;
    } else {
        assert(120 * nb * s >= 120 * nb * a && 120 * nb * s < 120 * nb * a + 240 * nb + 240 * nb
            * nb) by (nonlinear_arith)
            requires
                120 * nb * s == 10 * nb * (12 * q1) + nb * (120 * q2) + 10 * nb * ((12 * nb) * q3)
                    + nb * ((120 * nb) * q4),
                10 * nb * (pp * a) + nb * (k2 * a) + 10 * nb * (ppe * a) + nb * (k4 * a) == 120
                    * nb * a,
                pp * a <= 12 * q1 < pp * a + 12,
                k2 * a <= 120 * q2 < k2 * a + 120,
                ppe * a <= (12 * nb) * q3 < ppe * a + 12 * nb,
                k4 * a <= (120 * nb) * q4 < k4 * a + 120 * nb,
                nb >= 1,
        ;
        assert(a <= s < a + 2 + 2 * nb) by (nonlinear_arith)
            requires
                120 * nb * s >= 120 * nb * a,
                120 * nb * s < 120 * nb * a + 240 * nb + 240 * nb * nb,
                nb >= 1,
        ;
    }
    assert(nb * (q3 + q4) == nb * o.premier_enfant.part_civile);
}


/// Champs d'un résultat antérieur relus sans être réécrits : tous nuls, comme dans un
/// résultat par défaut.
pub open spec fn residus_nuls(r: ResultState) -> bool {
    &&& r.premier_deces_fiscal.recompense_due_par_le_survivant == 0
    &&& r.premier_deces_civil.recompense_due_par_le_defunt == 0
    &&& r.premier_deces_fiscal.recompense_due_par_le_defunt == 0
    &&& r.premier_av_survivant.abattement == 0
    &&& r.premier_av_survivant.taxable == 0
    &&& r.premier_av_survivant.prelevement == 0
    &&& option_residus_nuls(r.option_totalite_us)
    &&& option_residus_nuls(r.option_1_4_pp)
    &&& option_residus_nuls(r.option_1_4_pp_3_4_us)
    &&& option_residus_nuls(r.option_qd_pp)
}

pub open spec fn option_residus_nuls(o: OptionState) -> bool {
    &&& o.premier_survivant.abattement == 0
    &&& o.premier_survivant.taxable == 0
    &&& o.premier_survivant.droits_succession == 0
    &&& o.premier_enfant.extinction_us == 0
    &&& o.deuxieme_enfant.heritage_np == 0
}

/// `nb × tronc(x / nb)` est à moins de `nb` de `x`.
proof fn lemme_parts_egales(x: int, nb: int)
    requires
        nb >= 1,
    ensures
        abs_int(x - nb * div_tronquee(x, nb)) < nb,
{
    lemme_div_tronquee(x, nb);
}

/// Ce que dit une option calculée à partir de résidus nuls, réduit aux égalités dont la
/// conservation a besoin : les coûts payés par chaque héritier sont ceux que perçoivent l'État
/// et le notaire.
proof fn lemme_option_egalites(
    avant: OptionState,
    o: OptionState,
    f: FractionnementPropriete,
    i: InputState,
    r: ResultState,
)
    requires
        option_calculee(avant, o, f, i, r),
        option_residus_nuls(avant),
        r.premier_av_survivant.prelevement == 0,
        r.premier_av_total.prelevement == r.premier_av_enfant.prelevement * i.nb_enfants
            + r.premier_av_survivant.prelevement,
        r.deuxieme_av_total.prelevement == r.deuxieme_av_enfant.prelevement * i.nb_enfants,
    ensures
        ({
            let nb = i.nb_enfants as int;
            let s = o.premier_survivant;
            let e = o.premier_enfant;
            let e2 = o.deuxieme_enfant;
            let t2 = o.deuxieme_total;
            let b1 = r.premier_av_enfant;
            let b2 = r.deuxieme_av_enfant;
            &&& e.flux_financier_avec_av == e.part_civile - e.droits_succession - e.droits_partage
                - e.emoluments_partage - e.emoluments_declaration_succession - e.heritage_np
                + b1.net
            &&& e2.flux_financier_avec_av == e2.part_civile - e2.droits_succession
                - e2.droits_partage - e2.emoluments_partage - e2.emoluments_declaration_succession
                + e2.extinction_us + b2.net + r.deuxieme_per
            &&& s.flux_financier_avec_av == s.heritage_pp - s.droits_partage
                - s.emoluments_partage - s.emoluments_declaration_succession
                + r.premier_av_survivant.net
            &&& o.premier_etat == e.droits_succession * nb + e.droits_partage * nb
                + s.droits_partage + b1.prelevement * nb
            &&& o.deuxieme_etat == e2.droits_succession * nb + e2.droits_partage * nb
                + b2.prelevement * nb
            &&& o.premier_notaire == e.emoluments_partage * nb + s.emoluments_partage
                + e.emoluments_declaration_succession * nb + s.emoluments_declaration_succession
            &&& o.deuxieme_notaire == e2.emoluments_partage * nb
                + e2.emoluments_declaration_succession * nb
            &&& e.part_civile == e.heritage_pp + e.heritage_np
            &&& t2.part_civile == r.premier_deces_civil.part_survivant_hors_succession
                + s.flux_financier_avec_av + r.premier_per
            &&& t2.extinction_us == s.heritage_us + nb * e.heritage_np
            &&& e2.part_civile == div_tronquee(t2.part_civile as int, nb)
            &&& e2.extinction_us == div_tronquee(t2.extinction_us as int, nb)
            &&& s.part_civile == s.heritage_pp + s.heritage_us
        }),
{
    reveal(option_calculee);
    assert(0 * i.nb_enfants == 0);
}

/// Cœur arithmétique de la conservation, sur les seuls montants en jeu.
proof fn lemme_conservation_arith(
    nb: int,
    cumul_total: int,
    cumul_etat: int,
    cumul_notaire: int,
    e_fa: int,
    e_pc: int,
    e_pp: int,
    e_np: int,
    e_dr: int,
    e_dp: int,
    e_ep: int,
    e_dc: int,
    s_dp: int,
    s_ep: int,
    s_dc: int,
    b1_brut: int,
    b1_prel: int,
    e2_fa: int,
    e2_pc: int,
    e2_dr: int,
    e2_dp: int,
    e2_ep: int,
    e2_dc: int,
    e2_ext: int,
    b2_brut: int,
    b2_prel: int,
    per2: int,
    somme_parts: int,
    s_pp: int,
    s_us: int,
    t2_pc: int,
    t2_ext: int,
    hors_succession: int,
    a: int,
    ajuste: int,
    moitie: int,
    rec_def: int,
    frais: int,
    net_communaute: int,
    av1: int,
    av2: int,
    av3: int,
    av1p: int,
    per_reste: int,
    per_s: int,
    per_d: int,
)
    requires
        nb >= 1,
        cumul_total == (e_fa + e2_fa) * nb,
        cumul_etat == e_dr * nb + e_dp * nb + s_dp + b1_prel * nb + e2_dr * nb + e2_dp * nb
            + b2_prel * nb,
        cumul_notaire == e_ep * nb + s_ep + e_dc * nb + s_dc + e2_ep * nb + e2_dc * nb,
        e_fa == e_pc - e_dr - e_dp - e_ep - e_dc - e_np + (b1_brut - b1_prel),
        e2_fa == e2_pc - e2_dr - e2_dp - e2_ep - e2_dc + e2_ext + (b2_brut - b2_prel) + per2,
        e_pc == e_pp + e_np,
        somme_parts == s_pp + s_us + nb * e_pc,
        abs_int(somme_parts - a) < 2 * nb + 2,
        t2_pc == hors_succession + (s_pp - s_dp - s_ep - s_dc + av3) + per_d,
        t2_ext == s_us + nb * e_np,
        abs_int(t2_pc - nb * e2_pc) < nb,
        abs_int(t2_ext - nb * e2_ext) < nb,
        abs_int(av2 - nb * b1_brut) < nb,
        abs_int(av1p - nb * b2_brut) < nb,
        abs_int(per_reste - nb * per2) < nb,
        av1p + per_reste == av1 + per_s,
        ajuste == net_communaute + av1 + rec_def,
        abs_int(ajuste - 2 * moitie) < 2,
        a == moitie - rec_def - frais,
        hors_succession == moitie - av1,
    ensures
        abs_int(cumul_total + cumul_etat + cumul_notaire - (net_communaute - frais + av1 + av2
            + av3 + per_s + per_d)) < 7 * nb + 3,
{
    assert(cumul_total + cumul_etat + cumul_notaire == nb * e_pp + nb * e2_pc + nb * e2_ext + nb
        * b1_brut + nb * b2_brut + nb * per2 + s_dp + s_ep + s_dc) by (nonlinear_arith)
        requires
            cumul_total == (e_fa + e2_fa) * nb,
            cumul_etat == e_dr * nb + e_dp * nb + s_dp + b1_prel * nb + e2_dr * nb + e2_dp * nb
                + b2_prel * nb,
            cumul_notaire == e_ep * nb + s_ep + e_dc * nb + s_dc + e2_ep * nb + e2_dc * nb,
            e_fa == e_pc - e_dr - e_dp - e_ep - e_dc - e_np + (b1_brut - b1_prel),
            e2_fa == e2_pc - e2_dr - e2_dp - e2_ep - e2_dc + e2_ext + (b2_brut - b2_prel) + per2,
            e_pc == e_pp + e_np,
    ;
    assert(nb * e_pc == nb * e_pp + nb * e_np) by (nonlinear_arith)
        requires
            e_pc == e_pp + e_np,
    ;
}

/// Conservation pour une option : ce que reçoivent les enfants, l'État et le notaire sur les
/// deux décès est le patrimoine transmis, aux troncatures près.
#[verifier::spinoff_prover]
#[verifier::rlimit(50)]
proof fn lemme_conservation_option(
    avant: OptionState,
    o: OptionState,
    f: FractionnementPropriete,
    i: InputState,
    r: ResultState,
    r_avant: ResultState,
)
    requires
        entree_valide(i),
        fractionnement_valide(f),
        option_complete(avant, o, f, i, r),
        option_residus_nuls(avant),
        residus_nuls(r_avant),
        premier_deces_liquide(r_avant.premier_deces_civil, r.premier_deces_civil, i, true),
        i.deces_survivant_apres_70_ans ==> r.deuxieme_av_enfant.brut == div_tronquee(
            av_du_survivant(i),
            i.nb_enfants as int,
        ) && r.deuxieme_per == div_tronquee(per_du_survivant(i), i.nb_enfants as int),
        !i.deces_survivant_apres_70_ans ==> r.deuxieme_av_enfant.brut == div_tronquee(
            av_du_survivant(i) + per_du_survivant(i),
            i.nb_enfants as int,
        ) && r.deuxieme_per == 0,
        r.premier_per == per_du_defunt(i),
        r.deuxieme_av_enfant.net == r.deuxieme_av_enfant.brut - r.deuxieme_av_enfant.prelevement,
        r.premier_av_enfant.brut == div_tronquee(av_defunt_enfants(i), i.nb_enfants as int),
        r.premier_av_enfant.net == r.premier_av_enfant.brut - r.premier_av_enfant.prelevement,
        r.premier_av_survivant.net == av_defunt_conjoint(i),
        r.premier_av_survivant.prelevement == 0,
        r.premier_av_total.prelevement == r.premier_av_enfant.prelevement * i.nb_enfants
            + r.premier_av_survivant.prelevement,
        r.deuxieme_av_total.prelevement == r.deuxieme_av_enfant.prelevement * i.nb_enfants,
    ensures
        abs_int(total_distribue(o) - patrimoine_transmis(i)) < 7 * i.nb_enfants + 3,
{
    loi_partage_actif_successoral(avant, o, f, i, r);
    lemme_option_egalites(avant, o, f, i, r);
    let nb = i.nb_enfants as int;
    let s = o.premier_survivant;
    let e = o.premier_enfant;
    let e2 = o.deuxieme_enfant;
    let t2 = o.deuxieme_total;
    let c = r.premier_deces_civil;
    let b1 = r.premier_av_enfant;
    let b2 = r.deuxieme_av_enfant;
    let per_s = per_du_survivant(i);
    let av1p = if i.deces_survivant_apres_70_ans {
        av_du_survivant(i)
    } else {
        av_du_survivant(i) + per_s
    };
    let per_reste = if i.deces_survivant_apres_70_ans {
        per_s
    } else {
        0
    };
    lemme_parts_egales(t2.part_civile as int, nb);
    lemme_parts_egales(t2.extinction_us as int, nb);
    lemme_parts_egales(av1p, nb);
    lemme_parts_egales(per_reste, nb);
    lemme_parts_egales(av_defunt_enfants(i), nb);
    lemme_div_tronquee(c.actif_net_communaute_ajuste as int, 2);
    assert(abs_int(per_reste - nb * r.deuxieme_per) < nb);
    lemme_conservation_arith(
        nb,
        o.cumul_total as int,
        o.cumul_etat as int,
        o.cumul_notaire as int,
        e.flux_financier_avec_av as int,
        e.part_civile as int,
        e.heritage_pp as int,
        e.heritage_np as int,
        e.droits_succession as int,
        e.droits_partage as int,
        e.emoluments_partage as int,
        e.emoluments_declaration_succession as int,
        s.droits_partage as int,
        s.emoluments_partage as int,
        s.emoluments_declaration_succession as int,
        b1.brut as int,
        b1.prelevement as int,
        e2.flux_financier_avec_av as int,
        e2.part_civile as int,
        e2.droits_succession as int,
        e2.droits_partage as int,
        e2.emoluments_partage as int,
        e2.emoluments_declaration_succession as int,
        e2.extinction_us as int,
        b2.brut as int,
        b2.prelevement as int,
        r.deuxieme_per as int,
        s.part_civile + nb * e.part_civile,
        s.heritage_pp as int,
        s.heritage_us as int,
        t2.part_civile as int,
        t2.extinction_us as int,
        c.part_survivant_hors_succession as int,
        c.actif_net_succession as int,
        c.actif_net_communaute_ajuste as int,
        div_tronquee(c.actif_net_communaute_ajuste as int, 2),
        c.recompense_due_par_le_defunt as int,
        i.frais_funeraires as int,
        c.actif_net_communaute as int,
        av_du_survivant(i),
        av_defunt_enfants(i),
        av_defunt_conjoint(i),
        av1p,
        per_reste,
        per_s,
        per_du_defunt(i),
    );
}

/// Conservation du patrimoine : pour chacune des quatre options, ce que reçoivent au total
/// les enfants, l'État et le notaire sur les deux décès, coûts de partage et de déclaration
/// compris, est le patrimoine du couple (communauté nette moins frais funéraires, plus les
/// assurances-vie et les PER), à moins de `7 × nb_enfants + 3` euros près dus aux troncatures
/// à l'euro ; la vérification de chaque option (`check`) est donc toujours positive.
pub proof fn loi_conservation_patrimoine(i: InputState, avant: ResultState, r: ResultState)
    requires
        entree_valide(i),
        residus_nuls(avant),
        resultat_calcule(i, avant, r),
    ensures
        abs_int(total_distribue(r.option_totalite_us) - patrimoine_transmis(i)) < 7
            * i.nb_enfants + 3,
        abs_int(total_distribue(r.option_1_4_pp) - patrimoine_transmis(i)) < 7 * i.nb_enfants
            + 3,
        abs_int(total_distribue(r.option_1_4_pp_3_4_us) - patrimoine_transmis(i)) < 7
            * i.nb_enfants + 3,
        abs_int(total_distribue(r.option_qd_pp) - patrimoine_transmis(i)) < 7 * i.nb_enfants
            + 3,
        r.check.option_totalite_us,
        r.check.option_1_4_pp,
        r.check.option_1_4_pp_3_4_us,
        r.check.option_qd_pp,
{
    let nb = i.nb_enfants as int;
    assert(fractionnement_valide(fraction(0, 12)));
    assert(fractionnement_valide(fraction(3, 0)));
    assert(fractionnement_valide(fraction(3, 9)));
    assert(fractionnement_valide(fraction(quotite_disponible_douziemes(nb), 0)));
    assert(r.deuxieme_av_total.prelevement == r.deuxieme_av_enfant.prelevement * nb);
    lemme_conservation_option(avant.option_totalite_us, r.option_totalite_us, fraction(0, 12), i, r, avant);
    lemme_conservation_option(avant.option_1_4_pp, r.option_1_4_pp, fraction(3, 0), i, r, avant);
    lemme_conservation_option(avant.option_1_4_pp_3_4_us, r.option_1_4_pp_3_4_us, fraction(3, 9), i, r, avant);
    lemme_conservation_option(
        avant.option_qd_pp,
        r.option_qd_pp,
        fraction(quotite_disponible_douziemes(nb), 0),
        i,
        r,
        avant,
    );
    assert(7 * nb + 3 <= EPSILON * nb);
}


/// Les mêmes entrées où l'on a échangé les deux époux (âges, assurances-vie et PER) ainsi que
/// l'ordre des décès : c'est toujours le même époux qui décède le premier.
pub open spec fn epoux_permutes(i: InputState) -> InputState {
    InputState {
        ordre_deces: !i.ordre_deces,
        age_vous: i.age_conjoint,
        age_conjoint: i.age_vous,
        av_vous_conjoint: i.av_conjoint_conjoint,
        av_conjoint_conjoint: i.av_vous_conjoint,
        av_vous_enfants: i.av_conjoint_enfants,
        av_conjoint_enfants: i.av_vous_enfants,
        per_vous_conjoint: i.per_conjoint_conjoint,
        per_conjoint_conjoint: i.per_vous_conjoint,
        ..i
    }
}

/// Symétrie des époux : seuls comptent l'ordre des décès et ce que possède chaque époux, pas
/// lequel est appelé « vous ». Échanger les époux et l'ordre des décès laisse le domaine du
/// calcul et le résultat inchangés.
pub proof fn loi_symetrie_epoux(i: InputState, avant: ResultState, r: ResultState)
    ensures
        entree_valide(epoux_permutes(i)) == entree_valide(i),
        resultat_calcule(epoux_permutes(i), avant, r) == resultat_calcule(i, avant, r),
{
    let j = epoux_permutes(i);
    lemme_symetrie_aides(i);
    lemme_symetrie_liquidation(i, avant.premier_deces_civil, r.premier_deces_civil, true);
    lemme_symetrie_liquidation(i, avant.premier_deces_fiscal, r.premier_deces_fiscal, false);
    let nb = i.nb_enfants as int;
    lemme_symetrie_option(i, avant.option_totalite_us, r.option_totalite_us, fraction(0, 12), r);
    lemme_symetrie_option(i, avant.option_1_4_pp, r.option_1_4_pp, fraction(3, 0), r);
    lemme_symetrie_option(i, avant.option_1_4_pp_3_4_us, r.option_1_4_pp_3_4_us, fraction(3, 9), r);
    lemme_symetrie_option(
        i,
        avant.option_qd_pp,
        r.option_qd_pp,
        fraction(quotite_disponible_douziemes(nb), 0),
        r,
    );
}

proof fn lemme_symetrie_aides(i: InputState)
    ensures
        age_survivant(epoux_permutes(i)) == age_survivant(i),
        av_du_survivant(epoux_permutes(i)) == av_du_survivant(i),
        av_defunt_enfants(epoux_permutes(i)) == av_defunt_enfants(i),
        av_defunt_conjoint(epoux_permutes(i)) == av_defunt_conjoint(i),
        per_du_survivant(epoux_permutes(i)) == per_du_survivant(i),
        per_du_defunt(epoux_permutes(i)) == per_du_defunt(i),
        patrimoine_transmis(epoux_permutes(i)) == patrimoine_transmis(i),
        entree_valide(epoux_permutes(i)) == entree_valide(i),
{
}

proof fn lemme_symetrie_liquidation(i: InputState, avant: PremierDeces, p: PremierDeces, civil: bool)
    ensures
        premier_deces_liquide(avant, p, epoux_permutes(i), civil) == premier_deces_liquide(
            avant,
            p,
            i,
            civil,
        ),
{
    lemme_symetrie_aides(i);
}

proof fn lemme_symetrie_option(
    i: InputState,
    avant: OptionState,
    o: OptionState,
    f: FractionnementPropriete,
    r: ResultState,
)
    ensures
        option_calculee(avant, o, f, epoux_permutes(i), r) == option_calculee(avant, o, f, i, r),
        option_verifiee(o, epoux_permutes(i)) == option_verifiee(o, i),
{
    lemme_symetrie_aides(i);
    reveal(option_calculee);
}


/// Lignes « Total » d'une option : au 1er décès, chaque montant du total est celui du
/// survivant plus `nb_enfants` fois celui d'un enfant (la nue-propriété n'est qu'aux enfants,
/// l'usufruit qu'au survivant) ; au 2ème décès, `nb_enfants` fois celui d'un enfant ; l'État
/// perçoit les droits de succession, les droits de partage et les prélèvements sur les
/// assurances-vie, le notaire les émoluments de partage et de déclaration ; les cumuls sont
/// les sommes des deux décès, le cumul total étant celui d'un enfant fois leur nombre.
pub open spec fn lignes_totales(o: OptionState, r: ResultState, nb: int) -> bool {
    let s = o.premier_survivant;
    let e = o.premier_enfant;
    let t = o.premier_total;
    let e2 = o.deuxieme_enfant;
    let t2 = o.deuxieme_total;
    &&& t.heritage_pp == s.heritage_pp + nb * e.heritage_pp
    &&& t.heritage_np == nb * e.heritage_np
    &&& t.heritage_us == s.heritage_us
    &&& t.abattement == s.abattement + nb * e.abattement
    &&& t.taxable == s.taxable + nb * e.taxable
    &&& t.droits_succession == s.droits_succession + nb * e.droits_succession
    &&& t.droits_partage == s.droits_partage + nb * e.droits_partage
    &&& t.emoluments_partage == s.emoluments_partage + nb * e.emoluments_partage
    &&& t.emoluments_declaration_succession == s.emoluments_declaration_succession + nb
        * e.emoluments_declaration_succession
    &&& t.heritage_net == s.heritage_net + nb * e.heritage_net
    &&& t.flux_financier == s.flux_financier + nb * e.flux_financier
    &&& t.flux_financier_avec_av == s.flux_financier_avec_av + nb * e.flux_financier_avec_av
    &&& t2.abattement == nb * e2.abattement
    &&& t2.taxable == nb * e2.taxable
    &&& t2.droits_succession == nb * e2.droits_succession
    &&& t2.droits_partage == nb * e2.droits_partage
    &&& t2.emoluments_partage == nb * e2.emoluments_partage
    &&& t2.emoluments_declaration_succession == nb * e2.emoluments_declaration_succession
    &&& t2.heritage_net == nb * e2.heritage_net
    &&& t2.flux_financier == nb * e2.flux_financier
    &&& t2.flux_financier_avec_av == nb * e2.flux_financier_avec_av
    &&& o.premier_etat == t.droits_succession + t.droits_partage + r.premier_av_total.prelevement
    &&& o.deuxieme_etat == t2.droits_succession + t2.droits_partage
        + r.deuxieme_av_total.prelevement
    &&& o.premier_notaire == t.emoluments_partage + t.emoluments_declaration_succession
    &&& o.deuxieme_notaire == t2.emoluments_partage + t2.emoluments_declaration_succession
    &&& o.cumul_enfant == e.flux_financier_avec_av + e2.flux_financier_avec_av
    &&& o.cumul_etat == o.premier_etat + o.deuxieme_etat
    &&& o.cumul_notaire == o.premier_notaire + o.deuxieme_notaire
    &&& o.cumul_total == nb * o.cumul_enfant
}

proof fn lemme_lignes_totales(
    avant: OptionState,
    o: OptionState,
    f: FractionnementPropriete,
    i: InputState,
    r: ResultState,
)
    requires
        option_complete(avant, o, f, i, r),
    ensures
        lignes_totales(o, r, i.nb_enfants as int),
{
    reveal(option_calculee);
    let nb = i.nb_enfants as int;
    lemme_commute(o.premier_enfant.heritage_pp as int, nb);
    lemme_commute(o.premier_enfant.heritage_np as int, nb);
    lemme_commute(o.premier_enfant.abattement as int, nb);
    lemme_commute(o.premier_enfant.taxable as int, nb);
    lemme_commute(o.premier_enfant.droits_succession as int, nb);
    lemme_commute(o.premier_enfant.droits_partage as int, nb);
    lemme_commute(o.premier_enfant.emoluments_partage as int, nb);
    lemme_commute(o.premier_enfant.emoluments_declaration_succession as int, nb);
    lemme_commute(o.premier_enfant.heritage_net as int, nb);
    lemme_commute(o.premier_enfant.flux_financier as int, nb);
    lemme_commute(o.premier_enfant.flux_financier_avec_av as int, nb);
    lemme_commute(o.deuxieme_enfant.abattement as int, nb);
    lemme_commute(o.deuxieme_enfant.taxable as int, nb);
    lemme_commute(o.deuxieme_enfant.droits_succession as int, nb);
    lemme_commute(o.deuxieme_enfant.droits_partage as int, nb);
    lemme_commute(o.deuxieme_enfant.emoluments_partage as int, nb);
    lemme_commute(o.deuxieme_enfant.emoluments_declaration_succession as int, nb);
    lemme_commute(o.deuxieme_enfant.heritage_net as int, nb);
    lemme_commute(o.deuxieme_enfant.flux_financier as int, nb);
    lemme_commute(o.deuxieme_enfant.flux_financier_avec_av as int, nb);
    lemme_commute(o.cumul_enfant as int, nb);
}

proof fn lemme_commute(a: int, b: int)
    ensures
        a * b == b * a,
{
    assert(a * b == b * a) by (nonlinear_arith);
}

/// Les totaux du résultat additionnent bien tous les héritiers et bénéficiaires :
/// - les lignes « Total » de chaque option (voir `lignes_totales`) ;
/// - assurances-vie du 1er décès : le total de chaque montant est celui du conjoint plus
///   `nb_enfants` fois celui d'un enfant ; le capital brut total est l'assurance-vie du défunt
///   au bénéfice du conjoint plus `nb_enfants` parts égales (tronquées) de celle au bénéfice
///   des enfants ;
/// - assurances-vie (et PER avant 70 ans) du 2ème décès : `nb_enfants` fois un enfant.
pub proof fn loi_totaux(i: InputState, avant: ResultState, r: ResultState)
    requires
        resultat_calcule(i, avant, r),
    ensures
        lignes_totales(r.option_totalite_us, r, i.nb_enfants as int),
        lignes_totales(r.option_1_4_pp, r, i.nb_enfants as int),
        lignes_totales(r.option_1_4_pp_3_4_us, r, i.nb_enfants as int),
        lignes_totales(r.option_qd_pp, r, i.nb_enfants as int),
        r.premier_av_total.brut == r.premier_av_survivant.brut + i.nb_enfants
            * r.premier_av_enfant.brut,
        r.premier_av_total.abattement == r.premier_av_survivant.abattement + i.nb_enfants
            * r.premier_av_enfant.abattement,
        r.premier_av_total.taxable == r.premier_av_survivant.taxable + i.nb_enfants
            * r.premier_av_enfant.taxable,
        r.premier_av_total.prelevement == r.premier_av_survivant.prelevement + i.nb_enfants
            * r.premier_av_enfant.prelevement,
        r.premier_av_total.net == r.premier_av_survivant.net + i.nb_enfants
            * r.premier_av_enfant.net,
        r.premier_av_total.brut == av_defunt_conjoint(i) + i.nb_enfants * div_tronquee(
            av_defunt_enfants(i),
            i.nb_enfants as int,
        ),
        r.deuxieme_av_total.brut == i.nb_enfants * r.deuxieme_av_enfant.brut,
        r.deuxieme_av_total.abattement == i.nb_enfants * r.deuxieme_av_enfant.abattement,
        r.deuxieme_av_total.taxable == i.nb_enfants * r.deuxieme_av_enfant.taxable,
        r.deuxieme_av_total.prelevement == i.nb_enfants * r.deuxieme_av_enfant.prelevement,
        r.deuxieme_av_total.net == i.nb_enfants * r.deuxieme_av_enfant.net,
{
    let nb = i.nb_enfants as int;
    lemme_lignes_totales(avant.option_totalite_us, r.option_totalite_us, fraction(0, 12), i, r);
    lemme_lignes_totales(avant.option_1_4_pp, r.option_1_4_pp, fraction(3, 0), i, r);
    lemme_lignes_totales(avant.option_1_4_pp_3_4_us, r.option_1_4_pp_3_4_us, fraction(3, 9), i, r);
    lemme_lignes_totales(
        avant.option_qd_pp,
        r.option_qd_pp,
        fraction(quotite_disponible_douziemes(nb), 0),
        i,
        r,
    );
    lemme_commute(r.premier_av_enfant.brut as int, nb);
    lemme_commute(r.premier_av_enfant.abattement as int, nb);
    lemme_commute(r.premier_av_enfant.taxable as int, nb);
    lemme_commute(r.premier_av_enfant.prelevement as int, nb);
    lemme_commute(r.premier_av_enfant.net as int, nb);
    lemme_commute(r.deuxieme_av_enfant.brut as int, nb);
    lemme_commute(r.deuxieme_av_enfant.abattement as int, nb);
    lemme_commute(r.deuxieme_av_enfant.taxable as int, nb);
    lemme_commute(r.deuxieme_av_enfant.prelevement as int, nb);
    lemme_commute(r.deuxieme_av_enfant.net as int, nb);
}


/// Assurance-vie reçue par un enfant : abattement de 152 500 € sur le capital brut, le reste
/// est taxable, et le capital net est le brut moins les prélèvements ; sous l'abattement il
/// n'y a aucun prélèvement.
pub open spec fn capital_av_enfant(b: BeneficiaireState) -> bool {
    &&& b.abattement == if b.brut <= 152_500 {
        b.brut as int
    } else {
        152_500
    }
    &&& b.taxable == b.brut - b.abattement
    &&& b.net + b.prelevement == b.brut
    &&& 0 <= b.prelevement <= b.taxable
    &&& b.brut <= 152_500 ==> b.prelevement == 0 && b.net == b.brut
}

/// Assurances-vie et PER du résultat : les enfants reçoivent à parts égales (tronquées) l'AV
/// du défunt à leur bénéfice au 1er décès, et au 2ème décès les AV du survivant (avec son PER
/// s'il décède avant 70 ans) ; le conjoint reçoit sans prélèvement l'AV du défunt à son
/// bénéfice et, exonéré, le PER du défunt ; après 70 ans le PER du survivant revient aux
/// enfants à parts égales.
pub proof fn loi_assurances_vie(i: InputState, avant: ResultState, r: ResultState)
    requires
        resultat_calcule(i, avant, r),
        entree_valide(i),
    ensures
        capital_av_enfant(r.premier_av_enfant),
        capital_av_enfant(r.deuxieme_av_enfant),
        r.premier_av_enfant.brut == if i.ordre_deces {
            i.av_vous_enfants / i.nb_enfants
        } else {
            i.av_conjoint_enfants / i.nb_enfants
        },
        r.premier_av_survivant.brut == r.premier_av_survivant.net,
        r.premier_av_survivant.net == if i.ordre_deces {
            i.av_vous_conjoint
        } else {
            i.av_conjoint_conjoint
        },
        r.premier_per == if i.ordre_deces {
            i.per_vous_conjoint
        } else {
            i.per_conjoint_conjoint
        },
        r.deuxieme_av_enfant.brut == if i.ordre_deces {
            (i.av_conjoint_conjoint + i.av_conjoint_enfants + if i.deces_survivant_apres_70_ans {
                0
            } else {
                i.per_conjoint_conjoint as int
            }) / i.nb_enfants as int
        } else {
            (i.av_vous_conjoint + i.av_vous_enfants + if i.deces_survivant_apres_70_ans {
                0
            } else {
                i.per_vous_conjoint as int
            }) / i.nb_enfants as int
        },
        r.deuxieme_per == if !i.deces_survivant_apres_70_ans {
            0
        } else if i.ordre_deces {
            i.per_conjoint_conjoint / i.nb_enfants
        } else {
            i.per_vous_conjoint / i.nb_enfants
        },
{
    lemme_prelevements_bornes(r.premier_av_enfant.taxable as int);
    lemme_prelevements_bornes(r.deuxieme_av_enfant.taxable as int);
    assert(prelevements_cents(0) == 0);
}


/// Liquidation de la communauté au 1er décès. Au civil : résidence principale, placements et
/// biens meublants, moins les dettes, plus les récompenses (AV du survivant, et AV du défunt
/// au bénéfice des enfants sauf dispense) ; la moitié revient au survivant (moins ce qu'il
/// doit), l'autre forme la succession (moins ce que doit le défunt et les frais funéraires
/// réels). Au fiscal : résidence principale abattue de 20 %, biens meublants remplacés par le
/// forfait s'il est choisi, frais funéraires déduits dans la limite de 1 500 €, actif net
/// jamais négatif.
pub proof fn loi_liquidation(i: InputState, avant: ResultState, r: ResultState)
    requires
        resultat_calcule(i, avant, r),
        entree_valide(i),
        !i.dispense_recompense || avant.premier_deces_civil.recompense_due_par_le_defunt == 0,
    ensures
        r.premier_deces_civil.actif_brut_communaute == i.residence_principale + i.placements
            + i.biens_meublants,
        r.premier_deces_civil.actif_net_communaute_ajuste == i.residence_principale + i.placements
            + i.biens_meublants - i.dettes + (if i.ordre_deces {
            i.av_conjoint_conjoint + i.av_conjoint_enfants
        } else {
            i.av_vous_conjoint + i.av_vous_enfants
        }) + (if i.dispense_recompense {
            0
        } else if i.ordre_deces {
            i.av_vous_enfants as int
        } else {
            i.av_conjoint_enfants as int
        }),
        r.premier_deces_civil.part_survivant_hors_succession + r.premier_deces_civil.actif_net_succession
            + i.frais_funeraires + (if i.dispense_recompense {
            0
        } else if i.ordre_deces {
            i.av_vous_enfants as int
        } else {
            i.av_conjoint_enfants as int
        }) + (if i.ordre_deces {
            i.av_conjoint_conjoint + i.av_conjoint_enfants
        } else {
            i.av_vous_conjoint + i.av_vous_enfants
        }) == 2 * div_tronquee(r.premier_deces_civil.actif_net_communaute_ajuste as int, 2),
        r.premier_deces_fiscal.actif_brut_communaute == (80 * i.residence_principale) / 100
            + i.placements + (if i.forfait_mobilier {
            0
        } else {
            i.biens_meublants as int
        }),
        !i.forfait_mobilier ==> r.premier_deces_fiscal.forfait_mobilier == 0,
        i.forfait_mobilier && 4 * i.residence_principale + 5 * i.placements >= 5 * i.dettes
            ==> r.premier_deces_fiscal.forfait_mobilier == (4 * i.residence_principale + 5
            * i.placements - 5 * i.dettes) / 200,
        r.premier_deces_fiscal.actif_net_succession >= 0,
        r.premier_deces_fiscal.actif_net_succession >= r.premier_deces_fiscal.actif_brut_succession
            - 1_500 + r.premier_deces_fiscal.forfait_mobilier,
        r.premier_deces_fiscal.actif_net_succession > 0 ==> r.premier_deces_fiscal.actif_net_succession
            == r.premier_deces_fiscal.actif_brut_succession - (if i.frais_funeraires < 1_500 {
            i.frais_funeraires as int
        } else {
            1_500
        }) + r.premier_deces_fiscal.forfait_mobilier,
{
    let x = 5 * (i.residence_principale * 80 + 100 * (i.placements - i.dettes));
    if i.forfait_mobilier && 4 * i.residence_principale + 5 * i.placements >= 5 * i.dettes {
        assert(x / 20_000 == (4 * i.residence_principale + 5 * i.placements - 5 * i.dettes) / 200)
            by (nonlinear_arith)
            requires
                x == 5 * (i.residence_principale * 80 + 100 * (i.placements - i.dettes)),
                4 * i.residence_principale + 5 * i.placements >= 5 * i.dettes,
        ;
    }
}


/// Droits et coûts d'un enfant (`d` : donation-partage qu'il a reçue du défunt) : un
/// abattement de 100 000 € diminué de la donation, les droits en ligne directe sur le reste de
/// sa part fiscale, des droits de partage de 2,5 % de son assiette de partage (nuls avec
/// l'option qui ignore ces coûts, comme les émoluments), aucun émolument de déclaration si la
/// déclaration est ignorée.
pub open spec fn droits_d_un_enfant(
    e: HeritierState,
    d: int,
    assiette: int,
    ignorer_partage: bool,
    ignorer_declaration: bool,
) -> bool {
    &&& e.abattement == if e.part_fiscale <= 0 || d >= 100_000 {
        0
    } else if e.part_fiscale <= 100_000 - d {
        e.part_fiscale as int
    } else {
        100_000 - d
    }
    &&& e.taxable == e.part_fiscale - e.abattement
    &&& e.taxable >= 0 ==> 100 * e.droits_succession <= droits_cents(e.taxable as int) < 100
        * e.droits_succession + 100
    &&& ignorer_partage ==> e.droits_partage == 0 && e.emoluments_partage == 0
    &&& !ignorer_partage && e.droits_partage != 0 ==> e.droits_partage == assiette / 40
    &&& ignorer_declaration ==> e.emoluments_declaration_succession == 0
}

proof fn lemme_droits_des_enfants(
    avant: OptionState,
    o: OptionState,
    f: FractionnementPropriete,
    i: InputState,
    r: ResultState,
)
    requires
        option_calculee(avant, o, f, i, r),
        entree_valide(i),
    ensures
        droits_d_un_enfant(
            o.premier_enfant,
            i.donations_partages / 2 / i.nb_enfants as int,
            max_int(0, o.premier_enfant.heritage_pp as int),
            i.ignorer_couts_partage,
            i.ignorer_declaration_succession,
        ),
        droits_d_un_enfant(
            o.deuxieme_enfant,
            i.donations_partages / 2 / i.nb_enfants as int,
            max_int(0, o.deuxieme_enfant.extinction_us + o.deuxieme_enfant.part_civile),
            i.ignorer_couts_partage,
            i.ignorer_declaration_succession,
        ),
{
    reveal(option_calculee);
    lemme_droits_bornes(o.premier_enfant.taxable as int);
    lemme_droits_bornes(o.deuxieme_enfant.taxable as int);
}

/// Droits de chaque enfant aux deux décès, pour les quatre options (voir
/// `droits_d_un_enfant`).
pub proof fn loi_droits_des_enfants(i: InputState, avant: ResultState, r: ResultState)
    requires
        resultat_calcule(i, avant, r),
        entree_valide(i),
    ensures
        forall|o: OptionState|
            o == r.option_totalite_us || o == r.option_1_4_pp || o == r.option_1_4_pp_3_4_us || o
                == r.option_qd_pp ==> {
                &&& droits_d_un_enfant(
                    o.premier_enfant,
                    i.donations_partages / 2 / i.nb_enfants as int,
                    max_int(0, o.premier_enfant.heritage_pp as int),
                    i.ignorer_couts_partage,
                    i.ignorer_declaration_succession,
                )
                &&& droits_d_un_enfant(
                    o.deuxieme_enfant,
                    i.donations_partages / 2 / i.nb_enfants as int,
                    max_int(0, o.deuxieme_enfant.extinction_us + o.deuxieme_enfant.part_civile),
                    i.ignorer_couts_partage,
                    i.ignorer_declaration_succession,
                )
            },
{
    let nb = i.nb_enfants as int;
    lemme_droits_des_enfants(avant.option_totalite_us, r.option_totalite_us, fraction(0, 12), i, r);
    lemme_droits_des_enfants(avant.option_1_4_pp, r.option_1_4_pp, fraction(3, 0), i, r);
    lemme_droits_des_enfants(avant.option_1_4_pp_3_4_us, r.option_1_4_pp_3_4_us, fraction(3, 9), i, r);
    lemme_droits_des_enfants(
        avant.option_qd_pp,
        r.option_qd_pp,
        fraction(quotite_disponible_douziemes(nb), 0),
        i,
        r,
    );
}


/// Partage de l'actif net successoral civil `a` (positif) au 1er décès, selon l'option du
/// survivant, l'usufruit valant `u` dixièmes à son âge (barème de l'article 669) :
/// - totalité en usufruit : aucun héritier n'a de pleine propriété, le survivant a l'usufruit
///   de tout et chaque enfant la nue-propriété de sa part ;
/// - 1/4 en pleine propriété : le survivant a le quart, les enfants se partagent les trois
///   quarts, sans démembrement ;
/// - 1/4 en pleine propriété et 3/4 en usufruit : le survivant a le quart et l'usufruit des
///   trois quarts, les enfants la nue-propriété des trois quarts ;
/// - quotité disponible en pleine propriété : le survivant a la moitié avec un enfant, le tiers
///   avec deux, le quart avec trois ou plus ; les enfants se partagent le reste.
pub proof fn loi_options_du_survivant(i: InputState, avant: ResultState, r: ResultState)
    requires
        resultat_calcule(i, avant, r),
        entree_valide(i),
        r.premier_deces_civil.actif_net_succession >= 0,
    ensures
        ({
            let a = r.premier_deces_civil.actif_net_succession as int;
            let u = usufruit_dixiemes(age_survivant(i));
            let nb = i.nb_enfants as int;
            let o1 = r.option_totalite_us;
            let o2 = r.option_1_4_pp;
            let o3 = r.option_1_4_pp_3_4_us;
            let o4 = r.option_qd_pp;
            &&& o1.premier_survivant.heritage_pp == 0 && o1.premier_enfant.heritage_pp == 0
            &&& o1.premier_survivant.heritage_us == u * a / 10
            &&& o1.premier_enfant.heritage_np == (10 - u) * a / (10 * nb)
            &&& o2.premier_survivant.heritage_pp == a / 4
            &&& o2.premier_enfant.heritage_pp == 3 * a / (4 * nb)
            &&& o2.premier_survivant.heritage_us == 0 && o2.premier_enfant.heritage_np == 0
            &&& o3.premier_survivant.heritage_pp == a / 4 && o3.premier_enfant.heritage_pp == 0
            &&& o3.premier_survivant.heritage_us == 3 * u * a / 40
            &&& o3.premier_enfant.heritage_np == 3 * (10 - u) * a / (40 * nb)
            &&& o4.premier_survivant.heritage_us == 0 && o4.premier_enfant.heritage_np == 0
            &&& nb == 1 ==> o4.premier_survivant.heritage_pp == a / 2
                && o4.premier_enfant.heritage_pp == a / 2
            &&& nb == 2 ==> o4.premier_survivant.heritage_pp == a / 3
                && o4.premier_enfant.heritage_pp == a / 3
            &&& nb >= 3 ==> o4.premier_survivant.heritage_pp == a / 4
                && o4.premier_enfant.heritage_pp == 3 * a / (4 * nb)
        }),
{
    let nb = i.nb_enfants as int;
    let a = r.premier_deces_civil.actif_net_succession as int;
    let u = usufruit_dixiemes(age_survivant(i));
    lemme_split(avant.option_totalite_us, r.option_totalite_us, fraction(0, 12), i, r);
    lemme_split(avant.option_1_4_pp, r.option_1_4_pp, fraction(3, 0), i, r);
    lemme_split(avant.option_1_4_pp_3_4_us, r.option_1_4_pp_3_4_us, fraction(3, 9), i, r);
    lemme_split(
        avant.option_qd_pp,
        r.option_qd_pp,
        fraction(quotite_disponible_douziemes(nb), 0),
        i,
        r,
    );
    assert(0 <= u <= 9);
    assert((12 * u) * a / 120 == u * a / 10) by (nonlinear_arith)
        requires
            a >= 0,
            0 <= u,
    ;
    assert((12 * (10 - u)) * a / (120 * nb) == (10 - u) * a / (10 * nb)) by (nonlinear_arith)
        requires
            a >= 0,
            u <= 10,
            nb >= 1,
    ;
    assert(3 * a / 12 == a / 4) by (nonlinear_arith)
        requires
            a >= 0,
    ;
    assert(9 * a / (12 * nb) == 3 * a / (4 * nb)) by (nonlinear_arith)
        requires
            a >= 0,
            nb >= 1,
    ;
    assert((9 * u) * a / 120 == 3 * u * a / 40) by (nonlinear_arith)
        requires
            a >= 0,
            0 <= u,
    ;
    assert((9 * (10 - u)) * a / (120 * nb) == 3 * (10 - u) * a / (40 * nb)) by (nonlinear_arith)
        requires
            a >= 0,
            u <= 10,
            nb >= 1,
    ;
    assert(6 * a / 12 == a / 2) by (nonlinear_arith)
        requires
            a >= 0,
    ;
    assert(4 * a / 12 == a / 3) by (nonlinear_arith)
        requires
            a >= 0,
    ;
    assert(nb == 1 ==> 6 * a / (12 * nb) == a / 2) by (nonlinear_arith)
        requires
            a >= 0,
            nb >= 1,
    ;
    assert(nb == 2 ==> 8 * a / (12 * nb) == a / 3) by (nonlinear_arith)
        requires
            a >= 0,
            nb >= 1,
    ;
}

proof fn lemme_split(
    avant: OptionState,
    o: OptionState,
    f: FractionnementPropriete,
    i: InputState,
    r: ResultState,
)
    requires
        option_complete(avant, o, f, i, r),
        fractionnement_valide(f),
        r.premier_deces_civil.actif_net_succession >= 0,
        i.nb_enfants >= 1,
    ensures
        ({
            let a = r.premier_deces_civil.actif_net_succession as int;
            let u = usufruit_dixiemes(age_survivant(i));
            let nb = i.nb_enfants as int;
            &&& o.premier_survivant.heritage_pp == f.pp_survivant * a / 12
            &&& o.premier_survivant.heritage_us == (f.us_survivant * u) * a / 120
            &&& o.premier_enfant.heritage_pp == (12 - f.pp_survivant - f.us_survivant) * a / (12
                * nb)
            &&& o.premier_enfant.heritage_np == (f.us_survivant * (10 - u)) * a / (120 * nb)
        }),
{
    reveal(option_calculee);
    let a = r.premier_deces_civil.actif_net_succession as int;
    let u = usufruit_dixiemes(age_survivant(i));
    let nb = i.nb_enfants as int;
    assert(f.pp_survivant * a >= 0) by (nonlinear_arith)
        requires
            f.pp_survivant >= 0,
            a >= 0,
    ;
    assert((f.us_survivant * u) * a >= 0) by (nonlinear_arith)
        requires
            f.us_survivant >= 0,
            u >= 0,
            a >= 0,
    ;
    assert((12 - f.pp_survivant - f.us_survivant) * a >= 0) by (nonlinear_arith)
        requires
            f.pp_survivant + f.us_survivant <= 12,
            a >= 0,
    ;
    assert((f.us_survivant * (10 - u)) * a >= 0) by (nonlinear_arith)
        requires
            f.us_survivant >= 0,
            u <= 10,
            a >= 0,
    ;
}

} // verus!
