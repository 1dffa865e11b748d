//! Calcul de la succession : distribution des assurances-vie et récompenses associées,
//! liquidation de la communauté, succession au premier décès et part du conjoint survivant
//! hors succession, répartition de la succession pour chacune des quatre options du conjoint
//! survivant, puis succession au second décès.
use vstd::prelude::*;

use crate::data::bareme::{
    abs_int, div_tronquee, droits_cents, droits_en_ligne_direct, lemme_div_tronquee,
    lemme_droits_bornes, lemme_part, lemme_partage_bornes, lemme_prelevements_bornes,
    lemme_prorata, lemme_quote_part, max_int, min_int, partage_cents, partage_succession,
    prelevements_assurance_vie, prelevements_cents, declaration_cents, declaration_succession,
    lemme_declaration_bornes, lemme_quote_part_declaration,
};
use crate::data::bareme::{bareme_usufruit, usufruit_dixiemes};
use crate::data::{
    ABATTEMENT_AV, ABATTEMENT_DROITS, ABATTEMENT_PER, BeneficiaireState, HeritierState, dans_i32, MONTANT_MAX,
    InputState, OptionState, ResultState, FractionnementPropriete, fractionnement_valide,
    age_survivant, entree_valide, RESIDU_MAX, NB_ENFANTS_MAX, PremierDeces,
    FORFAIT_FRAIS_FUNERAIRES, REMISE_RP_FISCALE, quotite_disponible_douziemes,
    biens_meublants_forfaitaires, calcul_biens_meublants, EPSILON,
};

verus! {

pub open spec fn borne(x: int, b: int) -> bool {
    -b <= x <= b
}

/// Borne des champs d'un héritier, assez petite pour que leurs sommes tiennent dans un `i32`.
pub open spec fn borne_heritier() -> int {
    250_000_000
}

/// Borne de l'assiette globale du partage.
pub open spec fn borne_assiette() -> int {
    500_000_000
}

// ---------------------------------------------------------------------------------------------
// Bénéficiaires d'assurance-vie
// ---------------------------------------------------------------------------------------------

/// Capitaux décès d'une assurance-vie reçus par un enfant bénéficiaire : abattement de
/// 152 500 €, prélèvements sur la part taxable, capital net.
pub open spec fn beneficiaire_calcule(b: BeneficiaireState, brut: int) -> bool {
    &&& b.brut == brut
    &&& b.abattement == min_int(brut, ABATTEMENT_AV as int)
    &&& b.taxable == brut - b.abattement
    &&& b.prelevement == div_tronquee(prelevements_cents(b.taxable as int), 100)
    &&& b.net == brut - b.prelevement
}

/// Calcul des capitaux décès nets pour une AV reçue par un enfant bénéficiaire.
fn calcul_beneficiaire(beneficiaire: &mut BeneficiaireState, brut: i32)
    requires
        0 <= brut <= 3 * MONTANT_MAX,
    ensures
        beneficiaire_calcule(*final(beneficiaire), brut as int),
        0 <= final(beneficiaire).abattement <= final(beneficiaire).brut,
        0 <= final(beneficiaire).taxable <= final(beneficiaire).brut,
        0 <= final(beneficiaire).prelevement <= final(beneficiaire).taxable,
        0 <= final(beneficiaire).net <= final(beneficiaire).brut,
{
    beneficiaire.brut = brut;
    beneficiaire.abattement = if brut < ABATTEMENT_AV {
        brut
    } else {
        ABATTEMENT_AV
    };
    beneficiaire.taxable = brut - beneficiaire.abattement;
    let cents = prelevements_assurance_vie(beneficiaire.taxable);
    proof {
        lemme_prelevements_bornes(beneficiaire.taxable as int);
    }
    beneficiaire.prelevement = (cents / 100) as i32;
    beneficiaire.net = beneficiaire.brut - beneficiaire.prelevement;
}

pub open spec fn beneficiaire_nul() -> BeneficiaireState {
    BeneficiaireState { brut: 0, abattement: 0, taxable: 0, prelevement: 0, net: 0 }
}

pub open spec fn ou_beneficiaire_nul(s: Option<&BeneficiaireState>) -> BeneficiaireState {
    match s {
        Some(b) => *b,
        None => beneficiaire_nul(),
    }
}

/// Totaux des bénéficiaires : `nb` enfants identiques et, le cas échéant, le survivant.
pub open spec fn beneficiaires_totalises(
    t: BeneficiaireState,
    e: BeneficiaireState,
    nb: int,
    s: BeneficiaireState,
) -> bool {
    &&& t.brut == e.brut * nb + s.brut
    &&& t.abattement == e.abattement * nb + s.abattement
    &&& t.taxable == e.taxable * nb + s.taxable
    &&& t.prelevement == e.prelevement * nb + s.prelevement
    &&& t.net == e.net * nb + s.net
}

/// Répartition totale des AV transmises aux bénéficiaires.
fn repartition_beneficiaire_total(
    total: &mut BeneficiaireState,
    enfant: &BeneficiaireState,
    nb_enfants: i32,
    survivant: Option<&BeneficiaireState>,
)
    requires
        dans_i32(enfant.brut * nb_enfants),
        dans_i32(enfant.abattement * nb_enfants),
        dans_i32(enfant.taxable * nb_enfants),
        dans_i32(enfant.prelevement * nb_enfants),
        dans_i32(enfant.net * nb_enfants),
        dans_i32(enfant.brut * nb_enfants + ou_beneficiaire_nul(survivant).brut),
        dans_i32(enfant.abattement * nb_enfants + ou_beneficiaire_nul(survivant).abattement),
        dans_i32(enfant.taxable * nb_enfants + ou_beneficiaire_nul(survivant).taxable),
        dans_i32(enfant.prelevement * nb_enfants + ou_beneficiaire_nul(survivant).prelevement),
        dans_i32(enfant.net * nb_enfants + ou_beneficiaire_nul(survivant).net),
    ensures
        beneficiaires_totalises(
            *final(total),
            *enfant,
            nb_enfants as int,
            ou_beneficiaire_nul(survivant),
        ),
{
    total.brut = enfant.brut * nb_enfants;
    total.abattement = enfant.abattement * nb_enfants;
    total.taxable = enfant.taxable * nb_enfants;
    total.prelevement = enfant.prelevement * nb_enfants;
    total.net = enfant.net * nb_enfants;
    if let Some(survivant) = survivant {
        total.brut = total.brut + survivant.brut;
        total.abattement = total.abattement + survivant.abattement;
        total.taxable = total.taxable + survivant.taxable;
        total.prelevement = total.prelevement + survivant.prelevement;
        total.net = total.net + survivant.net;
    }
}

// ---------------------------------------------------------------------------------------------
// Héritiers
// ---------------------------------------------------------------------------------------------

/// Droits de succession d'un enfant : abattement de 100 000 € diminué des donations-partages
/// reçues (`donation` par enfant), part taxable et droits en ligne directe.
pub open spec fn droits_enfant(h: HeritierState, part_fiscale: int, donation: int) -> bool {
    &&& h.abattement == max_int(0, min_int(part_fiscale, ABATTEMENT_DROITS - donation))
    &&& h.taxable == part_fiscale - h.abattement
    &&& h.droits_succession == div_tronquee(droits_cents(h.taxable as int), 100)
}

/// Droits de partage (2,5 % de l'assiette individuelle), nuls si l'assiette globale est nulle.
pub open spec fn droits_partage_de(indiv: int, globale: int) -> int {
    if globale == 0 {
        0
    } else {
        div_tronquee(indiv, 40)
    }
}

/// Quote-part des émoluments de partage, calculés sur l'assiette globale et répartis au
/// prorata de l'assiette individuelle ; nuls si l'assiette globale est nulle.
pub open spec fn emoluments_partage_de(indiv: int, globale: int) -> int {
    if globale == 0 {
        0
    } else {
        div_tronquee(partage_cents(globale) * indiv, 100 * globale)
    }
}

/// Quote-part des émoluments de la déclaration de succession, calculés sur l'assiette globale
/// (l'actif successoral) et répartis au prorata de la part de l'héritier ; nuls si l'assiette
/// globale est nulle (déclaration ignorée ou actif nul).
pub open spec fn emoluments_declaration_de(indiv: int, globale: int) -> int {
    if globale == 0 {
        0
    } else {
        div_tronquee(declaration_cents(globale) * indiv, 100 * globale)
    }
}

/// Fin du calcul d'un héritier : coûts de partage, émoluments de déclaration, héritage net (augmenté de `bonus`,
/// l'extinction d'usufruit pour un enfant), flux financier (diminué de la part `virtuelle`
/// encore démembrée) et flux incluant le capital net d'assurance-vie.
pub open spec fn heritier_fini(
    h: HeritierState,
    part_civile: int,
    droits: int,
    indiv: int,
    globale: int,
    bonus: int,
    virtuelle: int,
    av_net: int,
    declaration: int,
) -> bool {
    &&& h.droits_partage == droits_partage_de(indiv, globale)
    &&& h.emoluments_partage == emoluments_partage_de(indiv, globale)
    &&& h.emoluments_declaration_succession == emoluments_declaration_de(
        max_int(0, part_civile),
        declaration,
    )
    &&& h.heritage_net == part_civile - droits - h.droits_partage - h.emoluments_partage
        - h.emoluments_declaration_succession + bonus
    &&& h.flux_financier == h.heritage_net - virtuelle
    &&& h.flux_financier_avec_av == h.flux_financier + av_net
}

/// Assiette individuelle du partage : au 2ème décès (nombre d'enfants connu) l'extinction
/// d'usufruit plus la part civile s'il y a plusieurs enfants ; au 1er décès la pleine propriété.
pub open spec fn assiette_individuelle(h: HeritierState, nb_enfants: Option<i32>) -> int {
    match nb_enfants {
        Some(n) => if n > 1 {
            max_int(0, h.extinction_us + h.part_civile)
        } else {
            0
        },
        None => max_int(0, h.heritage_pp as int),
    }
}

/// Résultat de `calcul_heritier` : `avant` est l'héritier avec ses parts déjà calculées.
pub open spec fn heritier_calcule(
    avant: HeritierState,
    h: HeritierState,
    donation: Option<i32>,
    av_net: int,
    nb_enfants: Option<i32>,
    globale: int,
    declaration: int,
) -> bool {
    &&& match donation {
        Some(d) => droits_enfant(h, avant.part_fiscale as int, d as int),
        None => {
            &&& h.abattement == avant.abattement
            &&& h.taxable == avant.taxable
            &&& h.droits_succession == avant.droits_succession
        },
    }
    &&& heritier_fini(
        h,
        avant.part_civile as int,
        h.droits_succession as int,
        assiette_individuelle(avant, nb_enfants),
        globale,
        if donation is Some {
            avant.extinction_us as int
        } else {
            0
        },
        if donation is Some {
            avant.heritage_np as int
        } else {
            avant.heritage_us as int
        },
        av_net,
        declaration,
    )
    &&& h.heritage_pp == avant.heritage_pp
    &&& h.heritage_np == avant.heritage_np
    &&& h.heritage_us == avant.heritage_us
    &&& h.extinction_us == avant.extinction_us
    &&& h.part_civile == avant.part_civile
    &&& h.part_fiscale == avant.part_fiscale
}

/// Calcul de l'héritage net d'un enfant ou du survivant, au 1er ou au 2ème décès.
/// - la présence d'une donation-partage (par enfant) indique que l'héritier est un enfant ;
/// - la présence du nombre d'enfants indique que l'on traite le 2ème décès ;
/// - l'assiette globale du partage est fournie car les émoluments, non proportionnels, sont
///   calculés globalement puis répartis au prorata de l'assiette individuelle.
#[verifier::rlimit(50)]
fn calcul_heritier(
    heritier: &mut HeritierState,
    donations_partages: Option<i32>,
    av_net: i32,
    nb_enfants: Option<i32>,
    assiette_partage_globale: i32,
    assiette_declaration_globale: i32,
)
    requires
        borne(old(heritier).part_civile as int, borne_heritier()),
        donations_partages is Some ==> borne(old(heritier).part_fiscale as int, borne_heritier()),
        donations_partages is Some || nb_enfants is Some ==> borne(
            old(heritier).extinction_us as int,
            borne_heritier(),
        ),
        nb_enfants is None ==> borne(old(heritier).heritage_pp as int, borne_heritier()),
        donations_partages is Some ==> borne(old(heritier).heritage_np as int, borne_heritier()),
        donations_partages is None ==> borne(old(heritier).heritage_us as int, borne_heritier()),
        donations_partages is None ==> borne(
            old(heritier).droits_succession as int,
            borne_heritier(),
        ),
        borne(av_net as int, borne_heritier()),
        0 <= assiette_partage_globale <= borne_assiette(),
        0 <= assiette_declaration_globale <= borne_assiette(),
    ensures
        heritier_calcule(
            *old(heritier),
            *final(heritier),
            donations_partages,
            av_net as int,
            nb_enfants,
            assiette_partage_globale as int,
            assiette_declaration_globale as int,
        ),
        borne(final(heritier).droits_succession as int, borne_heritier()),
        0 <= final(heritier).emoluments_declaration_succession,
        100 * final(heritier).emoluments_declaration_succession <= 2 * max_int(
            0,
            old(heritier).part_civile as int,
        ),
        0 <= final(heritier).droits_partage,
        40 * final(heritier).droits_partage <= assiette_individuelle(
            *old(heritier),
            nb_enfants,
        ),
        0 <= final(heritier).emoluments_partage,
        100 * final(heritier).emoluments_partage <= 6 * assiette_individuelle(
            *old(heritier),
            nb_enfants,
        ),
{
    let mut enfant = false;
    if let Some(donations_partages) = donations_partages {
        enfant = true;
        // Abattement diminué des donations reçues il y a moins de quinze ans
        let plafond: i64 = ABATTEMENT_DROITS as i64 - donations_partages as i64;
        let m: i64 = if (heritier.part_fiscale as i64) < plafond {
            heritier.part_fiscale as i64
        } else {
            plafond
        };
        heritier.abattement = if m > 0 {
            m as i32
        } else {
            0
        };
        heritier.taxable = heritier.part_fiscale - heritier.abattement;
        let cents = droits_en_ligne_direct(heritier.taxable);
        proof {
            lemme_droits_bornes(heritier.taxable as int);
        }
        heritier.droits_succession = (cents / 100) as i32;
    }
    // Assiette individuelle des droits et émoluments de partage
    let assiette_partage_individuelle: i64 = if let Some(nb_enfants) = nb_enfants {
        if nb_enfants > 1 {
            let x = heritier.extinction_us as i64 + heritier.part_civile as i64;
            if x > 0 {
                x
            } else {
                0
            }
        } else {
            0
        }
    } else {
        if heritier.heritage_pp > 0 {
            heritier.heritage_pp as i64
        } else {
            0
        }
    };
    if assiette_partage_globale == 0 {
        // Pas de droits ni d'émoluments, et pas de division par 0
        heritier.droits_partage = 0;
        heritier.emoluments_partage = 0;
    } else {
        // Droits de partage proportionnels de 2,5 %
        heritier.droits_partage = (assiette_partage_individuelle / 40) as i32;
        proof {
            lemme_div_tronquee(assiette_partage_individuelle as int, 40);
        }
        // Emoluments calculés globalement puis répartis au prorata de l'assiette individuelle
        let emoluments_globaux = partage_succession(assiette_partage_globale);
        proof {
            lemme_partage_bornes(assiette_partage_globale as int);
            lemme_quote_part(
                emoluments_globaux as int,
                assiette_partage_individuelle as int,
                assiette_partage_globale as int,
            );
            assert(emoluments_globaux * assiette_partage_individuelle <= 6 * 500_000_000 * 500_000_000) by (nonlinear_arith)
                requires
                    0 <= emoluments_globaux <= 6 * 500_000_000,
                    0 <= assiette_partage_individuelle <= 500_000_000,
            ;
            assert(emoluments_globaux * assiette_partage_individuelle >= 0) by (nonlinear_arith)
                requires
                    0 <= emoluments_globaux,
                    0 <= assiette_partage_individuelle,
            ;
        }
        heritier.emoluments_partage = (emoluments_globaux * assiette_partage_individuelle / (100
            * assiette_partage_globale as i64)) as i32;
    }
    // Emoluments de la déclaration de succession, calculés globalement puis répartis au
    // prorata de la part civile
    if assiette_declaration_globale == 0 {
        heritier.emoluments_declaration_succession = 0;
    } else {
        let indiv: i64 = if heritier.part_civile > 0 {
            heritier.part_civile as i64
        } else {
            0
        };
        let emoluments_globaux = declaration_succession(assiette_declaration_globale);
        proof {
            lemme_declaration_bornes(assiette_declaration_globale as int);
            lemme_quote_part_declaration(
                emoluments_globaux as int,
                indiv as int,
                assiette_declaration_globale as int,
            );
            assert(emoluments_globaux * indiv <= 2 * 500_000_000 * 250_000_000) by (nonlinear_arith)
                requires
                    0 <= emoluments_globaux <= 2 * 500_000_000,
                    0 <= indiv <= 250_000_000,
            ;
            assert(emoluments_globaux * indiv >= 0) by (nonlinear_arith)
                requires
                    0 <= emoluments_globaux,
                    0 <= indiv,
            ;
        }
        heritier.emoluments_declaration_succession = (emoluments_globaux * indiv / (100
            * assiette_declaration_globale as i64)) as i32;
    }
    // Héritage net
    heritier.heritage_net = heritier.part_civile - heritier.droits_succession
        - heritier.droits_partage - heritier.emoluments_partage
        - heritier.emoluments_declaration_succession;
    // Flux financier réel : la nue-propriété et l'usufruit restent virtuels jusqu'à
    // l'extinction de l'usufruit au 2ème décès.
    if enfant {
        // Au 2ème décès l'enfant touche l'extinction d'usufruit sans droits de succession
        heritier.heritage_net = heritier.heritage_net + heritier.extinction_us;
        // Au 1er décès l'enfant ne touche pas réellement la nue-propriété
        heritier.flux_financier = heritier.heritage_net - heritier.heritage_np;
    } else {
        // Au 1er décès le survivant ne touche pas réellement l'usufruit
        heritier.flux_financier = heritier.heritage_net - heritier.heritage_us;
    }
    // Dans tous les cas l'héritier touche le capital de l'AV dont il est bénéficiaire
    heritier.flux_financier_avec_av = heritier.flux_financier + av_net;
}

pub open spec fn ou_heritier(s: Option<&HeritierState>, defaut: HeritierState) -> HeritierState {
    match s {
        Some(h) => *h,
        None => defaut,
    }
}

/// Totaux des héritiers : `nb` enfants identiques et, le cas échéant, le survivant `s`.
pub open spec fn heritiers_totalises(
    avant: HeritierState,
    t: HeritierState,
    e: HeritierState,
    nb: int,
    s: HeritierState,
    avec_survivant: bool,
) -> bool {
    let z = if avec_survivant { 1int } else { 0int };
    &&& t.abattement == e.abattement * nb + z * s.abattement
    &&& t.taxable == e.taxable * nb + z * s.taxable
    &&& t.droits_succession == e.droits_succession * nb + z * s.droits_succession
    &&& t.droits_partage == e.droits_partage * nb + z * s.droits_partage
    &&& t.emoluments_partage == e.emoluments_partage * nb + z * s.emoluments_partage
    &&& t.emoluments_declaration_succession == e.emoluments_declaration_succession * nb + z
        * s.emoluments_declaration_succession
    &&& t.heritage_net == e.heritage_net * nb + z * s.heritage_net
    &&& t.flux_financier == e.flux_financier * nb + z * s.flux_financier
    &&& t.flux_financier_avec_av == e.flux_financier_avec_av * nb + z * s.flux_financier_avec_av
    &&& t.heritage_pp == avant.heritage_pp
    &&& t.heritage_np == avant.heritage_np
    &&& t.heritage_us == avant.heritage_us
    &&& t.extinction_us == avant.extinction_us
    &&& t.part_civile == avant.part_civile
    &&& t.part_fiscale == avant.part_fiscale
}

/// Répartition des totaux des héritages.
fn repartition_heritier_total(
    total: &mut HeritierState,
    enfant: &HeritierState,
    nb_enfants: i32,
    survivant: Option<&HeritierState>,
)
    requires
        dans_i32(enfant.abattement * nb_enfants),
        dans_i32(enfant.taxable * nb_enfants),
        dans_i32(enfant.droits_succession * nb_enfants),
        dans_i32(enfant.droits_partage * nb_enfants),
        dans_i32(enfant.emoluments_partage * nb_enfants),
        dans_i32(enfant.emoluments_declaration_succession * nb_enfants),
        dans_i32(enfant.heritage_net * nb_enfants),
        dans_i32(enfant.flux_financier * nb_enfants),
        dans_i32(enfant.flux_financier_avec_av * nb_enfants),
        survivant matches Some(s) ==> {
            &&& dans_i32(enfant.abattement * nb_enfants + s.abattement)
            &&& dans_i32(enfant.taxable * nb_enfants + s.taxable)
            &&& dans_i32(enfant.droits_succession * nb_enfants + s.droits_succession)
            &&& dans_i32(enfant.droits_partage * nb_enfants + s.droits_partage)
            &&& dans_i32(enfant.emoluments_partage * nb_enfants + s.emoluments_partage)
            &&& dans_i32(
                enfant.emoluments_declaration_succession * nb_enfants
                    + s.emoluments_declaration_succession,
            )
            &&& dans_i32(enfant.heritage_net * nb_enfants + s.heritage_net)
            &&& dans_i32(enfant.flux_financier * nb_enfants + s.flux_financier)
            &&& dans_i32(enfant.flux_financier_avec_av * nb_enfants + s.flux_financier_avec_av)
        },
    ensures
        heritiers_totalises(
            *old(total),
            *final(total),
            *enfant,
            nb_enfants as int,
            ou_heritier(survivant, *enfant),
            survivant is Some,
        ),
{
    total.abattement = enfant.abattement * nb_enfants;
    total.taxable = enfant.taxable * nb_enfants;
    total.droits_succession = enfant.droits_succession * nb_enfants;
    total.droits_partage = enfant.droits_partage * nb_enfants;
    total.emoluments_partage = enfant.emoluments_partage * nb_enfants;
    total.emoluments_declaration_succession = enfant.emoluments_declaration_succession
        * nb_enfants;
    total.heritage_net = enfant.heritage_net * nb_enfants;
    total.flux_financier = enfant.flux_financier * nb_enfants;
    total.flux_financier_avec_av = enfant.flux_financier_avec_av * nb_enfants;
    if let Some(survivant) = survivant {
        total.abattement = total.abattement + survivant.abattement;
        total.taxable = total.taxable + survivant.taxable;
        total.droits_succession = total.droits_succession + survivant.droits_succession;
        total.droits_partage = total.droits_partage + survivant.droits_partage;
        total.emoluments_partage = total.emoluments_partage + survivant.emoluments_partage;
        total.emoluments_declaration_succession = total.emoluments_declaration_succession
            + survivant.emoluments_declaration_succession;
        total.heritage_net = total.heritage_net + survivant.heritage_net;
        total.flux_financier = total.flux_financier + survivant.flux_financier;
        total.flux_financier_avec_av = total.flux_financier_avec_av
            + survivant.flux_financier_avec_av;
    }
}


// ---------------------------------------------------------------------------------------------
// Options du conjoint survivant
// ---------------------------------------------------------------------------------------------

/// Donation-partage reçue par chaque enfant de la part du défunt (la moitié des
/// donations conjonctives, partagée également).
pub open spec fn donation_par_enfant(i: InputState) -> int {
    div_tronquee(div_tronquee(i.donations_partages as int, 2), i.nb_enfants as int)
}

/// Part fiscale correspondant à une part civile : même proportion de l'actif net fiscal que
/// de l'actif net civil, nulle si l'actif net civil est négatif ou nul.
pub open spec fn part_fiscale_de(part_civile: int, civil: int, fiscal: int) -> int {
    if civil > 0 {
        div_tronquee(fiscal * part_civile, civil)
    } else {
        0
    }
}

/// Assiette globale du partage au 1er décès : toute la pleine propriété, sauf si les coûts de
/// partage sont ignorés.
pub open spec fn assiette_premier_deces(i: InputState, o: OptionState) -> int {
    if i.ignorer_couts_partage {
        0
    } else {
        max_int(0, o.premier_total.heritage_pp as int)
    }
}

/// Assiette globale du partage au 2ème décès : l'extinction d'usufruit et la succession du
/// survivant, s'il y a plusieurs enfants et si les coûts de partage ne sont pas ignorés.
pub open spec fn assiette_deuxieme_deces(i: InputState, o: OptionState) -> int {
    if i.nb_enfants > 1 && !i.ignorer_couts_partage {
        max_int(0, o.deuxieme_total.extinction_us + o.deuxieme_total.part_civile)
    } else {
        0
    }
}

/// Assiette globale des émoluments de la déclaration de succession au 1er décès : l'actif net
/// successoral civil (nulle si la déclaration est ignorée ou l'actif négatif).
pub open spec fn declaration_premier_deces(i: InputState, r: ResultState) -> int {
    if i.ignorer_declaration_succession {
        0
    } else {
        max_int(0, r.premier_deces_civil.actif_net_succession as int)
    }
}

/// Assiette globale des émoluments de la déclaration de succession au 2ème décès : la part
/// civile de la succession du survivant.
pub open spec fn declaration_deuxieme_deces(i: InputState, o: OptionState) -> int {
    if i.ignorer_declaration_succession {
        0
    } else {
        max_int(0, o.deuxieme_total.part_civile as int)
    }
}

/// Premier décès d'une option : partage de l'actif net successoral civil en pleine propriété,
/// usufruit et nue-propriété (l'usufruit et la nue-propriété évalués selon l'âge du survivant),
/// parts fiscales au prorata, droits et coûts de partage, totaux, impôts et émoluments.
pub open spec fn premier_deces_option(
    avant: OptionState,
    o: OptionState,
    f: FractionnementPropriete,
    i: InputState,
    r: ResultState,
) -> bool {
    let nb = i.nb_enfants as int;
    let a = r.premier_deces_civil.actif_net_succession as int;
    let fisc = r.premier_deces_fiscal.actif_net_succession as int;
    let us = usufruit_dixiemes(age_survivant(i));
    let np = 10 - us;
    let s = o.premier_survivant;
    let e = o.premier_enfant;
    let t = o.premier_total;
    let g = assiette_premier_deces(i, o);
    // Survivant
    &&& s.heritage_pp == div_tronquee(f.pp_survivant * a, 12)
    &&& s.heritage_us == div_tronquee((f.us_survivant * us) * a, 120)
    &&& s.heritage_np == avant.premier_survivant.heritage_np
    &&& s.extinction_us == avant.premier_survivant.extinction_us
    &&& s.part_civile == s.heritage_pp + s.heritage_us
    &&& s.part_fiscale == part_fiscale_de(s.part_civile as int, a, fisc)
    &&& s.abattement == avant.premier_survivant.abattement
    &&& s.taxable == avant.premier_survivant.taxable
    &&& s.droits_succession == avant.premier_survivant.droits_succession
    &&& heritier_fini(
        s,
        s.part_civile as int,
        s.droits_succession as int,
        max_int(0, s.heritage_pp as int),
        g,
        0,
        s.heritage_us as int,
        r.premier_av_survivant.net as int,
        declaration_premier_deces(i, r),
    )
    // Chaque enfant
    &&& e.heritage_pp == div_tronquee((12 - f.pp_survivant - f.us_survivant) * a, 12 * nb)
    &&& e.heritage_np == div_tronquee((f.us_survivant * np) * a, 120 * nb)
    &&& e.heritage_us == avant.premier_enfant.heritage_us
    &&& e.extinction_us == avant.premier_enfant.extinction_us
    &&& e.part_civile == e.heritage_pp + e.heritage_np
    &&& e.part_fiscale == part_fiscale_de(e.part_civile as int, a, fisc)
    &&& droits_enfant(e, e.part_fiscale as int, donation_par_enfant(i))
    &&& heritier_fini(
        e,
        e.part_civile as int,
        e.droits_succession as int,
        max_int(0, e.heritage_pp as int),
        g,
        e.extinction_us as int,
        e.heritage_np as int,
        r.premier_av_enfant.net as int,
        declaration_premier_deces(i, r),
    )
    // Totaux
    &&& t.part_civile == a
    &&& t.part_fiscale == fisc
    &&& t.heritage_pp == s.heritage_pp + nb * e.heritage_pp
    &&& t.heritage_np == nb * e.heritage_np
    &&& t.heritage_us == s.heritage_us
    &&& heritiers_totalises(
        HeritierState {
            heritage_pp: t.heritage_pp,
            heritage_np: t.heritage_np,
            heritage_us: t.heritage_us,
            part_civile: t.part_civile,
            part_fiscale: t.part_fiscale,
            ..avant.premier_total
        },
        t,
        e,
        nb,
        s,
        true,
    )
    &&& o.premier_etat == t.droits_succession + t.droits_partage + r.premier_av_total.prelevement
    &&& o.premier_notaire == t.emoluments_partage + t.emoluments_declaration_succession
}

/// Deuxième décès d'une option : la succession du survivant (sa part hors succession, ce qu'il
/// a effectivement reçu au 1er décès, pleine propriété nette de ses coûts et assurance-vie, et
/// le PER reçu du défunt) et l'extinction de l'usufruit reviennent aux enfants à parts égales.
/// La pleine propriété est comptée nette des droits de partage et des émoluments que le
/// survivant a payés au 1er décès : ces sommes sont déjà parties à l'État et au notaire, et la
/// vérification des totaux (« le total distribué aux enfants, à l'État et au notaire est égal
/// à l'actif net de départ ») ne tiendrait pas si elles restaient dans sa succession.
pub open spec fn deuxieme_deces_option(
    avant: OptionState,
    o: OptionState,
    i: InputState,
    r: ResultState,
) -> bool {
    let nb = i.nb_enfants as int;
    let s = o.premier_survivant;
    let e = o.premier_enfant;
    let e2 = o.deuxieme_enfant;
    let t2 = o.deuxieme_total;
    &&& t2.extinction_us == s.heritage_us + nb * e.heritage_np
    &&& t2.part_civile == r.premier_deces_civil.part_survivant_hors_succession
        + s.flux_financier_avec_av + r.premier_per
    &&& t2.part_fiscale == max_int(
        0,
        t2.part_civile + max_int(0, r.deuxieme_per_total - ABATTEMENT_PER),
    )
    &&& e2.extinction_us == div_tronquee(t2.extinction_us as int, nb)
    &&& e2.part_civile == div_tronquee(t2.part_civile as int, nb)
    &&& e2.part_fiscale == div_tronquee(t2.part_fiscale as int, nb)
    &&& e2.heritage_pp == avant.deuxieme_enfant.heritage_pp
    &&& e2.heritage_np == avant.deuxieme_enfant.heritage_np
    &&& e2.heritage_us == avant.deuxieme_enfant.heritage_us
    &&& droits_enfant(e2, e2.part_fiscale as int, donation_par_enfant(i))
    &&& heritier_fini(
        e2,
        e2.part_civile as int,
        e2.droits_succession as int,
        if nb > 1 {
            max_int(0, e2.extinction_us + e2.part_civile)
        } else {
            0
        },
        assiette_deuxieme_deces(i, o),
        e2.extinction_us as int,
        e2.heritage_np as int,
        r.deuxieme_av_enfant.net + r.deuxieme_per,
        declaration_deuxieme_deces(i, o),
    )
    &&& heritiers_totalises(
        HeritierState {
            extinction_us: t2.extinction_us,
            part_civile: t2.part_civile,
            part_fiscale: t2.part_fiscale,
            ..avant.deuxieme_total
        },
        t2,
        e2,
        nb,
        e2,
        false,
    )
    &&& o.deuxieme_etat == t2.droits_succession + t2.droits_partage
        + r.deuxieme_av_total.prelevement
    &&& o.deuxieme_notaire == t2.emoluments_partage + t2.emoluments_declaration_succession
}

/// Résultat de `calcul_option` : les deux décès calculés, les autres champs conservés.
#[verifier::opaque]
pub open spec fn option_calculee(
    avant: OptionState,
    o: OptionState,
    f: FractionnementPropriete,
    i: InputState,
    r: ResultState,
) -> bool {
    &&& premier_deces_option(avant, o, f, i, r)
    &&& deuxieme_deces_option(avant, o, i, r)
    &&& o.deuxieme_us_survivant == avant.deuxieme_us_survivant
    &&& o.deuxieme_pp_survivant == avant.deuxieme_pp_survivant
    &&& o.deuxieme_actif_net_succession_civil == avant.deuxieme_actif_net_succession_civil
    &&& o.deuxieme_actif_net_succession_fiscal == avant.deuxieme_actif_net_succession_fiscal
}

/// Bornes des données de la liquidation sur lesquelles se calcule une option.
pub open spec fn liquidation_bornee(r: ResultState, nb: int) -> bool {
    &&& borne(r.premier_deces_civil.actif_net_succession as int, 4 * MONTANT_MAX)
    &&& 0 <= r.premier_deces_fiscal.actif_net_succession <= 5 * MONTANT_MAX
    &&& borne(r.premier_deces_civil.part_survivant_hors_succession as int, 4 * MONTANT_MAX)
    &&& 0 <= r.premier_av_survivant.net <= MONTANT_MAX
    &&& 0 <= r.premier_av_enfant.net
    &&& nb * r.premier_av_enfant.net <= MONTANT_MAX
    &&& 0 <= r.deuxieme_av_enfant.net
    &&& nb * r.deuxieme_av_enfant.net <= 3 * MONTANT_MAX
    &&& 0 <= r.premier_per <= MONTANT_MAX
    &&& 0 <= r.deuxieme_per
    &&& r.deuxieme_per_total == r.deuxieme_per * nb
    &&& r.deuxieme_per_total <= MONTANT_MAX
    &&& borne(r.premier_av_total.prelevement as int, 2 * MONTANT_MAX)
    &&& borne(r.deuxieme_av_total.prelevement as int, 3 * MONTANT_MAX)
}

/// Bornes des champs d'une option antérieure que le calcul relit sans les réécrire.
pub open spec fn option_residuelle_bornee(o: OptionState) -> bool {
    &&& borne(o.premier_survivant.abattement as int, RESIDU_MAX as int)
    &&& borne(o.premier_survivant.taxable as int, RESIDU_MAX as int)
    &&& borne(o.premier_survivant.droits_succession as int, RESIDU_MAX as int)
    &&& borne(o.premier_enfant.extinction_us as int, RESIDU_MAX as int)
    &&& borne(o.deuxieme_enfant.heritage_np as int, RESIDU_MAX as int)
}

/// Les cumuls d'une option calculée tiennent dans un `i32`.
pub open spec fn cumuls_possibles(o: OptionState, nb: int) -> bool {
    &&& dans_i32(o.premier_enfant.flux_financier_avec_av + o.deuxieme_enfant.flux_financier_avec_av)
    &&& dans_i32(o.premier_etat + o.deuxieme_etat)
    &&& dans_i32(o.premier_notaire + o.deuxieme_notaire)
    &&& dans_i32(
        (o.premier_enfant.flux_financier_avec_av + o.deuxieme_enfant.flux_financier_avec_av) * nb,
    )
}

/// Bornes d'un enfant après le calcul de ses droits : abattement, part taxable et droits.
proof fn lemme_droits_enfant(e: HeritierState, pf: int, d: int)
    requires
        droits_enfant(e, pf, d),
        0 <= d,
        0 <= pf,
    ensures
        0 <= e.abattement <= ABATTEMENT_DROITS,
        0 <= e.taxable <= pf,
        0 <= e.droits_succession <= e.taxable,
{
    lemme_droits_bornes(e.taxable as int);
    lemme_div_tronquee(droits_cents(e.taxable as int), 100);
}

/// Multipliés par le nombre d'enfants, les montants d'un enfant restent bornés.
proof fn lemme_enfant_multiplie(
    e: HeritierState,
    nb: int,
    indiv: int,
    av_net: int,
    kpc: int,
    kpf: int,
    kind: int,
    kext: int,
    knp: int,
    kav: int,
)
    requires
        1 <= nb,
        0 <= e.abattement <= ABATTEMENT_DROITS,
        0 <= e.taxable <= e.part_fiscale,
        0 <= e.droits_succession <= e.taxable,
        0 <= e.droits_partage,
        0 <= e.emoluments_partage,
        e.droits_partage + e.emoluments_partage <= indiv,
        0 <= e.emoluments_declaration_succession,
        50 * e.emoluments_declaration_succession <= max_int(0, e.part_civile as int),
        e.heritage_net == e.part_civile - e.droits_succession - e.droits_partage
            - e.emoluments_partage - e.emoluments_declaration_succession + e.extinction_us,
        e.flux_financier == e.heritage_net - e.heritage_np,
        e.flux_financier_avec_av == e.flux_financier + av_net,
        -kpc <= nb * e.part_civile <= kpc,
        nb * e.part_fiscale <= kpf,
        0 <= indiv,
        nb * indiv <= kind,
        -kext <= nb * e.extinction_us <= kext,
        -knp <= nb * e.heritage_np <= knp,
        0 <= av_net,
        nb * av_net <= kav,
    ensures
        0 <= nb * e.abattement <= nb * ABATTEMENT_DROITS,
        0 <= nb * e.taxable <= kpf,
        0 <= nb * e.droits_succession <= kpf,
        0 <= nb * e.droits_partage,
        0 <= nb * e.emoluments_partage,
        nb * e.droits_partage + nb * e.emoluments_partage <= kind,
        0 <= nb * e.emoluments_declaration_succession <= kpc,
        -(2 * kpc + kpf + kind + kext) <= nb * e.heritage_net <= kpc + kext,
        -(2 * kpc + kpf + kind + kext + knp) <= nb * e.flux_financier <= kpc + kext + knp,
        -(2 * kpc + kpf + kind + kext + knp) <= nb * e.flux_financier_avec_av <= kpc + kext
            + knp + kav,
{
    let ab = e.abattement as int;
    let tx = e.taxable as int;
    let dr = e.droits_succession as int;
    let dp = e.droits_partage as int;
    let em = e.emoluments_partage as int;
    let pc = e.part_civile as int;
    let pf = e.part_fiscale as int;
    let ext = e.extinction_us as int;
    let np = e.heritage_np as int;
    let dc = e.emoluments_declaration_succession as int;
    assert(0 <= nb * dc <= nb * max_int(0, pc)) by (nonlinear_arith)
        requires
            1 <= nb,
            0 <= dc,
            50 * dc <= max_int(0, pc),
    ;
    assert(nb * max_int(0, pc) <= kpc) by (nonlinear_arith)
        requires
            1 <= nb,
            -kpc <= nb * pc <= kpc,
    ;
    assert(0 <= nb * ab <= nb * ABATTEMENT_DROITS) by (nonlinear_arith)
        requires
            1 <= nb,
            0 <= ab <= ABATTEMENT_DROITS,
    ;
    assert(0 <= nb * tx <= nb * pf) by (nonlinear_arith)
        requires
            1 <= nb,
            0 <= tx <= pf,
    ;
    assert(0 <= nb * dr <= nb * tx) by (nonlinear_arith)
        requires
            1 <= nb,
            0 <= dr <= tx,
    ;
    assert(0 <= nb * dp && 0 <= nb * em && nb * dp + nb * em <= nb * indiv) by (nonlinear_arith)
        requires
            1 <= nb,
            0 <= dp,
            0 <= em,
            dp + em <= indiv,
    ;
    assert(nb * (pc - dr - dp - em - dc + ext) == nb * pc - nb * dr - nb * dp - nb * em - nb * dc
        + nb * ext) by (nonlinear_arith);
    assert(nb * (pc - dr - dp - em - dc + ext - np) == nb * pc - nb * dr - nb * dp - nb * em - nb
        * dc + nb * ext - nb * np) by (nonlinear_arith);
    assert(nb * (pc - dr - dp - em - dc + ext - np + av_net) == nb * pc - nb * dr - nb * dp - nb
        * em - nb * dc + nb * ext - nb * np + nb * av_net) by (nonlinear_arith);
}

/// Une option calculée le reste quand seuls ses cumuls changent, et ne dépend que de la
/// liquidation et des assurances-vie du résultat.
pub proof fn lemme_option_transfert(
    avant: OptionState,
    o1: OptionState,
    o2: OptionState,
    f: FractionnementPropriete,
    i: InputState,
    r1: ResultState,
    r2: ResultState,
)
    requires
        option_calculee(avant, o1, f, i, r1),
        o2.premier_survivant == o1.premier_survivant,
        o2.premier_enfant == o1.premier_enfant,
        o2.premier_total == o1.premier_total,
        o2.premier_etat == o1.premier_etat,
        o2.premier_notaire == o1.premier_notaire,
        o2.deuxieme_us_survivant == o1.deuxieme_us_survivant,
        o2.deuxieme_pp_survivant == o1.deuxieme_pp_survivant,
        o2.deuxieme_actif_net_succession_civil == o1.deuxieme_actif_net_succession_civil,
        o2.deuxieme_actif_net_succession_fiscal == o1.deuxieme_actif_net_succession_fiscal,
        o2.deuxieme_enfant == o1.deuxieme_enfant,
        o2.deuxieme_total == o1.deuxieme_total,
        o2.deuxieme_etat == o1.deuxieme_etat,
        o2.deuxieme_notaire == o1.deuxieme_notaire,
        r2.premier_deces_civil == r1.premier_deces_civil,
        r2.premier_deces_fiscal == r1.premier_deces_fiscal,
        r2.premier_av_survivant == r1.premier_av_survivant,
        r2.premier_av_enfant == r1.premier_av_enfant,
        r2.premier_av_total == r1.premier_av_total,
        r2.deuxieme_av_enfant == r1.deuxieme_av_enfant,
        r2.deuxieme_av_total == r1.deuxieme_av_total,
        r2.premier_per == r1.premier_per,
        r2.deuxieme_per == r1.deuxieme_per,
        r2.deuxieme_per_total == r1.deuxieme_per_total,
    ensures
        option_calculee(avant, o2, f, i, r2),
{
    reveal(option_calculee);
}

/// Premier décès pour une option.
#[verifier::rlimit(100)]
fn calcul_premier_deces_option(
    option: &mut OptionState,
    fractionnement: FractionnementPropriete,
    input: &InputState,
    result: &ResultState,
)
    requires
        entree_valide(*input),
        fractionnement_valide(fractionnement),
        liquidation_bornee(*result, input.nb_enfants as int),
        option_residuelle_bornee(*old(option)),
    ensures
        premier_deces_option(*old(option), *final(option), fractionnement, *input, *result),
        final(option).deuxieme_enfant == old(option).deuxieme_enfant,
        final(option).deuxieme_total == old(option).deuxieme_total,
        final(option).deuxieme_etat == old(option).deuxieme_etat,
        final(option).deuxieme_notaire == old(option).deuxieme_notaire,
        final(option).deuxieme_us_survivant == old(option).deuxieme_us_survivant,
        final(option).deuxieme_pp_survivant == old(option).deuxieme_pp_survivant,
        final(option).deuxieme_actif_net_succession_civil
            == old(option).deuxieme_actif_net_succession_civil,
        final(option).deuxieme_actif_net_succession_fiscal
            == old(option).deuxieme_actif_net_succession_fiscal,
        final(option).cumul_enfant == old(option).cumul_enfant,
        final(option).cumul_etat == old(option).cumul_etat,
        final(option).cumul_notaire == old(option).cumul_notaire,
        final(option).cumul_total == old(option).cumul_total,
        // Bornes utiles au deuxième décès et aux cumuls
        borne(final(option).premier_survivant.heritage_pp as int, 4 * MONTANT_MAX),
        borne(final(option).premier_survivant.heritage_us as int, 4 * MONTANT_MAX),
        borne(
            input.nb_enfants * final(option).premier_enfant.heritage_np,
            4 * MONTANT_MAX,
        ),
        borne(
            input.nb_enfants * final(option).premier_enfant.flux_financier_avec_av,
            35 * MONTANT_MAX,
        ),
        borne(final(option).premier_etat as int, 20 * MONTANT_MAX),
        0 <= final(option).premier_notaire <= 20 * MONTANT_MAX,
        borne(final(option).premier_survivant.flux_financier_avec_av as int, 6 * MONTANT_MAX),
{
    let ghost avant = *option;
    let nb = input.nb_enfants;
    let a = result.premier_deces_civil.actif_net_succession;
    let fisc = result.premier_deces_fiscal.actif_net_succession;
    option.premier_total.part_civile = a;
    option.premier_total.part_fiscale = fisc;

    // Fractionnement de l'actif net civil en US/NP/PP pour le survivant et les enfants.
    // Le survivant ne reçoit pas de NP et les enfants ne reçoivent pas d'US.
    let age_survivant = if input.ordre_deces {
        input.age_conjoint
    } else {
        input.age_vous
    };
    let (us, np) = bareme_usufruit(age_survivant);
    let pp_survivant = fractionnement.pp_survivant;
    let us_survivant = fractionnement.us_survivant;
    let pp_enfants = 12 - pp_survivant - us_survivant;
    proof {
        assert(0 <= us_survivant * np <= 120) by (nonlinear_arith)
            requires
                0 <= us_survivant <= 12,
                1 <= np <= 9,
        ;
        assert(0 <= us_survivant * us <= 120) by (nonlinear_arith)
            requires
                0 <= us_survivant <= 12,
                1 <= us <= 9,
        ;
        lemme_part(a as int, pp_survivant as int, 12, 1);
        lemme_part(a as int, pp_enfants as int, 12, nb as int);
        lemme_part(a as int, us_survivant * np, 120, nb as int);
        lemme_part(a as int, us_survivant * us, 120, 1);
        assert(result.premier_av_enfant.net <= nb * result.premier_av_enfant.net) by (nonlinear_arith)
            requires
                0 <= result.premier_av_enfant.net,
                nb >= 1,
        ;
        assert(-100_000_000_000 <= pp_survivant * a <= 100_000_000_000) by (nonlinear_arith)
            requires
                0 <= pp_survivant <= 12,
                -80_000_000 <= a <= 80_000_000,
        ;
        assert(-100_000_000_000 <= pp_enfants * a <= 100_000_000_000) by (nonlinear_arith)
            requires
                0 <= pp_enfants <= 12,
                -80_000_000 <= a <= 80_000_000,
        ;
        assert(-100_000_000_000 <= (us_survivant * np) * a <= 100_000_000_000) by (nonlinear_arith)
            requires
                0 <= us_survivant * np <= 120,
                -80_000_000 <= a <= 80_000_000,
        ;
        assert(-100_000_000_000 <= (us_survivant * us) * a <= 100_000_000_000) by (nonlinear_arith)
            requires
                0 <= us_survivant * us <= 120,
                -80_000_000 <= a <= 80_000_000,
        ;
        assert(12 * 1 == 12 && 120 * 1 == 120);
    }
    option.premier_survivant.heritage_pp = (pp_survivant as i64 * a as i64 / 12) as i32;
    option.premier_enfant.heritage_pp = (pp_enfants as i64 * a as i64 / (12 * nb as i64)) as i32;
    option.premier_enfant.heritage_np = ((us_survivant * np) as i64 * a as i64 / (120
        * nb as i64)) as i32;
    option.premier_survivant.heritage_us = ((us_survivant * us) as i64 * a as i64
        / 120) as i32;

    // Totaux US/NP/PP
    option.premier_total.heritage_pp = option.premier_survivant.heritage_pp + nb
        * option.premier_enfant.heritage_pp;
    option.premier_total.heritage_np = nb * option.premier_enfant.heritage_np;
    option.premier_total.heritage_us = option.premier_survivant.heritage_us;

    // Parts civiles du survivant et des enfants
    option.premier_survivant.part_civile = option.premier_survivant.heritage_pp
        + option.premier_survivant.heritage_us;
    option.premier_enfant.part_civile = option.premier_enfant.heritage_pp
        + option.premier_enfant.heritage_np;
    let ghost pc_s = option.premier_survivant.part_civile as int;
    let ghost pc_e = option.premier_enfant.part_civile as int;
    proof {
        assert(nb * pc_e == nb * option.premier_enfant.heritage_pp + nb
            * option.premier_enfant.heritage_np) by (nonlinear_arith)
            requires
                pc_e == option.premier_enfant.heritage_pp + option.premier_enfant.heritage_np,
        ;
    }

    // Parts fiscales au prorata des parts civiles (nulles si l'actif net civil est négatif ou
    // nul, pour éviter des impôts négatifs et une division par 0)
    if a > 0 {
        proof {
            lemme_prorata(fisc as int, pc_s, a as int, 2, 1);
            lemme_prorata(fisc as int, pc_e, a as int, 2, nb as int);
            assert(0 <= fisc * pc_s <= 100_000_000 * 160_000_000) by (nonlinear_arith)
                requires
                    0 <= fisc <= 100_000_000,
                    0 <= pc_s <= 160_000_000,
            ;
            assert(0 <= fisc * pc_e <= 100_000_000 * 160_000_000) by (nonlinear_arith)
                requires
                    0 <= fisc <= 100_000_000,
                    0 <= pc_e <= 160_000_000,
            ;
        }
        option.premier_survivant.part_fiscale = (fisc as i64
            * option.premier_survivant.part_civile as i64 / a as i64) as i32;
        option.premier_enfant.part_fiscale = (fisc as i64
            * option.premier_enfant.part_civile as i64 / a as i64) as i32;
    } else {
        option.premier_survivant.part_fiscale = 0;
        option.premier_enfant.part_fiscale = 0;
    }

    // Droits et héritage net des enfants
    let assiette_partage_total = if input.ignorer_couts_partage {
        0
    } else if option.premier_total.heritage_pp > 0 {
        option.premier_total.heritage_pp
    } else {
        0
    };
    // Assiette des émoluments de la déclaration de succession : l'actif net successoral
    let assiette_declaration = if input.ignorer_declaration_succession || a < 0 {
        0
    } else {
        a
    };
    let ghost enfant_avant = option.premier_enfant;
    calcul_heritier(
        &mut option.premier_enfant,
        Some(input.donations_partages / 2 / nb),
        result.premier_av_enfant.net,
        None,
        assiette_partage_total,
        assiette_declaration,
    );
    // Héritage du survivant
    let ghost survivant_avant = option.premier_survivant;
    calcul_heritier(
        &mut option.premier_survivant,
        None,
        result.premier_av_survivant.net,
        None,
        assiette_partage_total,
        assiette_declaration,
    );
    proof {
        let e = option.premier_enfant;
        lemme_droits_enfant(e, e.part_fiscale as int, donation_par_enfant(*input));
        assert(-20_000_000 <= nb * e.extinction_us <= 20_000_000) by (nonlinear_arith)
            requires
                -20_000 <= e.extinction_us <= 20_000,
                1 <= nb <= 1000,
        ;
        let indiv = max_int(0, e.heritage_pp as int);
        assert(nb * indiv <= 80_000_000) by (nonlinear_arith)
            requires
                indiv == max_int(0, e.heritage_pp as int),
                nb * e.heritage_pp <= 80_000_000,
                nb >= 1,
        ;
        lemme_enfant_multiplie(
            e,
            nb as int,
            indiv,
            result.premier_av_enfant.net as int,
            160_000_000,
            200_000_000,
            80_000_000,
            20_000_000,
            80_000_000,
            20_000_000,
        );
        let sv = option.premier_survivant;
        assert(-80_000_000 <= sv.heritage_pp <= 80_000_000);
        assert(-80_000_000 <= sv.heritage_us <= 80_000_000);
        assert(0 <= sv.droits_partage <= 80_000_000);
        assert(0 <= sv.emoluments_partage <= 80_000_000);
        assert(0 <= sv.emoluments_declaration_succession <= 4_000_000);
        assert(-400_000_000 <= sv.heritage_net <= 400_000_000);
        assert(-100_000_000 <= sv.flux_financier <= 100_000_000);
        assert(-120_000_000 <= sv.flux_financier_avec_av <= 120_000_000);
        assert(e.abattement * nb == nb * e.abattement) by (nonlinear_arith);
        assert(e.taxable * nb == nb * e.taxable) by (nonlinear_arith);
        assert(e.droits_succession * nb == nb * e.droits_succession) by (nonlinear_arith);
        assert(e.droits_partage * nb == nb * e.droits_partage) by (nonlinear_arith);
        assert(e.emoluments_partage * nb == nb * e.emoluments_partage) by (nonlinear_arith);
        assert(e.heritage_net * nb == nb * e.heritage_net) by (nonlinear_arith);
        assert(e.flux_financier * nb == nb * e.flux_financier) by (nonlinear_arith);
        assert(e.flux_financier_avec_av * nb == nb * e.flux_financier_avec_av) by (nonlinear_arith);
    }

    // Répartition des totaux des héritages
    repartition_heritier_total(
        &mut option.premier_total,
        &option.premier_enfant,
        nb,
        Some(&option.premier_survivant),
    );
    option.premier_etat = option.premier_total.droits_succession
        + option.premier_total.droits_partage + result.premier_av_total.prelevement;
    option.premier_notaire = option.premier_total.emoluments_partage
        + option.premier_total.emoluments_declaration_succession;
}


/// Deuxième décès pour une option.
#[verifier::rlimit(100)]
fn calcul_deuxieme_deces_option(option: &mut OptionState, input: &InputState, result: &ResultState)
    requires
        entree_valide(*input),
        liquidation_bornee(*result, input.nb_enfants as int),
        option_residuelle_bornee(*old(option)),
        borne(old(option).premier_survivant.heritage_pp as int, 4 * MONTANT_MAX),
        borne(old(option).premier_survivant.heritage_us as int, 4 * MONTANT_MAX),
        borne(old(option).premier_survivant.flux_financier_avec_av as int, 6 * MONTANT_MAX),
        borne(input.nb_enfants * old(option).premier_enfant.heritage_np, 4 * MONTANT_MAX),
    ensures
        deuxieme_deces_option(*old(option), *final(option), *input, *result),
        final(option).premier_survivant == old(option).premier_survivant,
        final(option).premier_enfant == old(option).premier_enfant,
        final(option).premier_total == old(option).premier_total,
        final(option).premier_etat == old(option).premier_etat,
        final(option).premier_notaire == old(option).premier_notaire,
        final(option).deuxieme_us_survivant == old(option).deuxieme_us_survivant,
        final(option).deuxieme_pp_survivant == old(option).deuxieme_pp_survivant,
        final(option).deuxieme_actif_net_succession_civil
            == old(option).deuxieme_actif_net_succession_civil,
        final(option).deuxieme_actif_net_succession_fiscal
            == old(option).deuxieme_actif_net_succession_fiscal,
        final(option).cumul_enfant == old(option).cumul_enfant,
        final(option).cumul_etat == old(option).cumul_etat,
        final(option).cumul_notaire == old(option).cumul_notaire,
        final(option).cumul_total == old(option).cumul_total,
        borne(
            input.nb_enfants * final(option).deuxieme_enfant.flux_financier_avec_av,
            70 * MONTANT_MAX,
        ),
        borne(final(option).deuxieme_etat as int, 35 * MONTANT_MAX),
        0 <= final(option).deuxieme_notaire <= 35 * MONTANT_MAX,
{
    let nb = input.nb_enfants;
    // Extinction d'usufruit : US et NP enfin reçus par les enfants, déjà taxés au 1er décès
    option.deuxieme_total.extinction_us = option.premier_survivant.heritage_us + nb
        * option.premier_enfant.heritage_np;
    // Part civile : part du survivant hors succession, ce qu'il a effectivement reçu au 1er
    // décès (pleine propriété nette de ses coûts et capital de l'AV) et le PER du défunt
    option.deuxieme_total.part_civile = result.premier_deces_civil.part_survivant_hors_succession
        + option.premier_survivant.flux_financier_avec_av + result.premier_per;
    // Part fiscale : le PER reçu après 70 ans y entre après son abattement ; un actif net
    // fiscal négatif est remis à 0
    let per_taxable = if result.deuxieme_per_total > ABATTEMENT_PER {
        result.deuxieme_per_total - ABATTEMENT_PER
    } else {
        0
    };
    option.deuxieme_total.part_fiscale = if option.deuxieme_total.part_civile + per_taxable > 0 {
        option.deuxieme_total.part_civile + per_taxable
    } else {
        0
    };
    // Chaque enfant a sa part proportionnelle de ces éléments
    option.deuxieme_enfant.extinction_us = option.deuxieme_total.extinction_us / nb;
    option.deuxieme_enfant.part_civile = option.deuxieme_total.part_civile / nb;
    option.deuxieme_enfant.part_fiscale = option.deuxieme_total.part_fiscale / nb;
    let ghost t2 = option.deuxieme_total;
    proof {
        lemme_div_tronquee(t2.extinction_us as int, nb as int);
        lemme_div_tronquee(t2.part_civile as int, nb as int);
        lemme_div_tronquee(t2.part_fiscale as int, nb as int);
        assert(result.deuxieme_av_enfant.net <= nb * result.deuxieme_av_enfant.net) by (nonlinear_arith)
            requires
                0 <= result.deuxieme_av_enfant.net,
                nb >= 1,
        ;
        assert(result.deuxieme_per <= nb * result.deuxieme_per) by (nonlinear_arith)
            requires
                0 <= result.deuxieme_per,
                nb >= 1,
        ;
        assert(result.deuxieme_per * nb == nb * result.deuxieme_per) by (nonlinear_arith);
        assert(nb * (result.deuxieme_av_enfant.net + result.deuxieme_per) == nb
            * result.deuxieme_av_enfant.net + nb * result.deuxieme_per) by (nonlinear_arith);
    }
    // Droits et héritage net des enfants
    let assiette_partage_total = if nb > 1 && !input.ignorer_couts_partage {
        let x = option.deuxieme_total.extinction_us + option.deuxieme_total.part_civile;
        if x > 0 {
            x
        } else {
            0
        }
    } else {
        0
    };
    calcul_heritier(
        &mut option.deuxieme_enfant,
        Some(input.donations_partages / 2 / nb),
        result.deuxieme_av_enfant.net + result.deuxieme_per,
        Some(nb),
        assiette_partage_total,
        if input.ignorer_declaration_succession || option.deuxieme_total.part_civile < 0 {
            0
        } else {
            option.deuxieme_total.part_civile
        },
    );
    proof {
        let e = option.deuxieme_enfant;
        lemme_droits_enfant(e, e.part_fiscale as int, donation_par_enfant(*input));
        let indiv = if nb > 1 {
            max_int(0, e.extinction_us + e.part_civile)
        } else {
            0
        };
        assert(nb * indiv <= 380_000_000) by (nonlinear_arith)
            requires
                indiv == 0 || indiv == max_int(0, e.extinction_us + e.part_civile),
                -160_000_000 <= nb * e.extinction_us <= 160_000_000,
                -220_000_000 <= nb * e.part_civile <= 220_000_000,
                nb >= 1,
        ;
        assert(-20_000_000 <= nb * e.heritage_np <= 20_000_000) by (nonlinear_arith)
            requires
                -20_000 <= e.heritage_np <= 20_000,
                1 <= nb <= 1000,
        ;
        lemme_enfant_multiplie(
            e,
            nb as int,
            indiv,
            result.deuxieme_av_enfant.net + result.deuxieme_per,
            220_000_000,
            240_000_000,
            380_000_000,
            160_000_000,
            20_000_000,
            80_000_000,
        );
        assert(e.abattement * nb == nb * e.abattement) by (nonlinear_arith);
        assert(e.taxable * nb == nb * e.taxable) by (nonlinear_arith);
        assert(e.droits_succession * nb == nb * e.droits_succession) by (nonlinear_arith);
        assert(e.droits_partage * nb == nb * e.droits_partage) by (nonlinear_arith);
        assert(e.emoluments_partage * nb == nb * e.emoluments_partage) by (nonlinear_arith);
        assert(e.heritage_net * nb == nb * e.heritage_net) by (nonlinear_arith);
        assert(e.flux_financier * nb == nb * e.flux_financier) by (nonlinear_arith);
        assert(e.flux_financier_avec_av * nb == nb * e.flux_financier_avec_av) by (nonlinear_arith);
    }
    // Répartition des totaux des héritages
    repartition_heritier_total(&mut option.deuxieme_total, &option.deuxieme_enfant, nb, None);
    option.deuxieme_etat = option.deuxieme_total.droits_succession
        + option.deuxieme_total.droits_partage + result.deuxieme_av_total.prelevement;
    option.deuxieme_notaire = option.deuxieme_total.emoluments_partage
        + option.deuxieme_total.emoluments_declaration_succession;
}

/// Calcul d'une option du conjoint survivant : premier puis deuxième décès.
fn calcul_option(
    option: &mut OptionState,
    fractionnement: FractionnementPropriete,
    input: &InputState,
    result: &ResultState,
)
    requires
        entree_valide(*input),
        fractionnement_valide(fractionnement),
        liquidation_bornee(*result, input.nb_enfants as int),
        option_residuelle_bornee(*old(option)),
    ensures
        option_calculee(*old(option), *final(option), fractionnement, *input, *result),
        final(option).cumul_enfant == old(option).cumul_enfant,
        final(option).cumul_etat == old(option).cumul_etat,
        final(option).cumul_notaire == old(option).cumul_notaire,
        final(option).cumul_total == old(option).cumul_total,
        cumuls_possibles(*final(option), input.nb_enfants as int),
{
    calcul_premier_deces_option(option, fractionnement, input, result);
    calcul_deuxieme_deces_option(option, input, result);
    proof {
        reveal(option_calculee);
        let o = *option;
        let nb = input.nb_enfants as int;
        assert(nb * (o.premier_enfant.flux_financier_avec_av
            + o.deuxieme_enfant.flux_financier_avec_av) == nb
            * o.premier_enfant.flux_financier_avec_av + nb
            * o.deuxieme_enfant.flux_financier_avec_av) by (nonlinear_arith);
        assert((o.premier_enfant.flux_financier_avec_av + o.deuxieme_enfant.flux_financier_avec_av)
            * nb == nb * (o.premier_enfant.flux_financier_avec_av
            + o.deuxieme_enfant.flux_financier_avec_av)) by (nonlinear_arith);
        assert(o.premier_enfant.flux_financier_avec_av <= nb
            * o.premier_enfant.flux_financier_avec_av || o.premier_enfant.flux_financier_avec_av
            < 0) by (nonlinear_arith)
            requires
                nb >= 1,
        ;
        assert(-o.premier_enfant.flux_financier_avec_av <= -(nb
            * o.premier_enfant.flux_financier_avec_av) || o.premier_enfant.flux_financier_avec_av
            >= 0) by (nonlinear_arith)
            requires
                nb >= 1,
        ;
        assert(o.deuxieme_enfant.flux_financier_avec_av <= nb
            * o.deuxieme_enfant.flux_financier_avec_av || o.deuxieme_enfant.flux_financier_avec_av
            < 0) by (nonlinear_arith)
            requires
                nb >= 1,
        ;
        assert(-o.deuxieme_enfant.flux_financier_avec_av <= -(nb
            * o.deuxieme_enfant.flux_financier_avec_av) || o.deuxieme_enfant.flux_financier_avec_av
            >= 0) by (nonlinear_arith)
            requires
                nb >= 1,
        ;
    }
}


// ---------------------------------------------------------------------------------------------
// Calcul complet
// ---------------------------------------------------------------------------------------------

/// Assurances-vie du conjoint survivant (qu'il conserve en devant une récompense à la
/// communauté, au civil uniquement) ; elles reviendront aux enfants au 2ème décès.
pub open spec fn av_du_survivant(i: InputState) -> int {
    if i.ordre_deces {
        i.av_conjoint_conjoint + i.av_conjoint_enfants
    } else {
        i.av_vous_conjoint + i.av_vous_enfants
    }
}

/// PER du conjoint survivant : ses bénéficiaires sont les enfants au 2ème décès, comme une
/// assurance-vie avant 70 ans, aux droits de succession après 70 ans.
pub open spec fn per_du_survivant(i: InputState) -> int {
    if i.ordre_deces {
        i.per_conjoint_conjoint as int
    } else {
        i.per_vous_conjoint as int
    }
}

/// PER du défunt, reçu par le conjoint survivant en exonération au 1er décès.
pub open spec fn per_du_defunt(i: InputState) -> int {
    if i.ordre_deces {
        i.per_vous_conjoint as int
    } else {
        i.per_conjoint_conjoint as int
    }
}

/// Assurances-vie du défunt au bénéfice des enfants (récompense due à la communauté, sauf
/// dispense).
pub open spec fn av_defunt_enfants(i: InputState) -> int {
    if i.ordre_deces {
        i.av_vous_enfants as int
    } else {
        i.av_conjoint_enfants as int
    }
}

/// Assurances-vie du défunt au bénéfice du conjoint (sans récompense ni prélèvement).
pub open spec fn av_defunt_conjoint(i: InputState) -> int {
    if i.ordre_deces {
        i.av_vous_conjoint as int
    } else {
        i.av_conjoint_conjoint as int
    }
}

/// Liquidation de la communauté et succession du premier décès, au civil (`civil`) ou au
/// fiscal. Au civil, les biens meublants sont toujours dans la communauté. Au fiscal, la
/// résidence principale bénéficie de son abattement, les frais funéraires réels ne sont
/// déduits que dans la limite du forfait de 1 500 €, le forfait mobilier (5 % de l'actif
/// brut, à la place des biens meublants) s'ajoute à la succession, et un actif net négatif
/// est remis à zéro.
pub open spec fn premier_deces_liquide(
    avant: PremierDeces,
    p: PremierDeces,
    i: InputState,
    civil: bool,
) -> bool {
    let meubles = if civil || !i.forfait_mobilier {
        i.biens_meublants as int
    } else {
        0
    };
    let rp = if civil {
        i.residence_principale as int
    } else {
        div_tronquee(i.residence_principale * (100 - REMISE_RP_FISCALE), 100)
    };
    &&& p.recompense_due_par_le_survivant == if civil {
        av_du_survivant(i)
    } else {
        avant.recompense_due_par_le_survivant as int
    }
    &&& p.recompense_due_par_le_defunt == if i.dispense_recompense {
        avant.recompense_due_par_le_defunt as int
    } else {
        av_defunt_enfants(i)
    }
    &&& p.forfait_mobilier == if civil {
        avant.forfait_mobilier as int
    } else if i.forfait_mobilier {
        biens_meublants_forfaitaires(
            i.residence_principale as int,
            i.placements as int,
            i.dettes as int,
        )
    } else {
        0
    }
    &&& p.actif_brut_communaute == rp + i.placements + meubles
    &&& p.actif_net_communaute == p.actif_brut_communaute - i.dettes
    &&& p.solde_recompenses == p.recompense_due_par_le_survivant + p.recompense_due_par_le_defunt
    &&& p.actif_net_communaute_ajuste == p.actif_net_communaute + p.solde_recompenses
    &&& p.actif_brut_succession == div_tronquee(p.actif_net_communaute_ajuste as int, 2)
        - p.recompense_due_par_le_defunt
    &&& p.actif_net_succession == if civil {
        p.actif_brut_succession - i.frais_funeraires
    } else {
        max_int(
            0,
            p.actif_brut_succession - min_int(i.frais_funeraires as int, FORFAIT_FRAIS_FUNERAIRES as int)
                + p.forfait_mobilier,
        )
    }
    &&& p.part_survivant_hors_succession == if civil {
        div_tronquee(p.actif_net_communaute_ajuste as int, 2) - p.recompense_due_par_le_survivant
    } else {
        avant.part_survivant_hors_succession as int
    }
}

/// Cumuls des deux décès d'une option.
pub open spec fn cumuls_de(o: OptionState, nb: int) -> bool {
    &&& o.cumul_enfant == o.premier_enfant.flux_financier_avec_av
        + o.deuxieme_enfant.flux_financier_avec_av
    &&& o.cumul_etat == o.premier_etat + o.deuxieme_etat
    &&& o.cumul_notaire == o.premier_notaire + o.deuxieme_notaire
    &&& o.cumul_total == o.cumul_enfant * nb
}

/// Option entièrement calculée : ses deux décès et ses cumuls.
pub open spec fn option_complete(
    avant: OptionState,
    o: OptionState,
    f: FractionnementPropriete,
    i: InputState,
    r: ResultState,
) -> bool {
    option_calculee(avant, o, f, i, r) && cumuls_de(o, i.nb_enfants as int)
}

pub open spec fn fraction(pp: int, us: int) -> FractionnementPropriete {
    FractionnementPropriete { pp_survivant: pp as i32, us_survivant: us as i32 }
}

/// Total reçu sur les deux décès d'une option par les enfants, l'État et le notaire.
pub open spec fn total_distribue(o: OptionState) -> int {
    o.cumul_total + o.cumul_etat + o.cumul_notaire
}

/// Patrimoine du couple à transmettre : communauté nette (biens meublants compris),
/// diminuée des frais funéraires réels, et tous les contrats d'assurance-vie et de PER.
pub open spec fn patrimoine_transmis(i: InputState) -> int {
    i.residence_principale + i.placements + i.biens_meublants - i.dettes - i.frais_funeraires
        + i.av_vous_conjoint + i.av_conjoint_conjoint + i.av_vous_enfants + i.av_conjoint_enfants
        + i.per_vous_conjoint + i.per_conjoint_conjoint
}

/// Une option est vérifiée si son total distribué est le patrimoine de départ, à `EPSILON`
/// euros près par enfant : l'égalité n'est exacte qu'aux troncatures à l'euro près (au plus
/// `7 × nb_enfants + 3` euros, voir `loi_conservation_patrimoine`).
pub open spec fn option_verifiee(o: OptionState, i: InputState) -> bool {
    abs_int(total_distribue(o) - patrimoine_transmis(i)) < EPSILON * i.nb_enfants
}

/// Vérification d'une option sur le patrimoine de départ `patrimoine`.
fn verifier_option(o: &OptionState, patrimoine: i64, nb_enfants: i32) -> (b: bool)
    requires
        dans_i32(o.cumul_total as int),
        1 <= nb_enfants <= NB_ENFANTS_MAX,
        -1_000_000_000 <= patrimoine <= 1_000_000_000,
    ensures
        b == (abs_int(o.cumul_total + o.cumul_etat + o.cumul_notaire - patrimoine) < EPSILON
            * nb_enfants),
{
    let ecart: i64 = o.cumul_total as i64 + o.cumul_etat as i64 + o.cumul_notaire as i64
        - patrimoine;
    let ecart_absolu = if ecart < 0 {
        -ecart
    } else {
        ecart
    };
    ecart_absolu < EPSILON as i64 * nb_enfants as i64
}

/// Résultat de `compute` à partir du résultat initial `avant`.
pub open spec fn resultat_calcule(i: InputState, avant: ResultState, r: ResultState) -> bool {
    let nb = i.nb_enfants as int;
    &&& premier_deces_liquide(avant.premier_deces_civil, r.premier_deces_civil, i, true)
    &&& premier_deces_liquide(avant.premier_deces_fiscal, r.premier_deces_fiscal, i, false)
    &&& if i.deces_survivant_apres_70_ans {
        &&& beneficiaire_calcule(r.deuxieme_av_enfant, div_tronquee(av_du_survivant(i), nb))
        &&& r.deuxieme_per == div_tronquee(per_du_survivant(i), nb)
        &&& r.deuxieme_per_total == r.deuxieme_per * nb
    } else {
        &&& beneficiaire_calcule(
            r.deuxieme_av_enfant,
            div_tronquee(av_du_survivant(i) + per_du_survivant(i), nb),
        )
        &&& r.deuxieme_per == 0
        &&& r.deuxieme_per_total == 0
    }
    &&& beneficiaire_calcule(r.premier_av_enfant, div_tronquee(av_defunt_enfants(i), nb))
    &&& r.premier_av_survivant.brut == av_defunt_conjoint(i)
    &&& r.premier_av_survivant.net == av_defunt_conjoint(i)
    &&& r.premier_av_survivant.abattement == avant.premier_av_survivant.abattement
    &&& r.premier_av_survivant.taxable == avant.premier_av_survivant.taxable
    &&& r.premier_av_survivant.prelevement == avant.premier_av_survivant.prelevement
    &&& beneficiaires_totalises(
        r.premier_av_total,
        r.premier_av_enfant,
        nb,
        r.premier_av_survivant,
    )
    &&& beneficiaires_totalises(r.deuxieme_av_total, r.deuxieme_av_enfant, nb, beneficiaire_nul())
    &&& r.premier_per == per_du_defunt(i)
    &&& r.premier_per_total == per_du_defunt(i)
    &&& option_complete(avant.option_totalite_us, r.option_totalite_us, fraction(0, 12), i, r)
    &&& option_complete(avant.option_1_4_pp, r.option_1_4_pp, fraction(3, 0), i, r)
    &&& option_complete(avant.option_1_4_pp_3_4_us, r.option_1_4_pp_3_4_us, fraction(3, 9), i, r)
    &&& option_complete(
        avant.option_qd_pp,
        r.option_qd_pp,
        fraction(quotite_disponible_douziemes(nb), 0),
        i,
        r,
    )
    &&& r.check.option_totalite_us == option_verifiee(r.option_totalite_us, i)
    &&& r.check.option_1_4_pp == option_verifiee(r.option_1_4_pp, i)
    &&& r.check.option_1_4_pp_3_4_us == option_verifiee(r.option_1_4_pp_3_4_us, i)
    &&& r.check.option_qd_pp == option_verifiee(r.option_qd_pp, i)
}

/// Un résultat initial sur lequel le calcul peut s'appliquer : les champs relus sans être
/// réécrits sont bornés par `RESIDU_MAX` (c'est le cas d'un résultat nul).
pub open spec fn resultat_initial_valide(r: ResultState) -> bool {
    &&& borne(r.premier_deces_fiscal.recompense_due_par_le_survivant as int, RESIDU_MAX as int)
    &&& borne(r.premier_deces_civil.recompense_due_par_le_defunt as int, RESIDU_MAX as int)
    &&& borne(r.premier_deces_fiscal.recompense_due_par_le_defunt as int, RESIDU_MAX as int)
    &&& borne(r.premier_av_survivant.abattement as int, RESIDU_MAX as int)
    &&& borne(r.premier_av_survivant.taxable as int, RESIDU_MAX as int)
    &&& borne(r.premier_av_survivant.prelevement as int, RESIDU_MAX as int)
    &&& option_residuelle_bornee(r.option_totalite_us)
    &&& option_residuelle_bornee(r.option_1_4_pp)
    &&& option_residuelle_bornee(r.option_1_4_pp_3_4_us)
    &&& option_residuelle_bornee(r.option_qd_pp)
}

/// Liquidation de la communauté et succession au premier décès (civil et fiscal).
#[verifier::rlimit(80)]
fn liquidation(input: &InputState, result: &mut ResultState)
    requires
        entree_valide(*input),
        resultat_initial_valide(*old(result)),
    ensures
        premier_deces_liquide(
            old(result).premier_deces_civil,
            final(result).premier_deces_civil,
            *input,
            true,
        ),
        premier_deces_liquide(
            old(result).premier_deces_fiscal,
            final(result).premier_deces_fiscal,
            *input,
            false,
        ),
        borne(final(result).premier_deces_civil.actif_net_succession as int, 4 * MONTANT_MAX),
        0 <= final(result).premier_deces_fiscal.actif_net_succession <= 5 * MONTANT_MAX,
        borne(
            final(result).premier_deces_civil.part_survivant_hors_succession as int,
            4 * MONTANT_MAX,
        ),
        final(result).premier_av_survivant == old(result).premier_av_survivant,
        final(result).premier_av_enfant == old(result).premier_av_enfant,
        final(result).premier_av_total == old(result).premier_av_total,
        final(result).deuxieme_av_enfant == old(result).deuxieme_av_enfant,
        final(result).deuxieme_av_total == old(result).deuxieme_av_total,
        final(result).premier_per == old(result).premier_per,
        final(result).premier_per_total == old(result).premier_per_total,
        final(result).deuxieme_per == old(result).deuxieme_per,
        final(result).deuxieme_per_total == old(result).deuxieme_per_total,
        final(result).option_totalite_us == old(result).option_totalite_us,
        final(result).option_1_4_pp == old(result).option_1_4_pp,
        final(result).option_1_4_pp_3_4_us == old(result).option_1_4_pp_3_4_us,
        final(result).option_qd_pp == old(result).option_qd_pp,
{
    // Récompenses : le survivant doit une récompense pour ses AV (au civil), le défunt pour
    // ses AV au bénéfice des enfants (au civil et au fiscal) sauf dispense.
    let av_survivant = if input.ordre_deces {
        input.av_conjoint_conjoint + input.av_conjoint_enfants
    } else {
        input.av_vous_conjoint + input.av_vous_enfants
    };
    result.premier_deces_civil.recompense_due_par_le_survivant = av_survivant;
    let av_enfants = if input.ordre_deces {
        input.av_vous_enfants
    } else {
        input.av_conjoint_enfants
    };
    if !input.dispense_recompense {
        result.premier_deces_civil.recompense_due_par_le_defunt = av_enfants;
        result.premier_deces_fiscal.recompense_due_par_le_defunt = av_enfants;
    }
    // Actif brut de communauté : RP + placements hors AV/PER + biens meublants (au fiscal,
    // avec la remise sur la RP, et sans les biens meublants si le forfait mobilier est utilisé)
    let taux = (100 - REMISE_RP_FISCALE) as i64;
    let rp = input.residence_principale as i64;
    proof {
        assert(0 <= rp * taux <= 80 * MONTANT_MAX) by (nonlinear_arith)
            requires
                taux == 80,
                0 <= rp <= MONTANT_MAX,
        ;
    }
    result.premier_deces_civil.actif_brut_communaute = input.residence_principale
        + input.placements + input.biens_meublants;
    result.premier_deces_fiscal.actif_brut_communaute = (rp * taux / 100) as i32
        + input.placements;
    if input.forfait_mobilier {
        // Forfait mobilier de 5 % de l'actif brut au fiscal, à la place des biens meublants
        result.premier_deces_fiscal.forfait_mobilier = calcul_biens_meublants(
            input.residence_principale,
            input.placements,
            input.dettes,
        );
    } else {
        result.premier_deces_fiscal.actif_brut_communaute = result.premier_deces_fiscal.actif_brut_communaute
            + input.biens_meublants;
        result.premier_deces_fiscal.forfait_mobilier = 0;
    }
    // Actif net de communauté : actif brut - dettes
    result.premier_deces_civil.actif_net_communaute = result.premier_deces_civil.actif_brut_communaute
        - input.dettes;
    result.premier_deces_fiscal.actif_net_communaute = result.premier_deces_fiscal.actif_brut_communaute
        - input.dettes;
    // Solde des récompenses, toutes dues à la communauté
    result.premier_deces_civil.solde_recompenses = result.premier_deces_civil.recompense_due_par_le_survivant
        + result.premier_deces_civil.recompense_due_par_le_defunt;
    result.premier_deces_fiscal.solde_recompenses = result.premier_deces_fiscal.recompense_due_par_le_survivant
        + result.premier_deces_fiscal.recompense_due_par_le_defunt;
    // Actif net de communauté ajusté : actif net + solde des récompenses
    result.premier_deces_civil.actif_net_communaute_ajuste = result.premier_deces_civil.actif_net_communaute
        + result.premier_deces_civil.solde_recompenses;
    result.premier_deces_fiscal.actif_net_communaute_ajuste = result.premier_deces_fiscal.actif_net_communaute
        + result.premier_deces_fiscal.solde_recompenses;
    // Actif brut successoral : moitié de la communauté ajustée, récompense due par le défunt
    // à son passif
    result.premier_deces_civil.actif_brut_succession = result.premier_deces_civil.actif_net_communaute_ajuste
        / 2 - result.premier_deces_civil.recompense_due_par_le_defunt;
    result.premier_deces_fiscal.actif_brut_succession = result.premier_deces_fiscal.actif_net_communaute_ajuste
        / 2 - result.premier_deces_fiscal.recompense_due_par_le_defunt;
    // Actif net successoral : frais funéraires réels au civil, dans la limite du forfait au
    // fiscal où s'ajoute le forfait mobilier
    result.premier_deces_civil.actif_net_succession = result.premier_deces_civil.actif_brut_succession
        - input.frais_funeraires;
    let frais_deductibles = if input.frais_funeraires < FORFAIT_FRAIS_FUNERAIRES {
        input.frais_funeraires
    } else {
        FORFAIT_FRAIS_FUNERAIRES
    };
    result.premier_deces_fiscal.actif_net_succession = result.premier_deces_fiscal.actif_brut_succession
        - frais_deductibles + result.premier_deces_fiscal.forfait_mobilier;
    // Un actif net fiscal négatif est remis à 0 (pour éviter des impôts négatifs)
    if result.premier_deces_fiscal.actif_net_succession < 0 {
        result.premier_deces_fiscal.actif_net_succession = 0;
    }
    // Part du survivant hors succession : moitié de la communauté ajustée, récompense due par
    // le survivant à son passif (au civil uniquement)
    result.premier_deces_civil.part_survivant_hors_succession = result.premier_deces_civil.actif_net_communaute_ajuste
        / 2 - result.premier_deces_civil.recompense_due_par_le_survivant;
}

/// Calcul complet de la succession : assurances-vie et récompenses, liquidation de la
/// communauté, succession au premier décès et part du survivant hors succession, puis les
/// quatre options du conjoint survivant et leurs cumuls.
pub fn compute(input: InputState, result: &mut ResultState)
    requires
        entree_valide(input),
        resultat_initial_valide(*old(result)),
    ensures
        resultat_calcule(input, *old(result), *final(result)),
{
    let ghost avant = *result;
    let nb = input.nb_enfants;
    // AV du survivant, transmises aux enfants au 2ème décès avec des prélèvements fiscaux ;
    // son PER aussi s'il décède avant 70 ans, sinon le PER est soumis aux droits de
    // succession après un abattement
    let av = if input.ordre_deces {
        input.av_conjoint_conjoint + input.av_conjoint_enfants
    } else {
        input.av_vous_conjoint + input.av_vous_enfants
    };
    let per_survivant = if input.ordre_deces {
        input.per_conjoint_conjoint
    } else {
        input.per_vous_conjoint
    };
    if input.deces_survivant_apres_70_ans {
        proof {
            lemme_div_tronquee(av as int, nb as int);
            lemme_div_tronquee(per_survivant as int, nb as int);
        }
        calcul_beneficiaire(&mut result.deuxieme_av_enfant, av / nb);
        result.deuxieme_per = per_survivant / nb;
        proof {
            assert(0 <= result.deuxieme_per * nb <= per_survivant) by (nonlinear_arith)
                requires
                    result.deuxieme_per == div_tronquee(per_survivant as int, nb as int),
                    nb * div_tronquee(per_survivant as int, nb as int) <= per_survivant,
                    0 <= div_tronquee(per_survivant as int, nb as int),
                    nb >= 1,
            ;
        }
        result.deuxieme_per_total = result.deuxieme_per * nb;
    } else {
        proof {
            lemme_div_tronquee(av + per_survivant, nb as int);
        }
        calcul_beneficiaire(&mut result.deuxieme_av_enfant, (av + per_survivant) / nb);
        result.deuxieme_per = 0;
        result.deuxieme_per_total = 0;
    }
    // PER du défunt, reçu par le survivant en exonération
    let per_defunt = if input.ordre_deces {
        input.per_vous_conjoint
    } else {
        input.per_conjoint_conjoint
    };
    result.premier_per = per_defunt;
    result.premier_per_total = per_defunt;
    // AV du défunt au bénéfice des enfants, transmise au 1er décès avec des prélèvements
    let av = if input.ordre_deces {
        input.av_vous_enfants
    } else {
        input.av_conjoint_enfants
    };
    proof {
        lemme_div_tronquee(av as int, nb as int);
    }
    calcul_beneficiaire(&mut result.premier_av_enfant, av / nb);
    // AV du défunt au bénéfice du conjoint, transmise sans prélèvements ni récompense
    let av = if input.ordre_deces {
        input.av_vous_conjoint
    } else {
        input.av_conjoint_conjoint
    };
    result.premier_av_survivant.brut = av;
    result.premier_av_survivant.net = av;
    // Répartition des totaux des AV transmises aux bénéficiaires
    proof {
        let e = result.premier_av_enfant;
        let e2 = result.deuxieme_av_enfant;
        assert(e.brut * nb == nb * e.brut) by (nonlinear_arith);
        assert(e2.brut * nb == nb * e2.brut) by (nonlinear_arith);
        assert(e.brut * nb <= MONTANT_MAX);
        assert(e2.brut * nb <= 3 * MONTANT_MAX);
        assert(0 <= e.abattement * nb <= e.brut * nb) by (nonlinear_arith)
            requires 0 <= e.abattement <= e.brut, nb >= 1;
        assert(0 <= e.taxable * nb <= e.brut * nb) by (nonlinear_arith)
            requires 0 <= e.taxable <= e.brut, nb >= 1;
        assert(0 <= e.prelevement * nb <= e.brut * nb) by (nonlinear_arith)
            requires 0 <= e.prelevement <= e.brut, nb >= 1;
        assert(0 <= e.net * nb <= e.brut * nb) by (nonlinear_arith)
            requires 0 <= e.net <= e.brut, nb >= 1;
        assert(0 <= e2.abattement * nb <= e2.brut * nb) by (nonlinear_arith)
            requires 0 <= e2.abattement <= e2.brut, nb >= 1;
        assert(0 <= e2.taxable * nb <= e2.brut * nb) by (nonlinear_arith)
            requires 0 <= e2.taxable <= e2.brut, nb >= 1;
        assert(0 <= e2.prelevement * nb <= e2.brut * nb) by (nonlinear_arith)
            requires 0 <= e2.prelevement <= e2.brut, nb >= 1;
        assert(0 <= e2.net * nb <= e2.brut * nb) by (nonlinear_arith)
            requires 0 <= e2.net <= e2.brut, nb >= 1;
        assert(nb * e.net == e.net * nb) by (nonlinear_arith);
        assert(nb * e2.net == e2.net * nb) by (nonlinear_arith);
    }
    let premier_av_enfant = result.premier_av_enfant;
    let premier_av_survivant = result.premier_av_survivant;
    repartition_beneficiaire_total(
        &mut result.premier_av_total,
        &premier_av_enfant,
        nb,
        Some(&premier_av_survivant),
    );
    let deuxieme_av_enfant = result.deuxieme_av_enfant;
    repartition_beneficiaire_total(&mut result.deuxieme_av_total, &deuxieme_av_enfant, nb, None);
    // Liquidation de la communauté et succession du 1er décès
    liquidation(&input, result);
    // Calcul des 4 options possibles du survivant sur une copie figée de la liquidation
    let photo_result = *result;
    proof {
        assert(photo_result.deuxieme_av_enfant.net * nb == nb * photo_result.deuxieme_av_enfant.net)
            by (nonlinear_arith);
        assert(0 <= photo_result.deuxieme_av_enfant.net * nb <= photo_result.deuxieme_av_enfant.brut * nb)
            by (nonlinear_arith)
            requires
                0 <= photo_result.deuxieme_av_enfant.net <= photo_result.deuxieme_av_enfant.brut,
                nb >= 1,
        ;
        let r = photo_result;
        assert(nb * r.deuxieme_av_enfant.net <= 3 * MONTANT_MAX);
        assert(0 <= r.premier_per <= MONTANT_MAX);
        assert(0 <= r.deuxieme_per);
        assert(r.deuxieme_per_total == r.deuxieme_per * nb);
        assert(r.deuxieme_per_total <= MONTANT_MAX);
        assert(nb * r.premier_av_enfant.net <= MONTANT_MAX);
        assert(liquidation_bornee(photo_result, nb as int));
    }
    calcul_option(
        &mut result.option_totalite_us,
        FractionnementPropriete::new_totalite_us(),
        &input,
        &photo_result,
    );
    calcul_option(
        &mut result.option_1_4_pp,
        FractionnementPropriete::new_1_4_pp(),
        &input,
        &photo_result,
    );
    calcul_option(
        &mut result.option_1_4_pp_3_4_us,
        FractionnementPropriete::new_1_4_pp_3_4_us(),
        &input,
        &photo_result,
    );
    calcul_option(
        &mut result.option_qd_pp,
        FractionnementPropriete::new_qd_pp(nb),
        &input,
        &photo_result,
    );
    // Cumuls des deux décès
    let ghost avant_cumuls = *result;
    result.option_totalite_us.cumul(nb);
    result.option_1_4_pp.cumul(nb);
    result.option_1_4_pp_3_4_us.cumul(nb);
    result.option_qd_pp.cumul(nb);
    // Vérification des totaux de chaque option
    let patrimoine: i64 = input.residence_principale as i64 + input.placements as i64
        + input.biens_meublants as i64 - input.dettes as i64 - input.frais_funeraires as i64
        + input.av_vous_conjoint as i64 + input.av_conjoint_conjoint as i64
        + input.av_vous_enfants as i64 + input.av_conjoint_enfants as i64
        + input.per_vous_conjoint as i64 + input.per_conjoint_conjoint as i64;
    let ghost avant_verification = *result;
    result.check.option_totalite_us = verifier_option(&result.option_totalite_us, patrimoine, nb);
    result.check.option_1_4_pp = verifier_option(&result.option_1_4_pp, patrimoine, nb);
    result.check.option_1_4_pp_3_4_us = verifier_option(
        &result.option_1_4_pp_3_4_us,
        patrimoine,
        nb,
    );
    result.check.option_qd_pp = verifier_option(&result.option_qd_pp, patrimoine, nb);
    proof {
        let r = *result;
        lemme_option_transfert(
            avant.option_totalite_us,
            avant_cumuls.option_totalite_us,
            r.option_totalite_us,
            fraction(0, 12),
            input,
            photo_result,
            r,
        );
        lemme_option_transfert(
            avant.option_1_4_pp,
            avant_cumuls.option_1_4_pp,
            r.option_1_4_pp,
            fraction(3, 0),
            input,
            photo_result,
            r,
        );
        lemme_option_transfert(
            avant.option_1_4_pp_3_4_us,
            avant_cumuls.option_1_4_pp_3_4_us,
            r.option_1_4_pp_3_4_us,
            fraction(3, 9),
            input,
            photo_result,
            r,
        );
        lemme_option_transfert(
            avant.option_qd_pp,
            avant_cumuls.option_qd_pp,
            r.option_qd_pp,
            fraction(quotite_disponible_douziemes(nb as int), 0),
            input,
            photo_result,
            r,
        );
    }
}


fn residu_borne(x: i32) -> (b: bool)
    ensures
        b == borne(x as int, RESIDU_MAX as int),
{
    -RESIDU_MAX <= x && x <= RESIDU_MAX
}

fn option_residuelle_bornee_exec(o: &OptionState) -> (b: bool)
    ensures
        b == option_residuelle_bornee(*o),
{
    residu_borne(o.premier_survivant.abattement) && residu_borne(o.premier_survivant.taxable)
        && residu_borne(o.premier_survivant.droits_succession) && residu_borne(
        o.premier_enfant.extinction_us,
    ) && residu_borne(o.deuxieme_enfant.heritage_np)
}

impl ResultState {
    /// Indique si le calcul peut partir de ce résultat (`resultat_initial_valide`) ; c'est le
    /// cas d'un résultat par défaut, tout à zéro.
    pub fn accepte_calcul(&self) -> (b: bool)
        ensures
            b == resultat_initial_valide(*self),
    {
        residu_borne(self.premier_deces_fiscal.recompense_due_par_le_survivant) && residu_borne(
            self.premier_deces_civil.recompense_due_par_le_defunt,
        ) && residu_borne(self.premier_deces_fiscal.recompense_due_par_le_defunt)
            && residu_borne(self.premier_av_survivant.abattement) && residu_borne(
            self.premier_av_survivant.taxable,
        ) && residu_borne(self.premier_av_survivant.prelevement)
            && option_residuelle_bornee_exec(&self.option_totalite_us)
            && option_residuelle_bornee_exec(&self.option_1_4_pp)
            && option_residuelle_bornee_exec(&self.option_1_4_pp_3_4_us)
            && option_residuelle_bornee_exec(&self.option_qd_pp)
    }
}

} // verus!
