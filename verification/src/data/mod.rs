//! Données d'entrée et de sortie de la simulation, et règles qui n'en dépendent que localement.
use vstd::prelude::*;

pub mod bareme;
pub mod compute;
pub mod cookies;
pub mod history;
pub mod lois;

pub mod relecture;

use crate::data::bareme::{div_tronquee, min_int, max_int};

verus! {

/// Forfait de frais funéraires retenu sur le plan fiscal (en euros).
pub const FORFAIT_FRAIS_FUNERAIRES: i32 = 1500;

/// Abattement fiscal sur la résidence principale, en pour-cent de sa valeur.
pub const REMISE_RP_FISCALE: i32 = 20;

/// Nombre d'enfants proposé par défaut.
pub const DEFAUT_NB_ENFANTS: i32 = 2;

/// Abattement par bénéficiaire sur les capitaux d'assurance-vie (en euros).
pub const ABATTEMENT_AV: i32 = 152_500;

/// Abattement en ligne directe sur les droits de succession (en euros).
pub const ABATTEMENT_DROITS: i32 = 100_000;

/// Abattement sur les capitaux de PER reçus après 70 ans (en euros).
pub const ABATTEMENT_PER: i32 = 30_500;

/// Plus grand montant saisi (en euros) : même quand tous les montants l'atteignent à la fois,
/// aucun champ `i32` du résultat ne peut déborder (les donations-partages, qui ne font que
/// réduire l'abattement, ne sont pas bornées).
pub const MONTANT_MAX: i32 = 20_000_000;

/// Plus grand nombre d'enfants pour lequel les totaux en `i32` ne peuvent pas déborder.
pub const NB_ENFANTS_MAX: i32 = 1_000;

/// Borne des champs d'un résultat antérieur que le calcul relit sans les réécrire.
pub const RESIDU_MAX: i32 = 20_000;

/// Données saisies par l'utilisateur.
#[derive(Clone, Copy, Debug, Default, PartialEq, Eq)]
pub struct InputState {
    pub nb_enfants: i32,
    pub dettes: i32,
    pub residence_principale: i32,
    pub placements: i32,
    pub biens_meublants: i32,
    pub frais_funeraires: i32,
    pub donations_partages: i32,
    pub forfait_mobilier: bool,
    pub ordre_deces: bool,
    pub deces_survivant_apres_70_ans: bool,
    pub dispense_recompense: bool,
    pub ignorer_couts_partage: bool,
    pub ignorer_declaration_succession: bool,
    pub age_vous: i32,
    pub age_conjoint: i32,
    pub av_vous_conjoint: i32,
    pub av_conjoint_conjoint: i32,
    pub av_vous_enfants: i32,
    pub av_conjoint_enfants: i32,
    pub per_vous_conjoint: i32,
    pub per_conjoint_conjoint: i32,
}

/// Un montant saisi est positif et borné par `MONTANT_MAX`.
pub open spec fn montant_valide(x: i32) -> bool {
    0 <= x <= MONTANT_MAX
}

/// Entrées sur lesquelles le calcul est défini sans débordement : au moins un enfant
/// (le calcul divise par leur nombre) et des montants positifs bornés. Les âges sont libres.
pub open spec fn entree_valide(i: InputState) -> bool {
    &&& 1 <= i.nb_enfants <= NB_ENFANTS_MAX
    &&& montant_valide(i.dettes)
    &&& montant_valide(i.residence_principale)
    &&& montant_valide(i.placements)
    &&& montant_valide(i.biens_meublants)
    &&& montant_valide(i.frais_funeraires)
    &&& 0 <= i.donations_partages
    &&& montant_valide(i.av_vous_conjoint)
    &&& montant_valide(i.av_conjoint_conjoint)
    &&& montant_valide(i.av_vous_enfants)
    &&& montant_valide(i.av_conjoint_enfants)
    &&& montant_valide(i.per_vous_conjoint)
    &&& montant_valide(i.per_conjoint_conjoint)
}

fn montant_est_valide(x: i32) -> (b: bool)
    ensures
        b == montant_valide(x),
{
    0 <= x && x <= MONTANT_MAX
}

/// Âge du conjoint survivant selon l'ordre des décès.
pub open spec fn age_survivant(i: InputState) -> int {
    if i.ordre_deces {
        i.age_conjoint as int
    } else {
        i.age_vous as int
    }
}

/// Biens meublants forfaitaires : 5 % de l'actif successoral brut (moitié de la communauté,
/// résidence principale comptée après son abattement fiscal), tronqués à l'euro.
pub open spec fn biens_meublants_forfaitaires(rp: int, placements: int, dettes: int) -> int {
    div_tronquee(5 * (rp * (100 - REMISE_RP_FISCALE) + 100 * (placements - dettes)), 20_000)
}

/// Calcul des biens meublants lorsque le forfait mobilier est utilisé
/// (5 % de l'actif successoral brut).
pub fn calcul_biens_meublants(residence_principale: i32, placements: i32, dettes: i32) -> (r: i32)
    ensures
        r == biens_meublants_forfaitaires(
            residence_principale as int,
            placements as int,
            dettes as int,
        ),
{
    let taux = (100 - REMISE_RP_FISCALE) as i64;
    let rp = residence_principale as i64;
    proof {
        assert(-200_000_000_000 <= rp * taux <= 200_000_000_000) by (nonlinear_arith)
            requires
                taux == 80,
                -2_147_483_648 <= rp <= 2_147_483_647,
        ;
    }
    let x: i64 = 5 * (rp * taux + 100 * (placements as i64 - dettes as i64));
    (x / 20_000) as i32
}

impl InputState {
    /// Entrées par défaut : deux enfants, décès de « vous » en premier, décès du survivant
    /// après 70 ans, dispense de récompense, tout le reste à zéro.
    pub open spec fn defaut() -> InputState {
        InputState {
            nb_enfants: DEFAUT_NB_ENFANTS,
            dettes: 0,
            residence_principale: 0,
            placements: 0,
            biens_meublants: 0,
            frais_funeraires: 0,
            donations_partages: 0,
            forfait_mobilier: false,
            ordre_deces: true,
            deces_survivant_apres_70_ans: true,
            dispense_recompense: true,
            ignorer_couts_partage: false,
            ignorer_declaration_succession: false,
            age_vous: 0,
            age_conjoint: 0,
            av_vous_conjoint: 0,
            av_conjoint_conjoint: 0,
            av_vous_enfants: 0,
            av_conjoint_enfants: 0,
            per_vous_conjoint: 0,
            per_conjoint_conjoint: 0,
        }
    }

    /// Génère une structure avec les valeurs par défaut.
    pub fn new() -> (r: Self)
        ensures
            r == InputState::defaut(),
    {
        InputState {
            nb_enfants: DEFAUT_NB_ENFANTS,
            dettes: 0,
            residence_principale: 0,
            placements: 0,
            biens_meublants: 0,
            frais_funeraires: 0,
            donations_partages: 0,
            forfait_mobilier: false,
            ordre_deces: true,
            deces_survivant_apres_70_ans: true,
            dispense_recompense: true,
            ignorer_couts_partage: false,
            ignorer_declaration_succession: false,
            age_vous: 0,
            age_conjoint: 0,
            av_vous_conjoint: 0,
            av_conjoint_conjoint: 0,
            av_vous_enfants: 0,
            av_conjoint_enfants: 0,
            per_vous_conjoint: 0,
            per_conjoint_conjoint: 0,
        }
    }

    /// Le conjoint survivant (selon l'ordre des décès) a déjà 70 ans : son décès après 70 ans
    /// est alors acquis.
    pub fn survivant_a_70_ans(&self) -> (b: bool)
        ensures
            b == (age_survivant(*self) >= 70),
    {
        let age = if self.ordre_deces {
            self.age_conjoint
        } else {
            self.age_vous
        };
        age >= 70
    }

    /// Indique si les entrées sont dans le domaine du calcul (`entree_valide`).
    pub fn est_valide(&self) -> (b: bool)
        ensures
            b == entree_valide(*self),
    {
        1 <= self.nb_enfants && self.nb_enfants <= NB_ENFANTS_MAX && montant_est_valide(
            self.dettes,
        ) && montant_est_valide(self.residence_principale) && montant_est_valide(
            self.placements,
        ) && montant_est_valide(self.biens_meublants) && montant_est_valide(
            self.frais_funeraires,
        ) && 0 <= self.donations_partages && montant_est_valide(
            self.av_vous_conjoint,
        ) && montant_est_valide(self.av_conjoint_conjoint) && montant_est_valide(
            self.av_vous_enfants,
        ) && montant_est_valide(self.av_conjoint_enfants) && montant_est_valide(
            self.per_vous_conjoint,
        ) && montant_est_valide(self.per_conjoint_conjoint)
    }
}

/// Bénéficiaire d'une assurance-vie.
#[derive(Clone, Copy, Debug, Default, PartialEq, Eq)]
pub struct BeneficiaireState {
    pub brut: i32,
    pub abattement: i32,
    pub taxable: i32,
    pub prelevement: i32,
    pub net: i32,
}

/// Héritier dans une succession (à ne pas confondre avec le bénéficiaire d'une assurance-vie,
/// qui ne dépend pas de l'option choisie par le conjoint survivant).
#[derive(Clone, Copy, Debug, Default, PartialEq, Eq)]
pub struct HeritierState {
    // Champs pour le 1er décès
    pub heritage_pp: i32,
    pub heritage_np: i32,
    pub heritage_us: i32,
    // Champ pour le 2ème décès
    pub extinction_us: i32,
    // Champs communs aux 2 décès
    pub part_civile: i32,
    pub part_fiscale: i32,
    pub abattement: i32,
    pub taxable: i32,
    pub droits_succession: i32,
    pub droits_partage: i32,
    pub emoluments_partage: i32,
    pub emoluments_declaration_succession: i32,
    pub heritage_net: i32,
    pub flux_financier: i32,
    pub flux_financier_avec_av: i32,
}

/// Résultat du calcul pour une option choisie par le conjoint survivant
/// (« totalité en US », « 1/4 en PP », « 1/4 en PP et 3/4 en US » ou « quotité disponible en PP »).
#[derive(Clone, Copy, Debug, Default, PartialEq, Eq)]
pub struct OptionState {
    // Données du premier décès
    pub premier_survivant: HeritierState,
    pub premier_enfant: HeritierState,
    pub premier_total: HeritierState,
    pub premier_etat: i32,
    pub premier_notaire: i32,
    // Données du deuxième décès
    pub deuxieme_us_survivant: i32,
    pub deuxieme_pp_survivant: i32,
    pub deuxieme_actif_net_succession_civil: i32,
    pub deuxieme_actif_net_succession_fiscal: i32,
    pub deuxieme_enfant: HeritierState,
    pub deuxieme_total: HeritierState,
    pub deuxieme_etat: i32,
    pub deuxieme_notaire: i32,
    pub cumul_enfant: i32,
    pub cumul_etat: i32,
    pub cumul_notaire: i32,
    pub cumul_total: i32,
}

pub open spec fn dans_i32(x: int) -> bool {
    i32::MIN <= x <= i32::MAX
}

/// Les cumuls d'une option sont écrits, tout le reste est conservé.
pub open spec fn cumuls_calcules(avant: OptionState, apres: OptionState, nb_enfants: int) -> bool {
    &&& apres.cumul_enfant == avant.premier_enfant.flux_financier_avec_av
        + avant.deuxieme_enfant.flux_financier_avec_av
    &&& apres.cumul_etat == avant.premier_etat + avant.deuxieme_etat
    &&& apres.cumul_notaire == avant.premier_notaire + avant.deuxieme_notaire
    &&& apres.cumul_total == apres.cumul_enfant * nb_enfants
    &&& apres.premier_survivant == avant.premier_survivant
    &&& apres.premier_enfant == avant.premier_enfant
    &&& apres.premier_total == avant.premier_total
    &&& apres.premier_etat == avant.premier_etat
    &&& apres.premier_notaire == avant.premier_notaire
    &&& apres.deuxieme_us_survivant == avant.deuxieme_us_survivant
    &&& apres.deuxieme_pp_survivant == avant.deuxieme_pp_survivant
    &&& apres.deuxieme_actif_net_succession_civil == avant.deuxieme_actif_net_succession_civil
    &&& apres.deuxieme_actif_net_succession_fiscal == avant.deuxieme_actif_net_succession_fiscal
    &&& apres.deuxieme_enfant == avant.deuxieme_enfant
    &&& apres.deuxieme_total == avant.deuxieme_total
    &&& apres.deuxieme_etat == avant.deuxieme_etat
    &&& apres.deuxieme_notaire == avant.deuxieme_notaire
}

impl OptionState {
    /// Calcul des cumuls des deux décès (flux reçus par chaque enfant, impôts de l'État,
    /// émoluments du notaire) et du total reçu par l'ensemble des enfants.
    pub fn cumul(&mut self, nb_enfants: i32)
        requires
            dans_i32(
                old(self).premier_enfant.flux_financier_avec_av
                    + old(self).deuxieme_enfant.flux_financier_avec_av,
            ),
            dans_i32(old(self).premier_etat + old(self).deuxieme_etat),
            dans_i32(old(self).premier_notaire + old(self).deuxieme_notaire),
            dans_i32(
                (old(self).premier_enfant.flux_financier_avec_av
                    + old(self).deuxieme_enfant.flux_financier_avec_av) * nb_enfants,
            ),
        ensures
            cumuls_calcules(*old(self), *final(self), nb_enfants as int),
    {
        self.cumul_enfant = self.premier_enfant.flux_financier_avec_av
            + self.deuxieme_enfant.flux_financier_avec_av;
        self.cumul_etat = self.premier_etat + self.deuxieme_etat;
        self.cumul_notaire = self.premier_notaire + self.deuxieme_notaire;
        self.cumul_total = self.cumul_enfant * nb_enfants;
    }
}

/// Partage de la succession entre pleine propriété (PP) et usufruit (US) selon l'option choisie
/// par le conjoint survivant, en douzièmes de la succession.
/// La part des enfants en nue-propriété vaut l'usufruit du survivant et leur part en pleine
/// propriété vaut le reste : `12 - pp_survivant - us_survivant`.
#[derive(Clone, Copy, Debug, PartialEq, Eq)]
pub struct FractionnementPropriete {
    /// Fraction en PP du survivant (en douzièmes).
    pub pp_survivant: i32,
    /// Fraction en US du survivant (en douzièmes).
    pub us_survivant: i32,
}

/// Les fractions sont des nombres entre 0 et 1 dont la somme ne dépasse pas 1.
pub open spec fn fractionnement_valide(f: FractionnementPropriete) -> bool {
    &&& 0 <= f.pp_survivant
    &&& 0 <= f.us_survivant
    &&& f.pp_survivant + f.us_survivant <= 12
}

/// Quotité disponible (en douzièmes) selon le nombre d'enfants : 3/4 sans enfant, 1/2 avec un
/// enfant, 1/3 avec deux enfants et 1/4 au-delà.
pub open spec fn quotite_disponible_douziemes(nb_enfants: int) -> int {
    if nb_enfants == 0 {
        9
    } else if nb_enfants == 1 {
        6
    } else if nb_enfants == 2 {
        4
    } else {
        3
    }
}

/// Quotité disponible : les trois quarts sans enfant, puis la part d'un héritier de plus que
/// d'enfants (la moitié avec un enfant, le tiers avec deux), et le quart à partir de trois
/// enfants.
pub proof fn loi_quotite_disponible(nb: int)
    requires
        nb >= 0,
    ensures
        nb == 0 ==> quotite_disponible_douziemes(nb) == 9,
        1 <= nb <= 3 ==> (nb + 1) * quotite_disponible_douziemes(nb) == 12,
        nb >= 3 ==> quotite_disponible_douziemes(nb) == 3,
{
}

/// Forfait mobilier : 5 % de la moitié de l'actif brut, la résidence principale comptée après
/// son abattement de 20 % ; pour des placements seuls c'est un quarantième (tronqué), pour une
/// résidence principale seule un cinquantième.
pub proof fn loi_forfait_mobilier(x: int)
    requires
        x >= 0,
    ensures
        biens_meublants_forfaitaires(0, x, 0) == x / 40,
        biens_meublants_forfaitaires(x, 0, 0) == x / 50,
        biens_meublants_forfaitaires(0, 0, x) == -(x / 40),
{
}

impl FractionnementPropriete {
    /// Option « totalité en usufruit ».
    pub fn new_totalite_us() -> (r: Self)
        ensures
            r.pp_survivant == 0,
            r.us_survivant == 12,
    {
        Self { pp_survivant: 0, us_survivant: 12 }
    }

    /// Option « 1/4 en pleine propriété ».
    pub fn new_1_4_pp() -> (r: Self)
        ensures
            r.pp_survivant == 3,
            r.us_survivant == 0,
    {
        Self { pp_survivant: 3, us_survivant: 0 }
    }

    /// Option « 1/4 en pleine propriété et 3/4 en usufruit ».
    pub fn new_1_4_pp_3_4_us() -> (r: Self)
        ensures
            r.pp_survivant == 3,
            r.us_survivant == 9,
    {
        Self { pp_survivant: 3, us_survivant: 9 }
    }

    /// Option « quotité disponible en pleine propriété ».
    pub fn new_qd_pp(nb_enfants: i32) -> (r: Self)
        ensures
            r.pp_survivant == quotite_disponible_douziemes(nb_enfants as int),
            r.us_survivant == 0,
    {
        let qd: i32 = if nb_enfants == 0 {
            9
        } else if nb_enfants == 1 {
            6
        } else if nb_enfants == 2 {
            4
        } else {
            3
        };
        Self { pp_survivant: qd, us_survivant: 0 }
    }
}

/// Liquidation de la communauté et succession au premier décès, sur le plan civil ou fiscal.
#[derive(Clone, Copy, Debug, Default, PartialEq, Eq)]
pub struct PremierDeces {
    /// Forfait mobilier retenu au fiscal (0 sans forfait).
    pub forfait_mobilier: i32,
    pub recompense_due_par_le_survivant: i32,
    pub recompense_due_par_le_defunt: i32,
    pub actif_brut_communaute: i32,
    pub solde_recompenses: i32,
    pub actif_net_communaute: i32,
    pub actif_net_communaute_ajuste: i32,
    pub actif_brut_succession: i32,
    pub actif_net_succession: i32,
    pub part_survivant_hors_succession: i32,
}

/// Tolérance (en euros, par enfant) de la vérification des totaux d'une option : les parts
/// sont tronquées à l'euro, ce qui écarte le total distribué du patrimoine de départ d'au
/// plus `7 × nb_enfants + 3` euros.
pub const EPSILON: i32 = 10;

/// Vérification, pour chaque option, que les enfants, l'État et le notaire reçoivent au total
/// le patrimoine de départ (à `EPSILON` euros près par enfant).
#[derive(Clone, Copy, Debug, Default, PartialEq, Eq)]
pub struct CheckState {
    pub option_totalite_us: bool,
    pub option_1_4_pp: bool,
    pub option_1_4_pp_3_4_us: bool,
    pub option_qd_pp: bool,
}

/// Résultat complet de la simulation.
#[derive(Clone, Copy, Debug, Default, PartialEq, Eq)]
pub struct ResultState {
    pub premier_deces_civil: PremierDeces,
    pub premier_deces_fiscal: PremierDeces,
    /// Capital de l'AV reçu par le conjoint survivant.
    pub premier_av_survivant: BeneficiaireState,
    /// Capital de l'AV reçu par chaque enfant au 1er décès.
    pub premier_av_enfant: BeneficiaireState,
    /// Somme des AV reçues par tous les bénéficiaires au 1er décès.
    pub premier_av_total: BeneficiaireState,
    /// Capital du PER reçu par le conjoint survivant au 1er décès (exonéré).
    pub premier_per: i32,
    pub premier_per_total: i32,
    /// Capital de l'AV reçu par chaque enfant au 2ème décès.
    pub deuxieme_av_enfant: BeneficiaireState,
    /// Somme des AV reçues par tous les bénéficiaires au 2ème décès.
    pub deuxieme_av_total: BeneficiaireState,
    /// Capital du PER reçu par chaque enfant au 2ème décès.
    pub deuxieme_per: i32,
    pub deuxieme_per_total: i32,
    pub option_totalite_us: OptionState,
    pub option_1_4_pp: OptionState,
    pub option_1_4_pp_3_4_us: OptionState,
    pub option_qd_pp: OptionState,
    pub check: CheckState,
}

} // verus!
