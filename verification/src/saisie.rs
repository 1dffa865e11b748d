//! Interprétation de la saisie d'un champ numérique du formulaire.
use vstd::prelude::*;

use crate::data::DEFAUT_NB_ENFANTS;
use crate::texte::{
    caracteres, decimal, lemme_decimal_chiffres, lemme_valeur_decimal, lire_u32, lire_u32_exec,
};

verus! {

/// Valeur saisie acceptable : représentable en `i32`, et au moins 1 pour le nombre d'enfants.
pub open spec fn saisie_acceptable(v: int, est_nb_enfants: bool) -> bool {
    v <= i32::MAX && (!est_nb_enfants || v >= 1)
}

/// Valeur à écrire dans un champ numérique après une saisie, ou `None` s'il ne faut rien
/// écrire :
/// - pendant la frappe, une saisie commençant par 0 n'est pas écrite, pour ne pas faire
///   disparaître sous les yeux de l'utilisateur une série de 0 de tête ;
/// - un champ vide prend la valeur par défaut (2 pour le nombre d'enfants, 0 sinon) ;
/// - une saisie illisible, hors de `i32`, ou nulle pour le nombre d'enfants (qui doit être au
///   moins 1) garde la valeur actuelle pendant la frappe et prend la valeur par défaut en fin
///   de saisie.
pub open spec fn valeur_saisie(
    saisie: Seq<char>,
    fin_de_saisie: bool,
    est_nb_enfants: bool,
    actuelle: int,
) -> Option<int> {
    let defaut = if est_nb_enfants {
        DEFAUT_NB_ENFANTS as int
    } else {
        0
    };
    if !fin_de_saisie && saisie.len() > 0 && saisie[0] == '0' {
        None
    } else if saisie.len() == 0 {
        Some(defaut)
    } else {
        match lire_u32(saisie) {
            Some(v) if saisie_acceptable(v, est_nb_enfants) => Some(v),
            _ => Some(
                if fin_de_saisie {
                    defaut
                } else {
                    actuelle
                },
            ),
        }
    }
}

/// Interprète la saisie `saisie` d'un champ numérique (pendant la frappe ou en fin de saisie)
/// dont la valeur actuelle est `actuelle`.
pub fn interpreter_saisie(
    saisie: &str,
    fin_de_saisie: bool,
    est_nb_enfants: bool,
    actuelle: i32,
) -> (r: Option<i32>)
    ensures
        match r {
            Some(x) => valeur_saisie(saisie@, fin_de_saisie, est_nb_enfants, actuelle as int)
                == Some(x as int),
            None => valeur_saisie(saisie@, fin_de_saisie, est_nb_enfants, actuelle as int) is None,
        },
{
    let texte = caracteres(saisie);
    if !fin_de_saisie && texte.len() > 0 && texte[0] == '0' {
        return None;
    }
    let defaut = if est_nb_enfants {
        DEFAUT_NB_ENFANTS
    } else {
        0
    };
    if texte.len() == 0 {
        return Some(defaut);
    }
    match lire_u32_exec(&texte) {
        Some(v) if v <= 2_147_483_647 && (!est_nb_enfants || v >= 1) => Some(v as i32),
        _ => Some(
            if fin_de_saisie {
                defaut
            } else {
                actuelle
            },
        ),
    }
}


/// Toute valeur représentable saisie en décimal (sans zéro de tête) est écrite telle quelle :
/// en fin de saisie pour tout entier de 0 à `i32::MAX` (au moins 1 pour le nombre d'enfants),
/// et aussi pendant la frappe dès qu'elle ne commence pas par 0.
pub proof fn loi_saisie_decimale(n: nat, est_nb_enfants: bool, actuelle: int)
    requires
        n <= i32::MAX,
        est_nb_enfants ==> n >= 1,
    ensures
        valeur_saisie(decimal(n), true, est_nb_enfants, actuelle) == Some(n as int),
        n >= 1 ==> valeur_saisie(decimal(n), false, est_nb_enfants, actuelle) == Some(n as int),
{
    lemme_decimal_chiffres(n);
    lemme_valeur_decimal(n);
    lemme_decimal_tete(n);
    assert(decimal(n)[0] != '+');
}

/// Un champ vidé prend la valeur par défaut (2 enfants, 0 € pour un montant) ; pendant la
/// frappe, un texte commençant par 0 n'est pas écrit ; un texte qui n'est pas un nombre garde
/// la valeur actuelle pendant la frappe et prend la valeur par défaut en fin de saisie ; le
/// nombre d'enfants n'est jamais mis à 0.
pub proof fn loi_saisie_defauts(saisie: Seq<char>, est_nb_enfants: bool, actuelle: int)
    ensures
        valeur_saisie(Seq::<char>::empty(), true, est_nb_enfants, actuelle) == Some(
            if est_nb_enfants {
                2int
            } else {
                0int
            },
        ),
        saisie.len() > 0 && saisie[0] == '0' ==> valeur_saisie(
            saisie,
            false,
            est_nb_enfants,
            actuelle,
        ) is None,
        saisie.len() > 0 && lire_u32(saisie) is None ==> valeur_saisie(
            saisie,
            true,
            est_nb_enfants,
            actuelle,
        ) == Some(
            if est_nb_enfants {
                2int
            } else {
                0int
            },
        ),
        saisie.len() > 0 && saisie[0] != '0' && lire_u32(saisie) is None ==> valeur_saisie(
            saisie,
            false,
            est_nb_enfants,
            actuelle,
        ) == Some(actuelle),
        est_nb_enfants && valeur_saisie(saisie, true, est_nb_enfants, actuelle) is Some
            ==> valeur_saisie(saisie, true, est_nb_enfants, actuelle)->0 >= 1,
{
}

/// Le premier chiffre de l'écriture décimale n'est 0 que pour 0.
proof fn lemme_decimal_tete(n: nat)
    ensures
        n >= 1 ==> decimal(n)[0] != '0',
    decreases n,
{
    if n >= 10 {
        lemme_decimal_tete((n / 10) as nat);
        lemme_decimal_chiffres((n / 10) as nat);
        assert(decimal(n)[0] == decimal((n / 10) as nat)[0]);
    }
}

} // verus!
