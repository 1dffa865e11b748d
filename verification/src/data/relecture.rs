//! Relecture des cookies écrits : les entrées sauvegardées dans des cookies sont relues à
//! l'identique.
use vstd::prelude::*;

use crate::data::cookies::{
    affecter_cookie, entier_de, instruction_cookie, script_cookies, ajuster_entrees, lire_cookie, lire_cookies, nom_de_cookie,
};
use crate::data::{age_survivant, biens_meublants_forfaitaires, InputState};
use crate::texte::{
    decouper, dans_i32, ecriture_entier, est_espace, lemme_decouper_concat,
    lemme_decouper_sans_sep, lemme_ecriture_ecrivable, lemme_lire_ecriture, lemme_rogner_espace,
    lemme_rogner_net, lemme_rogner_vide, rogner,
};

verus! {

/// Nom fait de minuscules ASCII, de chiffres et de soulignés.
pub open spec fn nom_simple(s: Seq<char>) -> bool {
    s.len() > 0 && forall|k: int|
        0 <= k < s.len() ==> (('a' <= #[trigger] s[k] && s[k] <= 'z') || s[k] == '_' || ('0'
            <= s[k] && s[k] <= '9'))
}

/// Textes joints par un séparateur (`join`).
pub open spec fn joindre(l: Seq<Seq<char>>, sep: Seq<char>) -> Seq<char>
    decreases l.len(),
{
    if l.len() == 0 {
        Seq::<char>::empty()
    } else if l.len() == 1 {
        l[0]
    } else {
        joindre(l.drop_last(), sep) + sep + l.last()
    }
}

/// Un cookie `nom=valeur` tel que le navigateur le restitue.
pub open spec fn cookie_texte(nom: Seq<char>, val: int) -> Seq<char> {
    nom + "="@ + ecriture_entier(val)
}

/// Aucun caractère `;` dans les cookies.
pub open spec fn sans_point_virgule(l: Seq<Seq<char>>) -> bool {
    forall|j: int, k: int| 0 <= j < l.len() && 0 <= k < l[j].len() ==> #[trigger] l[j][k] != ';'
}

/// Lire une suite de cookies puis une autre revient à lire leur concaténation.
pub proof fn lemme_lire_cookies_concat(st: InputState, a: Seq<Seq<char>>, b: Seq<Seq<char>>)
    ensures
        lire_cookies(st, a + b) == lire_cookies(lire_cookies(st, a), b),
    decreases b.len(),
{
    if b.len() == 0 {
        assert(a + b =~= a);
    } else {
        lemme_lire_cookies_concat(st, a, b.drop_last());
        assert((a + b).drop_last() =~= a + b.drop_last());
    }
}

/// Le texte restitué par le navigateur (cookies joints par `"; "`) se relit comme la suite
/// des cookies eux-mêmes.
pub proof fn lemme_lire_cookies_joints(st: InputState, l: Seq<Seq<char>>)
    requires
        sans_point_virgule(l),
    ensures
        lire_cookies(st, decouper(joindre(l, "; "@), ';')) == lire_cookies(st, l),
    decreases l.len(),
{
    reveal_strlit("; ");
    reveal_strlit("=");
    if l.len() == 0 {
        lemme_decouper_sans_sep(Seq::<char>::empty(), ';');
        lemme_rogner_vide();
        lemme_decouper_sans_sep(Seq::<char>::empty(), '=');
        let d = seq![Seq::<char>::empty()];
        assert(d.drop_last() =~= Seq::<Seq<char>>::empty());
        assert(joindre(l, "; "@) == Seq::<char>::empty());
        assert(decouper(joindre(l, "; "@), ';') == d);
        assert(lire_cookie(st, Seq::<char>::empty()) == st);
        assert(lire_cookies(st, d.drop_last()) == st);
        assert(lire_cookies(st, d) == st);
    } else if l.len() == 1 {
        let x = l[0];
        assert forall|k: int| 0 <= k < x.len() implies #[trigger] x[k] != ';' by {
            assert(l[0][k] != ';');
        }
        lemme_decouper_sans_sep(x, ';');
        assert(seq![x].drop_last() =~= Seq::<Seq<char>>::empty());
        assert(l =~= seq![x]);
    } else {
        let l1 = l.drop_last();
        let x = l.last();
        assert(sans_point_virgule(l1)) by {
            assert forall|j: int, k: int| 0 <= j < l1.len() && 0 <= k < l1[j].len() implies
                #[trigger] l1[j][k] != ';' by {
                assert(l1[j] == l[j]);
            }
        }
        lemme_lire_cookies_joints(st, l1);
        let y = seq![' '] + x;
        assert forall|k: int| 0 <= k < y.len() implies #[trigger] y[k] != ';' by {
            if k > 0 {
                assert(y[k] == x[k - 1]);
                assert(l[l.len() - 1][k - 1] != ';');
            }
        }
        lemme_decouper_sans_sep(y, ';');
        assert(joindre(l, "; "@) =~= joindre(l1, "; "@) + seq![';'] + y);
        lemme_decouper_concat(joindre(l1, "; "@), y, ';');
        let d = decouper(joindre(l1, "; "@), ';');
        assert((d + seq![y]).drop_last() =~= d);
        assert(decouper(joindre(l, "; "@), ';') == d + seq![y]);
        lemme_rogner_espace(x);
        assert(lire_cookie(lire_cookies(st, d), y) == lire_cookie(lire_cookies(st, d), x));
        assert(lire_cookies(st, d + seq![y]) == lire_cookie(lire_cookies(st, d), y));
    }
}

/// Un cookie `nom=valeur` écrit pour une entrée affecte cette entrée de la valeur, puis
/// recalcule les entrées dépendantes.
pub proof fn lemme_lire_cookie_ecrit(st: InputState, nom: Seq<char>, val: int)
    requires
        nom_simple(nom),
        nom_de_cookie(nom),
        dans_i32(val),
    ensures
        lire_cookie(st, cookie_texte(nom, val)) == ajuster_entrees(
            affecter_cookie(st, nom, Some(val)),
        ),
{
    reveal_strlit("=");
    let e = ecriture_entier(val);
    let c = cookie_texte(nom, val);
    lemme_ecriture_ecrivable(val);
    assert(c =~= nom + seq!['='] + e);
    assert(!est_espace(nom[0]));
    assert(!est_espace(nom.last()));
    assert(c[0] == nom[0]);
    assert(c.last() == e.last());
    assert(!est_espace(e.last()));
    assert(!est_espace(e[0]));
    lemme_rogner_net(c);
    lemme_rogner_net(nom);
    lemme_rogner_net(e);
    assert forall|k: int| 0 <= k < nom.len() implies #[trigger] nom[k] != '=' by {}
    assert forall|k: int| 0 <= k < e.len() implies #[trigger] e[k] != '=' by {}
    lemme_decouper_sans_sep(nom, '=');
    lemme_decouper_sans_sep(e, '=');
    lemme_decouper_concat(nom, e, '=');
    assert(decouper(c, '=') =~= seq![nom, e]);
    lemme_lire_ecriture(val);
}

/// Nom du cookie de l'entrée numéro `k`, dans l'ordre où le script de sauvegarde les écrit.
pub open spec fn nom_champ(k: int) -> Seq<char> {
    if k == 0 {
        "nb_enfants"@
    } else if k == 1 {
        "dettes"@
    } else if k == 2 {
        "residence_principale"@
    } else if k == 3 {
        "placements"@
    } else if k == 4 {
        "biens_meublants"@
    } else if k == 5 {
        "frais_funeraires"@
    } else if k == 6 {
        "donations_partages"@
    } else if k == 7 {
        "forfait_mobilier"@
    } else if k == 8 {
        "ordre_deces"@
    } else if k == 9 {
        "deces_survivant_apres_70_ans"@
    } else if k == 10 {
        "dispense_recompense"@
    } else if k == 11 {
        "ignorer_couts_partage"@
    } else if k == 12 {
        "ignorer_declaration_succession"@
    } else if k == 13 {
        "age_vous"@
    } else if k == 14 {
        "age_conjoint"@
    } else if k == 15 {
        "av_vous_conjoint"@
    } else if k == 16 {
        "av_conjoint_conjoint"@
    } else if k == 17 {
        "av_vous_enfants"@
    } else if k == 18 {
        "av_conjoint_enfants"@
    } else if k == 19 {
        "per_vous_conjoint"@
    } else {
        "per_conjoint_conjoint"@
    }
}

/// Valeur sauvegardée de l'entrée numéro `k` (un booléen vaut 1 ou 0).
pub open spec fn valeur_champ(i: InputState, k: int) -> int {
    if k == 0 {
        i.nb_enfants as int
    } else if k == 1 {
        i.dettes as int
    } else if k == 2 {
        i.residence_principale as int
    } else if k == 3 {
        i.placements as int
    } else if k == 4 {
        i.biens_meublants as int
    } else if k == 5 {
        i.frais_funeraires as int
    } else if k == 6 {
        i.donations_partages as int
    } else if k == 7 {
        entier_de(i.forfait_mobilier)
    } else if k == 8 {
        entier_de(i.ordre_deces)
    } else if k == 9 {
        entier_de(i.deces_survivant_apres_70_ans)
    } else if k == 10 {
        entier_de(i.dispense_recompense)
    } else if k == 11 {
        entier_de(i.ignorer_couts_partage)
    } else if k == 12 {
        entier_de(i.ignorer_declaration_succession)
    } else if k == 13 {
        i.age_vous as int
    } else if k == 14 {
        i.age_conjoint as int
    } else if k == 15 {
        i.av_vous_conjoint as int
    } else if k == 16 {
        i.av_conjoint_conjoint as int
    } else if k == 17 {
        i.av_vous_enfants as int
    } else if k == 18 {
        i.av_conjoint_enfants as int
    } else if k == 19 {
        i.per_vous_conjoint as int
    } else {
        i.per_conjoint_conjoint as int
    }
}

/// Entrées dont les `n` premières (dans l'ordre d'écriture) sont celles de `i`, les autres
/// celles par défaut.
pub open spec fn partiel(i: InputState, n: int) -> InputState {
    let d = InputState::defaut();
    InputState {
        nb_enfants: if n > 0 {
            i.nb_enfants
        } else {
            d.nb_enfants
        },
        dettes: if n > 1 {
            i.dettes
        } else {
            d.dettes
        },
        residence_principale: if n > 2 {
            i.residence_principale
        } else {
            d.residence_principale
        },
        placements: if n > 3 {
            i.placements
        } else {
            d.placements
        },
        biens_meublants: if n > 4 {
            i.biens_meublants
        } else {
            d.biens_meublants
        },
        frais_funeraires: if n > 5 {
            i.frais_funeraires
        } else {
            d.frais_funeraires
        },
        donations_partages: if n > 6 {
            i.donations_partages
        } else {
            d.donations_partages
        },
        forfait_mobilier: if n > 7 {
            i.forfait_mobilier
        } else {
            d.forfait_mobilier
        },
        ordre_deces: if n > 8 {
            i.ordre_deces
        } else {
            d.ordre_deces
        },
        deces_survivant_apres_70_ans: if n > 9 {
            i.deces_survivant_apres_70_ans
        } else {
            d.deces_survivant_apres_70_ans
        },
        dispense_recompense: if n > 10 {
            i.dispense_recompense
        } else {
            d.dispense_recompense
        },
        ignorer_couts_partage: if n > 11 {
            i.ignorer_couts_partage
        } else {
            d.ignorer_couts_partage
        },
        ignorer_declaration_succession: if n > 12 {
            i.ignorer_declaration_succession
        } else {
            d.ignorer_declaration_succession
        },
        age_vous: if n > 13 {
            i.age_vous
        } else {
            d.age_vous
        },
        age_conjoint: if n > 14 {
            i.age_conjoint
        } else {
            d.age_conjoint
        },
        av_vous_conjoint: if n > 15 {
            i.av_vous_conjoint
        } else {
            d.av_vous_conjoint
        },
        av_conjoint_conjoint: if n > 16 {
            i.av_conjoint_conjoint
        } else {
            d.av_conjoint_conjoint
        },
        av_vous_enfants: if n > 17 {
            i.av_vous_enfants
        } else {
            d.av_vous_enfants
        },
        av_conjoint_enfants: if n > 18 {
            i.av_conjoint_enfants
        } else {
            d.av_conjoint_enfants
        },
        per_vous_conjoint: if n > 19 {
            i.per_vous_conjoint
        } else {
            d.per_vous_conjoint
        },
        per_conjoint_conjoint: if n > 20 {
            i.per_conjoint_conjoint
        } else {
            d.per_conjoint_conjoint
        },
    }
}

/// Entrées dont les valeurs dépendantes sont à jour : biens meublants forfaitaires si le
/// forfait mobilier est utilisé, décès du survivant après 70 ans s'il a déjà 70 ans.
pub open spec fn entrees_coherentes(i: InputState) -> bool {
    &&& i.forfait_mobilier ==> i.biens_meublants == biens_meublants_forfaitaires(
        i.residence_principale as int,
        i.placements as int,
        i.dettes as int,
    ) as i32
    &&& age_survivant(i) >= 70 ==> i.deces_survivant_apres_70_ans
}

/// Les noms des cookies sont des noms simples et reconnus à la lecture.
proof fn lemme_nom_champ(k: int)
    requires
        0 <= k < 21,
    ensures
        nom_simple(nom_champ(k)),
        nom_de_cookie(nom_champ(k)),
{
    reveal_strlit("nb_enfants");
    reveal_strlit("dettes");
    reveal_strlit("residence_principale");
    reveal_strlit("placements");
    reveal_strlit("biens_meublants");
    reveal_strlit("frais_funeraires");
    reveal_strlit("donations_partages");
    reveal_strlit("forfait_mobilier");
    reveal_strlit("ordre_deces");
    reveal_strlit("deces_survivant_apres_70_ans");
    reveal_strlit("dispense_recompense");
    reveal_strlit("ignorer_couts_partage");
    reveal_strlit("ignorer_declaration_succession");
    reveal_strlit("age_vous");
    reveal_strlit("age_conjoint");
    reveal_strlit("av_vous_conjoint");
    reveal_strlit("av_conjoint_conjoint");
    reveal_strlit("av_vous_enfants");
    reveal_strlit("av_conjoint_enfants");
    reveal_strlit("per_vous_conjoint");
    reveal_strlit("per_conjoint_conjoint");
}

/// Lire la valeur de l'entrée numéro `k` dans des entrées partielles ajoute cette entrée.
#[verifier::rlimit(80)]
proof fn lemme_affecter_champ(i: InputState, k: int)
    requires
        0 <= k < 21,
    ensures
        affecter_cookie(partiel(i, k), nom_champ(k), Some(valeur_champ(i, k))) == partiel(i, k + 1),
{
    reveal_strlit("nb_enfants");
    reveal_strlit("dettes");
    reveal_strlit("residence_principale");
    reveal_strlit("placements");
    reveal_strlit("biens_meublants");
    reveal_strlit("frais_funeraires");
    reveal_strlit("donations_partages");
    reveal_strlit("forfait_mobilier");
    reveal_strlit("ordre_deces");
    reveal_strlit("deces_survivant_apres_70_ans");
    reveal_strlit("dispense_recompense");
    reveal_strlit("ignorer_couts_partage");
    reveal_strlit("ignorer_declaration_succession");
    reveal_strlit("age_vous");
    reveal_strlit("age_conjoint");
    reveal_strlit("av_vous_conjoint");
    reveal_strlit("av_conjoint_conjoint");
    reveal_strlit("av_vous_enfants");
    reveal_strlit("av_conjoint_enfants");
    reveal_strlit("per_vous_conjoint");
    reveal_strlit("per_conjoint_conjoint");
    assert("nb_enfants"@.len() == 10);
    assert("dettes"@.len() == 6);
    assert("residence_principale"@.len() == 20);
    assert("placements"@.len() == 10);
    assert("biens_meublants"@.len() == 15);
    assert("frais_funeraires"@.len() == 16);
    assert("donations_partages"@.len() == 18);
    assert("forfait_mobilier"@.len() == 16);
    assert("ordre_deces"@.len() == 11);
    assert("deces_survivant_apres_70_ans"@.len() == 28);
    assert("dispense_recompense"@.len() == 19);
    assert("ignorer_couts_partage"@.len() == 21);
    assert("ignorer_declaration_succession"@.len() == 30);
    assert("age_vous"@.len() == 8);
    assert("age_conjoint"@.len() == 12);
    assert("av_vous_conjoint"@.len() == 16);
    assert("av_conjoint_conjoint"@.len() == 20);
    assert("av_vous_enfants"@.len() == 15);
    assert("av_conjoint_enfants"@.len() == 19);
    assert("per_vous_conjoint"@.len() == 17);
    assert("per_conjoint_conjoint"@.len() == 21);
    if k == 0 {
        assert(affecter_cookie(partiel(i, 0), nom_champ(0), Some(valeur_champ(i, 0)))
            == partiel(i, 1));
    } else if k == 1 {
        assert(affecter_cookie(partiel(i, 1), nom_champ(1), Some(valeur_champ(i, 1)))
            == partiel(i, 2));
    } else if k == 2 {
        assert(affecter_cookie(partiel(i, 2), nom_champ(2), Some(valeur_champ(i, 2)))
            == partiel(i, 3));
    } else if k == 3 {
        assert("placements"@[0] != "nb_enfants"@[0]);
        assert(affecter_cookie(partiel(i, 3), nom_champ(3), Some(valeur_champ(i, 3)))
            == partiel(i, 4));
    } else if k == 4 {
        assert(affecter_cookie(partiel(i, 4), nom_champ(4), Some(valeur_champ(i, 4)))
            == partiel(i, 5));
    } else if k == 5 {
        assert(affecter_cookie(partiel(i, 5), nom_champ(5), Some(valeur_champ(i, 5)))
            == partiel(i, 6));
    } else if k == 6 {
        assert(affecter_cookie(partiel(i, 6), nom_champ(6), Some(valeur_champ(i, 6)))
            == partiel(i, 7));
    } else if k == 7 {
        assert("forfait_mobilier"@[1] != "frais_funeraires"@[1]);
        assert(affecter_cookie(partiel(i, 7), nom_champ(7), Some(valeur_champ(i, 7)))
            == partiel(i, 8));
    } else if k == 8 {
        assert(affecter_cookie(partiel(i, 8), nom_champ(8), Some(valeur_champ(i, 8)))
            == partiel(i, 9));
    } else if k == 9 {
        assert(affecter_cookie(partiel(i, 9), nom_champ(9), Some(valeur_champ(i, 9)))
            == partiel(i, 10));
    } else if k == 10 {
        assert(affecter_cookie(partiel(i, 10), nom_champ(10), Some(valeur_champ(i, 10)))
            == partiel(i, 11));
    } else if k == 11 {
        assert(affecter_cookie(partiel(i, 11), nom_champ(11), Some(valeur_champ(i, 11)))
            == partiel(i, 12));
    } else if k == 12 {
        assert(affecter_cookie(partiel(i, 12), nom_champ(12), Some(valeur_champ(i, 12)))
            == partiel(i, 13));
    } else if k == 13 {
        assert(affecter_cookie(partiel(i, 13), nom_champ(13), Some(valeur_champ(i, 13)))
            == partiel(i, 14));
    } else if k == 14 {
        assert(affecter_cookie(partiel(i, 14), nom_champ(14), Some(valeur_champ(i, 14)))
            == partiel(i, 15));
    } else if k == 15 {
        assert("av_vous_conjoint"@[0] != "frais_funeraires"@[0]);
        assert("av_vous_conjoint"@[0] != "forfait_mobilier"@[0]);
        assert(affecter_cookie(partiel(i, 15), nom_champ(15), Some(valeur_champ(i, 15)))
            == partiel(i, 16));
    } else if k == 16 {
        assert("av_conjoint_conjoint"@[0] != "residence_principale"@[0]);
        assert(affecter_cookie(partiel(i, 16), nom_champ(16), Some(valeur_champ(i, 16)))
            == partiel(i, 17));
    } else if k == 17 {
        assert("av_vous_enfants"@[0] != "biens_meublants"@[0]);
        assert(affecter_cookie(partiel(i, 17), nom_champ(17), Some(valeur_champ(i, 17)))
            == partiel(i, 18));
    } else if k == 18 {
        assert("av_conjoint_enfants"@[0] != "dispense_recompense"@[0]);
        assert(affecter_cookie(partiel(i, 18), nom_champ(18), Some(valeur_champ(i, 18)))
            == partiel(i, 19));
    } else if k == 19 {
        assert(affecter_cookie(partiel(i, 19), nom_champ(19), Some(valeur_champ(i, 19)))
            == partiel(i, 20));
    } else if k == 20 {
        assert("per_conjoint_conjoint"@[0] != "ignorer_couts_partage"@[0]);
        assert(affecter_cookie(partiel(i, 20), nom_champ(20), Some(valeur_champ(i, 20)))
            == partiel(i, 21));
    }
}

/// Les entrées partielles d'entrées cohérentes sont inchangées par le recalcul des entrées
/// dépendantes.
proof fn lemme_ajuster_partiel(i: InputState, n: int)
    requires
        entrees_coherentes(i),
    ensures
        ajuster_entrees(partiel(i, n)) == partiel(i, n),
{
}

/// Cookie que crée l'instruction du script de sauvegarde pour l'entrée numéro `k` : aucun
/// si l'entrée a sa valeur par défaut (l'instruction détruit alors le cookie).
pub open spec fn cookie_cree(i: InputState, k: int) -> Seq<Seq<char>> {
    if valeur_champ(i, k) != valeur_champ(InputState::defaut(), k) {
        seq![cookie_texte(nom_champ(k), valeur_champ(i, k))]
    } else {
        Seq::<Seq<char>>::empty()
    }
}

/// Cookies créés par les `n` premières instructions du script, dans l'ordre.
pub open spec fn cookies_crees_jusqua(i: InputState, n: nat) -> Seq<Seq<char>>
    decreases n,
{
    if n == 0 {
        Seq::<Seq<char>>::empty()
    } else {
        cookies_crees_jusqua(i, (n - 1) as nat) + cookie_cree(i, n - 1)
    }
}

/// Cookies que le script de sauvegarde laisse dans un navigateur qui n'en avait pas, dans
/// l'ordre de leur création.
pub open spec fn cookies_crees(i: InputState) -> Seq<Seq<char>> {
    cookies_crees_jusqua(i, 21)
}

proof fn lemme_valeur_champ_i32(i: InputState, k: int)
    ensures
        dans_i32(valeur_champ(i, k)),
{
}

/// Un cookie écrit ne contient pas de `;`.
proof fn lemme_cookie_sans_point_virgule(nom: Seq<char>, val: int)
    requires
        nom_simple(nom),
    ensures
        forall|k: int|
            0 <= k < cookie_texte(nom, val).len() ==> #[trigger] cookie_texte(nom, val)[k] != ';',
{
    reveal_strlit("=");
    let e = ecriture_entier(val);
    lemme_ecriture_ecrivable(val);
    let c = cookie_texte(nom, val);
    assert(c =~= nom + seq!['='] + e);
    assert forall|k: int| 0 <= k < c.len() implies #[trigger] c[k] != ';' by {
        if k < nom.len() {
            assert(c[k] == nom[k]);
        } else if k > nom.len() {
            assert(c[k] == e[k - nom.len() - 1]);
        }
    }
}

/// Lire les cookies d'une instruction du script dans des entrées partielles ajoute l'entrée
/// correspondante.
proof fn lemme_etape(i: InputState, k: int)
    requires
        entrees_coherentes(i),
        0 <= k < 21,
    ensures
        lire_cookies(partiel(i, k), cookie_cree(i, k)) == partiel(i, k + 1),
        sans_point_virgule(cookie_cree(i, k)),
{
    let st = partiel(i, k);
    let l = cookie_cree(i, k);
    lemme_nom_champ(k);
    if valeur_champ(i, k) != valeur_champ(InputState::defaut(), k) {
        let c = cookie_texte(nom_champ(k), valeur_champ(i, k));
        assert(l.drop_last() =~= Seq::<Seq<char>>::empty());
        assert(lire_cookies(st, l.drop_last()) == st);
        lemme_valeur_champ_i32(i, k);
        lemme_lire_cookie_ecrit(st, nom_champ(k), valeur_champ(i, k));
        lemme_affecter_champ(i, k);
        lemme_ajuster_partiel(i, k + 1);
        lemme_cookie_sans_point_virgule(nom_champ(k), valeur_champ(i, k));
        assert(l[0] == c);
    } else {
        lemme_partiel_inchange(i, k);
    }
}

/// Une entrée restée à sa valeur par défaut ne change pas les entrées partielles.
#[verifier::rlimit(40)]
proof fn lemme_partiel_inchange(i: InputState, k: int)
    requires
        0 <= k < 21,
        valeur_champ(i, k) == valeur_champ(InputState::defaut(), k),
    ensures
        partiel(i, k + 1) == partiel(i, k),
{
}

/// Lire les cookies des `n` premières instructions donne les entrées partielles.
proof fn lemme_cookies_crees_jusqua(i: InputState, n: nat)
    requires
        entrees_coherentes(i),
        n <= 21,
    ensures
        lire_cookies(InputState::defaut(), cookies_crees_jusqua(i, n)) == partiel(i, n as int),
        sans_point_virgule(cookies_crees_jusqua(i, n)),
    decreases n,
{
    if n == 0 {
        assert(partiel(i, 0) == InputState::defaut());
    } else {
        let m = (n - 1) as nat;
        lemme_cookies_crees_jusqua(i, m);
        lemme_etape(i, m as int);
        let a = cookies_crees_jusqua(i, m);
        let b = cookie_cree(i, m as int);
        lemme_lire_cookies_concat(InputState::defaut(), a, b);
        assert forall|j: int, k: int| 0 <= j < (a + b).len() && 0 <= k < (a + b)[j].len() implies
            #[trigger] (a + b)[j][k] != ';' by {
            if j < a.len() {
                assert((a + b)[j] == a[j]);
            } else {
                assert((a + b)[j] == b[j - a.len()]);
            }
        }
    }
}

/// Les `n` premières instructions du script de sauvegarde, une par entrée.
pub open spec fn instructions_jusqua(i: InputState, n: nat) -> Seq<char>
    decreases n,
{
    if n == 0 {
        Seq::<char>::empty()
    } else {
        instructions_jusqua(i, (n - 1) as nat) + instruction_cookie(
            nom_champ(n - 1),
            valeur_champ(i, n - 1),
            valeur_champ(InputState::defaut(), n - 1),
        )
    }
}

/// Le script de sauvegarde est fait des instructions des entrées, dans l'ordre des numéros :
/// l'instruction numéro `k` crée le cookie `cookie_cree(i, k)` (ou détruit le cookie
/// `nom_champ(k)` si l'entrée a sa valeur par défaut).
#[verifier::rlimit(50)]
pub proof fn lemme_script_par_champs(i: InputState)
    ensures
        script_cookies(i) == "await Promise.all(["@ + instructions_jusqua(i, 21) + "]);"@,
{
    let d = InputState::defaut();
    let p = "await Promise.all(["@;
    let ghost mut s = p;
    assert(p + instructions_jusqua(i, 0) =~= s);
    lemme_instructions_suivante(p, i, 0);
    s = s + instruction_cookie(nom_champ(0), valeur_champ(i, 0), valeur_champ(d, 0));
    assert(p + instructions_jusqua(i, 1) == s);
    lemme_instructions_suivante(p, i, 1);
    s = s + instruction_cookie(nom_champ(1), valeur_champ(i, 1), valeur_champ(d, 1));
    assert(p + instructions_jusqua(i, 2) == s);
    lemme_instructions_suivante(p, i, 2);
    s = s + instruction_cookie(nom_champ(2), valeur_champ(i, 2), valeur_champ(d, 2));
    assert(p + instructions_jusqua(i, 3) == s);
    lemme_instructions_suivante(p, i, 3);
    s = s + instruction_cookie(nom_champ(3), valeur_champ(i, 3), valeur_champ(d, 3));
    assert(p + instructions_jusqua(i, 4) == s);
    lemme_instructions_suivante(p, i, 4);
    s = s + instruction_cookie(nom_champ(4), valeur_champ(i, 4), valeur_champ(d, 4));
    assert(p + instructions_jusqua(i, 5) == s);
    lemme_instructions_suivante(p, i, 5);
    s = s + instruction_cookie(nom_champ(5), valeur_champ(i, 5), valeur_champ(d, 5));
    assert(p + instructions_jusqua(i, 6) == s);
    lemme_instructions_suivante(p, i, 6);
    s = s + instruction_cookie(nom_champ(6), valeur_champ(i, 6), valeur_champ(d, 6));
    assert(p + instructions_jusqua(i, 7) == s);
    lemme_instructions_suivante(p, i, 7);
    s = s + instruction_cookie(nom_champ(7), valeur_champ(i, 7), valeur_champ(d, 7));
    assert(p + instructions_jusqua(i, 8) == s);
    lemme_instructions_suivante(p, i, 8);
    s = s + instruction_cookie(nom_champ(8), valeur_champ(i, 8), valeur_champ(d, 8));
    assert(p + instructions_jusqua(i, 9) == s);
    lemme_instructions_suivante(p, i, 9);
    s = s + instruction_cookie(nom_champ(9), valeur_champ(i, 9), valeur_champ(d, 9));
    assert(p + instructions_jusqua(i, 10) == s);
    lemme_instructions_suivante(p, i, 10);
    s = s + instruction_cookie(nom_champ(10), valeur_champ(i, 10), valeur_champ(d, 10));
    assert(p + instructions_jusqua(i, 11) == s);
    lemme_instructions_suivante(p, i, 11);
    s = s + instruction_cookie(nom_champ(11), valeur_champ(i, 11), valeur_champ(d, 11));
    assert(p + instructions_jusqua(i, 12) == s);
    lemme_instructions_suivante(p, i, 12);
    s = s + instruction_cookie(nom_champ(12), valeur_champ(i, 12), valeur_champ(d, 12));
    assert(p + instructions_jusqua(i, 13) == s);
    lemme_instructions_suivante(p, i, 13);
    s = s + instruction_cookie(nom_champ(13), valeur_champ(i, 13), valeur_champ(d, 13));
    assert(p + instructions_jusqua(i, 14) == s);
    lemme_instructions_suivante(p, i, 14);
    s = s + instruction_cookie(nom_champ(14), valeur_champ(i, 14), valeur_champ(d, 14));
    assert(p + instructions_jusqua(i, 15) == s);
    lemme_instructions_suivante(p, i, 15);
    s = s + instruction_cookie(nom_champ(15), valeur_champ(i, 15), valeur_champ(d, 15));
    assert(p + instructions_jusqua(i, 16) == s);
    lemme_instructions_suivante(p, i, 16);
    s = s + instruction_cookie(nom_champ(16), valeur_champ(i, 16), valeur_champ(d, 16));
    assert(p + instructions_jusqua(i, 17) == s);
    lemme_instructions_suivante(p, i, 17);
    s = s + instruction_cookie(nom_champ(17), valeur_champ(i, 17), valeur_champ(d, 17));
    assert(p + instructions_jusqua(i, 18) == s);
    lemme_instructions_suivante(p, i, 18);
    s = s + instruction_cookie(nom_champ(18), valeur_champ(i, 18), valeur_champ(d, 18));
    assert(p + instructions_jusqua(i, 19) == s);
    lemme_instructions_suivante(p, i, 19);
    s = s + instruction_cookie(nom_champ(19), valeur_champ(i, 19), valeur_champ(d, 19));
    assert(p + instructions_jusqua(i, 20) == s);
    lemme_instructions_suivante(p, i, 20);
    s = s + instruction_cookie(nom_champ(20), valeur_champ(i, 20), valeur_champ(d, 20));
    assert(p + instructions_jusqua(i, 21) == s);
    assert(script_cookies(i) == s + "]);"@);
}

proof fn lemme_instructions_suivante(p: Seq<char>, i: InputState, n: nat)
    ensures
        p + instructions_jusqua(i, n + 1) == p + instructions_jusqua(i, n) + instruction_cookie(
            nom_champ(n as int),
            valeur_champ(i, n as int),
            valeur_champ(InputState::defaut(), n as int),
        ),
{
    assert(p + instructions_jusqua(i, n + 1) =~= p + instructions_jusqua(i, n) + instruction_cookie(
        nom_champ(n as int),
        valeur_champ(i, n as int),
        valeur_champ(InputState::defaut(), n as int),
    ));
}

/// Les entrées sauvegardées par le script de `to_cookies`, relues par `new_from_cookies` dans
/// le texte que le navigateur en restitue (les cookies créés, `nom=valeur`, dans l'ordre de
/// leur création, joints par `"; "`), sont les entrées sauvegardées, pourvu que leurs valeurs
/// dépendantes soient à jour.
pub proof fn loi_cookies_relus(i: InputState)
    requires
        entrees_coherentes(i),
    ensures
        script_cookies(i) == "await Promise.all(["@ + instructions_jusqua(i, 21) + "]);"@,
        lire_cookies(InputState::defaut(), decouper(joindre(cookies_crees(i), "; "@), ';')) == i,
{
    lemme_script_par_champs(i);
    lemme_cookies_crees_jusqua(i, 21);
    lemme_lire_cookies_joints(InputState::defaut(), cookies_crees(i));
    assert(partiel(i, 21) == i);
}


/// Après le recalcul des entrées dépendantes, les entrées sont cohérentes.
proof fn lemme_ajuster_coherent(st: InputState)
    ensures
        entrees_coherentes(ajuster_entrees(st)),
{
}

/// Quels que soient les cookies relus par `new_from_cookies`, les entrées obtenues ont leurs
/// valeurs dépendantes à jour : biens meublants forfaitaires si le forfait mobilier est
/// utilisé, décès du survivant après 70 ans s'il a déjà 70 ans.
pub proof fn loi_cookies_coherents(cookies: Seq<Seq<char>>)
    ensures
        entrees_coherentes(lire_cookies(InputState::defaut(), cookies)),
    decreases cookies.len(),
{
    if cookies.len() > 0 {
        loi_cookies_coherents(cookies.drop_last());
        lemme_ajuster_coherent(
            affecter_cookie(
                lire_cookies(InputState::defaut(), cookies.drop_last()),
                rogner(decouper(rogner(cookies.last()), '=')[0]),
                crate::texte::lire_i32(rogner(decouper(rogner(cookies.last()), '=')[1])),
            ),
        );
    }
}

} // verus!
