//! Mise en forme des montants affichés dans le rapport.
use vstd::prelude::*;

use crate::texte::{
    ajouter_caractere, caractere_ecrivable, decimal, ecrire_entier, ecriture_entier, est_chiffre,
    lemme_decimal_chiffres, lemme_ecriture_ecrivable,
};

verus! {

/// Regroupement des chiffres par trois en partant de la droite, les groupes étant séparés
/// par un blanc.
pub open spec fn grouper(s: Seq<char>) -> Seq<char>
    decreases s.len(),
{
    if s.len() <= 3 {
        s
    } else {
        grouper(s.subrange(0, s.len() - 3)) + seq![' '] + s.subrange(s.len() - 3, s.len() as int)
    }
}

/// Le texte sans ses blancs.
pub open spec fn sans_blancs(s: Seq<char>) -> Seq<char>
    decreases s.len(),
{
    if s.len() == 0 {
        s
    } else if s.last() == ' ' {
        sans_blancs(s.drop_last())
    } else {
        sans_blancs(s.drop_last()).push(s.last())
    }
}

/// Ajoute le texte groupé des `fin` premiers caractères de `v`.
fn ajouter_groupes(texte: &mut String, v: &Vec<char>, fin: usize)
    requires
        fin <= v@.len(),
        forall|k: int| 0 <= k < v@.len() ==> caractere_ecrivable(#[trigger] v@[k]),
    ensures
        final(texte)@ == old(texte)@ + grouper(v@.subrange(0, fin as int)),
    decreases fin,
{
    let debut: usize = if fin <= 3 {
        0
    } else {
        ajouter_groupes(texte, v, fin - 3);
        ajouter_caractere(texte, ' ');
        fin - 3
    };
    let ghost avant = texte@;
    let mut k = debut;
    while k < fin
        invariant
            debut <= k <= fin <= v@.len(),
            forall|j: int| 0 <= j < v@.len() ==> caractere_ecrivable(#[trigger] v@[j]),
            texte@ == avant + v@.subrange(debut as int, k as int),
        decreases fin - k,
    {
        ajouter_caractere(texte, v[k]);
        k = k + 1;
        assert(texte@ =~= avant + v@.subrange(debut as int, k as int));
    }
    proof {
        let s = v@.subrange(0, fin as int);
        if fin > 3 {
            assert(s.subrange(0, s.len() - 3) =~= v@.subrange(0, fin - 3));
            assert(s.subrange(s.len() - 3, s.len() as int) =~= v@.subrange(fin - 3, fin as int));
            assert(texte@ =~= old(texte)@ + grouper(s));
        } else {
            assert(texte@ =~= old(texte)@ + grouper(s));
        }
    }
}

/// Montant affiché : les chiffres de la valeur absolue groupés par trois, précédés du signe
/// moins (sans blanc) si le nombre est négatif.
pub open spec fn montant_formate(x: int) -> Seq<char> {
    if x < 0 {
        seq!['-'] + grouper(decimal((-x) as nat))
    } else {
        grouper(decimal(x as nat))
    }
}

/// Formate un nombre avec des blancs comme séparateurs de milliers.
pub fn format_num(val: i32) -> (s: String)
    ensures
        s@ == montant_formate(val as int),
{
    let v = ecrire_entier(val);
    proof {
        lemme_ecriture_ecrivable(val as int);
    }
    let debut: usize = if val < 0 {
        1
    } else {
        0
    };
    let ghost chiffres = if val < 0 {
        decimal((-val) as nat)
    } else {
        decimal(val as nat)
    };
    proof {
        if val < 0 {
            assert(v@.subrange(1, v@.len() as int) =~= chiffres);
        } else {
            assert(v@.subrange(0, v@.len() as int) =~= chiffres);
        }
    }
    // Les chiffres de la valeur absolue
    let mut w: Vec<char> = Vec::new();
    let mut k = debut;
    while k < v.len()
        invariant
            debut <= k <= v@.len(),
            forall|j: int| 0 <= j < v@.len() ==> caractere_ecrivable(#[trigger] v@[j]),
            w@ == v@.subrange(debut as int, k as int),
        decreases v@.len() - k,
    {
        w.push(v[k]);
        k = k + 1;
        assert(w@ =~= v@.subrange(debut as int, k as int));
    }
    assert(w@ == chiffres);
    assert(w@.subrange(0, w@.len() as int) =~= w@);
    assert forall|j: int| 0 <= j < w@.len() implies caractere_ecrivable(#[trigger] w@[j]) by {
        assert(w@[j] == v@[debut + j]);
    }
    let mut s = String::new();
    if val < 0 {
        ajouter_caractere(&mut s, '-');
    }
    ajouter_groupes(&mut s, &w, w.len());
    assert(s@ =~= montant_formate(val as int));
    s
}

/// Regrouper les chiffres n'ajoute que des blancs : sans ses blancs, le nombre formaté est
/// l'écriture décimale du nombre.
pub proof fn loi_format_num(val: int)
    ensures
        sans_blancs(montant_formate(val)) == ecriture_entier(val),
{
    let n: nat = if val < 0 {
        (-val) as nat
    } else {
        val as nat
    };
    lemme_decimal_chiffres(n);
    lemme_sans_blancs_grouper(decimal(n));
    if val < 0 {
        lemme_sans_blancs_concat(seq!['-'], grouper(decimal(n)));
        lemme_sans_blancs_neutre(seq!['-']);
        assert(seq!['-'] + decimal(n) =~= ecriture_entier(val));
    }
}

proof fn lemme_sans_blancs_concat(a: Seq<char>, b: Seq<char>)
    ensures
        sans_blancs(a + b) == sans_blancs(a) + sans_blancs(b),
    decreases b.len(),
{
    if b.len() == 0 {
        assert(a + b =~= a);
        assert(sans_blancs(a) + sans_blancs(b) =~= sans_blancs(a));
    } else {
        assert((a + b).drop_last() =~= a + b.drop_last());
        lemme_sans_blancs_concat(a, b.drop_last());
        if b.last() == ' ' {
        } else {
            assert(sans_blancs(a) + sans_blancs(b.drop_last()).push(b.last()) =~= (sans_blancs(a)
                + sans_blancs(b.drop_last())).push(b.last()));
        }
    }
}

proof fn lemme_sans_blancs_neutre(s: Seq<char>)
    requires
        forall|k: int| 0 <= k < s.len() ==> #[trigger] s[k] != ' ',
    ensures
        sans_blancs(s) == s,
    decreases s.len(),
{
    if s.len() > 0 {
        let t = s.drop_last();
        assert forall|k: int| 0 <= k < t.len() implies #[trigger] t[k] != ' ' by {
            assert(t[k] == s[k]);
        }
        lemme_sans_blancs_neutre(t);
        assert(s.last() != ' ');
        assert(t.push(s.last()) =~= s);
    }
}

proof fn lemme_sans_blancs_grouper(s: Seq<char>)
    requires
        forall|k: int| 0 <= k < s.len() ==> #[trigger] s[k] != ' ',
    ensures
        sans_blancs(grouper(s)) == s,
    decreases s.len(),
{
    if s.len() <= 3 {
        lemme_sans_blancs_neutre(s);
    } else {
        let a = s.subrange(0, s.len() - 3);
        let b = s.subrange(s.len() - 3, s.len() as int);
        assert forall|k: int| 0 <= k < a.len() implies #[trigger] a[k] != ' ' by {
            assert(a[k] == s[k]);
        }
        assert forall|k: int| 0 <= k < b.len() implies #[trigger] b[k] != ' ' by {
            assert(b[k] == s[s.len() - 3 + k]);
        }
        lemme_sans_blancs_grouper(a);
        lemme_sans_blancs_neutre(b);
        lemme_sans_blancs_concat(grouper(a) + seq![' '], b);
        lemme_sans_blancs_concat(grouper(a), seq![' ']);
        assert(seq![' '].drop_last() =~= Seq::<char>::empty());
        assert(sans_blancs(seq![' ']) == sans_blancs(Seq::<char>::empty()));
        assert(a + b =~= s);
    }
}


/// Groupes de trois chiffres : regrouper un texte non vide sans blanc ajoute un blanc par
/// groupe de trois caractères pris à droite (hors le premier groupe, d'un à trois caractères),
/// et les blancs sont exactement aux positions situées un multiple de quatre avant la fin.
pub proof fn loi_groupes_de_trois(s: Seq<char>)
    requires
        s.len() >= 1,
        forall|k: int| 0 <= k < s.len() ==> #[trigger] s[k] != ' ',
    ensures
        grouper(s).len() == s.len() + (s.len() - 1) / 3,
        forall|p: int|
            0 <= p < grouper(s).len() ==> (#[trigger] grouper(s)[p] == ' ' <==> (grouper(s).len()
                - p) % 4 == 0),
    decreases s.len(),
{
    if s.len() > 3 {
        let a = s.subrange(0, s.len() - 3);
        let b = s.subrange(s.len() - 3, s.len() as int);
        assert forall|k: int| 0 <= k < a.len() implies #[trigger] a[k] != ' ' by {
            assert(a[k] == s[k]);
        }
        loi_groupes_de_trois(a);
        let ga = grouper(a);
        let g = grouper(s);
        assert(g == ga + seq![' '] + b);
        assert forall|p: int| 0 <= p < g.len() implies (#[trigger] g[p] == ' ' <==> (g.len() - p)
            % 4 == 0) by {
            if p < ga.len() {
                assert(g[p] == ga[p]);
                assert((g.len() - p) % 4 == (ga.len() - p) % 4);
            } else if p > ga.len() {
                assert(g[p] == b[p - ga.len() - 1]);
                assert(b[p - ga.len() - 1] == s[s.len() - 3 + (p - ga.len() - 1)]);
            }
        }
    }
}

/// Montant affiché : le signe moins (seulement pour un nombre négatif) suivi des chiffres de la
/// valeur absolue, séparés par un blanc tous les trois chiffres en partant de la droite.
pub proof fn loi_format_num_groupes(x: int)
    ensures
        (montant_formate(x)[0] == '-') == (x < 0),
        ({
            let c = if x < 0 {
                montant_formate(x).drop_first()
            } else {
                montant_formate(x)
            };
            let n = ecriture_entier(if x < 0 {
                -x
            } else {
                x
            }).len();
            &&& c.len() == n + (n - 1) / 3
            &&& forall|p: int| 0 <= p < c.len() ==> (#[trigger] c[p] == ' ' <==> (c.len() - p) % 4 == 0)
            &&& forall|p: int| 0 <= p < c.len() && c[p] != ' ' ==> est_chiffre(#[trigger] c[p])
        }),
{
    let a: nat = if x < 0 {
        (-x) as nat
    } else {
        x as nat
    };
    let d = decimal(a);
    lemme_decimal_chiffres(a);
    assert forall|k: int| 0 <= k < d.len() implies #[trigger] d[k] != ' ' by {
        assert(est_chiffre(d[k]));
    }
    loi_groupes_de_trois(d);
    lemme_grouper_chiffres(d);
    if x < 0 {
        assert(montant_formate(x).drop_first() =~= grouper(d));
    } else {
        assert(est_chiffre(d[0]));
        lemme_grouper_tete(d);
    }
}

/// Regrouper des chiffres ne produit que des chiffres et des blancs.
proof fn lemme_grouper_chiffres(s: Seq<char>)
    requires
        forall|k: int| 0 <= k < s.len() ==> est_chiffre(#[trigger] s[k]),
    ensures
        forall|p: int|
            0 <= p < grouper(s).len() && grouper(s)[p] != ' ' ==> est_chiffre(#[trigger] grouper(s)[p]),
    decreases s.len(),
{
    if s.len() > 3 {
        let a = s.subrange(0, s.len() - 3);
        let b = s.subrange(s.len() - 3, s.len() as int);
        assert forall|k: int| 0 <= k < a.len() implies est_chiffre(#[trigger] a[k]) by {
            assert(a[k] == s[k]);
        }
        lemme_grouper_chiffres(a);
        let ga = grouper(a);
        let g = grouper(s);
        assert(g == ga + seq![' '] + b);
        assert forall|p: int| 0 <= p < g.len() && g[p] != ' ' implies est_chiffre(#[trigger] g[p]) by {
            if p < ga.len() {
                assert(g[p] == ga[p]);
            } else if p > ga.len() {
                assert(g[p] == b[p - ga.len() - 1]);
                assert(b[p - ga.len() - 1] == s[s.len() - 3 + (p - ga.len() - 1)]);
            }
        }
    }
}

/// Le regroupement commence par le premier caractère du texte.
proof fn lemme_grouper_tete(s: Seq<char>)
    requires
        s.len() >= 1,
    ensures
        grouper(s).len() >= 1,
        grouper(s)[0] == s[0],
    decreases s.len(),
{
    if s.len() > 3 {
        let a = s.subrange(0, s.len() - 3);
        lemme_grouper_tete(a);
        assert(grouper(s) == grouper(a) + seq![' '] + s.subrange(s.len() - 3, s.len() as int));
    }
}

} // verus!
