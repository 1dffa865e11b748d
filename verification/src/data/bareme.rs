//! Barèmes fiscaux et tarifs réglementés utilisés par la simulation.
//!
//! Les barèmes sont exprimés en arithmétique entière exacte : un montant en
//! euros entiers donne un résultat en centimes, arrondi au centime le plus
//! proche (les demis s'éloignent de zéro), comme l'indiquent les textes.
use vstd::prelude::*;

verus! {

/// Division entière tronquée vers zéro (celle de Rust sur les entiers signés).
pub open spec fn div_tronquee(x: int, d: int) -> int
    recommends
        d > 0,
{
    if x >= 0 {
        x / d
    } else {
        -((-x) / d)
    }
}

/// Quotient `n / d` arrondi à l'entier le plus proche, les demis s'éloignant de zéro.
pub open spec fn div_arrondie(n: int, d: int) -> int
    recommends
        d > 0,
{
    if n >= 0 {
        (2 * n + d) / (2 * d)
    } else {
        -((2 * (-n) + d) / (2 * d))
    }
}

pub open spec fn min_int(a: int, b: int) -> int {
    if a <= b {
        a
    } else {
        b
    }
}

pub open spec fn max_int(a: int, b: int) -> int {
    if a >= b {
        a
    } else {
        b
    }
}

/// Partie de `p` comprise dans la tranche `[bas, haut]`.
pub open spec fn tranche(p: int, bas: int, haut: int) -> int {
    if p <= bas {
        0
    } else if p >= haut {
        haut - bas
    } else {
        p - bas
    }
}

/// Partie de `p` au-delà de `bas`.
pub open spec fn au_dela(p: int, bas: int) -> int {
    if p <= bas {
        0
    } else {
        p - bas
    }
}

/// Droits de succession en ligne directe (en centimes) sur une part taxable de `p` euros :
/// 5 % jusqu'à 8 072 €, 10 % jusqu'à 12 109 €, 15 % jusqu'à 15 932 €, 20 % jusqu'à 552 324 €,
/// 30 % jusqu'à 902 838 €, 40 % jusqu'à 1 805 677 € et 45 % au-delà.
pub open spec fn droits_cents(p: int) -> int {
    5 * min_int(p, 8_072) + 10 * tranche(p, 8_072, 12_109) + 15 * tranche(p, 12_109, 15_932)
        + 20 * tranche(p, 15_932, 552_324) + 30 * tranche(p, 552_324, 902_838) + 40 * tranche(
        p,
        902_838,
        1_805_677,
    ) + 45 * au_dela(p, 1_805_677)
}

/// Prélèvements (en centimes) sur la part taxable d'une assurance-vie de `p` euros :
/// 20 % jusqu'à 700 000 € puis 31,25 % au-delà, arrondis au centime.
pub open spec fn prelevements_cents(p: int) -> int {
    20 * min_int(p, 700_000) + div_arrondie(125 * au_dela(p, 700_000), 4)
}

/// Émoluments proportionnels d'un barème notarial à quatre tranches, en millièmes de
/// pour-cent d'euros (taux en millièmes de pour-cent).
pub open spec fn emoluments_bruts(
    p: int,
    s1: int,
    s2: int,
    s3: int,
    t1: int,
    t2: int,
    t3: int,
    t4: int,
) -> int {
    t1 * min_int(p, s1) + t2 * tranche(p, s1, s2) + t3 * tranche(p, s2, s3) + t4 * au_dela(p, s3)
}

/// Émoluments de partage (en centimes, TVA de 20 % comprise) sur un actif de `p` euros :
/// 4,837 % jusqu'à 6 500 €, 1,995 % jusqu'à 17 000 €, 1,33 % jusqu'à 60 000 € et 0,998 % au-delà.
pub open spec fn partage_cents(p: int) -> int {
    // centimes = 1,2 × (émoluments en millièmes de pour-cent) / 1 000 = 3 × x / 2 500
    div_arrondie(3 * emoluments_bruts(p, 6_500, 17_000, 60_000, 4_837, 1_995, 1_330, 998), 2_500)
}

/// Émoluments de la déclaration de succession (en centimes, TVA de 20 % comprise) :
/// 1,548 % jusqu'à 6 500 €, 0,851 % jusqu'à 17 000 €, 0,58 % jusqu'à 30 000 € et 0,426 % au-delà.
pub open spec fn declaration_cents(p: int) -> int {
    div_arrondie(3 * emoluments_bruts(p, 6_500, 17_000, 30_000, 1_548, 851, 580, 426), 2_500)
}

/// Valeur fiscale de l'usufruit (en dixièmes de la pleine propriété) selon l'âge révolu de
/// l'usufruitier (article 669 du code général des impôts).
pub open spec fn usufruit_dixiemes(age: int) -> int {
    if age < 21 {
        9
    } else if age < 31 {
        8
    } else if age < 41 {
        7
    } else if age < 51 {
        6
    } else if age < 61 {
        5
    } else if age < 71 {
        4
    } else if age < 81 {
        3
    } else if age < 91 {
        2
    } else {
        1
    }
}

/// Quotient arrondi au plus proche (demis loin de zéro) ; `n` doit rester loin des bornes.
fn div_arrondie_i64(n: i64, d: i64) -> (r: i64)
    requires
        0 < d <= 1_000_000,
        -1_000_000_000_000_000 <= n <= 1_000_000_000_000_000,
    ensures
        r == div_arrondie(n as int, d as int),
{
    if n >= 0 {
        (2 * n + d) / (2 * d)
    } else {
        -((2 * (-n) + d) / (2 * d))
    }
}

/// Barème fiscal de l'usufruit et de la nue-propriété en fonction de l'âge révolu :
/// renvoie `(usufruit, nue_propriete)` en dixièmes de la pleine propriété.
pub fn bareme_usufruit(age_usufruitier: i32) -> (r: (i32, i32))
    ensures
        r.0 == usufruit_dixiemes(age_usufruitier as int),
        r.1 == 10 - usufruit_dixiemes(age_usufruitier as int),
{
    let us: i32 = if age_usufruitier < 21 {
        9
    } else if age_usufruitier < 31 {
        8
    } else if age_usufruitier < 41 {
        7
    } else if age_usufruitier < 51 {
        6
    } else if age_usufruitier < 61 {
        5
    } else if age_usufruitier < 71 {
        4
    } else if age_usufruitier < 81 {
        3
    } else if age_usufruitier < 91 {
        2
    } else {
        1
    };
    (us, 10 - us)
}

/// Droits de succession en ligne directe (en centimes) sur la part taxable après abattement.
pub fn droits_en_ligne_direct(part: i32) -> (cents: i64)
    ensures
        cents == droits_cents(part as int),
{
    let p = part as i64;
    if p <= 8_072 {
        5 * p
    } else if p <= 12_109 {
        40_360 + 10 * (p - 8_072)
    } else if p <= 15_932 {
        80_730 + 15 * (p - 12_109)
    } else if p <= 552_324 {
        138_075 + 20 * (p - 15_932)
    } else if p <= 902_838 {
        10_865_915 + 30 * (p - 552_324)
    } else if p <= 1_805_677 {
        21_381_335 + 40 * (p - 902_838)
    } else {
        57_494_895 + 45 * (p - 1_805_677)
    }
}

/// Prélèvements (en centimes) sur la part taxable d'une assurance-vie, au-delà de
/// l'abattement de 152 500 €.
pub fn prelevements_assurance_vie(part: i32) -> (cents: i64)
    ensures
        cents == prelevements_cents(part as int),
{
    let p = part as i64;
    if p <= 700_000 {
        20 * p
    } else {
        14_000_000 + div_arrondie_i64(125 * (p - 700_000), 4)
    }
}

/// Émoluments de partage de la succession (en centimes, TVA comprise).
pub fn partage_succession(part: i32) -> (cents: i64)
    ensures
        cents == partage_cents(part as int),
{
    let p = part as i64;
    let x: i64 = if p <= 6_500 {
        4_837 * p
    } else if p <= 17_000 {
        31_440_500 + 1_995 * (p - 6_500)
    } else if p <= 60_000 {
        52_388_000 + 1_330 * (p - 17_000)
    } else {
        109_578_000 + 998 * (p - 60_000)
    };
    div_arrondie_i64(3 * x, 2_500)
}

/// Émoluments de la déclaration de succession (en centimes, TVA comprise).
pub fn declaration_succession(part: i32) -> (cents: i64)
    ensures
        cents == declaration_cents(part as int),
{
    let p = part as i64;
    let x: i64 = if p <= 6_500 {
        1_548 * p
    } else if p <= 17_000 {
        10_062_000 + 851 * (p - 6_500)
    } else if p <= 30_000 {
        18_997_500 + 580 * (p - 17_000)
    } else {
        26_537_500 + 426 * (p - 30_000)
    };
    div_arrondie_i64(3 * x, 2_500)
}

} // verus!

verus! {

pub open spec fn abs_int(x: int) -> int {
    if x >= 0 {
        x
    } else {
        -x
    }
}

/// La division tronquée rapproche de zéro : son quotient a le signe du dividende et
/// `d × |quotient| ≤ |x|`.
pub proof fn lemme_div_tronquee(x: int, d: int)
    requires
        d > 0,
    ensures
        d * abs_int(div_tronquee(x, d)) <= abs_int(x),
        -abs_int(x) <= d * div_tronquee(x, d) <= abs_int(x),
        abs_int(div_tronquee(x, d)) <= abs_int(x),
        x >= 0 ==> div_tronquee(x, d) >= 0,
        x <= 0 ==> div_tronquee(x, d) <= 0,
        x >= 0 ==> x - d < d * div_tronquee(x, d) <= x,
        x <= 0 ==> x <= d * div_tronquee(x, d) < x + d,
{
    let ax = abs_int(x);
    let q = ax / d;
    vstd::arithmetic::div_mod::lemma_fundamental_div_mod(ax, d);
    vstd::arithmetic::div_mod::lemma_div_pos_is_pos(ax, d);
    assert(d * q <= ax);
    assert(q <= d * q) by (nonlinear_arith)
        requires
            q >= 0,
            d >= 1,
    ;
    assert(d * (-q) == -(d * q)) by (nonlinear_arith);
}

/// Une fraction `k/n ≤ 1` d'un montant `a`, partagée entre `m` personnes et tronquée,
/// reste du signe de `a` et sa somme sur les `m` parts ne dépasse pas `|a|`.
pub proof fn lemme_part(a: int, k: int, n: int, m: int)
    requires
        0 <= k <= n,
        n > 0,
        m >= 1,
    ensures
        m * abs_int(div_tronquee(k * a, n * m)) <= abs_int(a),
        -abs_int(a) <= m * div_tronquee(k * a, n * m) <= abs_int(a),
        abs_int(div_tronquee(k * a, n * m)) <= abs_int(a),
        a >= 0 ==> div_tronquee(k * a, n * m) >= 0,
        a <= 0 ==> div_tronquee(k * a, n * m) <= 0,
{
    assert(n * m > 0) by (nonlinear_arith)
        requires
            n > 0,
            m >= 1,
    ;
    lemme_div_tronquee(k * a, n * m);
    let t = abs_int(div_tronquee(k * a, n * m));
    assert(abs_int(k * a) == k * abs_int(a)) by (nonlinear_arith)
        requires
            k >= 0,
    ;
    assert(a >= 0 ==> k * a >= 0) by (nonlinear_arith)
        requires
            k >= 0,
    ;
    assert(a <= 0 ==> k * a <= 0) by (nonlinear_arith)
        requires
            k >= 0,
    ;
    assert(m * t <= abs_int(a)) by (nonlinear_arith)
        requires
            (n * m) * t <= k * abs_int(a),
            0 <= k <= n,
            n > 0,
            t >= 0,
            abs_int(a) >= 0,
    ;
    assert(t <= m * t) by (nonlinear_arith)
        requires
            t >= 0,
            m >= 1,
    ;
    let q = div_tronquee(k * a, n * m);
    assert(m * (-q) == -(m * q)) by (nonlinear_arith);
}

/// Répartition au prorata : si `m` parts civiles valent au plus `K` fois l'actif civil `A`,
/// alors les `m` parts fiscales `F × pc / A` valent au plus `K` fois l'actif fiscal `F`.
pub proof fn lemme_prorata(f: int, pc: int, a: int, k: int, m: int)
    requires
        a > 0,
        f >= 0,
        pc >= 0,
        m >= 1,
        k >= 0,
        m * pc <= k * a,
    ensures
        0 <= div_tronquee(f * pc, a),
        m * div_tronquee(f * pc, a) <= k * f,
        div_tronquee(f * pc, a) <= k * f,
{
    assert(f * pc >= 0) by (nonlinear_arith)
        requires
            f >= 0,
            pc >= 0,
    ;
    lemme_div_tronquee(f * pc, a);
    let q = div_tronquee(f * pc, a);
    assert(m * q <= k * f) by (nonlinear_arith)
        requires
            a * q <= f * pc,
            q >= 0,
            m * pc <= k * a,
            f >= 0,
            a > 0,
            m >= 1,
    ;
    assert(q <= m * q) by (nonlinear_arith)
        requires
            q >= 0,
            m >= 1,
    ;
}

/// Les émoluments d'un héritier, quote-part `P × i / (100 g)` d'émoluments globaux `P ≤ 6 g`
/// centimes, sont positifs et valent au plus 6 % de son assiette `i`.
pub proof fn lemme_quote_part(p: int, i: int, g: int)
    requires
        g > 0,
        0 <= p <= 6 * g,
        i >= 0,
    ensures
        0 <= div_tronquee(p * i, 100 * g),
        100 * div_tronquee(p * i, 100 * g) <= 6 * i,
{
    assert(p * i >= 0) by (nonlinear_arith)
        requires
            p >= 0,
            i >= 0,
    ;
    lemme_div_tronquee(p * i, 100 * g);
    let q = div_tronquee(p * i, 100 * g);
    assert(100 * q <= 6 * i) by (nonlinear_arith)
        requires
            (100 * g) * q <= p * i,
            p <= 6 * g,
            g > 0,
            i >= 0,
            q >= 0,
    ;
}

/// Les droits de succession sont positifs et au plus de 45 % de la part taxable.
pub proof fn lemme_droits_bornes(p: int)
    ensures
        p >= 0 ==> 0 <= droits_cents(p) <= 45 * p,
        p < 0 ==> droits_cents(p) == 5 * p,
{
}

/// Les prélèvements sur une assurance-vie sont positifs et au plus de 32 % de la part taxable.
pub proof fn lemme_prelevements_bornes(p: int)
    ensures
        p >= 0 ==> 0 <= prelevements_cents(p) <= 32 * p,
        p < 0 ==> prelevements_cents(p) == 20 * p,
{
    vstd::arithmetic::div_mod::lemma_basic_div(4, 8);
    assert(div_arrondie(0, 4) == 0);
}

/// Les émoluments de partage sont positifs et au plus de 6 % de l'assiette.
pub proof fn lemme_declaration_bornes(g: int)
    requires
        g >= 0,
    ensures
        0 <= declaration_cents(g) <= 2 * g,
{
}

/// Une quote-part des émoluments de déclaration est positive et au plus 2 % de l'assiette
/// individuelle.
pub proof fn lemme_quote_part_declaration(p: int, i: int, g: int)
    requires
        g > 0,
        0 <= p <= 2 * g,
        i >= 0,
    ensures
        0 <= div_tronquee(p * i, 100 * g),
        100 * div_tronquee(p * i, 100 * g) <= 2 * i,
{
    assert(p * i >= 0) by (nonlinear_arith)
        requires
            p >= 0,
            i >= 0,
    ;
    lemme_div_tronquee(p * i, 100 * g);
    let q = div_tronquee(p * i, 100 * g);
    assert(100 * q <= 2 * i) by (nonlinear_arith)
        requires
            (100 * g) * q <= p * i,
            p <= 2 * g,
            g > 0,
            i >= 0,
            q >= 0,
    ;
}

pub proof fn lemme_partage_bornes(g: int)
    requires
        g >= 0,
    ensures
        0 <= partage_cents(g) <= 6 * g,
{
}

} // verus!

verus! {

/// La valeur de l'usufruit est comprise entre un et neuf dixièmes et décroît avec l'âge de
/// l'usufruitier (la nue-propriété croît d'autant).
pub proof fn loi_usufruit_decroissant(age1: int, age2: int)
    requires
        age1 <= age2,
    ensures
        1 <= usufruit_dixiemes(age1) <= 9,
        usufruit_dixiemes(age2) <= usufruit_dixiemes(age1),
{
}

/// Barème de l'article 669 du code général des impôts : l'usufruit vaut 9 dixièmes avant
/// 21 ans, puis perd un dixième par tranche de dix ans d'âge révolu (8 de 21 à 30 ans, 7 de 31
/// à 40, 6 de 41 à 50, 5 de 51 à 60, 4 de 61 à 70, 3 de 71 à 80, 2 de 81 à 90) et vaut
/// 1 dixième à partir de 91 ans ; la nue-propriété est le complément à 10 dixièmes.
pub proof fn loi_bareme_article_669(age: int)
    ensures
        age < 21 ==> usufruit_dixiemes(age) == 9,
        21 <= age <= 90 ==> usufruit_dixiemes(age) == 9 - (age - 11) / 10,
        91 <= age ==> usufruit_dixiemes(age) == 1,
        51 <= age <= 60 ==> usufruit_dixiemes(age) == 5 && 10 - usufruit_dixiemes(age) == 5,
{
}

/// Taux marginaux des droits en ligne directe : chaque euro de part taxable en plus coûte
/// 5 centimes jusqu'à 8 072 €, 10 jusqu'à 12 109 €, 15 jusqu'à 15 932 €, 20 jusqu'à 552 324 €,
/// 30 jusqu'à 902 838 €, 40 jusqu'à 1 805 677 € et 45 au-delà.
pub proof fn loi_taux_droits(p: int)
    requires
        p >= 0,
    ensures
        droits_cents(0) == 0,
        droits_cents(p + 1) - droits_cents(p) == if p < 8_072 {
            5int
        } else if p < 12_109 {
            10
        } else if p < 15_932 {
            15
        } else if p < 552_324 {
            20
        } else if p < 902_838 {
            30
        } else if p < 1_805_677 {
            40
        } else {
            45
        },
{
}

/// Taux des prélèvements sur l'assurance-vie : 20 centimes par euro taxable jusqu'à
/// 700 000 € (soit 140 000 € à 700 000 €), puis 125 centimes par tranche de 4 € au-delà
/// (31,25 %).
pub proof fn loi_taux_prelevements(p: int)
    requires
        p >= 0,
    ensures
        prelevements_cents(0) == 0,
        p < 700_000 ==> prelevements_cents(p + 1) - prelevements_cents(p) == 20,
        prelevements_cents(700_000) == 14_000_000,
        p >= 700_000 ==> prelevements_cents(p + 4) - prelevements_cents(p) == 125,
{
    lemme_arrondi_decale(125 * au_dela(p, 700_000), 4, 125);
}

/// Arrondir au plus proche après avoir ajouté un multiple du diviseur ajoute le quotient.
proof fn lemme_arrondi_decale(n: int, d: int, q: int)
    requires
        n >= 0,
        d > 0,
        q >= 0,
    ensures
        div_arrondie(n + q * d, d) == div_arrondie(n, d) + q,
{
    let m = 2 * n + d;
    let dd = 2 * d;
    let q0 = m / dd;
    let r0 = m % dd;
    assert(m == q0 * dd + r0 && 0 <= r0 < dd) by (nonlinear_arith)
        requires
            dd > 0,
            q0 == m / dd,
            r0 == m % dd,
    ;
    assert(2 * (n + q * d) + d == (q0 + q) * dd + r0) by (nonlinear_arith)
        requires
            m == q0 * dd + r0,
            m == 2 * n + d,
            dd == 2 * d,
    ;
    vstd::arithmetic::div_mod::lemma_fundamental_div_mod_converse(
        2 * (n + q * d) + d,
        dd,
        q0 + q,
        r0,
    );
    assert(n + q * d >= 0) by (nonlinear_arith)
        requires
            n >= 0,
            q >= 0,
            d > 0,
    ;
}

/// Taux des émoluments de partage et de déclaration (TVA de 20 % comprise) : sur 2 500 € pris
/// dans une même tranche, ils augmentent de trois fois le taux en millièmes de pour-cent
/// (partage : 4,837 %, 1,995 %, 1,33 %, 0,998 % ; déclaration : 1,548 %, 0,851 %, 0,58 %,
/// 0,426 %).
pub proof fn loi_taux_emoluments(p: int)
    requires
        p >= 0,
    ensures
        partage_cents(0) == 0,
        declaration_cents(0) == 0,
        p + 2_500 <= 6_500 ==> partage_cents(p + 2_500) - partage_cents(p) == 3 * 4_837,
        6_500 <= p && p + 2_500 <= 17_000 ==> partage_cents(p + 2_500) - partage_cents(p) == 3
            * 1_995,
        17_000 <= p && p + 2_500 <= 60_000 ==> partage_cents(p + 2_500) - partage_cents(p) == 3
            * 1_330,
        60_000 <= p ==> partage_cents(p + 2_500) - partage_cents(p) == 3 * 998,
        p + 2_500 <= 6_500 ==> declaration_cents(p + 2_500) - declaration_cents(p) == 3 * 1_548,
        6_500 <= p && p + 2_500 <= 17_000 ==> declaration_cents(p + 2_500) - declaration_cents(p)
            == 3 * 851,
        17_000 <= p && p + 2_500 <= 30_000 ==> declaration_cents(p + 2_500) - declaration_cents(p)
            == 3 * 580,
        30_000 <= p ==> declaration_cents(p + 2_500) - declaration_cents(p) == 3 * 426,
{
    let ep = emoluments_bruts(p, 6_500, 17_000, 60_000, 4_837, 1_995, 1_330, 998);
    let ed = emoluments_bruts(p, 6_500, 17_000, 30_000, 1_548, 851, 580, 426);
    assert(ep >= 0 && ed >= 0);
    if p + 2_500 <= 6_500 {
        lemme_arrondi_decale(3 * ep, 2_500, 3 * 4_837int);
        lemme_arrondi_decale(3 * ed, 2_500, 3 * 1_548int);
    }
    if 6_500 <= p && p + 2_500 <= 17_000 {
        lemme_arrondi_decale(3 * ep, 2_500, 3 * 1_995int);
        lemme_arrondi_decale(3 * ed, 2_500, 3 * 851int);
    }
    if 17_000 <= p && p + 2_500 <= 60_000 {
        lemme_arrondi_decale(3 * ep, 2_500, 3 * 1_330int);
    }
    if 17_000 <= p && p + 2_500 <= 30_000 {
        lemme_arrondi_decale(3 * ed, 2_500, 3 * 580int);
    }
    if 60_000 <= p {
        lemme_arrondi_decale(3 * ep, 2_500, 3 * 998int);
    }
    if 30_000 <= p {
        lemme_arrondi_decale(3 * ed, 2_500, 3 * 426int);
    }
}

/// L'arrondi au plus proche est croissant.
proof fn lemme_div_arrondie_croissante(m: int, n: int, d: int)
    requires
        m <= n,
        d > 0,
    ensures
        div_arrondie(m, d) <= div_arrondie(n, d),
{
    if m >= 0 {
        vstd::arithmetic::div_mod::lemma_div_is_ordered(2 * m + d, 2 * n + d, 2 * d);
    } else if n < 0 {
        vstd::arithmetic::div_mod::lemma_div_is_ordered(2 * (-n) + d, 2 * (-m) + d, 2 * d);
    } else {
        vstd::arithmetic::div_mod::lemma_div_pos_is_pos(2 * n + d, 2 * d);
        vstd::arithmetic::div_mod::lemma_div_pos_is_pos(2 * (-m) + d, 2 * d);
    }
}

/// Les barèmes sont nuls sur une assiette nulle et croissants : une assiette plus grande
/// n'est jamais moins taxée (droits de succession, prélèvements sur l'assurance-vie,
/// émoluments de partage et de déclaration de succession).
pub proof fn loi_baremes_croissants(p: int, q: int)
    requires
        p <= q,
    ensures
        droits_cents(0) == 0,
        prelevements_cents(0) == 0,
        partage_cents(0) == 0,
        declaration_cents(0) == 0,
        droits_cents(p) <= droits_cents(q),
        prelevements_cents(p) <= prelevements_cents(q),
        partage_cents(p) <= partage_cents(q),
        declaration_cents(p) <= declaration_cents(q),
{
    vstd::arithmetic::div_mod::lemma_basic_div(4, 8);
    vstd::arithmetic::div_mod::lemma_basic_div(2_500, 5_000);
    lemme_div_arrondie_croissante(125 * au_dela(p, 700_000), 125 * au_dela(q, 700_000), 4);
    lemme_div_arrondie_croissante(
        3 * emoluments_bruts(p, 6_500, 17_000, 60_000, 4_837, 1_995, 1_330, 998),
        3 * emoluments_bruts(q, 6_500, 17_000, 60_000, 4_837, 1_995, 1_330, 998),
        2_500,
    );
    lemme_div_arrondie_croissante(
        3 * emoluments_bruts(p, 6_500, 17_000, 30_000, 1_548, 851, 580, 426),
        3 * emoluments_bruts(q, 6_500, 17_000, 30_000, 1_548, 851, 580, 426),
        2_500,
    );
}

} // verus!
