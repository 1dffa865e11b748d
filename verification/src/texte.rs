//! Traitements de texte élémentaires sur des suites de caractères : espaces, découpage,
//! lecture et écriture d'entiers en décimal.
use vstd::prelude::*;

verus! {

/// Caractère blanc au sens de la propriété Unicode `White_Space` (celle de
/// `char::is_whitespace`).
pub open spec fn est_espace(c: char) -> bool {
    ||| ('\u{9}' <= c && c <= '\u{d}')
    ||| c == ' '
    ||| c == '\u{85}'
    ||| c == '\u{a0}'
    ||| c == '\u{1680}'
    ||| ('\u{2000}' <= c && c <= '\u{200a}')
    ||| c == '\u{2028}'
    ||| c == '\u{2029}'
    ||| c == '\u{202f}'
    ||| c == '\u{205f}'
    ||| c == '\u{3000}'
}

/// Texte sans ses blancs de tête.
pub open spec fn rogner_debut(s: Seq<char>) -> Seq<char>
    decreases s.len(),
{
    if s.len() > 0 && est_espace(s[0]) {
        rogner_debut(s.drop_first())
    } else {
        s
    }
}

/// Texte sans ses blancs de queue.
pub open spec fn rogner_fin(s: Seq<char>) -> Seq<char>
    decreases s.len(),
{
    if s.len() > 0 && est_espace(s.last()) {
        rogner_fin(s.drop_last())
    } else {
        s
    }
}

/// Texte sans ses blancs de tête ni de queue (`str::trim`).
pub open spec fn rogner(s: Seq<char>) -> Seq<char> {
    rogner_fin(rogner_debut(s))
}

/// Découpage d'un texte à chaque séparateur (`str::split`) : `n` séparateurs donnent
/// `n + 1` morceaux, éventuellement vides.
pub open spec fn decouper(s: Seq<char>, sep: char) -> Seq<Seq<char>>
    decreases s.len(),
{
    if s.len() == 0 {
        seq![Seq::<char>::empty()]
    } else {
        let r = decouper(s.drop_last(), sep);
        if s.last() == sep {
            r.push(Seq::<char>::empty())
        } else {
            r.update(r.len() - 1, r.last().push(s.last()))
        }
    }
}

pub open spec fn est_chiffre(c: char) -> bool {
    '0' <= c && c <= '9'
}

pub open spec fn valeur_chiffre(c: char) -> int {
    c as int - '0' as int
}

/// Suite non vide de chiffres décimaux.
pub open spec fn que_des_chiffres(s: Seq<char>) -> bool {
    s.len() > 0 && forall|k: int| 0 <= k < s.len() ==> est_chiffre(#[trigger] s[k])
}

/// Valeur décimale d'une suite de chiffres.
pub open spec fn valeur_decimale(s: Seq<char>) -> int
    decreases s.len(),
{
    if s.len() == 0 {
        0
    } else {
        10 * valeur_decimale(s.drop_last()) + valeur_chiffre(s.last())
    }
}

pub open spec fn dans_i32(x: int) -> bool {
    i32::MIN <= x <= i32::MAX
}

/// Lecture d'un entier `i32` (`str::parse::<i32>`) : un signe `+` ou `-` facultatif suivi
/// d'au moins un chiffre, sans blanc, et une valeur représentable ; `None` sinon.
pub open spec fn lire_i32(s: Seq<char>) -> Option<int> {
    if s.len() > 0 && s[0] == '-' {
        let r = s.drop_first();
        if que_des_chiffres(r) && dans_i32(-valeur_decimale(r)) {
            Some(-valeur_decimale(r))
        } else {
            None
        }
    } else if s.len() > 0 && s[0] == '+' {
        let r = s.drop_first();
        if que_des_chiffres(r) && dans_i32(valeur_decimale(r)) {
            Some(valeur_decimale(r))
        } else {
            None
        }
    } else if que_des_chiffres(s) && dans_i32(valeur_decimale(s)) {
        Some(valeur_decimale(s))
    } else {
        None
    }
}

pub open spec fn chiffre(d: int) -> char {
    if d == 0 {
        '0'
    } else if d == 1 {
        '1'
    } else if d == 2 {
        '2'
    } else if d == 3 {
        '3'
    } else if d == 4 {
        '4'
    } else if d == 5 {
        '5'
    } else if d == 6 {
        '6'
    } else if d == 7 {
        '7'
    } else if d == 8 {
        '8'
    } else {
        '9'
    }
}

/// Écriture décimale d'un entier naturel, sans zéro de tête.
pub open spec fn decimal(n: nat) -> Seq<char>
    decreases n,
{
    if n < 10 {
        seq![chiffre(n as int)]
    } else {
        decimal((n / 10) as nat).push(chiffre((n % 10) as int))
    }
}

/// Écriture décimale d'un entier (`to_string`), précédée de `-` s'il est négatif.
pub open spec fn ecriture_entier(x: int) -> Seq<char> {
    if x < 0 {
        seq!['-'] + decimal((-x) as nat)
    } else {
        decimal(x as nat)
    }
}

/// Les caractères d'un texte.
pub fn caracteres(s: &str) -> (v: Vec<char>)
    ensures
        v@ == s@,
{
    let n = s.unicode_len();
    let mut v: Vec<char> = Vec::new();
    let mut k: usize = 0;
    while k < n
        invariant
            n == s@.len(),
            k <= n,
            v@ == s@.subrange(0, k as int),
        decreases n - k,
    {
        v.push(s.get_char(k));
        k = k + 1;
    }
    v
}

/// Égalité d'une suite de caractères et d'un texte.
pub fn egal_texte(v: &Vec<char>, s: &str) -> (b: bool)
    ensures
        b == (v@ == s@),
{
    let n = s.unicode_len();
    if v.len() != n {
        return false;
    }
    let mut k: usize = 0;
    while k < n
        invariant
            n == s@.len(),
            n == v@.len(),
            k <= n,
            v@.subrange(0, k as int) == s@.subrange(0, k as int),
        decreases n - k,
    {
        if v[k] != s.get_char(k) {
            assert(v@[k as int] != s@[k as int]);
            return false;
        }
        k = k + 1;
        assert(v@.subrange(0, k as int) =~= s@.subrange(0, k as int));
    }
    assert(v@ =~= v@.subrange(0, n as int));
    assert(s@ =~= s@.subrange(0, n as int));
    true
}

pub fn est_espace_exec(c: char) -> (b: bool)
    ensures
        b == est_espace(c),
{
    ('\u{9}' <= c && c <= '\u{d}') || c == ' ' || c == '\u{85}' || c == '\u{a0}' || c
        == '\u{1680}' || ('\u{2000}' <= c && c <= '\u{200a}') || c == '\u{2028}' || c
        == '\u{2029}' || c == '\u{202f}' || c == '\u{205f}' || c == '\u{3000}'
}

/// Texte sans ses blancs de tête ni de queue.
pub fn rogner_exec(v: &Vec<char>) -> (r: Vec<char>)
    ensures
        r@ == rogner(v@),
{
    let n = v.len();
    let mut debut: usize = 0;
    assert(v@.subrange(0, n as int) =~= v@);
    while debut < n && est_espace_exec(v[debut])
        invariant
            n == v@.len(),
            debut <= n,
            rogner_debut(v@) == rogner_debut(v@.subrange(debut as int, n as int)),
        decreases n - debut,
    {
        assert(v@.subrange(debut as int, n as int).drop_first() =~= v@.subrange(
            debut + 1,
            n as int,
        ));
        debut = debut + 1;
    }
    let ghost milieu = v@.subrange(debut as int, n as int);
    assert(rogner_debut(v@) == milieu);
    let mut fin: usize = n;
    while fin > debut && est_espace_exec(v[fin - 1])
        invariant
            n == v@.len(),
            debut <= fin <= n,
            milieu == v@.subrange(debut as int, n as int),
            rogner_fin(milieu) == rogner_fin(v@.subrange(debut as int, fin as int)),
        decreases fin,
    {
        assert(v@.subrange(debut as int, fin as int).drop_last() =~= v@.subrange(
            debut as int,
            fin - 1,
        ));
        fin = fin - 1;
    }
    let mut r: Vec<char> = Vec::new();
    let mut k = debut;
    while k < fin
        invariant
            n == v@.len(),
            debut <= k <= fin <= n,
            r@ == v@.subrange(debut as int, k as int),
        decreases fin - k,
    {
        r.push(v[k]);
        k = k + 1;
        assert(r@ =~= v@.subrange(debut as int, k as int));
    }
    r
}

/// Découpage d'une suite de caractères à chaque séparateur.
pub fn decouper_exec(v: &Vec<char>, sep: char) -> (r: Vec<Vec<char>>)
    ensures
        r@.len() == decouper(v@, sep).len(),
        forall|k: int| 0 <= k < r@.len() ==> #[trigger] r@[k]@ == decouper(v@, sep)[k],
{
    let n = v.len();
    let mut morceaux: Vec<Vec<char>> = Vec::new();
    let mut courant: Vec<char> = Vec::new();
    let ghost mut g: Seq<Seq<char>> = Seq::empty();
    let mut k: usize = 0;
    while k < n
        invariant
            n == v@.len(),
            k <= n,
            g.len() == morceaux@.len(),
            forall|j: int| 0 <= j < g.len() ==> #[trigger] morceaux@[j]@ == g[j],
            g.push(courant@) == decouper(v@.subrange(0, k as int), sep),
        decreases n - k,
    {
        let ghost avant = v@.subrange(0, k as int);
        assert(v@.subrange(0, k + 1).drop_last() =~= avant);
        let c = v[k];
        if c == sep {
            let fini = courant;
            proof {
                g = g.push(fini@);
            }
            morceaux.push(fini);
            courant = Vec::new();
            assert(g.push(courant@) =~= decouper(avant, sep).push(Seq::<char>::empty()));
        } else {
            let ghost ancien = courant@;
            courant.push(c);
            assert(g.push(courant@) =~= g.push(ancien).update(g.len() as int, ancien.push(c)));
        }
        k = k + 1;
    }
    assert(v@.subrange(0, n as int) =~= v@);
    proof {
        g = g.push(courant@);
    }
    morceaux.push(courant);
    morceaux
}

/// Ajouter un chiffre à une suite de chiffres multiplie sa valeur par dix et y ajoute le chiffre.
proof fn lemme_valeur_push(s: Seq<char>, c: char)
    ensures
        valeur_decimale(s.push(c)) == 10 * valeur_decimale(s) + valeur_chiffre(c),
{
    assert(s.push(c).drop_last() =~= s);
}

proof fn lemme_valeur_positive(s: Seq<char>)
    requires
        forall|k: int| 0 <= k < s.len() ==> est_chiffre(#[trigger] s[k]),
    ensures
        valeur_decimale(s) >= 0,
    decreases s.len(),
{
    if s.len() > 0 {
        let t = s.drop_last();
        assert forall|k: int| 0 <= k < t.len() implies est_chiffre(#[trigger] t[k]) by {
            assert(t[k] == s[k]);
        }
        lemme_valeur_positive(t);
        assert(est_chiffre(s[s.len() - 1]));
    }
}

/// Lecture d'un entier `i32` écrit en décimal.
pub fn lire_i32_exec(v: &Vec<char>) -> (r: Option<i32>)
    ensures
        match r {
            Some(x) => lire_i32(v@) == Some(x as int),
            None => lire_i32(v@) is None,
        },
{
    let n = v.len();
    let mut debut: usize = 0;
    let mut negatif = false;
    if n > 0 && v[0] == '-' {
        negatif = true;
        debut = 1;
    } else if n > 0 && v[0] == '+' {
        debut = 1;
    }
    let ghost chiffres = v@.subrange(debut as int, n as int);
    proof {
        if debut == 1 {
            assert(chiffres =~= v@.drop_first());
        } else {
            assert(chiffres =~= v@);
        }
    }
    if debut >= n {
        return None;
    }
    let mut valeur: i64 = 0;
    let mut trop_grand = false;
    let mut k = debut;
    while k < n
        invariant
            n == v@.len(),
            debut < n,
            debut <= k <= n,
            chiffres == v@.subrange(debut as int, n as int),
            debut == 1 ==> chiffres == v@.drop_first(),
            debut == 0 ==> chiffres == v@,
            debut <= 1,
            negatif ==> debut == 1 && v@[0] == '-',
            debut == 1 && !negatif ==> v@[0] == '+',
            debut == 0 ==> v@[0] != '-' && v@[0] != '+',
            forall|j: int| debut <= j < k ==> est_chiffre(#[trigger] v@[j]),
            !trop_grand ==> valeur == valeur_decimale(v@.subrange(debut as int, k as int)),
            !trop_grand ==> 0 <= valeur <= 2_147_483_648,
            trop_grand ==> valeur_decimale(v@.subrange(debut as int, k as int)) > 2_147_483_648,
        decreases n - k,
    {
        let c = v[k];
        if !('0' <= c && c <= '9') {
            assert(chiffres[k - debut] == c);
            assert(!est_chiffre(chiffres[k - debut]));
            assert(!que_des_chiffres(chiffres));
            return None;
        }
        proof {
            assert(v@.subrange(debut as int, k + 1) =~= v@.subrange(debut as int, k as int).push(c));
            lemme_valeur_push(v@.subrange(debut as int, k as int), c);
            let p = v@.subrange(debut as int, k as int);
            assert forall|j: int| 0 <= j < p.len() implies est_chiffre(#[trigger] p[j]) by {
                assert(p[j] == v@[debut + j]);
            }
            lemme_valeur_positive(p);
        }
        if !trop_grand {
            let d = (c as u32 - '0' as u32) as i64;
            valeur = 10 * valeur + d;
            if valeur > 2_147_483_648 {
                trop_grand = true;
            }
        }
        k = k + 1;
    }
    assert(v@.subrange(debut as int, n as int) == chiffres);
    assert(que_des_chiffres(chiffres));
    if trop_grand {
        return None;
    }
    if negatif {
        Some((-valeur) as i32)
    } else if valeur <= 2_147_483_647 {
        Some(valeur as i32)
    } else {
        None
    }
}

/// Texte d'un chiffre décimal.
fn texte_chiffre(d: u64) -> (s: &'static str)
    requires
        d <= 9,
    ensures
        s@ == seq![chiffre(d as int)],
{
    proof {
        reveal_strlit("0");
        reveal_strlit("1");
        reveal_strlit("2");
        reveal_strlit("3");
        reveal_strlit("4");
        reveal_strlit("5");
        reveal_strlit("6");
        reveal_strlit("7");
        reveal_strlit("8");
        reveal_strlit("9");
    }
    if d == 0 {
        "0"
    } else if d == 1 {
        "1"
    } else if d == 2 {
        "2"
    } else if d == 3 {
        "3"
    } else if d == 4 {
        "4"
    } else if d == 5 {
        "5"
    } else if d == 6 {
        "6"
    } else if d == 7 {
        "7"
    } else if d == 8 {
        "8"
    } else {
        "9"
    }
}

/// Ajoute l'écriture décimale d'un entier naturel.
fn ajouter_decimal(texte: &mut String, n: u64)
    ensures
        final(texte)@ == old(texte)@ + decimal(n as nat),
    decreases n,
{
    if n >= 10 {
        ajouter_decimal(texte, n / 10);
    }
    texte.append(texte_chiffre(n % 10));
    proof {
        if n >= 10 {
            assert(old(texte)@ + decimal((n / 10) as nat) + seq![chiffre((n % 10) as int)]
                =~= old(texte)@ + decimal(n as nat));
        } else {
            assert(n % 10 == n);
        }
    }
}

/// Ajoute l'écriture décimale d'un entier (`to_string`).
pub fn ajouter_entier(texte: &mut String, x: i32)
    ensures
        final(texte)@ == old(texte)@ + ecriture_entier(x as int),
{
    if x < 0 {
        proof {
            reveal_strlit("-");
        }
        texte.append("-");
        let m = (-(x as i64)) as u64;
        ajouter_decimal(texte, m);
        assert(old(texte)@ + seq!['-'] + decimal(m as nat) =~= old(texte)@ + ecriture_entier(
            x as int,
        ));
    } else {
        ajouter_decimal(texte, x as u64);
    }
}

/// Les caractères de l'écriture décimale d'un entier sont des chiffres ou le signe moins.
pub open spec fn caractere_ecrivable(c: char) -> bool {
    est_chiffre(c) || c == '-' || c == ' '
}

pub proof fn lemme_decimal_chiffres(n: nat)
    ensures
        forall|k: int| 0 <= k < decimal(n).len() ==> est_chiffre(#[trigger] decimal(n)[k]),
        decimal(n).len() >= 1,
    decreases n,
{
    if n >= 10 {
        lemme_decimal_chiffres((n / 10) as nat);
    }
}

pub proof fn lemme_ecriture_ecrivable(x: int)
    ensures
        forall|k: int|
            0 <= k < ecriture_entier(x).len() ==> (est_chiffre(#[trigger] ecriture_entier(x)[k])
                || ecriture_entier(x)[k] == '-'),
        ecriture_entier(x).len() >= 1,
{
    if x < 0 {
        lemme_decimal_chiffres((-x) as nat);
        assert forall|k: int| 0 <= k < ecriture_entier(x).len() implies (est_chiffre(
            #[trigger] ecriture_entier(x)[k],
        ) || ecriture_entier(x)[k] == '-') by {
            if k > 0 {
                assert(ecriture_entier(x)[k] == decimal((-x) as nat)[k - 1]);
            }
        }
    } else {
        lemme_decimal_chiffres(x as nat);
    }
}

/// Un texte sans séparateur forme un seul morceau.
pub proof fn lemme_decouper_sans_sep(s: Seq<char>, sep: char)
    requires
        forall|k: int| 0 <= k < s.len() ==> #[trigger] s[k] != sep,
    ensures
        decouper(s, sep) == seq![s],
    decreases s.len(),
{
    if s.len() > 0 {
        let t = s.drop_last();
        assert forall|k: int| 0 <= k < t.len() implies #[trigger] t[k] != sep by {
            assert(t[k] == s[k]);
        }
        lemme_decouper_sans_sep(t, sep);
        assert(t.push(s.last()) =~= s);
    } else {
        assert(s =~= Seq::<char>::empty());
    }
}

/// Découper deux textes joints par un séparateur met bout à bout leurs morceaux.
pub proof fn lemme_decouper_concat(s: Seq<char>, t: Seq<char>, sep: char)
    ensures
        decouper(s + seq![sep] + t, sep) == decouper(s, sep) + decouper(t, sep),
    decreases t.len(),
{
    let u = s + seq![sep] + t;
    if t.len() == 0 {
        assert(u.drop_last() =~= s);
        assert(decouper(s, sep).push(Seq::<char>::empty()) =~= decouper(s, sep) + seq![
            Seq::<char>::empty(),
        ]);
    } else {
        let t1 = t.drop_last();
        lemme_decouper_concat(s, t1, sep);
        assert(u.drop_last() =~= s + seq![sep] + t1);
        let a = decouper(s, sep);
        let b = decouper(t1, sep);
        assert(b.len() >= 1) by {
            lemme_decouper_non_vide(t1, sep);
        }
        if t.last() == sep {
            assert((a + b).push(Seq::<char>::empty()) =~= a + b.push(Seq::<char>::empty()));
        } else {
            assert((a + b).update((a + b).len() - 1, (a + b).last().push(t.last())) =~= a
                + b.update(b.len() - 1, b.last().push(t.last())));
        }
    }
}

/// Un découpage donne toujours au moins un morceau.
pub proof fn lemme_decouper_non_vide(s: Seq<char>, sep: char)
    ensures
        decouper(s, sep).len() >= 1,
    decreases s.len(),
{
    if s.len() > 0 {
        lemme_decouper_non_vide(s.drop_last(), sep);
    }
}

/// Un texte qui ne commence ni ne finit par un blanc est inchangé par le rognage.
pub proof fn lemme_rogner_net(s: Seq<char>)
    requires
        s.len() > 0,
        !est_espace(s[0]),
        !est_espace(s.last()),
    ensures
        rogner(s) == s,
{
}

/// Le texte vide est inchangé par le rognage.
pub proof fn lemme_rogner_vide()
    ensures
        rogner(Seq::<char>::empty()) == Seq::<char>::empty(),
{
}

/// Un blanc de tête disparaît au rognage.
pub proof fn lemme_rogner_espace(s: Seq<char>)
    ensures
        rogner(seq![' '] + s) == rogner(s),
{
    assert((seq![' '] + s).drop_first() =~= s);
}

proof fn lemme_valeur_chiffre(d: int)
    requires
        0 <= d <= 9,
    ensures
        valeur_chiffre(chiffre(d)) == d,
        est_chiffre(chiffre(d)),
{
}

/// La valeur de l'écriture décimale d'un entier naturel est cet entier.
pub proof fn lemme_valeur_decimal(n: nat)
    ensures
        valeur_decimale(decimal(n)) == n,
    decreases n,
{
    if n < 10 {
        lemme_valeur_chiffre(n as int);
        lemme_valeur_push(Seq::<char>::empty(), chiffre(n as int));
        assert(Seq::<char>::empty().push(chiffre(n as int)) =~= decimal(n));
    } else {
        lemme_valeur_decimal((n / 10) as nat);
        lemme_valeur_chiffre((n % 10) as int);
        lemme_valeur_push(decimal((n / 10) as nat), chiffre((n % 10) as int));
    }
}

/// Relire l'écriture décimale d'un entier `i32` redonne cet entier.
pub proof fn lemme_lire_ecriture(x: int)
    requires
        dans_i32(x),
    ensures
        lire_i32(ecriture_entier(x)) == Some(x),
{
    if x < 0 {
        let e = ecriture_entier(x);
        let d = decimal((-x) as nat);
        lemme_decimal_chiffres((-x) as nat);
        lemme_valeur_decimal((-x) as nat);
        assert(e.drop_first() =~= d);
        assert(e[0] == '-');
    } else {
        let d = decimal(x as nat);
        lemme_decimal_chiffres(x as nat);
        lemme_valeur_decimal(x as nat);
        assert(est_chiffre(d[0]));
    }
}

/// Ajoute un chiffre, le signe moins ou un blanc.
pub fn ajouter_caractere(texte: &mut String, c: char)
    requires
        caractere_ecrivable(c),
    ensures
        final(texte)@ == old(texte)@.push(c),
{
    if c == '-' {
        proof {
            reveal_strlit("-");
        }
        texte.append("-");
    } else if c == ' ' {
        proof {
            reveal_strlit(" ");
        }
        texte.append(" ");
    } else {
        let d = (c as u32 - '0' as u32) as u64;
        texte.append(texte_chiffre(d));
        assert(chiffre(d as int) == c);
    }
    assert(final(texte)@ =~= old(texte)@.push(c));
}

/// Écriture décimale d'un entier, en caractères.
pub fn ecrire_entier(x: i32) -> (v: Vec<char>)
    ensures
        v@ == ecriture_entier(x as int),
{
    let mut s = String::new();
    ajouter_entier(&mut s, x);
    caracteres(s.as_str())
}

/// Lecture d'un entier `u32` (`str::parse::<u32>`) : un `+` facultatif suivi d'au moins un
/// chiffre et une valeur représentable ; `None` sinon.
pub open spec fn lire_u32(s: Seq<char>) -> Option<int> {
    let r = if s.len() > 0 && s[0] == '+' {
        s.drop_first()
    } else {
        s
    };
    if que_des_chiffres(r) && valeur_decimale(r) <= u32::MAX {
        Some(valeur_decimale(r))
    } else {
        None
    }
}

/// Lecture d'un entier `u32` écrit en décimal.
pub fn lire_u32_exec(v: &Vec<char>) -> (r: Option<u32>)
    ensures
        match r {
            Some(x) => lire_u32(v@) == Some(x as int),
            None => lire_u32(v@) is None,
        },
{
    let n = v.len();
    let debut: usize = if n > 0 && v[0] == '+' {
        1
    } else {
        0
    };
    let ghost chiffres = v@.subrange(debut as int, n as int);
    proof {
        if debut == 1 {
            assert(chiffres =~= v@.drop_first());
        } else {
            assert(chiffres =~= v@);
        }
    }
    if debut >= n {
        return None;
    }
    let mut valeur: u64 = 0;
    let mut trop_grand = false;
    let mut k = debut;
    while k < n
        invariant
            n == v@.len(),
            debut < n,
            debut <= k <= n,
            debut <= 1,
            chiffres == v@.subrange(debut as int, n as int),
            debut == 1 ==> chiffres == v@.drop_first() && v@[0] == '+',
            debut == 0 ==> chiffres == v@ && v@[0] != '+',
            forall|j: int| debut <= j < k ==> est_chiffre(#[trigger] v@[j]),
            !trop_grand ==> valeur == valeur_decimale(v@.subrange(debut as int, k as int)),
            !trop_grand ==> valeur <= 4_294_967_295,
            trop_grand ==> valeur_decimale(v@.subrange(debut as int, k as int)) > 4_294_967_295,
        decreases n - k,
    {
        let c = v[k];
        if !('0' <= c && c <= '9') {
            assert(chiffres[k - debut] == c);
            assert(!est_chiffre(chiffres[k - debut]));
            assert(!que_des_chiffres(chiffres));
            return None;
        }
        proof {
            assert(v@.subrange(debut as int, k + 1) =~= v@.subrange(debut as int, k as int).push(c));
            lemme_valeur_push(v@.subrange(debut as int, k as int), c);
            let p = v@.subrange(debut as int, k as int);
            assert forall|j: int| 0 <= j < p.len() implies est_chiffre(#[trigger] p[j]) by {
                assert(p[j] == v@[debut + j]);
            }
            lemme_valeur_positive(p);
        }
        if !trop_grand {
            let d = (c as u32 - '0' as u32) as u64;
            valeur = 10 * valeur + d;
            if valeur > 4_294_967_295 {
                trop_grand = true;
            }
        }
        k = k + 1;
    }
    assert(v@.subrange(debut as int, n as int) == chiffres);
    assert(que_des_chiffres(chiffres));
    if trop_grand {
        None
    } else {
        Some(valeur as u32)
    }
}

} // verus!
