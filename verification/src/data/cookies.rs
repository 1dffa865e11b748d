//! Sauvegarde des entrées dans des cookies du navigateur et relecture de ces cookies.
use vstd::prelude::*;

use crate::data::{
    age_survivant, biens_meublants_forfaitaires, calcul_biens_meublants, InputState,
};
use crate::texte::{
    ajouter_entier, caracteres, decouper, decouper_exec, ecriture_entier, egal_texte,
    lire_i32, lire_i32_exec, rogner, rogner_exec,
};

verus! {

/// Durée de vie d'un cookie : 400 jours (la limite de l'attribut Max-Age), en secondes.
pub const DUREE_COOKIE: i32 = 400 * 24 * 3600;

/// Instruction JavaScript qui crée le cookie `nom`, ou le détruit si sa valeur est la valeur
/// par défaut de l'entrée.
pub open spec fn instruction_cookie(nom: Seq<char>, val: int, defaut: int) -> Seq<char> {
    if val != defaut {
        "cookieStore.set({name: \""@ + nom + "\", value: "@ + ecriture_entier(val)
            + ", expires: Date.now() + "@ + ecriture_entier(DUREE_COOKIE as int) + "}), "@
    } else {
        "cookieStore.delete(\""@ + nom + "\"), "@
    }
}

/// Ajoute au script `js` l'instruction qui crée le cookie `name`, ou le détruit si `val` est
/// la valeur par défaut de l'entrée.
pub fn set_cookie(js: &mut String, name: &str, val: i32, default_val: i32)
    ensures
        final(js)@ == old(js)@ + instruction_cookie(name@, val as int, default_val as int),
{
    let max_age: i32 = 400 * 24 * 3600;
    if val != default_val {
        // Utilise l'attribut expires plutôt que maxAge, plus largement disponible
        js.append("cookieStore.set({name: \"");
        js.append(name);
        js.append("\", value: ");
        ajouter_entier(js, val);
        js.append(", expires: Date.now() + ");
        ajouter_entier(js, max_age);
        js.append("}), ");
    } else {
        js.append("cookieStore.delete(\"");
        js.append(name);
        js.append("\"), ");
    }
    assert(final(js)@ =~= old(js)@ + instruction_cookie(name@, val as int, default_val as int));
}

pub open spec fn entier_de(b: bool) -> int {
    if b {
        1
    } else {
        0
    }
}

/// Script JavaScript qui sauvegarde toutes les entrées dans des cookies (en détruisant ceux
/// des entrées restées à leur valeur par défaut) ; les booléens valent 1 ou 0.
pub open spec fn script_cookies(i: InputState) -> Seq<char> {
    let d = InputState::defaut();
    "await Promise.all(["@ + instruction_cookie("nb_enfants"@, i.nb_enfants as int, d.nb_enfants as int)
        + instruction_cookie("dettes"@, i.dettes as int, d.dettes as int) + instruction_cookie(
        "residence_principale"@,
        i.residence_principale as int,
        d.residence_principale as int,
    ) + instruction_cookie("placements"@, i.placements as int, d.placements as int)
        + instruction_cookie("biens_meublants"@, i.biens_meublants as int, d.biens_meublants as int)
        + instruction_cookie(
        "frais_funeraires"@,
        i.frais_funeraires as int,
        d.frais_funeraires as int,
    ) + instruction_cookie(
        "donations_partages"@,
        i.donations_partages as int,
        d.donations_partages as int,
    ) + instruction_cookie(
        "forfait_mobilier"@,
        entier_de(i.forfait_mobilier),
        entier_de(d.forfait_mobilier),
    ) + instruction_cookie("ordre_deces"@, entier_de(i.ordre_deces), entier_de(d.ordre_deces))
        + instruction_cookie(
        "deces_survivant_apres_70_ans"@,
        entier_de(i.deces_survivant_apres_70_ans),
        entier_de(d.deces_survivant_apres_70_ans),
    ) + instruction_cookie(
        "dispense_recompense"@,
        entier_de(i.dispense_recompense),
        entier_de(d.dispense_recompense),
    ) + instruction_cookie(
        "ignorer_couts_partage"@,
        entier_de(i.ignorer_couts_partage),
        entier_de(d.ignorer_couts_partage),
    ) + instruction_cookie(
        "ignorer_declaration_succession"@,
        entier_de(i.ignorer_declaration_succession),
        entier_de(d.ignorer_declaration_succession),
    ) + instruction_cookie("age_vous"@, i.age_vous as int, d.age_vous as int)
        + instruction_cookie("age_conjoint"@, i.age_conjoint as int, d.age_conjoint as int)
        + instruction_cookie(
        "av_vous_conjoint"@,
        i.av_vous_conjoint as int,
        d.av_vous_conjoint as int,
    ) + instruction_cookie(
        "av_conjoint_conjoint"@,
        i.av_conjoint_conjoint as int,
        d.av_conjoint_conjoint as int,
    ) + instruction_cookie("av_vous_enfants"@, i.av_vous_enfants as int, d.av_vous_enfants as int)
        + instruction_cookie(
        "av_conjoint_enfants"@,
        i.av_conjoint_enfants as int,
        d.av_conjoint_enfants as int,
    ) + instruction_cookie(
        "per_vous_conjoint"@,
        i.per_vous_conjoint as int,
        d.per_vous_conjoint as int,
    ) + instruction_cookie(
        "per_conjoint_conjoint"@,
        i.per_conjoint_conjoint as int,
        d.per_conjoint_conjoint as int,
    ) + "]);"@
}

fn entier_de_exec(b: bool) -> (r: i32)
    ensures
        r == entier_de(b),
{
    if b {
        1
    } else {
        0
    }
}

impl InputState {
    /// Génère le script JavaScript qui sauvegarde les entrées dans des cookies.
    #[verifier::rlimit(40)]
    pub fn to_cookies(&self) -> (js: String)
        ensures
            js@ == script_cookies(*self),
    {
        let def = InputState::new();
        let mut js = String::from_str("await Promise.all([");
        set_cookie(&mut js, "nb_enfants", self.nb_enfants, def.nb_enfants);
        set_cookie(&mut js, "dettes", self.dettes, def.dettes);
        set_cookie(&mut js, "residence_principale", self.residence_principale, def.residence_principale);
        set_cookie(&mut js, "placements", self.placements, def.placements);
        set_cookie(&mut js, "biens_meublants", self.biens_meublants, def.biens_meublants);
        set_cookie(&mut js, "frais_funeraires", self.frais_funeraires, def.frais_funeraires);
        set_cookie(&mut js, "donations_partages", self.donations_partages, def.donations_partages);
        set_cookie(
            &mut js,
            "forfait_mobilier",
            entier_de_exec(self.forfait_mobilier),
            entier_de_exec(def.forfait_mobilier),
        );
        set_cookie(
            &mut js,
            "ordre_deces",
            entier_de_exec(self.ordre_deces),
            entier_de_exec(def.ordre_deces),
        );
        set_cookie(
            &mut js,
            "deces_survivant_apres_70_ans",
            entier_de_exec(self.deces_survivant_apres_70_ans),
            entier_de_exec(def.deces_survivant_apres_70_ans),
        );
        set_cookie(
            &mut js,
            "dispense_recompense",
            entier_de_exec(self.dispense_recompense),
            entier_de_exec(def.dispense_recompense),
        );
        set_cookie(
            &mut js,
            "ignorer_couts_partage",
            entier_de_exec(self.ignorer_couts_partage),
            entier_de_exec(def.ignorer_couts_partage),
        );
        set_cookie(
            &mut js,
            "ignorer_declaration_succession",
            entier_de_exec(self.ignorer_declaration_succession),
            entier_de_exec(def.ignorer_declaration_succession),
        );
        set_cookie(&mut js, "age_vous", self.age_vous, def.age_vous);
        set_cookie(&mut js, "age_conjoint", self.age_conjoint, def.age_conjoint);
        set_cookie(&mut js, "av_vous_conjoint", self.av_vous_conjoint, def.av_vous_conjoint);
        set_cookie(&mut js, "av_conjoint_conjoint", self.av_conjoint_conjoint, def.av_conjoint_conjoint);
        set_cookie(&mut js, "av_vous_enfants", self.av_vous_enfants, def.av_vous_enfants);
        set_cookie(&mut js, "av_conjoint_enfants", self.av_conjoint_enfants, def.av_conjoint_enfants);
        set_cookie(&mut js, "per_vous_conjoint", self.per_vous_conjoint, def.per_vous_conjoint);
        set_cookie(&mut js, "per_conjoint_conjoint", self.per_conjoint_conjoint, def.per_conjoint_conjoint);
        js.append("]);");
        assert(js@ =~= script_cookies(*self));
        js
    }
}


/// Noms des cookies reconnus, un par entrée.
pub open spec fn nom_de_cookie(nom: Seq<char>) -> bool {
    ||| nom == "nb_enfants"@
    ||| nom == "dettes"@
    ||| nom == "residence_principale"@
    ||| nom == "placements"@
    ||| nom == "biens_meublants"@
    ||| nom == "frais_funeraires"@
    ||| nom == "donations_partages"@
    ||| nom == "forfait_mobilier"@
    ||| nom == "ordre_deces"@
    ||| nom == "deces_survivant_apres_70_ans"@
    ||| nom == "dispense_recompense"@
    ||| nom == "ignorer_couts_partage"@
    ||| nom == "ignorer_declaration_succession"@
    ||| nom == "age_vous"@
    ||| nom == "age_conjoint"@
    ||| nom == "av_vous_conjoint"@
    ||| nom == "av_conjoint_conjoint"@
    ||| nom == "av_vous_enfants"@
    ||| nom == "av_conjoint_enfants"@
    ||| nom == "per_vous_conjoint"@
    ||| nom == "per_conjoint_conjoint"@
}

/// Entrées après la lecture du cookie `nom` de valeur lue `v` (`None` si la valeur n'est pas
/// un entier) : une valeur illisible laisse l'entrée inchangée ; un booléen vaut vrai pour 1.
pub open spec fn affecter_cookie(st: InputState, nom: Seq<char>, v: Option<int>) -> InputState {
    if nom == "nb_enfants"@ {
        match v {
            Some(x) => InputState { nb_enfants: x as i32, ..st },
            None => st,
        }
    } else if nom == "dettes"@ {
        match v {
            Some(x) => InputState { dettes: x as i32, ..st },
            None => st,
        }
    } else if nom == "residence_principale"@ {
        match v {
            Some(x) => InputState { residence_principale: x as i32, ..st },
            None => st,
        }
    } else if nom == "placements"@ {
        match v {
            Some(x) => InputState { placements: x as i32, ..st },
            None => st,
        }
    } else if nom == "biens_meublants"@ {
        match v {
            Some(x) => InputState { biens_meublants: x as i32, ..st },
            None => st,
        }
    } else if nom == "frais_funeraires"@ {
        match v {
            Some(x) => InputState { frais_funeraires: x as i32, ..st },
            None => st,
        }
    } else if nom == "donations_partages"@ {
        match v {
            Some(x) => InputState { donations_partages: x as i32, ..st },
            None => st,
        }
    } else if nom == "forfait_mobilier"@ {
        match v {
            Some(x) => InputState { forfait_mobilier: x == 1, ..st },
            None => st,
        }
    } else if nom == "ordre_deces"@ {
        match v {
            Some(x) => InputState { ordre_deces: x == 1, ..st },
            None => st,
        }
    } else if nom == "deces_survivant_apres_70_ans"@ {
        match v {
            Some(x) => InputState { deces_survivant_apres_70_ans: x == 1, ..st },
            None => st,
        }
    } else if nom == "dispense_recompense"@ {
        match v {
            Some(x) => InputState { dispense_recompense: x == 1, ..st },
            None => st,
        }
    } else if nom == "ignorer_couts_partage"@ {
        match v {
            Some(x) => InputState { ignorer_couts_partage: x == 1, ..st },
            None => st,
        }
    } else if nom == "ignorer_declaration_succession"@ {
        match v {
            Some(x) => InputState { ignorer_declaration_succession: x == 1, ..st },
            None => st,
        }
    } else if nom == "age_vous"@ {
        match v {
            Some(x) => InputState { age_vous: x as i32, ..st },
            None => st,
        }
    } else if nom == "age_conjoint"@ {
        match v {
            Some(x) => InputState { age_conjoint: x as i32, ..st },
            None => st,
        }
    } else if nom == "av_vous_conjoint"@ {
        match v {
            Some(x) => InputState { av_vous_conjoint: x as i32, ..st },
            None => st,
        }
    } else if nom == "av_conjoint_conjoint"@ {
        match v {
            Some(x) => InputState { av_conjoint_conjoint: x as i32, ..st },
            None => st,
        }
    } else if nom == "av_vous_enfants"@ {
        match v {
            Some(x) => InputState { av_vous_enfants: x as i32, ..st },
            None => st,
        }
    } else if nom == "av_conjoint_enfants"@ {
        match v {
            Some(x) => InputState { av_conjoint_enfants: x as i32, ..st },
            None => st,
        }
    } else if nom == "per_vous_conjoint"@ {
        match v {
            Some(x) => InputState { per_vous_conjoint: x as i32, ..st },
            None => st,
        }
    } else if nom == "per_conjoint_conjoint"@ {
        match v {
            Some(x) => InputState { per_conjoint_conjoint: x as i32, ..st },
            None => st,
        }
    } else {
        st
    }
}

/// Après chaque cookie reconnu, les entrées dépendantes sont recalculées : les biens meublants
/// si le forfait mobilier est utilisé, et le décès du survivant après 70 ans s'il a déjà
/// 70 ans.
pub open spec fn ajuster_entrees(st: InputState) -> InputState {
    let st1 = if st.forfait_mobilier {
        InputState {
            biens_meublants: biens_meublants_forfaitaires(
                st.residence_principale as int,
                st.placements as int,
                st.dettes as int,
            ) as i32,
            ..st
        }
    } else {
        st
    };
    if age_survivant(st1) >= 70 {
        InputState { deces_survivant_apres_70_ans: true, ..st1 }
    } else {
        st1
    }
}

/// Lecture d'un cookie `nom=valeur` (blancs ignorés autour du cookie, du nom et de la valeur) ;
/// un cookie mal formé ou inconnu est ignoré.
pub open spec fn lire_cookie(st: InputState, cookie: Seq<char>) -> InputState {
    let morceaux = decouper(rogner(cookie), '=');
    if morceaux.len() != 2 {
        st
    } else {
        let nom = rogner(morceaux[0]);
        let valeur = rogner(morceaux[1]);
        if nom_de_cookie(nom) {
            ajuster_entrees(affecter_cookie(st, nom, lire_i32(valeur)))
        } else {
            st
        }
    }
}

/// Lecture, dans l'ordre, d'une suite de cookies.
pub open spec fn lire_cookies(st: InputState, cookies: Seq<Seq<char>>) -> InputState
    decreases cookies.len(),
{
    if cookies.len() == 0 {
        st
    } else {
        lire_cookie(lire_cookies(st, cookies.drop_last()), cookies.last())
    }
}

/// Affecte à l'entrée nommée la valeur lue ; indique si le nom est celui d'un cookie.
#[verifier::rlimit(60)]
fn affecter_cookie_exec(ret: &mut InputState, nom: &Vec<char>, valeur: &Vec<char>) -> (reconnu: bool)
    ensures
        reconnu == nom_de_cookie(nom@),
        *final(ret) == affecter_cookie(*old(ret), nom@, lire_i32(valeur@)),
{
    let v = lire_i32_exec(valeur);
    if egal_texte(nom, "nb_enfants") {
        if let Some(x) = v {
            ret.nb_enfants = x;
        }
        true
    } else if egal_texte(nom, "dettes") {
        if let Some(x) = v {
            ret.dettes = x;
        }
        true
    } else if egal_texte(nom, "residence_principale") {
        if let Some(x) = v {
            ret.residence_principale = x;
        }
        true
    } else if egal_texte(nom, "placements") {
        if let Some(x) = v {
            ret.placements = x;
        }
        true
    } else if egal_texte(nom, "biens_meublants") {
        if let Some(x) = v {
            ret.biens_meublants = x;
        }
        true
    } else if egal_texte(nom, "frais_funeraires") {
        if let Some(x) = v {
            ret.frais_funeraires = x;
        }
        true
    } else if egal_texte(nom, "donations_partages") {
        if let Some(x) = v {
            ret.donations_partages = x;
        }
        true
    } else if egal_texte(nom, "forfait_mobilier") {
        if let Some(x) = v {
            ret.forfait_mobilier = x == 1;
        }
        true
    } else if egal_texte(nom, "ordre_deces") {
        if let Some(x) = v {
            ret.ordre_deces = x == 1;
        }
        true
    } else if egal_texte(nom, "deces_survivant_apres_70_ans") {
        if let Some(x) = v {
            ret.deces_survivant_apres_70_ans = x == 1;
        }
        true
    } else if egal_texte(nom, "dispense_recompense") {
        if let Some(x) = v {
            ret.dispense_recompense = x == 1;
        }
        true
    } else if egal_texte(nom, "ignorer_couts_partage") {
        if let Some(x) = v {
            ret.ignorer_couts_partage = x == 1;
        }
        true
    } else if egal_texte(nom, "ignorer_declaration_succession") {
        if let Some(x) = v {
            ret.ignorer_declaration_succession = x == 1;
        }
        true
    } else if egal_texte(nom, "age_vous") {
        if let Some(x) = v {
            ret.age_vous = x;
        }
        true
    } else if egal_texte(nom, "age_conjoint") {
        if let Some(x) = v {
            ret.age_conjoint = x;
        }
        true
    } else if egal_texte(nom, "av_vous_conjoint") {
        if let Some(x) = v {
            ret.av_vous_conjoint = x;
        }
        true
    } else if egal_texte(nom, "av_conjoint_conjoint") {
        if let Some(x) = v {
            ret.av_conjoint_conjoint = x;
        }
        true
    } else if egal_texte(nom, "av_vous_enfants") {
        if let Some(x) = v {
            ret.av_vous_enfants = x;
        }
        true
    } else if egal_texte(nom, "av_conjoint_enfants") {
        if let Some(x) = v {
            ret.av_conjoint_enfants = x;
        }
        true
    } else if egal_texte(nom, "per_vous_conjoint") {
        if let Some(x) = v {
            ret.per_vous_conjoint = x;
        }
        true
    } else if egal_texte(nom, "per_conjoint_conjoint") {
        if let Some(x) = v {
            ret.per_conjoint_conjoint = x;
        }
        true
    } else {
        false
    }
}

/// Recalcule les entrées qui dépendent des autres.
fn ajuster_entrees_exec(ret: &mut InputState)
    ensures
        *final(ret) == ajuster_entrees(*old(ret)),
{
    if ret.forfait_mobilier {
        ret.biens_meublants = calcul_biens_meublants(
            ret.residence_principale,
            ret.placements,
            ret.dettes,
        );
    }
    let age_survivant = if ret.ordre_deces {
        ret.age_conjoint
    } else {
        ret.age_vous
    };
    if age_survivant >= 70 {
        ret.deces_survivant_apres_70_ans = true;
    }
}

impl InputState {
    /// Entrées par défaut surchargées par les cookies `nom=valeur` séparés par des `;`.
    pub fn new_from_cookies(cookies: &str) -> (r: Self)
        ensures
            r == lire_cookies(InputState::defaut(), decouper(cookies@, ';')),
    {
        let mut ret = Self::new();
        let texte = caracteres(cookies);
        let liste = decouper_exec(&texte, ';');
        let ghost segments = decouper(cookies@, ';');
        let mut k: usize = 0;
        while k < liste.len()
            invariant
                liste@.len() == segments.len(),
                forall|j: int| 0 <= j < liste@.len() ==> #[trigger] liste@[j]@ == segments[j],
                k <= liste@.len(),
                ret == lire_cookies(InputState::defaut(), segments.subrange(0, k as int)),
            decreases liste@.len() - k,
        {
            let ghost avant = ret;
            assert(segments.subrange(0, k + 1).drop_last() =~= segments.subrange(0, k as int));
            let cookie = rogner_exec(&liste[k]);
            let morceaux = decouper_exec(&cookie, '=');
            if morceaux.len() == 2 {
                let nom = rogner_exec(&morceaux[0]);
                let valeur = rogner_exec(&morceaux[1]);
                if affecter_cookie_exec(&mut ret, &nom, &valeur) {
                    // Recalcul des entrées dépendantes (dès fois qu'un cookie soit erroné)
                    ajuster_entrees_exec(&mut ret);
                }
            }
            k = k + 1;
        }
        assert(segments.subrange(0, liste@.len() as int) =~= segments);
        ret
    }
}

} // verus!
