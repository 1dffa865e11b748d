//! Historique des annulations et rétablissements des saisies.
//!
//! Les champs de saisie contrôlés cassent l'annulation native du navigateur : l'historique
//! mémorise chaque modification (champ, cible d'écriture, ancienne et nouvelle valeur) dans
//! une pile d'annulation et une pile de rétablissement. L'application écrit les valeurs dans
//! les cibles et place le focus sur le champ concerné.
use vstd::prelude::*;

verus! {

/// Taille maximum de l'historique. Même si chaque entrée est petite, un utilisateur qui joue
/// longtemps peut accumuler des milliers d'entrées.
pub const MAX_HISTORY: usize = 500;

/// Entrée de l'historique : l'identifiant du champ, la cible d'écriture de sa valeur
/// (`SI` pour un entier, `SB` pour un booléen), l'ancienne et la nouvelle valeur.
#[derive(Clone, Copy)]
#[allow(inconsistent_fields)]
pub enum HistoryEntry<SI, SB> {
    Int { id: &'static str, signal: SI, old_value: i32, new_value: i32 },
    Bool { id: &'static str, signal: SB, old_value: bool, new_value: bool },
}

/// Historique avec une pile pour les annulations et une autre pour les rétablissements.
pub struct History<SI, SB> {
    undo_stack: Vec<HistoryEntry<SI, SB>>,
    redo_stack: Vec<HistoryEntry<SI, SB>>,
}

/// Pile d'annulation et pile de rétablissement.
pub type Piles<SI, SB> = (Seq<HistoryEntry<SI, SB>>, Seq<HistoryEntry<SI, SB>>);

impl<SI, SB> View for History<SI, SB> {
    type V = Piles<SI, SB>;

    closed spec fn view(&self) -> Piles<SI, SB> {
        (self.undo_stack@, self.redo_stack@)
    }
}

/// Les deux piles réunies ne dépassent jamais `MAX_HISTORY` entrées.
pub open spec fn piles_bornees<SI, SB>(h: Piles<SI, SB>) -> bool {
    h.0.len() + h.1.len() <= MAX_HISTORY
}

/// Ajout d'une modification : elle s'empile sur les annulations (la plus ancienne est oubliée
/// au-delà de `MAX_HISTORY`) et vide les rétablissements.
pub open spec fn apres_ajout<SI, SB>(h: Piles<SI, SB>, e: HistoryEntry<SI, SB>) -> Piles<SI, SB> {
    let u = h.0.push(e);
    (
        if u.len() > MAX_HISTORY {
            u.drop_first()
        } else {
            u
        },
        Seq::empty(),
    )
}

/// Annulation : la dernière modification passe de la pile d'annulation à celle de
/// rétablissement et elle est rendue pour que son ancienne valeur soit réécrite.
pub open spec fn apres_annulation<SI, SB>(h: Piles<SI, SB>) -> (Piles<SI, SB>, Option<HistoryEntry<SI, SB>>) {
    if h.0.len() == 0 {
        (h, None)
    } else {
        ((h.0.drop_last(), h.1.push(h.0.last())), Some(h.0.last()))
    }
}

/// Rétablissement : la dernière modification annulée revient sur la pile d'annulation et elle
/// est rendue pour que sa nouvelle valeur soit réécrite.
pub open spec fn apres_retablissement<SI, SB>(h: Piles<SI, SB>) -> (Piles<SI, SB>, Option<HistoryEntry<SI, SB>>) {
    if h.1.len() == 0 {
        (h, None)
    } else {
        ((h.0.push(h.1.last()), h.1.drop_last()), Some(h.1.last()))
    }
}

impl<SI, SB> History<SI, SB> {
    #[verifier::type_invariant]
    spec fn bornee(&self) -> bool {
        self.undo_stack@.len() + self.redo_stack@.len() <= MAX_HISTORY
    }
}

impl<SI: Copy, SB: Copy> History<SI, SB> {
    /// Historique vide.
    pub fn new() -> (h: Self)
        ensures
            h@.0 == Seq::<HistoryEntry<SI, SB>>::empty(),
            h@.1 == Seq::<HistoryEntry<SI, SB>>::empty(),
    {
        History { undo_stack: Vec::new(), redo_stack: Vec::new() }
    }

    fn ajouter(&mut self, entry: HistoryEntry<SI, SB>)
        ensures
            final(self)@ == apres_ajout(old(self)@, entry),
    {
        proof {
            use_type_invariant(&*self);
        }
        let mut undo_stack = Vec::new();
        let mut redo_stack = Vec::new();
        std::mem::swap(&mut undo_stack, &mut self.undo_stack);
        std::mem::swap(&mut redo_stack, &mut self.redo_stack);
        let ghost avant = undo_stack@;
        undo_stack.push(entry);
        // Limite la taille de la pile aux MAX_HISTORY derniers éléments
        if undo_stack.len() > MAX_HISTORY {
            undo_stack.remove(0);
            assert(undo_stack@ =~= avant.push(entry).drop_first());
        }
        // Une nouvelle entrée vide la pile des rétablissements
        redo_stack.clear();
        self.undo_stack = undo_stack;
        self.redo_stack = redo_stack;
    }

    /// Enregistre la modification d'un entier (la cible a déjà reçu la nouvelle valeur) ;
    /// rien n'est enregistré si la valeur n'a pas changé.
    pub fn add_i32(&mut self, id: &'static str, signal: SI, old_value: i32, new_value: i32)
        ensures
            old_value == new_value ==> final(self)@ == old(self)@,
            old_value != new_value ==> final(self)@ == apres_ajout(
                old(self)@,
                HistoryEntry::Int { id, signal, old_value, new_value },
            ),
    {
        if old_value == new_value {
            return;
        }
        self.ajouter(HistoryEntry::Int { id, signal, old_value, new_value });
    }

    /// Enregistre la modification d'un booléen ; rien n'est enregistré si la valeur n'a pas
    /// changé.
    pub fn add_bool(&mut self, id: &'static str, signal: SB, old_value: bool, new_value: bool)
        ensures
            old_value == new_value ==> final(self)@ == old(self)@,
            old_value != new_value ==> final(self)@ == apres_ajout(
                old(self)@,
                HistoryEntry::Bool { id, signal, old_value, new_value },
            ),
    {
        if old_value == new_value {
            return;
        }
        self.ajouter(HistoryEntry::Bool { id, signal, old_value, new_value });
    }

    /// Annule la dernière modification : l'entrée rendue (s'il y en a une) passe sur la pile
    /// des rétablissements ; son ancienne valeur est à réécrire dans sa cible.
    pub fn undo(&mut self) -> (entry: Option<HistoryEntry<SI, SB>>)
        ensures
            (final(self)@, entry) == apres_annulation(old(self)@),
            piles_bornees(old(self)@),
    {
        proof {
            use_type_invariant(&*self);
        }
        let mut undo_stack = Vec::new();
        let mut redo_stack = Vec::new();
        std::mem::swap(&mut undo_stack, &mut self.undo_stack);
        std::mem::swap(&mut redo_stack, &mut self.redo_stack);
        let ghost u = undo_stack@;
        let res = undo_stack.pop();
        if let Some(entry) = res {
            redo_stack.push(entry);
        }
        self.undo_stack = undo_stack;
        self.redo_stack = redo_stack;
        proof {
            if u.len() > 0 {
                assert(u.last() == res.unwrap());
            }
        }
        res
    }

    /// Rétablit la dernière modification annulée : l'entrée rendue (s'il y en a une) revient
    /// sur la pile des annulations ; sa nouvelle valeur est à réécrire dans sa cible.
    pub fn redo(&mut self) -> (entry: Option<HistoryEntry<SI, SB>>)
        ensures
            (final(self)@, entry) == apres_retablissement(old(self)@),
            piles_bornees(old(self)@),
    {
        proof {
            use_type_invariant(&*self);
        }
        let mut undo_stack = Vec::new();
        let mut redo_stack = Vec::new();
        std::mem::swap(&mut undo_stack, &mut self.undo_stack);
        std::mem::swap(&mut redo_stack, &mut self.redo_stack);
        let res = redo_stack.pop();
        if let Some(entry) = res {
            undo_stack.push(entry);
        }
        self.undo_stack = undo_stack;
        self.redo_stack = redo_stack;
        res
    }

    /// Nombre de modifications qui peuvent être annulées.
    pub fn nb_annulables(&self) -> (n: usize)
        ensures
            n == self@.0.len(),
    {
        self.undo_stack.len()
    }

    /// Nombre de modifications qui peuvent être rétablies.
    pub fn nb_retablissables(&self) -> (n: usize)
        ensures
            n == self@.1.len(),
    {
        self.redo_stack.len()
    }
}

/// Annuler puis rétablir rend l'historique inchangé et réécrit la même modification.
pub proof fn loi_annuler_puis_retablir<SI, SB>(h: Piles<SI, SB>)
    requires
        h.0.len() > 0,
    ensures
        apres_retablissement(apres_annulation(h).0).0 == h,
        apres_retablissement(apres_annulation(h).0).1 == apres_annulation(h).1,
{
    assert(h.0.drop_last().push(h.0.last()) =~= h.0);
    assert(h.1.push(h.0.last()).drop_last() =~= h.1);
}

/// Rétablir puis annuler rend l'historique inchangé et réécrit la même modification.
pub proof fn loi_retablir_puis_annuler<SI, SB>(h: Piles<SI, SB>)
    requires
        h.1.len() > 0,
    ensures
        apres_annulation(apres_retablissement(h).0).0 == h,
        apres_annulation(apres_retablissement(h).0).1 == apres_retablissement(h).1,
{
    assert(h.0.push(h.1.last()).drop_last() =~= h.0);
    assert(h.1.drop_last().push(h.1.last()) =~= h.1);
}

/// Toute opération garde les deux piles réunies sous `MAX_HISTORY` entrées ; un ajout vide
/// la pile des rétablissements et rend la modification ajoutée annulable en premier.
pub proof fn loi_historique_borne<SI, SB>(h: Piles<SI, SB>, e: HistoryEntry<SI, SB>)
    requires
        piles_bornees(h),
    ensures
        piles_bornees(apres_ajout(h, e)),
        piles_bornees(apres_annulation(h).0),
        piles_bornees(apres_retablissement(h).0),
        apres_ajout(h, e).1.len() == 0,
        apres_annulation(apres_ajout(h, e)).1 == Some(e),
{
}

} // verus!
