use successions::data::history::{History, HistoryEntry, MAX_HISTORY};

fn valeurs(e: Option<HistoryEntry<u8, u8>>) -> Option<(&'static str, i32, i32)> {
    match e {
        Some(HistoryEntry::Int { id, old_value, new_value, .. }) => Some((id, old_value, new_value)),
        Some(HistoryEntry::Bool { id, old_value, new_value, .. }) => {
            Some((id, old_value as i32, new_value as i32))
        }
        None => None,
    }
}

#[test]
fn annuler_puis_retablir() {
    let mut h: History<u8, u8> = History::new();
    assert_eq!(valeurs(h.undo()), None);
    assert_eq!(valeurs(h.redo()), None);
    h.add_i32("dettes", 1, 0, 500);
    h.add_bool("ordre-deces", 2, true, false);
    assert_eq!((h.nb_annulables(), h.nb_retablissables()), (2, 0));
    assert_eq!(valeurs(h.undo()), Some(("ordre-deces", 1, 0)));
    assert_eq!(valeurs(h.undo()), Some(("dettes", 0, 500)));
    assert_eq!((h.nb_annulables(), h.nb_retablissables()), (0, 2));
    assert_eq!(valeurs(h.redo()), Some(("dettes", 0, 500)));
    assert_eq!((h.nb_annulables(), h.nb_retablissables()), (1, 1));
    // Une nouvelle modification vide la pile des rétablissements
    h.add_i32("placements", 1, 10, 20);
    assert_eq!((h.nb_annulables(), h.nb_retablissables()), (2, 0));
    assert_eq!(valeurs(h.redo()), None);
}

#[test]
fn modification_sans_changement_ignoree() {
    let mut h: History<u8, u8> = History::new();
    h.add_i32("dettes", 1, 7, 7);
    h.add_bool("ordre-deces", 2, true, true);
    assert_eq!((h.nb_annulables(), h.nb_retablissables()), (0, 0));
}

#[test]
fn historique_limite() {
    let mut h: History<u8, u8> = History::new();
    for k in 0..(MAX_HISTORY as i32 + 20) {
        h.add_i32("dettes", 1, k, k + 1);
    }
    assert_eq!(h.nb_annulables(), MAX_HISTORY);
    // Les plus anciennes modifications ont été oubliées
    let mut derniere = None;
    while let Some(e) = valeurs(h.undo()) {
        derniere = Some(e);
    }
    assert_eq!(derniere, Some(("dettes", 20, 21)));
    assert_eq!(h.nb_retablissables(), MAX_HISTORY);
}
