# Successions

Simulation de la succession d'un couple marié sous le régime légal : liquidation de la
communauté, assurances-vie et récompenses, droits de succession et coûts notariés au premier
et au second décès, pour les quatre options du conjoint survivant (totalité en usufruit,
1/4 en pleine propriété, 1/4 en pleine propriété et 3/4 en usufruit, quotité disponible en
pleine propriété).

La bibliothèque (`src/`) est écrite en Verus : chaque fonction porte un contrat
(`requires` / `ensures`) prouvé par le vérificateur. Les calculs se font en entiers exacts
(montants en euros ou en centimes, fractions en douzièmes ou en dixièmes).

- `src/data/` : les entrées et résultats, les barèmes (`bareme.rs`), le calcul complet
  (`compute.rs`, assurances-vie, PER, coûts de partage et de déclaration, vérification des totaux), la sauvegarde dans des cookies et leur relecture (`cookies.rs`,
  `relecture.rs`), l'historique des annulations (`history.rs`) et les propriétés d'ensemble
  du calcul (`lois.rs`).
- `src/texte.rs` : découpage, rognage, lecture et écriture d'entiers décimaux.
- `src/report.rs` : formatage des montants avec séparateurs de milliers.
- `src/saisie.rs` : interprétation de la saisie d'un champ numérique.
- `app/` : l'application web Dioxus (formulaire, rapport, accès au navigateur), en Rust
  ordinaire, qui appelle la bibliothèque.
- `tests/` : les tests de la bibliothèque.
