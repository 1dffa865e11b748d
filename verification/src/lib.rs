//! Simulation de la succession d'un couple marié sous le régime légal :
//! liquidation de la communauté, calcul de la succession au premier décès
//! pour chacune des quatre options du conjoint survivant, puis calcul du
//! second décès. Tous les montants sont calculés en arithmétique entière
//! exacte (euros et centimes).
pub mod data;
pub mod report;
pub mod saisie;
pub mod texte;
