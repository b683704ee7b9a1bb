//! Medication records with a tablet schedule or an infusion, and their
//! rendering as one line of text.
pub mod numeral;
pub mod rate;
pub mod medication;
pub mod laws;
pub mod report;
