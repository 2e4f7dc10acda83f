//! The proof artifact a decision produces, and the line format of the log
//! that keeps such artifacts.

pub mod append_only;
pub mod artifact;

pub use append_only::Ndjson;
pub use artifact::{BudgetUsed, Decision, ProofArtifact};
