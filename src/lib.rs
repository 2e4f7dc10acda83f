//! Constrained orchestration kernel for permanent data deletion: a typed
//! lifecycle, the proof artifact it produces, the line format of the audit
//! log, and the actions a front end may offer in each phase.

pub mod audit;
pub mod domain;
pub mod ui;
