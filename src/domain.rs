//! The deletion workflow and the values it carries.

pub mod deletion;

pub use deletion::{AccountId, ConvergenceReport, DeletionCOS, ExecutionResult, HaltReason};
pub use deletion::{Converged, Draft, Executed, Halted, Planned, Validated};
