use cos_core::audit::artifact::{BudgetUsed, Decision, ProofArtifact};

fn allow() -> ProofArtifact {
    ProofArtifact {
        workflow_id: "w1".into(),
        invariant_set_id: "inv_v1".into(),
        decision: Decision::Allow,
        rif: 0,
        converged: true,
        structurality: 90,
        reason: "SAFE".into(),
        budget: BudgetUsed {
            max_futures: 64,
            max_depth: 6,
            repair_budget: 2,
            explored_futures: 12,
            pruned_futures: 12,
        },
        execution_boundary_fingerprint: "exec_v1".into(),
    }
}

fn halt() -> ProofArtifact {
    ProofArtifact {
        workflow_id: "w2".into(),
        invariant_set_id: "inv_v1".into(),
        decision: Decision::Halt,
        rif: 5,
        converged: false,
        structurality: 60,
        reason: "Ambiguity detected".into(),
        budget: BudgetUsed {
            max_futures: 64,
            max_depth: 6,
            repair_budget: 2,
            explored_futures: 30,
            pruned_futures: 0,
        },
        execution_boundary_fingerprint: "exec_v1".into(),
    }
}

#[test]
fn allow_artifact_validates() {
    let a = allow();
    assert!(a.validate_allow_invariants().is_ok());
}

#[test]
fn halt_artifact_validates() {
    let h = halt();
    assert!(h.validate_halt_invariants().is_ok());
}

#[test]
fn rif_greater_than_zero_fails_allow() {
    let mut a = allow();
    a.rif = 1;
    assert!(a.validate_allow_invariants().is_err());
}

#[test]
fn structurality_below_80_fails_allow() {
    let mut a = allow();
    a.structurality = 79;
    assert!(a.validate_allow_invariants().is_err());
}

#[test]
fn not_converged_fails_allow() {
    let mut a = allow();
    a.converged = false;
    assert!(a.validate_allow_invariants().is_err());
}

#[test]
fn each_allow_failure_has_its_own_message() {
    let mut a = allow();
    a.rif = 1;
    assert_eq!(a.validate_allow_invariants().unwrap_err(), "RIF must be 0 (got 1)");
    let mut a = allow();
    a.rif = 4_294_967_295;
    assert_eq!(a.validate_allow_invariants().unwrap_err(), "RIF must be 0 (got 4294967295)");
    let mut a = allow();
    a.structurality = 79;
    assert_eq!(a.validate_allow_invariants().unwrap_err(), "Structurality must be >= 80 (got 79)");
    let mut a = allow();
    a.structurality = 0;
    assert_eq!(a.validate_allow_invariants().unwrap_err(), "Structurality must be >= 80 (got 0)");
    let mut a = allow();
    a.converged = false;
    assert_eq!(a.validate_allow_invariants().unwrap_err(), "Converged must be true");
    let mut a = allow();
    a.decision = Decision::Halt;
    assert_eq!(a.validate_allow_invariants().unwrap_err(), "Decision is not Allow");
}

#[test]
fn allow_boundary_structurality_80_passes() {
    let mut a = allow();
    a.structurality = 80;
    assert!(a.validate_allow_invariants().is_ok());
    a.structurality = 100;
    assert!(a.validate_allow_invariants().is_ok());
}

#[test]
fn decision_checked_before_other_fields() {
    let h = halt();
    assert_eq!(h.validate_allow_invariants().unwrap_err(), "Decision is not Allow");
}

#[test]
fn halt_gate_ignores_other_fields_and_rejects_allow() {
    let mut h = halt();
    h.rif = 0;
    h.converged = true;
    h.structurality = 100;
    assert!(h.validate_halt_invariants().is_ok());
    let a = allow();
    assert_eq!(a.validate_halt_invariants().unwrap_err(), "Decision is not Halt");
}
