use cos_core::domain::deletion::{AccountId, ConvergenceReport, DeletionCOS, ExecutionResult, HaltReason};

#[test]
fn typestate_enforces_sequence() {
    let draft = DeletionCOS::new(AccountId("a".into()));
    let draft = draft.attach_evidence("ev".into());
    let draft = draft.attach_invariants("inv".into());

    let validated = draft.validate().unwrap();
    let planned = validated.plan("plan".into());
    let converged = planned.run_hypersim().unwrap();
    let executed = converged.execute();

    assert_eq!(executed.account(), &AccountId("a".into()));
}

#[test]
fn draft_requires_evidence_to_validate() {
    let draft = DeletionCOS::new(AccountId("a".into()));
    let result = draft.validate();
    assert!(result.is_err());
}

#[test]
fn halt_is_always_available() {
    let draft = DeletionCOS::new(AccountId("a".into()));
    let reason = HaltReason {
        code: "USER_CANCEL".into(),
        message: "User cancelled".into(),
    };
    let halted = draft.halt(reason);
    assert!(halted.reason().is_some());
}

#[test]
fn validated_keeps_account_evidence_and_invariants() {
    let v = DeletionCOS::new(AccountId("acct-7".into()))
        .attach_evidence("gdpr request".into())
        .attach_invariants("no shared data".into())
        .validate()
        .unwrap();
    assert_eq!(v.account, AccountId("acct-7".into()));
    assert_eq!(v.evidence.as_deref(), Some("gdpr request"));
    assert_eq!(v.invariants.as_deref(), Some("no shared data"));
    assert!(v.plan.is_none());
}

#[test]
fn missing_evidence_is_reported_first() {
    let d = DeletionCOS::new(AccountId("a".into())).attach_invariants("inv".into());
    assert_eq!(d.validate().err().unwrap(), "Evidence required");
}

#[test]
fn missing_invariants_is_reported() {
    let d = DeletionCOS::new(AccountId("a".into())).attach_evidence("ev".into());
    assert_eq!(d.validate().err().unwrap(), "Invariants required");
}

#[test]
fn halt_from_planned_records_reason() {
    let planned = DeletionCOS::new(AccountId("b".into()))
        .attach_evidence("ev".into())
        .attach_invariants("inv".into())
        .validate()
        .unwrap()
        .plan("plan".into());
    let halted = planned.halt(HaltReason { code: "STOP".into(), message: "operator stop".into() });
    let r = halted.reason().unwrap();
    assert_eq!(r.code, "STOP");
    assert_eq!(r.message, "operator stop");
    assert_eq!(halted.plan.as_deref(), Some("plan"));
    assert!(halted.report.is_none());
}

#[test]
fn builtin_evaluator_and_executor_report_success() {
    let converged = DeletionCOS::new(AccountId("c".into()))
        .attach_evidence("ev".into())
        .attach_invariants("inv".into())
        .validate()
        .unwrap()
        .plan("p".into())
        .run_hypersim()
        .unwrap();
    let rep = converged.report.clone().unwrap();
    assert_eq!(rep.rif, 0);
    assert!(rep.converged);
    assert_eq!(rep.structurality, 90);
    assert_eq!(rep.reason, "All futures converged");
    let executed = converged.execute();
    let x = executed.execution.clone().unwrap();
    assert!(x.success);
    assert_eq!(x.message, "Deletion executed");
    assert_eq!(executed.account(), &AccountId("c".into()));
}

#[test]
fn evaluator_halt_verdict_gives_halted() {
    let planned = DeletionCOS::new(AccountId("d".into()))
        .attach_evidence("ev".into())
        .attach_invariants("inv".into())
        .validate()
        .unwrap()
        .plan("p".into());
    let out = planned.run_hypersim_with(Err(HaltReason { code: "DIVERGED".into(), message: "rif 3".into() }));
    let halted = out.err().unwrap();
    assert_eq!(halted.reason().unwrap().code, "DIVERGED");
    assert_eq!(halted.account, AccountId("d".into()));
}

#[test]
fn evaluator_report_and_executor_result_are_kept() {
    let planned = DeletionCOS::new(AccountId("e".into()))
        .attach_evidence("ev".into())
        .attach_invariants("inv".into())
        .validate()
        .unwrap()
        .plan("p".into());
    let report = ConvergenceReport { rif: 0, converged: true, reason: "ok".into(), structurality: 85 };
    let converged = planned.run_hypersim_with(Ok(report)).ok().unwrap();
    assert_eq!(converged.report.as_ref().unwrap().structurality, 85);
    let executed = converged.execute_with(ExecutionResult { success: false, message: "disk busy".into() });
    let x = executed.execution.as_ref().unwrap();
    assert!(!x.success);
    assert_eq!(x.message, "disk busy");
    assert_eq!(executed.report.as_ref().unwrap().reason, "ok");
}
