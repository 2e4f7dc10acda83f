//! The deletion workflow as a typed state machine.
//!
//! Each phase is a distinct type parameter of `DeletionCOS`, and each phase
//! offers only the operations valid from it. Every transition consumes the
//! value of the earlier phase and returns one of the next, so a workflow can
//! neither skip a stage nor be rewound.

use std::marker::PhantomData;
use vstd::prelude::*;
use vstd::string::StringExecFns;

verus! {

/// Phase marker: nothing validated yet.
pub struct Draft;

/// Phase marker: evidence and invariants are present.
pub struct Validated;

/// Phase marker: a deletion plan is recorded.
pub struct Planned;

/// Phase marker: the simulation converged; execution is permitted.
pub struct Converged;

/// Phase marker: terminal, the deletion ran.
pub struct Executed;

/// Phase marker: terminal, the workflow was stopped.
#[derive(Debug)]
pub struct Halted;

/// The account whose data is to be deleted.
#[derive(Debug, Clone, PartialEq, Eq)]
pub struct AccountId(pub String);

/// A deletion workflow in phase `S`. It is deliberately not `Clone`: a copy
/// would let a caller keep an earlier phase after moving on.
#[derive(Debug)]
pub struct DeletionCOS<S> {
    pub account: AccountId,
    pub evidence: Option<String>,
    pub invariants: Option<String>,
    pub plan: Option<String>,
    pub report: Option<ConvergenceReport>,
    pub execution: Option<ExecutionResult>,
    pub halt: Option<HaltReason>,
    pub _s: PhantomData<S>,
}

/// What the simulation of candidate futures concluded.
#[derive(Debug, Clone)]
pub struct ConvergenceReport {
    pub rif: u32,
    pub converged: bool,
    pub reason: String,
    pub structurality: u8,
}

/// What the deletion executor reported.
#[derive(Debug, Clone)]
pub struct ExecutionResult {
    pub success: bool,
    pub message: String,
}

/// Why a workflow stopped.
#[derive(Debug, Clone)]
pub struct HaltReason {
    pub code: String,
    pub message: String,
}

/// The terminal Halted workflow that keeps the given fields and records `reason`.
pub open spec fn halted_with(
    account: AccountId,
    evidence: Option<String>,
    invariants: Option<String>,
    plan: Option<String>,
    reason: HaltReason,
) -> DeletionCOS<Halted> {
    DeletionCOS {
        account,
        evidence,
        invariants,
        plan,
        report: None,
        execution: None,
        halt: Some(reason),
        _s: PhantomData,
    }
}

impl DeletionCOS<Draft> {
    /// A fresh Draft for `account`, with every optional field empty.
    pub open spec fn created(account: AccountId) -> Self {
        DeletionCOS {
            account,
            evidence: None,
            invariants: None,
            plan: None,
            report: None,
            execution: None,
            halt: None,
            _s: PhantomData,
        }
    }

    /// This Draft with `evidence` attached.
    pub open spec fn with_evidence(self, evidence: String) -> Self {
        DeletionCOS { evidence: Some(evidence), ..self }
    }

    /// This Draft with `invariants` attached.
    pub open spec fn with_invariants(self, invariants: String) -> Self {
        DeletionCOS { invariants: Some(invariants), ..self }
    }

    /// Validation succeeds exactly when evidence and invariants are both present.
    pub open spec fn ready(self) -> bool {
        self.evidence is Some && self.invariants is Some
    }

    /// The Validated workflow that a successful validation yields.
    pub open spec fn validated(self) -> DeletionCOS<Validated> {
        DeletionCOS {
            account: self.account,
            evidence: self.evidence,
            invariants: self.invariants,
            plan: None,
            report: None,
            execution: None,
            halt: None,
            _s: PhantomData,
        }
    }

    /// The error a failed validation reports: missing evidence comes first.
    pub open spec fn validation_error(self) -> Seq<char> {
        if self.evidence is None {
            "Evidence required"@
        } else {
            "Invariants required"@
        }
    }

    /// This Draft, stopped with `reason`.
    pub open spec fn halted(self, reason: HaltReason) -> DeletionCOS<Halted> {
        halted_with(self.account, self.evidence, self.invariants, self.plan, reason)
    }

    pub fn new(account: AccountId) -> (r: Self)
        ensures
            r == Self::created(account),
    {
        DeletionCOS {
            account,
            evidence: None,
            invariants: None,
            plan: None,
            report: None,
            execution: None,
            halt: None,
            _s: PhantomData,
        }
    }

    /// Attach the justification for the deletion.
    pub fn attach_evidence(self, evidence: String) -> (r: Self)
        ensures
            r == self.with_evidence(evidence),
    {
        DeletionCOS { evidence: Some(evidence), ..self }
    }

    /// Attach the constraints that the deletion must respect.
    pub fn attach_invariants(self, invariants: String) -> (r: Self)
        ensures
            r == self.with_invariants(invariants),
    {
        DeletionCOS { invariants: Some(invariants), ..self }
    }

    /// Move to Validated, or report what is missing.
    pub fn validate(self) -> (r: Result<DeletionCOS<Validated>, String>)
        ensures
            r is Ok <==> self.ready(),
            r matches Ok(v) ==> v == self.validated(),
            r matches Err(m) ==> m@ == self.validation_error(),
    {
        if self.evidence.is_none() {
            return Err(String::from_str("Evidence required"));
        }
        if self.invariants.is_none() {
            return Err(String::from_str("Invariants required"));
        }
        Ok(DeletionCOS {
            account: self.account,
            evidence: self.evidence,
            invariants: self.invariants,
            plan: None,
            report: None,
            execution: None,
            halt: None,
            _s: PhantomData,
        })
    }

    /// Stop the workflow; always permitted from Draft.
    pub fn halt(self, reason: HaltReason) -> (r: DeletionCOS<Halted>)
        ensures
            r == self.halted(reason),
    {
        DeletionCOS {
            account: self.account,
            evidence: self.evidence,
            invariants: self.invariants,
            plan: self.plan,
            report: None,
            execution: None,
            halt: Some(reason),
            _s: PhantomData,
        }
    }
}

impl DeletionCOS<Validated> {
    /// The Planned workflow that recording `plan` yields.
    pub open spec fn planned(self, plan: String) -> DeletionCOS<Planned> {
        DeletionCOS {
            account: self.account,
            evidence: self.evidence,
            invariants: self.invariants,
            plan: Some(plan),
            report: None,
            execution: None,
            halt: None,
            _s: PhantomData,
        }
    }

    /// Record the deletion plan.
    pub fn plan(self, plan: String) -> (r: DeletionCOS<Planned>)
        ensures
            r == self.planned(plan),
    {
        DeletionCOS {
            account: self.account,
            evidence: self.evidence,
            invariants: self.invariants,
            plan: Some(plan),
            report: None,
            execution: None,
            halt: None,
            _s: PhantomData,
        }
    }
}

impl DeletionCOS<Planned> {
    /// The Converged workflow that carries `report`.
    pub open spec fn converged_with(self, report: ConvergenceReport) -> DeletionCOS<Converged> {
        DeletionCOS {
            account: self.account,
            evidence: self.evidence,
            invariants: self.invariants,
            plan: self.plan,
            report: Some(report),
            execution: None,
            halt: None,
            _s: PhantomData,
        }
    }

    /// This Planned workflow, stopped with `reason`.
    pub open spec fn stopped(self, reason: HaltReason) -> DeletionCOS<Halted> {
        halted_with(self.account, self.evidence, self.invariants, self.plan, reason)
    }

    /// Where the simulation leaves the workflow: a convergence report leads
    /// to Converged, a halt reason to Halted.
    pub open spec fn simulated(self, outcome: Result<ConvergenceReport, HaltReason>) -> Result<
        DeletionCOS<Converged>,
        DeletionCOS<Halted>,
    > {
        match outcome {
            Ok(report) => Ok(self.converged_with(report)),
            Err(reason) => Err(self.stopped(reason)),
        }
    }

    /// Apply what the convergence evaluator returned. A halt reason is a
    /// terminal outcome, not a failure.
    pub fn run_hypersim_with(self, outcome: Result<ConvergenceReport, HaltReason>) -> (r: Result<
        DeletionCOS<Converged>,
        DeletionCOS<Halted>,
    >)
        ensures
            r == self.simulated(outcome),
    {
        match outcome {
            Ok(report) => Ok(DeletionCOS {
                account: self.account,
                evidence: self.evidence,
                invariants: self.invariants,
                plan: self.plan,
                report: Some(report),
                execution: None,
                halt: None,
                _s: PhantomData,
            }),
            Err(reason) => Err(self.halt(reason)),
        }
    }

    /// Run the convergence check with the built-in evaluator, which reports
    /// full convergence: no invalid future left and structurality 90.
    pub fn run_hypersim(self) -> (r: Result<DeletionCOS<Converged>, DeletionCOS<Halted>>)
        ensures
            r matches Ok(c) && c.report matches Some(rep) && c == self.converged_with(rep)
                && rep.rif == 0 && rep.converged && rep.structurality == 90
                && rep.reason@ == "All futures converged"@,
    {
        let report = ConvergenceReport {
            rif: 0,
            converged: true,
            reason: String::from_str("All futures converged"),
            structurality: 90,
        };
        self.run_hypersim_with(Ok(report))
    }

    /// Stop the workflow; permitted from Planned.
    pub fn halt(self, reason: HaltReason) -> (r: DeletionCOS<Halted>)
        ensures
            r == self.stopped(reason),
    {
        DeletionCOS {
            account: self.account,
            evidence: self.evidence,
            invariants: self.invariants,
            plan: self.plan,
            report: None,
            execution: None,
            halt: Some(reason),
            _s: PhantomData,
        }
    }
}

impl DeletionCOS<Converged> {
    /// The Executed workflow that records `result`.
    pub open spec fn executed(self, result: ExecutionResult) -> DeletionCOS<Executed> {
        DeletionCOS {
            account: self.account,
            evidence: self.evidence,
            invariants: self.invariants,
            plan: self.plan,
            report: self.report,
            execution: Some(result),
            halt: None,
            _s: PhantomData,
        }
    }

    /// Record what the deletion executor reported.
    pub fn execute_with(self, result: ExecutionResult) -> (r: DeletionCOS<Executed>)
        ensures
            r == self.executed(result),
    {
        DeletionCOS {
            account: self.account,
            evidence: self.evidence,
            invariants: self.invariants,
            plan: self.plan,
            report: self.report,
            execution: Some(result),
            halt: None,
            _s: PhantomData,
        }
    }

    /// Execute the deletion with the built-in executor, which reports success.
    pub fn execute(self) -> (r: DeletionCOS<Executed>)
        ensures
            r.execution matches Some(x) && r == self.executed(x) && x.success
                && x.message@ == "Deletion executed"@,
    {
        let result = ExecutionResult { success: true, message: String::from_str("Deletion executed") };
        self.execute_with(result)
    }
}

impl DeletionCOS<Executed> {
    /// The account of a finished workflow; nothing else is offered.
    pub fn account(&self) -> (r: &AccountId)
        ensures
            *r == self.account,
    {
        &self.account
    }
}

impl DeletionCOS<Halted> {
    /// Why the workflow stopped.
    pub fn reason(&self) -> (r: Option<&HaltReason>)
        ensures
            r is Some <==> self.halt is Some,
            r matches Some(h) ==> self.halt == Some(*h),
    {
        match &self.halt {
            Some(h) => Some(h),
            None => None,
        }
    }
}

/// Attaching evidence and then invariants to a Draft always makes it valid,
/// and the Validated workflow keeps the account, the evidence and the
/// invariants that were attached.
pub proof fn lemma_attached_draft_validates(d: DeletionCOS<Draft>, evidence: String, invariants: String)
    ensures
        d.with_evidence(evidence).with_invariants(invariants).ready(),
        d.with_evidence(evidence).with_invariants(invariants).validated().account == d.account,
        d.with_evidence(evidence).with_invariants(invariants).validated().evidence == Some(evidence),
        d.with_evidence(evidence).with_invariants(invariants).validated().invariants == Some(invariants),
{
}

/// A Draft without evidence fails validation with the evidence error; one with
/// evidence but without invariants fails with the invariants error.
pub proof fn lemma_missing_draft_fields_rejected(d: DeletionCOS<Draft>)
    ensures
        d.evidence is None ==> !d.ready() && d.validation_error() == "Evidence required"@,
        d.evidence is Some && d.invariants is None ==> !d.ready() && d.validation_error()
            == "Invariants required"@,
{
}

/// Halting from Draft or from Planned yields a terminal workflow that records
/// exactly the reason given, and keeps the account.
pub proof fn lemma_halt_records_reason(d: DeletionCOS<Draft>, p: DeletionCOS<Planned>, reason: HaltReason)
    ensures
        d.halted(reason).halt == Some(reason),
        d.halted(reason).account == d.account,
        p.stopped(reason).halt == Some(reason),
        p.stopped(reason).account == p.account,
{
}

/// Along the full lifecycle Draft, Validated, Planned, Converged, Executed,
/// the account never changes.
pub proof fn lemma_lifecycle_keeps_account(
    account: AccountId,
    evidence: String,
    invariants: String,
    plan: String,
    report: ConvergenceReport,
    result: ExecutionResult,
)
    ensures
        ({
            let d = DeletionCOS::<Draft>::created(account).with_evidence(evidence).with_invariants(
                invariants,
            );
            let v = d.validated();
            let p = v.planned(plan);
            let c = p.converged_with(report);
            let e = c.executed(result);
            &&& d.ready()
            &&& d.account == account
            &&& v.account == account
            &&& p.account == account
            &&& c.account == account
            &&& e.account == account
        }),
{
}

/// Each phase holds exactly the optional fields that belong to it: a plan
/// appears from Planned on, a convergence report only in Converged and
/// Executed, an execution result only in Executed, a halt reason only in
/// Halted.
pub proof fn lemma_fields_follow_phase(
    account: AccountId,
    evidence: String,
    invariants: String,
    plan: String,
    report: ConvergenceReport,
    result: ExecutionResult,
    reason: HaltReason,
)
    ensures
        ({
            let d0 = DeletionCOS::<Draft>::created(account);
            let d = d0.with_evidence(evidence).with_invariants(invariants);
            let v = d.validated();
            let p = v.planned(plan);
            let c = p.converged_with(report);
            let e = c.executed(result);
            &&& d0.evidence is None && d0.invariants is None && d0.plan is None
            &&& d.plan is None && d.report is None && d.execution is None && d.halt is None
            &&& v.evidence is Some && v.invariants is Some && v.plan is None
            &&& v.report is None && v.execution is None && v.halt is None
            &&& p.plan is Some && p.report is None && p.execution is None && p.halt is None
            &&& c.plan is Some && c.report == Some(report) && c.execution is None && c.halt is None
            &&& e.plan is Some && e.report == Some(report) && e.execution == Some(result)
            &&& e.halt is None
            &&& d.halted(reason).report is None && d.halted(reason).execution is None
            &&& d.halted(reason).halt == Some(reason)
            &&& p.stopped(reason).plan is Some && p.stopped(reason).report is None
            &&& p.stopped(reason).execution is None && p.stopped(reason).halt == Some(reason)
        }),
{
}

} // verus!
