//! The immutable record of one gate decision, and the two predicates that
//! decide whether it may stand as evidence.

use vstd::prelude::*;
use vstd::string::StringExecFns;

verus! {

/// Whether the deletion may proceed or must stop.
#[derive(Debug, Clone, Copy, PartialEq, Eq, Structural)]
pub enum Decision {
    Allow,
    Halt,
}

/// Exploration and resource accounting reported by the simulation.
#[derive(Debug, Clone)]
pub struct BudgetUsed {
    /// Maximum futures allowed to explore
    pub max_futures: u32,
    /// Maximum depth of tree search
    pub max_depth: u32,
    /// Repair budget (retries, rollbacks)
    pub repair_budget: u32,
    /// Futures actually explored
    pub explored_futures: u32,
    /// Futures pruned (violate invariants)
    pub pruned_futures: u32,
}

/// Immutable proof of what a workflow instance concluded.
#[derive(Debug, Clone)]
pub struct ProofArtifact {
    /// Unique identifier for this workflow instance
    pub workflow_id: String,
    /// Version of the invariant set used to judge this run
    pub invariant_set_id: String,
    /// What the convergence gate concluded
    pub decision: Decision,
    /// Remaining invalid futures (must be 0 for Allow)
    pub rif: u32,
    /// Did all futures converge to the same outcome?
    pub converged: bool,
    /// Structurality score (0..=100, must be at least 80 for Allow)
    pub structurality: u8,
    /// Human-readable explanation (clarity only, never safety logic)
    pub reason: String,
    /// Budget usage and exploration statistics
    pub budget: BudgetUsed,
    /// Fingerprint of the execution boundary contract in force
    pub execution_boundary_fingerprint: String,
}

/// The lowest structurality score an Allow decision may carry.
pub const MIN_ALLOW_STRUCTURALITY: u8 = 80;

/// The character of a decimal digit.
pub open spec fn digit_char(d: nat) -> char {
    if d == 0 { '0' }
    else if d == 1 { '1' }
    else if d == 2 { '2' }
    else if d == 3 { '3' }
    else if d == 4 { '4' }
    else if d == 5 { '5' }
    else if d == 6 { '6' }
    else if d == 7 { '7' }
    else if d == 8 { '8' }
    else { '9' }
}

/// The decimal writing of a natural number, without leading zeros.
pub open spec fn decimal(n: nat) -> Seq<char>
    decreases n,
{
    if n < 10 {
        seq![digit_char(n)]
    } else {
        decimal(n / 10) + seq![digit_char(n % 10)]
    }
}

fn digit_str(d: u32) -> (r: &'static str)
    requires
        d < 10,
    ensures
        r@ == seq![digit_char(d as nat)],
{
    proof {
        reveal_strlit("0");
        reveal_strlit("1");
        reveal_strlit("2");
        reveal_strlit("3");
        reveal_strlit("4");
        reveal_strlit("5");
        reveal_strlit("6");
        reveal_strlit("7");
        reveal_strlit("8");
        reveal_strlit("9");
    }
    if d == 0 { "0" }
    else if d == 1 { "1" }
    else if d == 2 { "2" }
    else if d == 3 { "3" }
    else if d == 4 { "4" }
    else if d == 5 { "5" }
    else if d == 6 { "6" }
    else if d == 7 { "7" }
    else if d == 8 { "8" }
    else { "9" }
}

fn decimal_string(n: u32) -> (r: String)
    ensures
        r@ == decimal(n as nat),
    decreases n,
{
    if n < 10 {
        String::from_str(digit_str(n))
    } else {
        let mut s = decimal_string(n / 10);
        s.append(digit_str(n % 10));
        s
    }
}

/// A message that reports a bad value: `head`, the value, then `)`.
pub open spec fn got_message(head: Seq<char>, n: nat) -> Seq<char> {
    head + decimal(n) + ")"@
}

fn got_string(head: &str, n: u32) -> (r: String)
    ensures
        r@ == got_message(head@, n as nat),
{
    let mut s = String::from_str(head);
    let d = decimal_string(n);
    s.append(d.as_str());
    s.append(")");
    s
}

impl ProofArtifact {
    /// All four conditions of an Allow decision hold.
    pub open spec fn allow_holds(&self) -> bool {
        &&& self.decision == Decision::Allow
        &&& self.rif == 0
        &&& self.converged
        &&& self.structurality >= MIN_ALLOW_STRUCTURALITY
    }

    /// The report on the first Allow condition that fails, checked in the
    /// order decision, rif, converged, structurality.
    pub open spec fn allow_failure(&self) -> Seq<char> {
        if self.decision != Decision::Allow {
            "Decision is not Allow"@
        } else if self.rif != 0 {
            got_message("RIF must be 0 (got "@, self.rif as nat)
        } else if !self.converged {
            "Converged must be true"@
        } else {
            got_message("Structurality must be >= 80 (got "@, self.structurality as nat)
        }
    }

    /// Accepts the artifact as proof of a safe Allow outcome, or reports the
    /// first condition that fails.
    pub fn validate_allow_invariants(&self) -> (r: Result<(), String>)
        ensures
            r is Ok <==> self.allow_holds(),
            r matches Err(m) ==> m@ == self.allow_failure(),
    {
        if self.decision != Decision::Allow {
            return Err(String::from_str("Decision is not Allow"));
        }
        if self.rif != 0 {
            return Err(got_string("RIF must be 0 (got ", self.rif));
        }
        if !self.converged {
            return Err(String::from_str("Converged must be true"));
        }
        if self.structurality < MIN_ALLOW_STRUCTURALITY {
            return Err(got_string("Structurality must be >= 80 (got ", self.structurality as u32));
        }
        Ok(())
    }

    /// Accepts the artifact as evidence of a safe stop. A Halt decision is
    /// valid whatever the other fields hold.
    pub fn validate_halt_invariants(&self) -> (r: Result<(), String>)
        ensures
            r is Ok <==> self.decision == Decision::Halt,
            r matches Err(m) ==> m@ == "Decision is not Halt"@,
    {
        if self.decision != Decision::Halt {
            return Err(String::from_str("Decision is not Halt"));
        }
        Ok(())
    }
}

/// Each Allow condition is checked on its own: in an artifact where the other
/// three hold, breaking one of them alone is rejected, with its own report.
pub proof fn lemma_allow_conditions_independent(a: ProofArtifact)
    ensures
        a.decision == Decision::Allow && a.converged && a.structurality >= 80 && a.rif != 0
            ==> !a.allow_holds() && a.allow_failure() == got_message("RIF must be 0 (got "@, a.rif as nat),
        a.decision == Decision::Allow && a.converged && a.rif == 0 && a.structurality < 80
            ==> !a.allow_holds() && a.allow_failure() == got_message("Structurality must be >= 80 (got "@, a.structurality as nat),
        a.decision == Decision::Allow && a.rif == 0 && a.structurality >= 80 && !a.converged
            ==> !a.allow_holds() && a.allow_failure() == "Converged must be true"@,
        a.decision == Decision::Halt ==> !a.allow_holds() && a.allow_failure() == "Decision is not Allow"@,
        a.decision == Decision::Allow && a.rif == 0 && a.converged && a.structurality >= 80 ==> a.allow_holds(),
{
}

/// No artifact passes both gates: the Allow and Halt predicates exclude each other.
pub proof fn lemma_allow_and_halt_exclusive(a: ProofArtifact)
    ensures
        !(a.allow_holds() && a.decision == Decision::Halt),
{
}

} // verus!
