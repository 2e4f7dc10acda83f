//! The actions a front end may offer, derived from the phase of a workflow.

use vstd::prelude::*;

verus! {

/// An action a front end may present to its user.
#[derive(Debug, Clone, Copy, PartialEq, Eq, Structural)]
pub enum UiAction {
    AttachEvidence,
    AttachInvariants,
    Validate,
    Plan,
    RunHypersim,
    Execute,
    Halt,
}

/// The phase of a workflow, as a front end sees it.
#[derive(Debug, Clone, Copy, PartialEq, Eq, Structural)]
pub enum UiStateTag {
    Draft,
    Validated,
    Planned,
    Converged,
    Executed,
    Halted,
}

/// What the kernel permits the front end to show for one phase.
#[derive(Debug, Clone)]
pub struct UiContract {
    pub tag: UiStateTag,
    pub allowed: Vec<UiAction>,
}

/// The closed set of actions valid from each phase, in the order offered.
pub open spec fn allowed_actions(tag: UiStateTag) -> Seq<UiAction> {
    match tag {
        UiStateTag::Draft => seq![UiAction::AttachEvidence, UiAction::AttachInvariants, UiAction::Validate],
        UiStateTag::Validated => seq![UiAction::Plan],
        UiStateTag::Planned => seq![UiAction::RunHypersim, UiAction::Halt],
        UiStateTag::Converged => seq![UiAction::Execute],
        UiStateTag::Executed => Seq::empty(),
        UiStateTag::Halted => Seq::empty(),
    }
}

/// The single source of truth for what the front end may offer in a phase.
pub fn contract_for_state(tag: UiStateTag) -> (r: UiContract)
    ensures
        r.tag == tag,
        r.allowed@ == allowed_actions(tag),
{
    let allowed = match tag {
        UiStateTag::Draft => vec![UiAction::AttachEvidence, UiAction::AttachInvariants, UiAction::Validate],
        UiStateTag::Validated => vec![UiAction::Plan],
        UiStateTag::Planned => vec![UiAction::RunHypersim, UiAction::Halt],
        UiStateTag::Converged => vec![UiAction::Execute],
        UiStateTag::Executed => vec![],
        UiStateTag::Halted => vec![],
    };
    assert(allowed@ =~= allowed_actions(tag));
    UiContract { tag, allowed }
}

/// The terminal phases offer no action at all.
pub proof fn lemma_terminal_phases_offer_nothing()
    ensures
        allowed_actions(UiStateTag::Executed).len() == 0,
        allowed_actions(UiStateTag::Halted).len() == 0,
{
}

/// Execution is offered in exactly one phase: Converged.
pub proof fn lemma_execute_offered_only_when_converged(tag: UiStateTag)
    ensures
        allowed_actions(tag).contains(UiAction::Execute) <==> tag == UiStateTag::Converged,
{
    let s = allowed_actions(tag);
    if tag == UiStateTag::Converged {
        assert(s[0] == UiAction::Execute);
    } else {
        assert forall|i: int| 0 <= i < s.len() implies s[i] != UiAction::Execute by {
        }
    }
}

} // verus!
