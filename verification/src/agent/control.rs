//! The host's control over stack proposals.

use vstd::prelude::*;
use crate::agent::error::AgentError;

verus! {

/// The host's control over stack proposals: a proposal is collected only when
/// the control approves it. Hosts implement it.
pub trait AgentControlSystem {
    /// Whether the control approves the proposal with this JSON text.
    spec fn approves(&self, action: Seq<char>) -> bool;

    /// The error with which the control refuses the proposal with this
    /// JSON text.
    spec fn refusal(&self, action: Seq<char>) -> AgentError;

    /// Approves or refuses a stack proposal, given as its JSON text.
    fn validate_stack_action(&self, action: &String) -> (r: Result<(), AgentError>)
        ensures
            r is Ok <==> self.approves(action@),
            !self.approves(action@) ==> r == Err::<(), AgentError>(self.refusal(action@)),
    ;
}

/// The control of the desktop app, which approves every proposal.
pub struct TauriAgentControl;

impl TauriAgentControl {
    /// The control.
    pub fn new() -> (r: Self) {
        TauriAgentControl
    }
}

impl AgentControlSystem for TauriAgentControl {
    /// Every proposal is approved.
    open spec fn approves(&self, action: Seq<char>) -> bool {
        true
    }

    /// No proposal is refused, so no refusal is ever given.
    open spec fn refusal(&self, action: Seq<char>) -> AgentError {
        AgentError::MaxIterations
    }

    fn validate_stack_action(&self, action: &String) -> (r: Result<(), AgentError>)
    {
        Ok(())
    }
}

} // verus!
