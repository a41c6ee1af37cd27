//! The actions that tools produce and the harness applies.

use vstd::prelude::*;
use crate::json::Json;
use crate::memory::Message;
use crate::workspace::delta::WorkspaceDelta;

verus! {

/// A change to the agent's working memory.
#[derive(Debug)]
pub enum WorkingMemoryDelta {
    /// Appends a message to the history.
    AppendMessage(Message),
    /// Records raw tool output or a trace under a key.
    AddTechnicalNoise(String, Json),
}

/// A transition that a tool asks for.
#[derive(Debug)]
pub enum AgentAction {
    /// Updates the short-term context.
    UpdateWorkingMemory(WorkingMemoryDelta),
    /// Updates the workspace: dock and apps.
    UpdateWorkspace(WorkspaceDelta),
    /// Proposes a change to the long-term stack, as the JSON text of the
    /// sync action.
    UpdateStack(String),
    /// Several transitions, in order.
    Compound(Vec<AgentAction>),
    /// Ends the run with a final answer.
    Stop(String),
}

/// One stack proposal per action, or the single proposal itself.
pub fn compound_stack_actions(actions: Vec<String>) -> (r: AgentAction)
    ensures
        actions@.len() == 1 ==> r == AgentAction::UpdateStack(actions@[0]),
        actions@.len() != 1 ==> (r matches AgentAction::Compound(v) && v@.len() == actions@.len()
            && forall|i: int| 0 <= i < v@.len() ==> #[trigger] v@[i] == AgentAction::UpdateStack(actions@[i])),
{
    if actions.len() == 1 {
        return AgentAction::UpdateStack(actions[0].clone());
    }
    let mut mapped: Vec<AgentAction> = Vec::new();
    let mut i: usize = 0;
    while i < actions.len()
        invariant
            i <= actions@.len(),
            mapped@.len() == i,
            forall|k: int| 0 <= k < i ==> #[trigger] mapped@[k] == AgentAction::UpdateStack(actions@[k]),
        decreases actions@.len() - i,
    {
        mapped.push(AgentAction::UpdateStack(actions[i].clone()));
        i = i + 1;
    }
    AgentAction::Compound(mapped)
}

/// The action of a tool that proposes stack changes: the proposals, or
/// the proposal builder's error as a provider error.
pub fn build_stack_action(result: Result<Vec<String>, String>) -> (r: Result<AgentAction, crate::agent::error::AgentError>)
    ensures
        match result {
            Ok(actions) => r matches Ok(a) && (actions@.len() == 1 ==> a == AgentAction::UpdateStack(actions@[0]))
                && (actions@.len() != 1 ==> (a matches AgentAction::Compound(v) && v@.len() == actions@.len()
                && forall|i: int| 0 <= i < v@.len() ==> #[trigger] v@[i] == AgentAction::UpdateStack(actions@[i]))),
            Err(m) => r == Err::<AgentAction, crate::agent::error::AgentError>(crate::agent::error::AgentError::Provider(m)),
        },
{
    match result {
        Ok(actions) => Ok(compound_stack_actions(actions)),
        Err(m) => Err(crate::agent::error::AgentError::Provider(m)),
    }
}

} // verus!
