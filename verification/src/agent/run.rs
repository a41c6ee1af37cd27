//! The run loop's decisions, as a state machine the host drives: which
//! turn comes next, when the harness forces the identity turn, and how a
//! run ends. The host performs each command (building the context,
//! calling the provider, running a tool, applying the action) and reports
//! what came of the turn.
//!
//! A run is at most `MAX_ITERATIONS` normal turns and one forced turn. A
//! turn that decodes to an anomaly is never retried as a normal turn: the
//! harness forces the identity turn at once. An answer only ever comes
//! from a stop that an applied action carried, or is the host's fallback.

use vstd::prelude::*;
use crate::agent::error::AgentError;
use crate::text::str_eq;

verus! {

/// The most normal turns a run takes before the forced turn.
pub const MAX_ITERATIONS: usize = 10;

/// The answer the host gives when the forced turn does not stop the run.
pub const HOST_TERMINAL_FALLBACK_ANSWER: &'static str = "I could not complete a valid tool-grounded response for this turn.";

/// The system prompt of the forced turn.
pub const FORCED_TERMINATION_PROMPT: &'static str = "MANDATORY TERMINATION\n- You must now terminate immediately.\n- The only valid terminal action is the identity tool.\n- Call identity exactly once now.\n- If you cannot provide natural-language content, use identity with an empty answer string.\n- No other tool exists in this turn.";

/// Why the forced turn runs.
#[derive(Debug, Clone, PartialEq, Eq)]
pub enum ForcedReason {
    /// The run used up its normal turns.
    MaxIterations,
    /// A normal turn decoded to an anomaly with this reason.
    Anomaly(String),
}

/// Why the host fell back after the forced turn.
#[derive(Debug, Clone, PartialEq, Eq)]
pub enum FallbackCause {
    /// The forced turn's action carried no stop.
    NonTerminalAction,
    /// The forced turn decoded to an anomaly with this reason.
    Anomaly(String),
}

/// Where a run stands.
#[derive(Debug, Clone, PartialEq, Eq)]
pub enum RunState {
    /// Normal turns are running; this many have been applied.
    Normal { iterations: usize },
    /// The forced turn is running.
    Forced { iterations: usize, reason: ForcedReason },
    /// The run has ended.
    Done,
}

/// What the host does next.
#[derive(Debug, Clone, PartialEq, Eq)]
pub enum RunCommand {
    /// Runs normal turn `iteration` with every configured tool.
    NormalTurn { iteration: usize },
    /// Runs the forced turn, with the forced prompt and the identity tool
    /// alone.
    ForcedTurn { reason: ForcedReason },
    /// Records the fallback and stops the run with the fallback answer.
    Fallback { reason: ForcedReason, cause: FallbackCause },
    /// Ends the run with this answer.
    Finish { answer: String },
}

/// What came of a turn.
#[derive(Debug, Clone, PartialEq, Eq)]
pub enum TurnResult {
    /// The decoded action was applied; `answer` is the answer of the last
    /// stop it carried, if any.
    Applied { answer: Option<String> },
    /// The turn decoded to an anomaly with this reason.
    Anomalous { reason: String },
}

/// The state and command at the start of a normal iteration, after
/// `iterations` applied turns: the forced turn once the normal turns are
/// used up.
pub open spec fn begin_of(iterations: usize) -> (RunState, RunCommand) {
    if iterations >= MAX_ITERATIONS {
        (
            RunState::Forced { iterations, reason: ForcedReason::MaxIterations },
            RunCommand::ForcedTurn { reason: ForcedReason::MaxIterations },
        )
    } else {
        (RunState::Normal { iterations }, RunCommand::NormalTurn { iteration: iterations })
    }
}

/// The state and command after a turn that ended with `result`.
pub open spec fn next_of(s: RunState, result: TurnResult) -> (RunState, RunCommand) {
    match s {
        RunState::Normal { iterations } => match result {
            TurnResult::Applied { answer: Some(a) } => (RunState::Done, RunCommand::Finish { answer: a }),
            TurnResult::Applied { answer: None } => begin_of((iterations + 1) as usize),
            TurnResult::Anomalous { reason } => (
                RunState::Forced { iterations, reason: ForcedReason::Anomaly(reason) },
                RunCommand::ForcedTurn { reason: ForcedReason::Anomaly(reason) },
            ),
        },
        RunState::Forced { reason, .. } => match result {
            TurnResult::Applied { answer: Some(a) } => (RunState::Done, RunCommand::Finish { answer: a }),
            TurnResult::Applied { answer: None } => (
                RunState::Done,
                RunCommand::Fallback { reason, cause: FallbackCause::NonTerminalAction },
            ),
            TurnResult::Anomalous { reason: r } => (
                RunState::Done,
                RunCommand::Fallback { reason, cause: FallbackCause::Anomaly(r) },
            ),
        },
        RunState::Done => (RunState::Done, RunCommand::Fallback {
            reason: ForcedReason::MaxIterations,
            cause: FallbackCause::NonTerminalAction,
        }),
    }
}

/// A state a run can be in while a turn is running.
pub open spec fn running(s: RunState) -> bool {
    match s {
        RunState::Normal { iterations } => iterations < MAX_ITERATIONS,
        RunState::Forced { .. } => true,
        RunState::Done => false,
    }
}

/// How many provider turns a run in state `s` may still take, the running
/// one included.
pub open spec fn turns_left(s: RunState) -> nat {
    match s {
        RunState::Normal { iterations } => (MAX_ITERATIONS - iterations + 1) as nat,
        RunState::Forced { .. } => 1,
        RunState::Done => 0,
    }
}

/// Whether a command ends the run.
pub open spec fn ends(c: RunCommand) -> bool {
    c is Finish || c is Fallback
}

impl RunState {
    /// The start of a run.
    pub fn start() -> (r: (RunState, RunCommand))
        ensures
            r == begin_of(0),
    {
        (RunState::Normal { iterations: 0 }, RunCommand::NormalTurn { iteration: 0 })
    }

    /// The state and command after the running turn ended with `result`.
    pub fn after_turn(self, result: TurnResult) -> (r: (RunState, RunCommand))
        requires
            running(self),
        ensures
            r == next_of(self, result),
    {
        match self {
            RunState::Normal { iterations } => match result {
                TurnResult::Applied { answer: Some(a) } => (RunState::Done, RunCommand::Finish { answer: a }),
                TurnResult::Applied { answer: None } => {
                    let n = iterations + 1;
                    if n >= MAX_ITERATIONS {
                        (
                            RunState::Forced { iterations: n, reason: ForcedReason::MaxIterations },
                            RunCommand::ForcedTurn { reason: ForcedReason::MaxIterations },
                        )
                    } else {
                        (RunState::Normal { iterations: n }, RunCommand::NormalTurn { iteration: n })
                    }
                },
                TurnResult::Anomalous { reason } => {
                    let copy = reason.clone();
                    (
                        RunState::Forced { iterations, reason: ForcedReason::Anomaly(reason) },
                        RunCommand::ForcedTurn { reason: ForcedReason::Anomaly(copy) },
                    )
                },
            },
            RunState::Forced { reason, .. } => match result {
                TurnResult::Applied { answer: Some(a) } => (RunState::Done, RunCommand::Finish { answer: a }),
                TurnResult::Applied { answer: None } => (
                    RunState::Done,
                    RunCommand::Fallback { reason, cause: FallbackCause::NonTerminalAction },
                ),
                TurnResult::Anomalous { reason: r } => (
                    RunState::Done,
                    RunCommand::Fallback { reason, cause: FallbackCause::Anomaly(r) },
                ),
            },
            RunState::Done => (RunState::Done, RunCommand::Fallback {
                reason: ForcedReason::MaxIterations,
                cause: FallbackCause::NonTerminalAction,
            }),
        }
    }
}

/// Every turn either ends the run or leaves it running with fewer turns
/// left; a run starts with `MAX_ITERATIONS + 1` turns left, so it takes at
/// most that many provider turns.
pub proof fn run_is_bounded(s: RunState, result: TurnResult)
    requires
        running(s),
    ensures
        turns_left(begin_of(0).0) == MAX_ITERATIONS + 1,
        running(begin_of(0).0),
        ends(next_of(s, result).1) <==> next_of(s, result).0 is Done,
        !ends(next_of(s, result).1) ==> running(next_of(s, result).0) && turns_left(next_of(s, result).0) < turns_left(s),
{
}

/// The forced turn is the last: whatever it comes to, the run ends.
pub proof fn forced_turn_ends_the_run(s: RunState, result: TurnResult)
    requires
        s is Forced,
    ensures
        ends(next_of(s, result).1),
{
}

/// A run's answer is the answer of a stop that an applied action carried:
/// assistant prose never finishes a run.
pub proof fn answers_come_from_stops(s: RunState, result: TurnResult)
    requires
        running(s),
    ensures
        next_of(s, result).1 matches RunCommand::Finish { answer }
            ==> result == (TurnResult::Applied { answer: Some(answer) }),
{
}

/// A normal turn that decodes to an anomaly forces the identity turn at
/// once, carrying the anomaly's reason.
pub proof fn anomaly_forces_identity_turn(iterations: usize, reason: String)
    requires
        iterations < MAX_ITERATIONS,
    ensures
        next_of(RunState::Normal { iterations }, TurnResult::Anomalous { reason }).1
            == (RunCommand::ForcedTurn { reason: ForcedReason::Anomaly(reason) }),
{
}

/// After the last normal turn that applied without a stop, the forced
/// turn runs for the iteration limit.
pub proof fn limit_forces_terminal_turn(s: RunState)
    requires
        s == (RunState::Normal { iterations: (MAX_ITERATIONS - 1) as usize }),
    ensures
        next_of(s, TurnResult::Applied { answer: None }).1
            == (RunCommand::ForcedTurn { reason: ForcedReason::MaxIterations }),
{
}

impl ForcedReason {
    /// The key the forced turn's trace is recorded under.
    pub fn trace_key(&self) -> (r: &'static str)
        ensures
            r@ == (if *self is MaxIterations { "forced_terminal_turn"@ } else { "identity_enforcement_turn"@ }),
    {
        match self {
            ForcedReason::MaxIterations => "forced_terminal_turn",
            ForcedReason::Anomaly(_) => "identity_enforcement_turn",
        }
    }

    /// The reason the forced turn's trace records.
    pub fn text(&self) -> (r: String)
        ensures
            r@ == (match *self {
                ForcedReason::MaxIterations => "max_iterations"@,
                ForcedReason::Anomaly(s) => s@,
            }),
    {
        match self {
            ForcedReason::MaxIterations => String::from_str("max_iterations"),
            ForcedReason::Anomaly(s) => s.clone(),
        }
    }
}

impl FallbackCause {
    /// The forced-turn reason the fallback records.
    pub fn text(&self) -> (r: String)
        ensures
            r@ == (match *self {
                FallbackCause::NonTerminalAction => "forced_turn_non_terminal_action"@,
                FallbackCause::Anomaly(s) => s@,
            }),
    {
        match self {
            FallbackCause::NonTerminalAction => String::from_str("forced_turn_non_terminal_action"),
            FallbackCause::Anomaly(s) => s.clone(),
        }
    }
}

/// The position of the identity tool among the configured tool names, or
/// the invariant error a forced turn fails with when it is missing.
pub fn identity_tool_index(names: &Vec<String>) -> (r: Result<usize, AgentError>)
    ensures
        match r {
            Ok(i) => i < names@.len() && names@[i as int]@ == "identity"@
                && forall|k: int| 0 <= k < i ==> (#[trigger] names@[k])@ != "identity"@,
            Err(e) => (e matches AgentError::Invariant(m) && m@ == "identity tool is missing from agent configuration"@)
                && forall|k: int| 0 <= k < names@.len() ==> (#[trigger] names@[k])@ != "identity"@,
        },
{
    let mut i: usize = 0;
    while i < names.len()
        invariant
            i <= names@.len(),
            forall|k: int| 0 <= k < i ==> (#[trigger] names@[k])@ != "identity"@,
        decreases names@.len() - i,
    {
        if str_eq(names[i].as_str(), "identity") {
            return Ok(i);
        }
        i = i + 1;
    }
    Err(AgentError::Invariant(String::from_str("identity tool is missing from agent configuration")))
}

} // verus!
