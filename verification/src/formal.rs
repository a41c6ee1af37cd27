//! The modeled transition algebra of a single provider turn.
//!
//! A provider turn is abstracted to the class of the tool it calls and a few
//! protocol flags. The functions here decide whether such a turn is terminal,
//! non-terminal or a structural anomaly; the proof functions at the end state
//! the harness invariants that every decoded turn obeys.

use vstd::prelude::*;

verus! {

/// The class of tool that a provider turn invokes.
#[derive(Debug, Clone, Copy, PartialEq, Eq, Structural)]
pub enum ToolClass {
    Identity,
    FollowUp,
    SearchStack,
    ExaSearch,
    LightCompute,
    ManageApp,
    InspectApp,
    ScratchThought,
    ScratchpadSearch,
    ScratchpadEdit,
    StackProposal,
    Unknown,
}

/// What one decoded turn does to the agent loop.
#[derive(Debug, Clone, Copy, PartialEq, Eq, Structural)]
pub enum StepOutcome {
    Terminal,
    NonTerminal,
    StructuralAnomaly,
}

/// How the driver loop ends.
#[derive(Debug, Clone, Copy, PartialEq, Eq, Structural)]
pub enum DriverOutcome {
    Answered,
    Failed,
}

/// The protocol-relevant facts of one provider turn.
#[derive(Debug, Clone, Copy, PartialEq, Eq, Structural)]
pub struct ModeledTurn {
    pub tool: ToolClass,
    pub has_tool_call: bool,
    pub multiple_tool_calls: bool,
    pub forced_terminal: bool,
    pub assistant_content_present: bool,
    pub arguments_valid: bool,
    pub execution_successful: bool,
}

/// Outcome of calling a tool of class `tool`: only `Identity` terminates;
/// in forced-terminal mode every other class, and `Unknown` always, is an anomaly.
pub open spec fn outcome_of(tool: ToolClass, forced_terminal: bool) -> StepOutcome {
    if tool == ToolClass::Identity {
        StepOutcome::Terminal
    } else if forced_terminal || tool == ToolClass::Unknown {
        StepOutcome::StructuralAnomaly
    } else {
        StepOutcome::NonTerminal
    }
}

/// A turn is structurally valid when it carries exactly one tool call whose
/// arguments parsed and whose execution succeeded.
pub open spec fn structurally_valid(turn: ModeledTurn) -> bool {
    turn.has_tool_call && !turn.multiple_tool_calls && turn.arguments_valid
        && turn.execution_successful
}

/// Outcome of decoding a whole turn.
pub open spec fn decoded_outcome(turn: ModeledTurn) -> StepOutcome {
    if structurally_valid(turn) {
        outcome_of(turn.tool, turn.forced_terminal)
    } else {
        StepOutcome::StructuralAnomaly
    }
}

/// Progress is any outcome other than a structural anomaly.
pub open spec fn progress(outcome: StepOutcome) -> bool {
    outcome != StepOutcome::StructuralAnomaly
}

/// The tool class that a raw discriminant selects: the residue modulo 12,
/// taken in declaration order, with 11 standing for `Unknown`.
pub open spec fn class_for_index(index: int) -> ToolClass {
    if index == 0 {
        ToolClass::Identity
    } else if index == 1 {
        ToolClass::FollowUp
    } else if index == 2 {
        ToolClass::SearchStack
    } else if index == 3 {
        ToolClass::ExaSearch
    } else if index == 4 {
        ToolClass::LightCompute
    } else if index == 5 {
        ToolClass::ManageApp
    } else if index == 6 {
        ToolClass::InspectApp
    } else if index == 7 {
        ToolClass::ScratchThought
    } else if index == 8 {
        ToolClass::ScratchpadSearch
    } else if index == 9 {
        ToolClass::ScratchpadEdit
    } else if index == 10 {
        ToolClass::StackProposal
    } else {
        ToolClass::Unknown
    }
}

/// Outcome of calling a tool of class `tool`.
pub fn modeled_outcome(tool: ToolClass, forced_terminal: bool) -> (r: StepOutcome)
    ensures
        r == outcome_of(tool, forced_terminal),
{
    if forced_terminal {
        return match tool {
            ToolClass::Identity => StepOutcome::Terminal,
            _ => StepOutcome::StructuralAnomaly,
        };
    }
    match tool {
        ToolClass::Identity => StepOutcome::Terminal,
        ToolClass::FollowUp
        | ToolClass::SearchStack
        | ToolClass::ExaSearch
        | ToolClass::LightCompute
        | ToolClass::ManageApp
        | ToolClass::InspectApp
        | ToolClass::ScratchThought
        | ToolClass::ScratchpadSearch
        | ToolClass::ScratchpadEdit
        | ToolClass::StackProposal => StepOutcome::NonTerminal,
        ToolClass::Unknown => StepOutcome::StructuralAnomaly,
    }
}

/// Decodes a modeled turn. Only the current turn and its protocol validity
/// decide the outcome.
pub fn decode_modeled_turn(turn: ModeledTurn) -> (r: StepOutcome)
    ensures
        r == decoded_outcome(turn),
{
    if !turn.has_tool_call {
        return StepOutcome::StructuralAnomaly;
    }
    if turn.multiple_tool_calls {
        return StepOutcome::StructuralAnomaly;
    }
    if !turn.arguments_valid {
        return StepOutcome::StructuralAnomaly;
    }
    if !turn.execution_successful {
        return StepOutcome::StructuralAnomaly;
    }
    modeled_outcome(turn.tool, turn.forced_terminal)
}

/// Whether an outcome counts as progress.
pub fn is_progress(outcome: StepOutcome) -> (r: bool)
    ensures
        r == progress(outcome),
{
    !matches!(outcome, StepOutcome::StructuralAnomaly)
}

/// The driver outcome of the forced terminal turn after a non-progress turn:
/// the host always answers, whatever the forced turn decodes to.
pub fn terminalize_after_non_progress(forced_turn: ModeledTurn) -> (r: DriverOutcome)
    ensures
        r == DriverOutcome::Answered,
{
    match decode_modeled_turn(forced_turn) {
        StepOutcome::Terminal => DriverOutcome::Answered,
        StepOutcome::NonTerminal | StepOutcome::StructuralAnomaly => DriverOutcome::Answered,
    }
}

/// Whether bare assistant content has any semantic effect: it never has.
pub fn assistant_content_has_semantic_force(turn: ModeledTurn) -> (r: bool)
    ensures
        !r,
{
    if turn.has_tool_call {
        return false;
    }
    false
}

/// The tool class selected by a raw byte: `raw % 12` in declaration order.
pub fn tool_class_from_discriminant(raw: u8) -> (r: ToolClass)
    ensures
        r == class_for_index(raw as int % 12),
{
    match raw % 12 {
        0 => ToolClass::Identity,
        1 => ToolClass::FollowUp,
        2 => ToolClass::SearchStack,
        3 => ToolClass::ExaSearch,
        4 => ToolClass::LightCompute,
        5 => ToolClass::ManageApp,
        6 => ToolClass::InspectApp,
        7 => ToolClass::ScratchThought,
        8 => ToolClass::ScratchpadSearch,
        9 => ToolClass::ScratchpadEdit,
        10 => ToolClass::StackProposal,
        _ => ToolClass::Unknown,
    }
}

/// Builds a modeled turn from a raw tool byte and a flag byte: bit 0 is
/// "has tool call", bit 1 "forced terminal", bit 2 "assistant content",
/// bit 3 "arguments valid", bit 5 "execution successful" and bit 6
/// "multiple tool calls".
pub fn modeled_turn_from_discriminants(raw_tool: u8, raw_flags: u8) -> (r: ModeledTurn)
    ensures
        r.tool == class_for_index(raw_tool as int % 12),
        r.has_tool_call == (raw_flags & 0x01u8 != 0),
        r.forced_terminal == (raw_flags & 0x02u8 != 0),
        r.assistant_content_present == (raw_flags & 0x04u8 != 0),
        r.arguments_valid == (raw_flags & 0x08u8 != 0),
        r.execution_successful == (raw_flags & 0x20u8 != 0),
        r.multiple_tool_calls == (raw_flags & 0x40u8 != 0),
{
    ModeledTurn {
        tool: tool_class_from_discriminant(raw_tool),
        has_tool_call: (raw_flags & 0x01u8) != 0,
        multiple_tool_calls: (raw_flags & 0x40u8) != 0,
        forced_terminal: (raw_flags & 0x02u8) != 0,
        assistant_content_present: (raw_flags & 0x04u8) != 0,
        arguments_valid: (raw_flags & 0x08u8) != 0,
        execution_successful: (raw_flags & 0x20u8) != 0,
    }
}

/// In forced-terminal mode no tool class other than `Identity` terminates.
pub proof fn forced_terminal_mode_never_accepts_non_identity(tool: ToolClass)
    requires
        tool != ToolClass::Identity,
    ensures
        outcome_of(tool, true) != StepOutcome::Terminal,
        outcome_of(tool, true) == StepOutcome::StructuralAnomaly,
{
}

/// `FollowUp` never terminates: it is non-terminal normally and an anomaly
/// in forced-terminal mode.
pub proof fn follow_up_is_never_terminal()
    ensures
        outcome_of(ToolClass::FollowUp, false) == StepOutcome::NonTerminal,
        outcome_of(ToolClass::FollowUp, true) == StepOutcome::StructuralAnomaly,
{
}

/// Outside forced mode, only `Identity` is terminal.
pub proof fn identity_is_the_only_terminal_tool_class(tool: ToolClass)
    ensures
        outcome_of(tool, false) == StepOutcome::Terminal <==> tool == ToolClass::Identity,
{
}

/// A turn without a tool call is a structural anomaly and never progress.
pub proof fn no_tool_call_never_counts_as_progress(turn: ModeledTurn)
    requires
        !turn.has_tool_call,
    ensures
        decoded_outcome(turn) == StepOutcome::StructuralAnomaly,
        !progress(decoded_outcome(turn)),
{
}

/// A tool call with malformed arguments never produces progress.
pub proof fn invalid_arguments_never_produce_progress(turn: ModeledTurn)
    requires
        !turn.arguments_valid,
    ensures
        decoded_outcome(turn) == StepOutcome::StructuralAnomaly,
        !progress(decoded_outcome(turn)),
{
}

/// A tool call whose execution failed never produces progress.
pub proof fn execution_failure_never_produces_progress(turn: ModeledTurn)
    requires
        !turn.execution_successful,
    ensures
        decoded_outcome(turn) == StepOutcome::StructuralAnomaly,
        !progress(decoded_outcome(turn)),
{
}

/// Several tool calls in one turn never produce progress.
pub proof fn multiple_tool_calls_in_single_turn_never_produce_progress(turn: ModeledTurn)
    requires
        turn.multiple_tool_calls,
    ensures
        decoded_outcome(turn) == StepOutcome::StructuralAnomaly,
        !progress(decoded_outcome(turn)),
{
}

/// A terminal decode implies a single, valid, successfully executed
/// `Identity` call.
pub proof fn terminal_progress_requires_identity_and_valid_decode(turn: ModeledTurn)
    requires
        decoded_outcome(turn) == StepOutcome::Terminal,
    ensures
        turn.has_tool_call,
        !turn.multiple_tool_calls,
        turn.arguments_valid,
        turn.execution_successful,
        turn.tool == ToolClass::Identity,
{
}

/// Assistant narration does not change the decoded outcome.
pub proof fn assistant_content_does_not_change_decoded_outcome(turn: ModeledTurn)
    ensures
        decoded_outcome(ModeledTurn { assistant_content_present: true, ..turn })
            == decoded_outcome(ModeledTurn { assistant_content_present: false, ..turn }),
{
}

/// Every decoded outcome is exactly one of the three classes, and progress
/// means the turn was structurally valid and its tool class was not rejected.
pub proof fn progress_requires_structural_validity(turn: ModeledTurn)
    ensures
        progress(decoded_outcome(turn)) ==> structurally_valid(turn)
            && turn.tool != ToolClass::Unknown,
        progress(decoded_outcome(turn)) && turn.forced_terminal ==> turn.tool
            == ToolClass::Identity,
{
}

} // verus!
