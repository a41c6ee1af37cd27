use hstack_agent::formal::{
    assistant_content_has_semantic_force, decode_modeled_turn, is_progress, modeled_outcome,
    terminalize_after_non_progress, DriverOutcome, ModeledTurn, StepOutcome, ToolClass,
};

#[test]
fn only_identity_is_terminal_outside_forced_mode() {
    assert_eq!(modeled_outcome(ToolClass::Identity, false), StepOutcome::Terminal);
    assert_eq!(modeled_outcome(ToolClass::FollowUp, false), StepOutcome::NonTerminal);
    assert_eq!(modeled_outcome(ToolClass::StackProposal, false), StepOutcome::NonTerminal);
    assert_eq!(modeled_outcome(ToolClass::Unknown, false), StepOutcome::StructuralAnomaly);
}

#[test]
fn forced_terminal_mode_accepts_only_identity() {
    assert_eq!(modeled_outcome(ToolClass::Identity, true), StepOutcome::Terminal);
    assert_eq!(modeled_outcome(ToolClass::FollowUp, true), StepOutcome::StructuralAnomaly);
    assert_eq!(modeled_outcome(ToolClass::ExaSearch, true), StepOutcome::StructuralAnomaly);
    assert_eq!(modeled_outcome(ToolClass::Unknown, true), StepOutcome::StructuralAnomaly);
}

#[test]
fn bare_assistant_content_is_not_progress() {
    let turn = ModeledTurn {
        tool: ToolClass::Identity,
        has_tool_call: false,
        multiple_tool_calls: false,
        forced_terminal: false,
        assistant_content_present: true,
        arguments_valid: true,
        execution_successful: true,
    };

    assert_eq!(decode_modeled_turn(turn), StepOutcome::StructuralAnomaly);
    assert!(!is_progress(decode_modeled_turn(turn)));
    assert!(!assistant_content_has_semantic_force(turn));
}

#[test]
fn malformed_arguments_are_not_progress() {
    let invalid_args = ModeledTurn {
        tool: ToolClass::SearchStack,
        has_tool_call: true,
        multiple_tool_calls: false,
        forced_terminal: false,
        assistant_content_present: false,
        arguments_valid: false,
        execution_successful: true,
    };

    assert_eq!(decode_modeled_turn(invalid_args), StepOutcome::StructuralAnomaly);
}

#[test]
fn execution_failure_is_not_progress() {
    let turn = ModeledTurn {
        tool: ToolClass::LightCompute,
        has_tool_call: true,
        multiple_tool_calls: false,
        forced_terminal: false,
        assistant_content_present: true,
        arguments_valid: true,
        execution_successful: false,
    };

    assert_eq!(decode_modeled_turn(turn), StepOutcome::StructuralAnomaly);
}

#[test]
fn assistant_narration_does_not_change_tool_semantics() {
    let with_content = ModeledTurn {
        tool: ToolClass::FollowUp,
        has_tool_call: true,
        multiple_tool_calls: false,
        forced_terminal: false,
        assistant_content_present: true,
        arguments_valid: true,
        execution_successful: true,
    };
    let without_content = ModeledTurn {
        assistant_content_present: false,
        ..with_content
    };

    assert_eq!(decode_modeled_turn(with_content), decode_modeled_turn(without_content));
    assert!(!assistant_content_has_semantic_force(with_content));
}

#[test]
fn multiple_tool_calls_in_single_turn_are_not_progress() {
    let turn = ModeledTurn {
        tool: ToolClass::SearchStack,
        has_tool_call: true,
        multiple_tool_calls: true,
        forced_terminal: false,
        assistant_content_present: false,
        arguments_valid: true,
        execution_successful: true,
    };

    assert_eq!(decode_modeled_turn(turn), StepOutcome::StructuralAnomaly);
    assert!(!is_progress(decode_modeled_turn(turn)));
}

#[test]
fn terminalization_after_non_progress_is_total() {
    let invalid_forced_turn = ModeledTurn {
        tool: ToolClass::FollowUp,
        has_tool_call: true,
        multiple_tool_calls: false,
        forced_terminal: true,
        assistant_content_present: false,
        arguments_valid: true,
        execution_successful: true,
    };

    assert_eq!(
        terminalize_after_non_progress(invalid_forced_turn),
        DriverOutcome::Answered
    );
}
