use hstack_agent::agent::action::{AgentAction, WorkingMemoryDelta};
use hstack_agent::agent::apply::apply_action;
use hstack_agent::agent::contract::{insert_tool_contract_message, summarize_tool_parameters, ToolSpec};
use hstack_agent::agent::control::{AgentControlSystem, TauriAgentControl};
use hstack_agent::agent::decode::{plan_turn, CallOutcome, DecodeAnomaly, TurnPlan};
use hstack_agent::agent::error::AgentError;
use hstack_agent::agent::run::{
    identity_tool_index, FallbackCause, ForcedReason, RunCommand, RunState, TurnResult, HOST_TERMINAL_FALLBACK_ANSWER,
    MAX_ITERATIONS,
};
use hstack_agent::agent::turn::{fallback_record, iteration_record, limit_record, turn_action};
use hstack_agent::json::Json;
use hstack_agent::memory::{Message, NoiseEntry, Role, ToolCall, WorkingMemory};

fn s(t: &str) -> String {
    t.to_string()
}

fn enum_prop(values: &[&str]) -> Json {
    Json::Object(vec![
        (s("enum"), Json::Array(values.iter().map(|v| Json::Str(s(v))).collect())),
        (s("type"), Json::Str(s("string"))),
    ])
}

#[test]
fn tool_contract_lists_descriptions_and_enum_hints() {
    let manage = ToolSpec {
        name: s("manage_app"),
        description: s("Controls app lifecycle."),
        parameters: Json::Object(vec![
            (
                s("properties"),
                Json::Object(vec![(s("action"), enum_prop(&["open", "close"])), (s("app_id"), enum_prop(&["file-tree", "editor"]))]),
            ),
            (s("type"), Json::Str(s("object"))),
        ]),
    };
    let microbash = ToolSpec {
        name: s("microbash"),
        description: s("Runs constrained microbash commands against the configured sandboxed workspace."),
        parameters: Json::Object(vec![
            (s("properties"), Json::Object(vec![(s("command"), Json::Object(vec![(s("type"), Json::Str(s("string")))]))])),
            (s("type"), Json::Str(s("object"))),
        ]),
    };
    let mut messages = vec![Message { role: Role::System, content: Some(s("BASE")), tool_calls: None, tool_call_id: None, name: None }];
    let tools = vec![manage, microbash];
    insert_tool_contract_message(&mut messages, &tools, false);
    assert_eq!(messages.len(), 1);
    let contract = messages.first().and_then(|m| m.content.as_deref()).unwrap_or("");
    assert!(contract.starts_with("BASE"));
    assert!(contract.contains("available_tools: [manage_app, microbash]"));
    assert!(contract.contains("tool manage_app: Controls app lifecycle."));
    assert!(contract.contains("action ∈ [open, close]"));
    assert!(contract.contains("app_id ∈ [file-tree, editor]"));
    assert!(contract.contains("tool microbash: Runs constrained microbash commands against the configured sandboxed workspace."));
}

#[test]
fn forced_contract_names_identity_only_and_leads_the_messages() {
    let identity = ToolSpec { name: s("identity"), description: s("Ends the run."), parameters: Json::Null };
    let mut messages = vec![Message { role: Role::User, content: Some(s("hi")), tool_calls: None, tool_call_id: None, name: None }];
    insert_tool_contract_message(&mut messages, &vec![identity], true);
    assert_eq!(messages.len(), 2);
    assert_eq!(messages[0].role, Role::System);
    assert_eq!(
        messages[0].content.as_deref(),
        Some("TOOL CONTRACT\n- Mandatory terminal mode is active.\n- The only valid tool in this turn is `identity`.\n- available_tools: [identity]\n- tool identity: Ends the run.\n- Any other tool name is invalid and has no semantic effect.\n")
    );
    assert_eq!(messages[1].content.as_deref(), Some("hi"));
}

#[test]
fn parameter_summary_skips_properties_without_string_enums() {
    let p = Json::Object(vec![(
        s("properties"),
        Json::Object(vec![(s("a"), enum_prop(&["x"])), (s("b"), Json::Object(vec![(s("enum"), Json::Array(vec![Json::Integer(1)]))]))]),
    )]);
    assert_eq!(summarize_tool_parameters(&p), "a ∈ [x]");
    assert_eq!(summarize_tool_parameters(&Json::Null), "");
}

#[test]
fn run_finishes_on_a_stop_and_counts_applied_turns() {
    let (state, cmd) = RunState::start();
    assert_eq!(cmd, RunCommand::NormalTurn { iteration: 0 });
    let (state, cmd) = state.after_turn(TurnResult::Applied { answer: None });
    assert_eq!(cmd, RunCommand::NormalTurn { iteration: 1 });
    let (state, cmd) = state.after_turn(TurnResult::Applied { answer: Some(s("done")) });
    assert_eq!(state, RunState::Done);
    assert_eq!(cmd, RunCommand::Finish { answer: s("done") });
}

#[test]
fn anomaly_forces_the_identity_turn_and_a_failed_forced_turn_falls_back() {
    let (state, _) = RunState::start();
    let (state, cmd) = state.after_turn(TurnResult::Anomalous { reason: s("no_actionable_model_output") });
    assert_eq!(cmd, RunCommand::ForcedTurn { reason: ForcedReason::Anomaly(s("no_actionable_model_output")) });
    let (state, cmd) = state.after_turn(TurnResult::Anomalous { reason: s("unknown_tool") });
    assert_eq!(state, RunState::Done);
    assert_eq!(
        cmd,
        RunCommand::Fallback {
            reason: ForcedReason::Anomaly(s("no_actionable_model_output")),
            cause: FallbackCause::Anomaly(s("unknown_tool")),
        }
    );
}

#[test]
fn run_takes_at_most_ten_normal_turns_then_the_forced_turn() {
    let (mut state, mut cmd) = RunState::start();
    let mut normal_turns = 0;
    while let RunCommand::NormalTurn { .. } = cmd {
        normal_turns += 1;
        let next = state.after_turn(TurnResult::Applied { answer: None });
        state = next.0;
        cmd = next.1;
    }
    assert_eq!(normal_turns, MAX_ITERATIONS);
    assert_eq!(cmd, RunCommand::ForcedTurn { reason: ForcedReason::MaxIterations });
    let (_, cmd) = state.after_turn(TurnResult::Applied { answer: None });
    assert_eq!(cmd, RunCommand::Fallback { reason: ForcedReason::MaxIterations, cause: FallbackCause::NonTerminalAction });
    let (_, cmd) = RunState::Forced { iterations: 10, reason: ForcedReason::MaxIterations }
        .after_turn(TurnResult::Applied { answer: Some(String::new()) });
    assert_eq!(cmd, RunCommand::Finish { answer: String::new() });
}

#[test]
fn identity_must_be_configured_for_the_forced_turn() {
    assert_eq!(identity_tool_index(&vec![s("search_stack"), s("identity")]).unwrap(), 1);
    match identity_tool_index(&vec![s("search_stack")]) {
        Err(AgentError::Invariant(m)) => assert_eq!(m, "identity tool is missing from agent configuration"),
        other => panic!("unexpected {:?}", other),
    }
}

struct Refuse;

impl AgentControlSystem for Refuse {
    fn approves(&self, _action: vstd::seq::Seq<char>) -> bool {
        false
    }

    fn refusal(&self, _action: vstd::seq::Seq<char>) -> AgentError {
        AgentError::Denied(s("no"))
    }

    fn validate_stack_action(&self, _action: &String) -> Result<(), AgentError> {
        Err(AgentError::Denied(s("no")))
    }
}

#[test]
fn applying_collects_stack_proposals_and_returns_the_last_stop() {
    let mut memory = WorkingMemory::new();
    let mut deltas: Vec<String> = Vec::new();
    let action = AgentAction::Compound(vec![
        AgentAction::UpdateStack(s("{\"a\":1}")),
        AgentAction::Stop(s("first")),
        AgentAction::UpdateWorkingMemory(WorkingMemoryDelta::AddTechnicalNoise(s("k"), Json::Bool(true))),
        AgentAction::Stop(s("second")),
    ]);
    let r = apply_action(&TauriAgentControl::new(), action, &mut memory, &mut deltas, false).unwrap();
    assert_eq!(r, Some(s("second")));
    assert_eq!(deltas, vec![s("{\"a\":1}")]);
    assert_eq!(memory.proposed_stack_actions, vec![s("{\"a\":1}")]);
    assert_eq!(memory.technical_noise.len(), 1);
    match &memory.technical_noise[0] {
        NoiseEntry::Record(j) => assert_eq!(j.to_text(), "{\"k\":true}"),
        other => panic!("unexpected {:?}", other),
    }
    let last = memory.messages.last().unwrap();
    assert_eq!(last.role, Role::Assistant);
    assert_eq!(last.content.as_deref(), Some("second"));
}

#[test]
fn a_refused_proposal_ends_the_application_with_the_refusal() {
    let mut memory = WorkingMemory::new();
    let mut deltas: Vec<String> = Vec::new();
    let action = AgentAction::Compound(vec![AgentAction::UpdateStack(s("x")), AgentAction::Stop(s("never"))]);
    match apply_action(&Refuse, action, &mut memory, &mut deltas, false) {
        Err(AgentError::Denied(m)) => assert_eq!(m, "no"),
        other => panic!("unexpected {:?}", other),
    }
    assert!(deltas.is_empty());
    assert!(memory.proposed_stack_actions.is_empty());
    assert!(memory.messages.is_empty());
}

#[test]
fn a_workspace_change_is_recorded_with_its_outcome() {
    let mut memory = WorkingMemory::new();
    let mut deltas: Vec<String> = Vec::new();
    let action = AgentAction::UpdateWorkspace(hstack_agent::workspace::delta::WorkspaceDelta::ScratchpadPatch {
        start_line: usize::MAX,
        delete_count: 0,
        new_lines: vec![s("one")],
    });
    let r = apply_action(&TauriAgentControl::new(), action, &mut memory, &mut deltas, false).unwrap();
    assert_eq!(r, None);
    assert_eq!(memory.workspace.scratchpad.document_lines, vec![s("# Scratchpad"), s("one")]);
    match &memory.technical_noise[0] {
        NoiseEntry::Workspace { outcome, .. } => {
            assert_eq!(*outcome, hstack_agent::workspace::delta::DeltaOutcome::Patched { start_line: 1 })
        },
        other => panic!("unexpected {:?}", other),
    }
}

fn call(name: &str, args: &str) -> ToolCall {
    ToolCall { id: s("call_1"), call_type: s("function"), name: s(name), arguments: s(args) }
}

#[test]
fn bare_prose_and_several_calls_are_anomalies() {
    let allowed = vec![s("identity")];
    match plan_turn(&Some(s("  I am done.  ")), &vec![], &allowed) {
        TurnPlan::Anomaly(DecodeAnomaly::NonActionableAssistantContent { content }) => assert_eq!(content, "I am done."),
        other => panic!("unexpected {:?}", other),
    }
    match plan_turn(&None, &vec![], &allowed) {
        TurnPlan::Anomaly(a) => assert_eq!(a.reason(), "no_actionable_model_output"),
        other => panic!("unexpected {:?}", other),
    }
    match plan_turn(&None, &vec![call("identity", "{}"), call("microbash", "{}")], &allowed) {
        TurnPlan::Anomaly(a) => {
            assert_eq!(a.reason(), "multiple_tool_calls_in_single_turn");
            assert_eq!(a.payload().to_text(), "{\"reason\":\"multiple_tool_calls_in_single_turn\",\"tool_names\":[\"identity\",\"microbash\"]}");
        },
        other => panic!("unexpected {:?}", other),
    }
    match plan_turn(&Some(s("narration")), &vec![call("search_stack", "{}")], &allowed) {
        TurnPlan::Call { tool, ignored_prose } => {
            assert_eq!(tool, None);
            assert_eq!(ignored_prose, Some(s("narration")));
        },
        other => panic!("unexpected {:?}", other),
    }
}

#[test]
fn an_executed_call_applies_the_tool_action_between_its_traces() {
    let c = call("identity", "{\"answer\":\"ok\"}");
    let response = Message { role: Role::Assistant, content: None, tool_calls: Some(vec![c.clone()]), tool_call_id: None, name: None };
    let args = Json::Object(vec![(s("answer"), Json::Str(s("ok")))]);
    let a = turn_action(Some(s("ignored")), &c, CallOutcome::Executed, response, Some(args), Some(AgentAction::Stop(s("ok"))));
    let items = match a {
        AgentAction::Compound(v) => v,
        other => panic!("unexpected {:?}", other),
    };
    assert_eq!(items.len(), 5);
    match &items[0] {
        AgentAction::UpdateWorkingMemory(WorkingMemoryDelta::AddTechnicalNoise(k, p)) => {
            assert_eq!(k, "assistant_content_ignored");
            assert_eq!(p.to_text(), "{\"content\":\"ignored\",\"reason\":\"content_with_tool_calls_has_no_semantic_effect\"}");
        },
        other => panic!("unexpected {:?}", other),
    }
    match &items[2] {
        AgentAction::UpdateWorkingMemory(WorkingMemoryDelta::AddTechnicalNoise(k, p)) => {
            assert_eq!(k, "tool_call:identity");
            assert_eq!(p.to_text(), "{\"arguments\":{\"answer\":\"ok\"}}");
        },
        other => panic!("unexpected {:?}", other),
    }
    match &items[3] {
        AgentAction::Stop(answer) => assert_eq!(answer, "ok"),
        other => panic!("unexpected {:?}", other),
    }
    match &items[4] {
        AgentAction::UpdateWorkingMemory(WorkingMemoryDelta::AppendMessage(m)) => {
            assert_eq!(m.role, Role::Tool);
            assert_eq!(m.content.as_deref(), Some("tool identity executed successfully"));
            assert_eq!(m.tool_call_id.as_deref(), Some("call_1"));
        },
        other => panic!("unexpected {:?}", other),
    }
}

#[test]
fn a_failed_call_applies_no_tool_action() {
    let c = call("microbash", "{}");
    let response = Message { role: Role::Assistant, content: None, tool_calls: Some(vec![c.clone()]), tool_call_id: None, name: None };
    let a = turn_action(None, &c, CallOutcome::Failed { error: s("boom") }, response, Some(Json::Object(vec![])), None);
    let items = match a {
        AgentAction::Compound(v) => v,
        other => panic!("unexpected {:?}", other),
    };
    assert_eq!(items.len(), 4);
    assert!(!items.iter().any(|i| matches!(i, AgentAction::Stop(_))));
    match &items[3] {
        AgentAction::UpdateWorkingMemory(WorkingMemoryDelta::AppendMessage(m)) => {
            assert_eq!(m.content.as_deref(), Some("tool microbash failed: boom"))
        },
        other => panic!("unexpected {:?}", other),
    }
}

#[test]
fn run_records_render_as_compact_json() {
    let response = Message { role: Role::Assistant, content: Some(s("hm")), tool_calls: Some(vec![call("identity", "{}")]), tool_call_id: None, name: None };
    assert_eq!(
        iteration_record(2, &response).to_text(),
        "{\"agent_iteration\":{\"assistant_content\":\"hm\",\"index\":2,\"tool_calls\":[{\"arguments\":\"{}\",\"name\":\"identity\"}]}}"
    );
    assert_eq!(
        limit_record(10).to_text(),
        "{\"agent_limit\":{\"iteration\":10,\"max_iterations\":10,\"reason\":\"max_iterations\"}}"
    );
    let fb = fallback_record(&ForcedReason::MaxIterations, &FallbackCause::NonTerminalAction).to_text();
    assert_eq!(
        fb,
        format!(
            "{{\"host_terminal_fallback\":{{\"answer\":\"{}\",\"forced_turn_reason\":\"forced_turn_non_terminal_action\",\"reason\":\"max_iterations\"}}}}",
            HOST_TERMINAL_FALLBACK_ANSWER
        )
    );
}

#[test]
fn test_update_stack_is_recorded_in_agent_proposal_buffer() {
    let mut memory = WorkingMemory::new();
    let mut deltas: Vec<String> = Vec::new();
    let proposal = s(r#"{"action_id":"proposal-1","entity_id":"ticket-1","entity_type":"TASK","notes":null,"payload":null,"status":null,"timestamp":"now","type":"CREATE"}"#);
    let result = apply_action(&TauriAgentControl::new(), AgentAction::UpdateStack(proposal.clone()), &mut memory, &mut deltas, false);
    assert_eq!(result, Ok(None));
    assert_eq!(deltas.len(), 1);
    assert!(deltas[0].contains("\"action_id\":\"proposal-1\""));
    assert_eq!(memory.proposed_stack_actions.len(), 1);
    assert_eq!(memory.proposed_stack_actions[0], proposal);
}
