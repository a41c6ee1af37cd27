use hstack_agent::agent::action::{AgentAction, WorkingMemoryDelta};
use hstack_agent::agent::error::AgentError;
use hstack_agent::agent::tools::InspectAppTool;
use hstack_agent::json::Json;
use hstack_agent::memory::{Message, Role, WorkingMemory};
use hstack_agent::workspace::context::{PromptFields, SimpleContextManager};
use hstack_agent::workspace::delta::WorkspaceDelta;
use hstack_agent::workspace::model::{AppId, AppLifecycle, EditorDiagnosticSeverity, ViewportCandidate, ViewportTier};
use hstack_agent::workspace::solve::solve_viewport_selection;
use hstack_agent::workspace::near::{scheduled_timestamp, NearEventTicket, UtcInstant, MAX_NEAR_EVENT_ITEMS};
use hstack_agent::workspace::mount::{mount_agent_filesystem, reset_agent_filesystem_workspace};
use hstack_agent::workspace::snapshot::workspace_runtime_snapshot;
use hstack_agent::workspace::state::{DirectoryEntry, EditorDiagnostic};
use hstack_agent::workspace::stack::{render_projected_stack, render_recent_actions, RecentAction, StackTicket, TicketStatus, TicketType};

fn s(t: &str) -> String {
    t.to_string()
}

fn user(text: &str) -> Message {
    Message { role: Role::User, content: Some(s(text)), tool_calls: None, tool_call_id: None, name: None }
}

fn fields() -> PromptFields {
    PromptFields {
        recent_actions: s("- none"),
        local_time: s("09:30"),
        local_date: s("2024-05-01"),
        weekday: s("Wednesday"),
        offset: s("+00:00"),
        saved_locations: s("- home"),
    }
}

#[test]
fn short_term_memory_is_bounded_by_budget() {
    let mut memory = WorkingMemory::new();
    memory.workspace.budget.short_term_budget = 40;
    for idx in 0..10 {
        memory.push_message(user(&format!("message number {idx}")));
    }
    assert!(memory.messages.len() < 10);
    assert!(!memory.messages.is_empty());
}

#[test]
fn short_term_kernel_preserves_latest_user_goal() {
    let mut memory = WorkingMemory::new();
    memory.workspace.budget.short_term_budget = 20;
    memory.push_message(user("finish the websocket migration without losing the initial goal"));
    memory.push_message(Message {
        role: Role::Assistant,
        content: Some(s("intermediate reasoning that would otherwise crowd the window")),
        tool_calls: None,
        tool_call_id: None,
        name: None,
    });
    let rendered = memory.workspace.render_short_term_messages(&memory.messages);
    assert!(rendered
        .iter()
        .any(|m| m.role == Role::User && m.content.as_deref().map(|c| c.contains("initial goal")).unwrap_or(false)));
}

#[test]
fn materialized_allocation_persists_mounted_apps() {
    let mut memory = WorkingMemory::new();
    let _ = memory.workspace.apply_delta(WorkspaceDelta::OpenApp(AppId::StackSearch), false);
    let _ = memory.workspace.apply_delta(WorkspaceDelta::FocusApp(AppId::StackSearch), false);
    let plan = memory.workspace.materialize_allocation_plan(false);
    assert!(plan.mounted_apps.contains(&AppId::StackSearch));
    assert!(memory.workspace.dock.mounted_apps.contains(&AppId::StackSearch));
    assert_eq!(memory.workspace.stack_search.lifecycle, AppLifecycle::OpenMountedFocused);
}

#[test]
fn context_keeps_the_prompt_and_the_projection_apart() {
    let mut memory = WorkingMemory::new();
    memory.push_message(user("single question"));
    let _ = memory.workspace.apply_delta(
        WorkspaceDelta::ScratchpadAppend { thought: s("projection note"), metadata: None },
        false,
    );
    let plan = memory.workspace.materialize_allocation_plan(false);
    let messages = SimpleContextManager.construct_context(
        "BASE at {local_time} on {weekday}",
        &memory,
        &fields(),
        &Vec::new(),
        &plan,
    );
    assert_eq!(messages.len(), 2);
    assert_eq!(messages[0].role, Role::System);
    assert_eq!(messages[0].content.as_deref(), Some("BASE at 09:30 on Wednesday"));
    assert_eq!(messages[1].role, Role::User);
    let projection = messages[1].content.as_deref().unwrap_or("");
    assert!(projection.starts_with("SHORT-TERM KERNEL\npolicy: v1_last_user_goal_pinned\n"));
    assert!(projection.contains("- user: single question\n"));
    assert!(projection.contains("PROJECTED STACK"));
    assert!(projection.contains("DOCK"));
    assert!(projection.contains("projection note"));
    assert!(!messages[0].content.as_deref().unwrap_or("").contains("single question"));
    assert_eq!(projection.matches("single question").count(), 1);
    let occurrences = messages.iter().filter_map(|m| m.content.as_deref()).filter(|c| c.contains("single question")).count();
    assert_eq!(occurrences, 1);
}

fn at(seconds: i64) -> UtcInstant {
    UtcInstant { seconds, nanos: 0 }
}

fn ticket(id: &str, title: &str, when: Option<i64>, urgent: bool) -> NearEventTicket {
    NearEventTicket { ticket_id: s(id), title: s(title), scheduled: when.map(|t| (at(t), format!("T{t:012}"))), urgent }
}

#[test]
fn near_events_surface_scheduled_and_urgent_items_in_order() {
    let now = 1_000_000;
    let mut memory = WorkingMemory::new();
    let tickets = vec![
        ticket("a", "Later", Some(now + 3600 * 10), false),
        ticket("b", "Far", Some(now + 3600 * 100), false),
        ticket("c", "Urgent far", Some(now + 3600 * 100), true),
        ticket("d", "Sooner", Some(now + 3600), false),
        ticket("e", "Plain", None, false),
    ];
    memory.workspace.refresh_near_events(&tickets, at(now));
    let got: Vec<(&str, &str)> = memory.workspace.near_events.iter().map(|e| (e.title.as_str(), e.reason.as_str())).collect();
    assert_eq!(
        got,
        vec![("Urgent far", "urgent_priority"), ("Sooner", "scheduled_within_72h"), ("Later", "scheduled_within_72h")]
    );
    let many: Vec<NearEventTicket> = (0..12).map(|i| ticket(&format!("t{i}"), &format!("n{i:02}"), None, true)).collect();
    memory.workspace.refresh_near_events(&many, at(now));
    assert_eq!(memory.workspace.near_events.len(), MAX_NEAR_EVENT_ITEMS);
    assert_eq!(memory.workspace.near_events[0].title, "n00");
}

#[test]
fn inspect_app_reports_the_visible_scratchpad_viewport() {
    let mut memory = WorkingMemory::new();
    let _ = memory.workspace.apply_delta(WorkspaceDelta::ScratchpadAppend { thought: s("first"), metadata: None }, false);
    let report = memory.workspace.inspect_app(AppId::Scratchpad);
    assert_eq!(report.get("app_id").and_then(Json::as_str), Some("scratchpad"));
    match report.get("visible") {
        Some(Json::Array(items)) => {
            assert_eq!(items.first().and_then(Json::as_str), Some("0 | # Scratchpad"));
            assert_eq!(items.get(1).and_then(Json::as_str), Some("1 | first"));
        },
        other => panic!("unexpected {:?}", other),
    }
    let editor = memory.workspace.inspect_app(AppId::Editor);
    assert!(matches!(editor.get("path"), Some(Json::Null)));
}

#[test]
fn errors_describe_their_kind() {
    assert_eq!(AgentError::Provider(s("x")).describe(), "Provider error: x");
    assert_eq!(AgentError::Api { status: 500, body: s("down") }.describe(), "API error (status 500): down");
    assert_eq!(AgentError::MaxIterations.describe(), "Max iterations reached");
    assert_eq!(AgentError::Denied(s("no")).describe(), "Control system denied action: no");
}

fn stack_ticket(id: &str, kind: TicketType, status: TicketStatus, title: &str, at: Option<&str>) -> StackTicket {
    StackTicket { id: s(id), ticket_type: kind, status, title: s(title), scheduled_time_iso: at.map(s) }
}

#[test]
fn projected_stack_lists_each_ticket_with_a_short_id() {
    assert_eq!(render_projected_stack(&Vec::new(), 10), "PROJECTED STACK\n- none\n");
    let tickets = vec![
        stack_ticket("0123456789abcdef", TicketType::Event, TicketStatus::InFocus, "Dentist", Some("2026-03-04T09:00:00Z")),
        stack_ticket("abc", TicketType::Task, TicketStatus::Idle, "Taxes", None),
    ];
    assert_eq!(
        render_projected_stack(&tickets, 1000),
        "PROJECTED STACK\n- EVENT :: in_focus :: Dentist @ 2026-03-04T09:00:00Z [01234567]\n- TASK :: idle :: Taxes [abc]\n"
    );
}

#[test]
fn projected_stack_is_cut_to_at_least_256_tokens() {
    let long = "x".repeat(2000);
    let tickets = vec![stack_ticket("id", TicketType::Habit, TicketStatus::Completed, &long, None)];
    let out = render_projected_stack(&tickets, 0);
    assert_eq!(out.chars().count(), 1024);
    assert!(out.starts_with("PROJECTED STACK\n- HABIT :: completed :: xxx"));
}

fn action(kind: &str, title: Option<&str>, at: i64) -> RecentAction {
    RecentAction { action_type: s(kind), title: title.map(s), entity_type: s("ticket"), timestamp: at }
}

#[test]
fn recent_actions_list_the_latest_five_newest_first() {
    assert_eq!(render_recent_actions(&Vec::new()), "- none");
    let actions: Vec<RecentAction> = (1..=7).map(|i| action("Create", Some(&format!("T{i}")), i)).collect();
    assert_eq!(
        render_recent_actions(&actions),
        "- Create: T7 (ticket) at 7\n- Create: T6 (ticket) at 6\n- Create: T5 (ticket) at 5\n- Create: T4 (ticket) at 4\n- Create: T3 (ticket) at 3"
    );
    assert_eq!(render_recent_actions(&vec![action("Delete", None, -2)]), "- Delete: Unknown (ticket) at -2");
}

#[test]
fn runtime_snapshot_reports_policies_dock_and_app_sizes() {
    let mut memory = WorkingMemory::new();
    let _ = memory.workspace.apply_delta(
        WorkspaceDelta::ScratchpadAppend { thought: s("one"), metadata: None },
        false,
    );
    let _ = memory.workspace.apply_delta(
        WorkspaceDelta::ScratchpadAppend { thought: s("two"), metadata: None },
        false,
    );
    let snap = workspace_runtime_snapshot(&memory);
    let text = snap.to_text();
    assert!(text.starts_with("{\"apps\":{\"cli\":{\"history\":0,\"lifecycle\":"));
    assert!(text.ends_with(",\"policy\":{\"near_event\":\"v1_72h_or_urgent\",\"short_term\":\"v1_last_user_goal_pinned\"}}"));
    let lines = snap.get("apps").and_then(|a| a.get("scratchpad")).and_then(|a| a.get("lines"));
    assert!(matches!(lines, Some(Json::Integer(3))));
    let focused = snap.get("dock").and_then(|d| d.get("focused_app"));
    assert!(matches!(focused, Some(Json::Str(f)) if f == memory.workspace.dock.focused_app.label()));
    let mount = snap.get("apps").and_then(|a| a.get("filesystem_mount")).and_then(|m| m.get("host_path"));
    assert!(matches!(mount, Some(Json::Null)));
}

#[test]
fn schedules_are_read_as_utc_instants() {
    assert_eq!(
        scheduled_timestamp(&Some(s("2026-03-04T10:00:00+02:00")), &None),
        Some((at(1772611200), s("2026-03-04T08:00:00+00:00")))
    );
    assert_eq!(
        scheduled_timestamp(&Some(s("not a time")), &Some(s("2026-12-31T23:59:59Z"))),
        Some((at(1798761599), s("2026-12-31T23:59:59+00:00")))
    );
    assert_eq!(
        scheduled_timestamp(&Some(s("2026-12-31T23:59:59.25Z")), &None),
        Some((UtcInstant { seconds: 1798761599, nanos: 250_000_000 }, s("2026-12-31T23:59:59.250+00:00")))
    );
    assert_eq!(scheduled_timestamp(&None, &Some(s("tomorrow"))), None);
    let t = NearEventTicket::of_ticket(s("t1"), s("Dentist"), &Some(s("2026-03-04T08:00:00Z")), &None, true);
    assert_eq!(t.scheduled, Some((at(1772611200), s("2026-03-04T08:00:00+00:00"))));
    assert!(t.urgent);
}

#[test]
fn mounting_a_folder_opens_the_file_tree_at_its_root() {
    let mut memory = WorkingMemory::new();
    let entries = vec![DirectoryEntry { path: s("/notes.md"), name: s("notes.md"), kind: s("file") }];
    mount_agent_filesystem(&mut memory, s("/home/u/project"), entries.clone());
    assert_eq!(memory.workspace.filesystem_mount_host_path.as_deref(), Some("/home/u/project"));
    assert_eq!(memory.workspace.file_tree.lifecycle, AppLifecycle::OpenMounted);
    assert_eq!(memory.workspace.file_tree.cwd, "/");
    assert_eq!(memory.workspace.file_tree.entries, entries);
    assert_eq!(memory.workspace.scratchpad.lifecycle, AppLifecycle::OpenMountedFocused);
    reset_agent_filesystem_workspace(&mut memory);
    assert_eq!(memory.workspace.filesystem_mount_host_path, None);
    assert_eq!(memory.workspace.file_tree.lifecycle, AppLifecycle::InstalledClosed);
    assert!(memory.workspace.file_tree.entries.is_empty());
}

fn keys_of(j: &Json) -> Vec<String> {
    match j {
        Json::Object(es) => es.iter().map(|e| e.0.clone()).collect(),
        other => panic!("not an object: {:?}", other),
    }
}

#[test]
fn inspect_app_reports_the_viewport_and_diagnostics_with_sorted_keys() {
    let mut memory = WorkingMemory::new();
    memory.workspace.editor.diagnostics.push(EditorDiagnostic {
        path: s("/workspace/a.rs"),
        start_line: 3,
        start_column: 4,
        end_line: 5,
        end_column: 6,
        severity: EditorDiagnosticSeverity::Warning,
        source: None,
        message: s("unused"),
    });
    let report = memory.workspace.inspect_app(AppId::Editor);
    let viewport = report.get("viewport").expect("viewport");
    assert_eq!(keys_of(viewport), vec![s("line_count"), s("start_line")]);
    let vp = memory.workspace.editor.viewport;
    assert!(matches!(viewport.get("start_line"), Some(Json::Integer(n)) if *n == vp.start_line as i128));
    assert!(matches!(viewport.get("line_count"), Some(Json::Integer(n)) if *n == vp.line_count as i128));
    match report.get("diagnostics") {
        Some(Json::Array(items)) => {
            assert_eq!(items.len(), 1);
            let d = &items[0];
            assert_eq!(
                keys_of(d),
                vec![
                    s("end_column"),
                    s("end_line"),
                    s("message"),
                    s("path"),
                    s("severity"),
                    s("source"),
                    s("start_column"),
                    s("start_line")
                ]
            );
            assert_eq!(d.get("severity").and_then(Json::as_str), Some("Warning"));
            assert_eq!(d.get("message").and_then(Json::as_str), Some("unused"));
            assert_eq!(d.get("path").and_then(Json::as_str), Some("/workspace/a.rs"));
            assert!(matches!(d.get("source"), Some(Json::Null)));
            assert!(matches!(d.get("start_line"), Some(Json::Integer(3))));
            assert!(matches!(d.get("start_column"), Some(Json::Integer(4))));
            assert!(matches!(d.get("end_line"), Some(Json::Integer(5))));
            assert!(matches!(d.get("end_column"), Some(Json::Integer(6))));
        },
        other => panic!("unexpected {:?}", other),
    }
}

fn app_args(name: &str) -> Json {
    Json::Object(vec![(s("app_id"), Json::Str(s(name)))])
}

#[test]
fn inspect_app_tool_records_the_report_under_the_app_label() {
    let memory = WorkingMemory::new();
    match InspectAppTool.action(&app_args("editor"), &memory, false) {
        Ok(AgentAction::UpdateWorkingMemory(WorkingMemoryDelta::AddTechnicalNoise(k, p))) => {
            assert_eq!(k, "inspect_app:editor");
            assert_eq!(p.to_text(), memory.workspace.inspect_app(AppId::Editor).to_text());
        },
        other => panic!("unexpected {:?}", other),
    }
}

#[test]
fn inspect_app_tool_refuses_a_missing_or_unavailable_app() {
    let memory = WorkingMemory::new();
    match InspectAppTool.action(&app_args("nothing"), &memory, true) {
        Err(AgentError::Provider(m)) => assert_eq!(m, "inspect_app requires a valid 'app_id'"),
        other => panic!("unexpected {:?}", other),
    }
    match InspectAppTool.action(&app_args("websearch"), &memory, false) {
        Err(AgentError::Provider(m)) => assert_eq!(m, "inspect_app cannot inspect unavailable app 'websearch'"),
        other => panic!("unexpected {:?}", other),
    }
}

#[test]
fn near_events_compare_with_the_horizon_to_the_nanosecond() {
    let now = UtcInstant { seconds: 1_000_000, nanos: 500 };
    let horizon = 1_000_000 + 72 * 3600;
    let due = |id: &str, title: &str, nanos: u32| NearEventTicket {
        ticket_id: s(id),
        title: s(title),
        scheduled: Some((UtcInstant { seconds: horizon, nanos }, s("H"))),
        urgent: false,
    };
    let mut memory = WorkingMemory::new();
    memory.workspace.refresh_near_events(&vec![due("a", "On time", 500), due("b", "Just late", 501)], now);
    let got: Vec<&str> = memory.workspace.near_events.iter().map(|e| e.title.as_str()).collect();
    assert_eq!(got, vec!["On time"]);
}

#[test]
fn near_events_with_the_same_time_and_title_keep_their_order() {
    let mut memory = WorkingMemory::new();
    let tickets = vec![
        ticket("first", "Same", None, true),
        ticket("x", "Other", Some(1_000_100), false),
        ticket("second", "Same", None, true),
        ticket("third", "Same", None, true),
    ];
    memory.workspace.refresh_near_events(&tickets, at(1_000_000));
    let ids: Vec<&str> = memory.workspace.near_events.iter().map(|e| e.ticket_id.as_str()).collect();
    assert_eq!(ids, vec!["first", "second", "third", "x"]);
}

fn candidate(app_id: AppId, mandatory: bool, utility: i64, cost_tokens: usize, content: &str) -> ViewportCandidate {
    ViewportCandidate { app_id, tier: ViewportTier::Preferred, mandatory, utility, cost_tokens, content: s(content) }
}

#[test]
fn viewport_selection_takes_the_best_fit_and_handles_extreme_utilities() {
    let cands = vec![
        candidate(AppId::Scratchpad, true, 5, 10, "pad-small"),
        candidate(AppId::Scratchpad, false, i64::MAX, 40, "pad-big"),
        candidate(AppId::Compute, false, i64::MAX, 40, "compute"),
        candidate(AppId::Jobs, false, i64::MIN, 1, "jobs"),
    ];
    let picked: Vec<String> = solve_viewport_selection(&cands, 100).into_iter().map(|c| c.content).collect();
    assert_eq!(picked, vec![s("pad-big"), s("compute")]);
    let fallback: Vec<String> = solve_viewport_selection(&cands, 10).into_iter().map(|c| c.content).collect();
    assert_eq!(fallback, vec![s("pad-small")]);
}
