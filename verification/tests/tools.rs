use hstack_agent::agent::action::AgentAction;
use hstack_agent::agent::catalog::{compose_tools, ToolKind};
use hstack_agent::agent::schema::{build_tool_schemas, tool_spec};
use hstack_agent::compute::tool::LightComputeBackendKind;
use hstack_agent::agent::error::AgentError;
use hstack_agent::agent::tools::{IdentityTool, ScratchpadEditTool, ScratchpadSearchTool};
use hstack_agent::agent::web::{
    configured_provider_name, exa_request_body, read_search_results, web_search_is_available, ExaSearchTool, WebSearchTool,
};
use hstack_agent::edit::{apply_row_patch, EditorEditTool, FilesystemPatchTool};
use hstack_agent::json::Json;
use hstack_agent::memory::WorkingMemory;
use hstack_agent::workspace::delta::WorkspaceDelta;
use hstack_agent::workspace::state::EditorBuffer;

fn s(t: &str) -> String {
    t.to_string()
}

fn obj(entries: Vec<(&str, Json)>) -> Json {
    Json::Object(entries.into_iter().map(|(k, v)| (s(k), v)).collect())
}

fn text(t: &str) -> Json {
    Json::Str(s(t))
}

fn provider_message<T: std::fmt::Debug>(r: Result<T, AgentError>) -> String {
    match r {
        Err(AgentError::Provider(m)) => m,
        other => panic!("expected a provider error, got {:?}", other),
    }
}

#[test]
fn test_compose_tools_unknown_name_is_configuration_error() {
    let err = match compose_tools(&vec![s("identity"), s("not_a_real_tool")], false) {
        Ok(_) => panic!("expected compose_tools to reject unknown tool"),
        Err(err) => err,
    };
    match err {
        AgentError::Configuration(msg) => assert!(msg.contains("Unknown tool 'not_a_real_tool'")),
        other => panic!("unexpected error type from compose_tools: {:?}", other),
    }
}

#[test]
fn identity_requires_an_answer_and_allows_an_empty_one() {
    let tool = IdentityTool;
    assert_eq!(provider_message(tool.action(&obj(vec![]))), "identity requires an 'answer' string");
    match tool.action(&obj(vec![("answer", text(""))])) {
        Ok(AgentAction::Stop(a)) => assert_eq!(a, ""),
        other => panic!("unexpected {:?}", other),
    }
    match tool.action(&obj(vec![("answer", text("  hi "))])) {
        Ok(AgentAction::Stop(a)) => assert_eq!(a, "hi"),
        other => panic!("unexpected {:?}", other),
    }
}

fn patch_of(r: Result<AgentAction, AgentError>) -> (usize, usize, Vec<String>) {
    match r {
        Ok(AgentAction::UpdateWorkspace(WorkspaceDelta::ScratchpadPatch { start_line, delete_count, new_lines })) => {
            (start_line, delete_count, new_lines)
        },
        other => panic!("unexpected {:?}", other),
    }
}

#[test]
fn scratchpad_edit_plans_each_operation() {
    let tool = ScratchpadEditTool;
    assert_eq!(
        patch_of(tool.action(&obj(vec![("operation", text("append")), ("replacement_text", text("a\nb\n"))]))),
        (usize::MAX, 0, vec![s("a"), s("b")])
    );
    assert_eq!(
        patch_of(tool.action(&obj(vec![
            ("operation", text("replace")),
            ("row_start", Json::Integer(1)),
            ("row_end", Json::Integer(3)),
            ("replacement_text", text("x")),
        ]))),
        (1, 2, vec![s("x")])
    );
    assert_eq!(
        patch_of(tool.action(&obj(vec![("operation", text("insert")), ("row_start", Json::Integer(2)), ("replacement_text", text("y"))]))),
        (2, 0, vec![s("y")])
    );
    assert_eq!(
        patch_of(tool.action(&obj(vec![("operation", text("delete")), ("row_start", Json::Integer(0)), ("row_end", Json::Integer(1))]))),
        (0, 1, vec![])
    );
}

#[test]
fn scratchpad_edit_refuses_bad_requests() {
    let tool = ScratchpadEditTool;
    assert_eq!(provider_message(tool.action(&obj(vec![]))), "scratchpad_edit requires an 'operation' string");
    assert_eq!(
        provider_message(tool.action(&obj(vec![("operation", text("replace")), ("row_start", Json::Integer(0)), ("row_end", Json::Integer(1))]))),
        "scratchpad_edit requires string 'replacement_text' for append, replace, and insert"
    );
    assert_eq!(
        provider_message(tool.action(&obj(vec![
            ("operation", text("replace")),
            ("row_start", Json::Integer(3)),
            ("row_end", Json::Integer(1)),
            ("replacement_text", text("x")),
        ]))),
        "scratchpad_edit requires row_end >= row_start"
    );
    assert_eq!(
        provider_message(tool.action(&obj(vec![("operation", text("rotate")), ("replacement_text", text("x"))]))),
        "scratchpad_edit received unsupported operation"
    );
    assert_eq!(
        provider_message(tool.action(&obj(vec![("operation", text("append")), ("new_lines", Json::Array(vec![text("x")]))]))),
        "scratchpad_edit requires string 'replacement_text' for append, replace, and insert"
    );
}

#[test]
fn scratchpad_search_finds_lines_ignoring_case() {
    let mut memory = WorkingMemory::new();
    memory.workspace.scratchpad.document_lines = vec![s("Alpha"), s("beta"), s("ALPHABET")];
    let tool = ScratchpadSearchTool;
    match tool.action(&obj(vec![("query", text(" alpha "))]), &memory) {
        Ok(AgentAction::UpdateWorkingMemory(hstack_agent::agent::action::WorkingMemoryDelta::AddTechnicalNoise(k, p))) => {
            assert_eq!(k, "scratchpad_search:alpha");
            assert_eq!(
                p.to_text(),
                "{\"matches\":[{\"content\":\"Alpha\",\"line\":0},{\"content\":\"ALPHABET\",\"line\":2}]}"
            );
        },
        other => panic!("unexpected {:?}", other),
    }
    assert_eq!(
        provider_message(tool.action(&obj(vec![("query", text("  "))]), &memory)),
        "scratchpad_search requires a non-empty 'query' string"
    );
}

#[test]
fn row_patches_splice_rows_and_keep_the_final_newline() {
    assert_eq!(apply_row_patch("a\nb\nc\n", 1, 1, &vec![s("B")], "/f").unwrap(), "a\nB\nc\n");
    assert_eq!(apply_row_patch("a\nb", 2, 0, &vec![s("c")], "/f").unwrap(), "a\nb\nc");
    assert_eq!(apply_row_patch("", 0, 5, &vec![s("x")], "/f").unwrap(), "x");
    assert_eq!(
        apply_row_patch("a\n", 3, 0, &vec![], "/f").unwrap_err(),
        "patch start_line 3 exceeds file line count 2 for '/f'"
    );
}

#[test]
fn editor_edit_targets_the_open_buffer_or_a_named_path() {
    let tool = EditorEditTool::new();
    let memory = WorkingMemory::new();
    let args = obj(vec![("operation", text("append")), ("replacement_text", text("x"))]);
    assert_eq!(
        provider_message(tool.prepare(&args, &memory)),
        "editor_edit requires 'path' when no editor buffer is open"
    );
    let mut open = WorkingMemory::new();
    open.workspace.editor.buffer = Some(EditorBuffer { path: s("/src/lib.rs"), conflict_token: Some(s("t1")), lines: vec![] });
    let req = tool.prepare(&args, &open).unwrap();
    assert_eq!(req.path, "/src/lib.rs");
    let patch = tool.plan(&args, &open, req, "a\nb\n", Some(s("t0"))).unwrap();
    assert_eq!((patch.start_line, patch.delete_count), (2, 0));
    assert_eq!(patch.expected_conflict_token, Some(s("t1")));
    assert_eq!(patch.patch_text(), "{\"delete_count\":0,\"new_lines\":[\"x\"],\"start_line\":2}");
    let named = obj(vec![("operation", text("delete")), ("path", text("/a/../b.txt")), ("row_start", Json::Integer(0)), ("row_end", Json::Integer(1))]);
    let req = tool.prepare(&named, &open).unwrap();
    assert_eq!(req.path, "/b.txt");
    let patch = tool.plan(&named, &open, req, "one\ntwo", Some(s("t9"))).unwrap();
    assert_eq!((patch.start_line, patch.delete_count, patch.new_lines.len()), (0, 1, 0));
    assert_eq!(patch.expected_conflict_token, Some(s("t9")));
    let relative = obj(vec![("operation", text("append")), ("path", text("b.txt")), ("replacement_text", text("x"))]);
    assert_eq!(provider_message(tool.prepare(&relative, &open)), "editor_edit path error: path must be absolute");
}

#[test]
fn filesystem_patch_reads_path_rows_and_token() {
    let tool = FilesystemPatchTool::new();
    assert_eq!(provider_message(tool.prepare(&obj(vec![("operation", text("append"))]))), "filesystem_patch requires a string 'path'");
    let args = obj(vec![
        ("operation", text("replace")),
        ("path", text("/notes.txt")),
        ("row_start", Json::Integer(0)),
        ("row_end", Json::Integer(2)),
        ("replacement_text", text("z")),
        ("expected_conflict_token", text("tok")),
    ]);
    let (op, path) = tool.prepare(&args).unwrap();
    assert_eq!((op.as_str(), path.as_str()), ("replace", "/notes.txt"));
    let patch = tool.plan(&args, &op, path, "a\nb\nc").unwrap();
    assert_eq!((patch.start_line, patch.delete_count), (0, 2));
    assert_eq!(patch.new_lines, vec![s("z")]);
    assert_eq!(patch.expected_conflict_token, Some(s("tok")));
    let escaping = obj(vec![("operation", text("append")), ("path", text("/../x"))]);
    assert_eq!(provider_message(tool.prepare(&escaping)), "filesystem_patch path error: path escapes the virtual root");
}

#[test]
fn test_web_search_rejects_invalid_num_results_before_network() {
    let args = obj(vec![("query", text("rust")), ("num_results", Json::Integer(40))]);
    assert_eq!(provider_message(WebSearchTool::parse_request(&args)), "web_search 'num_results' must be between 1 and 25");
    let args = obj(vec![("query", text("rust")), ("num_results", text("5"))]);
    assert_eq!(provider_message(ExaSearchTool::parse_request(&args)), "exa_search 'num_results' must be an integer");
    let args = obj(vec![("query", text(" rust ")), ("include_domains", Json::Array(vec![text(" docs.rs ")]))]);
    let req = WebSearchTool::parse_request(&args).unwrap();
    assert_eq!((req.query.as_str(), req.num_results), ("rust", 5));
    assert_eq!(req.include_domains, vec![s("docs.rs")]);
    assert_eq!(
        exa_request_body(&req).to_text(),
        "{\"includeDomains\":[\"docs.rs\"],\"numResults\":5,\"query\":\"rust\"}"
    );
    let bad = obj(vec![("query", text("q")), ("include_domains", Json::Array(vec![text(" ")]))]);
    assert_eq!(provider_message(WebSearchTool::parse_request(&bad)), "web_search 'include_domains' must contain non-empty strings");
}

#[test]
fn web_search_availability_follows_provider_and_key() {
    assert_eq!(configured_provider_name(None), "exa");
    assert_eq!(configured_provider_name(Some("  EXA ")), "exa");
    assert!(web_search_is_available(None, Some("key")));
    assert!(!web_search_is_available(None, Some("  ")));
    assert!(!web_search_is_available(Some("bing"), Some("key")));
    assert!(!web_search_is_available(None, None));
}

#[test]
fn search_results_are_read_with_defaults() {
    let payload = obj(vec![(
        "results",
        Json::Array(vec![
            obj(vec![("title", text("T")), ("url", text("https://x")), ("text", text("body")), ("score", Json::Fractional(s("0.5")))]),
            obj(vec![]),
        ]),
    )]);
    let results = read_search_results(&payload, Some("exa"));
    assert_eq!(results.len(), 2);
    assert_eq!(results[0].title, "T");
    assert_eq!(results[0].url.as_deref(), Some("https://x"));
    assert_eq!(results[0].metadata, "{\"provider\":\"exa\",\"published_date\":null,\"score\":0.5}");
    assert_eq!(results[1].title, "Untitled");
    assert_eq!(results[1].snippet, "");
    assert_eq!(results[1].url, None);
    assert_eq!(read_search_results(&obj(vec![]), None).len(), 0);
}

#[test]
fn tool_schemas_are_what_the_provider_is_told() {
    let identity = tool_spec(ToolKind::Identity, LightComputeBackendKind::V8, None);
    assert_eq!(identity.name, "identity");
    assert_eq!(identity.description, "Signals that the task is complete and returns the final answer.");
    assert_eq!(
        identity.parameters.to_text(),
        "{\"properties\":{\"answer\":{\"description\":\"The final natural language response to the user.\",\"type\":\"string\"}},\"required\":[\"answer\"],\"type\":\"object\"}"
    );
    let manage = tool_spec(ToolKind::ManageApp, LightComputeBackendKind::V8, None);
    assert_eq!(
        manage.parameters.to_text(),
        "{\"properties\":{\"action\":{\"enum\":[\"open\",\"close\",\"focus\",\"pin\",\"unpin\",\"scroll_up\",\"scroll_down\"],\"type\":\"string\"},\"app_id\":{\"enum\":[\"scratchpad\",\"websearch\",\"stack-search\",\"compute\",\"file-tree\",\"editor\",\"file-search\",\"jobs\"],\"type\":\"string\"},\"lines\":{\"description\":\"Optional scroll amount for scroll actions.\",\"minimum\":1,\"type\":\"integer\"}},\"required\":[\"action\",\"app_id\"],\"type\":\"object\"}"
    );
    let web = tool_spec(ToolKind::WebSearch, LightComputeBackendKind::V8, None);
    assert!(web.parameters.to_text().starts_with(
        "{\"properties\":{\"include_domains\":{\"description\":\"Optional domain allowlist, for example ['docs.rs', 'github.com'].\",\"items\":{\"type\":\"string\"},\"type\":\"array\"},\"num_results\":{\"description\":\"Number of results to return (1-25).\",\"maximum\":25,\"minimum\":1,\"type\":\"integer\"}"
    ));
    let compute = tool_spec(ToolKind::LightCompute, LightComputeBackendKind::Monty, None);
    assert!(compute.description.starts_with("Runs short sandboxed Python on Monty"));
    let tools = vec![ToolKind::Identity, ToolKind::CreateTicket, ToolKind::DeleteAllTickets];
    let given = Json::Object(vec![("type".to_string(), Json::Str("object".to_string()))]);
    let specs = build_tool_schemas(&tools, LightComputeBackendKind::V8, vec![None, Some(given), None]);
    assert_eq!(specs.len(), 3);
    assert_eq!(specs[1].name, "create_ticket");
    assert_eq!(specs[1].description, "Create a new ticket proposal in the user's stack.");
    assert_eq!(specs[1].parameters.to_text(), "{\"type\":\"object\"}");
    assert_eq!(specs[2].parameters.to_text(), "{\"properties\":{},\"type\":\"object\"}");
}
