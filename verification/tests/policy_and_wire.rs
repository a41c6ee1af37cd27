use hstack_agent::agent::diagnostics::protocol_diagnostics;
use hstack_agent::agent::error::AgentError;
use hstack_agent::agent::provider::{api_error, authorization_value, chat_completions_url, chat_request_body, first_choice, wire_message};
use hstack_agent::fspolicy::{artifact_class_matches, validate_local_root, Access, FilesystemPolicy};
use hstack_agent::json::Json;
use hstack_agent::memory::{Message, Role, ToolCall};
use hstack_agent::sync::{commute_needs_remote_refresh, next_reconnect_delay, normalize_base_url, websocket_scheme, SyncConnectionStatus};
use hstack_agent::vpath::{from_absolute, VirtualPathError};

fn s(t: &str) -> String {
    t.to_string()
}

fn project_policy() -> FilesystemPolicy {
    FilesystemPolicy {
        readable_roots: vec![s("/project")],
        writable_roots: vec![s("/project")],
        creatable_roots: vec![s("/project")],
        deletable_roots: vec![s("/project")],
        forbidden_path_classes: vec![s("/.config/autostart"), s("/project/.git")],
        forbidden_artifact_classes: vec![s("*.desktop"), s("Cargo.toml")],
        max_read_bytes: 1024,
        max_write_bytes: 16,
    }
}

fn denied(r: Result<(), AgentError>) -> String {
    match r {
        Err(AgentError::Denied(m)) => m,
        other => panic!("expected a denial, got {:?}", other),
    }
}

#[test]
fn policy_denies_paths_outside_allowed_roots() {
    let p = project_policy();
    assert_eq!(denied(p.ensure_access(Access::Read, "/other/file.txt")), "filesystem path '/other/file.txt' is not permitted for read");
    assert!(p.ensure_access(Access::Write, "/project/file.txt").is_ok());
}

#[test]
fn policy_denies_forbidden_path_and_artifact_classes() {
    let p = project_policy();
    assert_eq!(
        denied(p.ensure_access(Access::Create, "/project/.git/config")),
        "filesystem path '/project/.git/config' matches forbidden path class '/project/.git'"
    );
    assert_eq!(
        denied(p.ensure_access(Access::Write, "/project/launch.DESKTOP")),
        "filesystem path '/project/launch.DESKTOP' matches forbidden artifact class '*.desktop'"
    );
    assert_eq!(
        denied(p.ensure_access(Access::Delete, "/project/Cargo.toml")),
        "filesystem path '/project/Cargo.toml' matches forbidden artifact class 'Cargo.toml'"
    );
    assert!(p.ensure_access(Access::Read, "/project/.github/notes.md").is_ok());
}

#[test]
fn artifact_classes_match_extensions_or_whole_names() {
    assert!(artifact_class_matches("run.desktop", "*.desktop"));
    assert!(artifact_class_matches("a.b.DeskTop", "*.desktop"));
    assert!(!artifact_class_matches("desktop", "*.desktop"));
    assert!(artifact_class_matches("Cargo.toml", "Cargo.toml"));
    assert!(!artifact_class_matches("cargo.toml", "Cargo.toml"));
}

#[test]
fn sandbox_roots_may_not_be_home_or_activation_paths() {
    let home = Some("/home/u");
    match validate_local_root("/home/u/", home) {
        Err(AgentError::Sandbox(m)) => assert_eq!(m, "sandbox root '/home/u/' must not be the real user home directory"),
        other => panic!("unexpected {:?}", other),
    }
    match validate_local_root("/home/u/.config/autostart/x", home) {
        Err(AgentError::Sandbox(m)) => {
            assert_eq!(m, "sandbox root '/home/u/.config/autostart/x' must not map to ambient host activation paths")
        },
        other => panic!("unexpected {:?}", other),
    }
    assert!(validate_local_root("/etc/xdg/autostart", None).is_err());
    assert!(validate_local_root("/home/u/work", home).is_ok());
    assert!(validate_local_root("/etc/xdg", None).is_ok());
}

#[test]
fn absolute_paths_are_normalized_or_refused() {
    assert_eq!(from_absolute("/a//b/./c/../d").unwrap(), "/a/b/d");
    assert_eq!(from_absolute("/").unwrap(), "/");
    assert_eq!(from_absolute("a/b"), Err(VirtualPathError::NotAbsolute));
    assert_eq!(from_absolute("/.."), Err(VirtualPathError::EscapesRoot));
}

#[test]
fn assistant_tool_calls_are_serialized_for_openai_compatible_requests() {
    let message = Message {
        role: Role::Assistant,
        content: None,
        tool_calls: Some(vec![ToolCall {
            id: s("call_123"),
            call_type: s("function"),
            name: s("identity"),
            arguments: s("{\"answer\":\"done\"}"),
        }]),
        tool_call_id: None,
        name: None,
    };
    let json = wire_message(&message);
    let tool_calls = match json.get("tool_calls") {
        Some(Json::Array(items)) => items,
        other => panic!("assistant tool_calls should be present in serialized payload, got {:?}", other),
    };
    assert_eq!(tool_calls.len(), 1);
    assert_eq!(tool_calls[0].get("id").and_then(Json::as_str), Some("call_123"));
    assert_eq!(tool_calls[0].get("type").and_then(Json::as_str), Some("function"));
    assert_eq!(tool_calls[0].get("function").and_then(|f| f.get("name")).and_then(Json::as_str), Some("identity"));
}

#[test]
fn wire_messages_carry_only_their_role_fields() {
    let tool_result = Message {
        role: Role::Tool,
        content: Some(s("ok")),
        tool_calls: Some(vec![]),
        tool_call_id: Some(s("c1")),
        name: Some(s("identity")),
    };
    assert_eq!(
        wire_message(&tool_result).to_text(),
        "{\"role\":\"tool\",\"content\":\"ok\",\"tool_call_id\":\"c1\",\"name\":\"identity\"}"
    );
    let user = Message { role: Role::User, content: Some(s("hi")), tool_calls: None, tool_call_id: Some(s("x")), name: Some(s("n")) };
    let body = chat_request_body("m1", &vec![user], None);
    assert_eq!(body.to_text(), "{\"model\":\"m1\",\"messages\":[{\"role\":\"user\",\"content\":\"hi\"}],\"temperature\":0.7}");
}

#[test]
fn provider_endpoint_authorization_and_errors() {
    assert_eq!(chat_completions_url("https://api.x/v1//"), "https://api.x/v1/chat/completions");
    assert_eq!(authorization_value(""), None);
    assert_eq!(authorization_value("sk"), Some(s("Bearer sk")));
    assert_eq!(authorization_value("Bearer sk"), Some(s("Bearer sk")));
    match api_error(429, "slow down") {
        AgentError::Provider(m) => assert_eq!(m, "API error (status 429): slow down"),
        other => panic!("unexpected {:?}", other),
    }
    match first_choice(vec![]) {
        Err(AgentError::Provider(m)) => assert_eq!(m, "API returned empty choices"),
        other => panic!("unexpected {:?}", other),
    }
}

#[test]
fn sync_helpers_follow_the_runtime_rules() {
    let status = SyncConnectionStatus::default();
    assert!(!status.connected);
    assert_eq!(status.phase, "idle");
    assert_eq!(status.transport_owner, "tauri-rust");
    assert_eq!(normalize_base_url("  https://sync.example/// ").unwrap(), "https://sync.example");
    assert_eq!(normalize_base_url("   ").unwrap_err(), "sync base URL must not be empty");
    assert_eq!(websocket_scheme("https").unwrap(), "wss");
    assert_eq!(websocket_scheme("http").unwrap(), "ws");
    assert_eq!(websocket_scheme("ftp").unwrap_err(), "unsupported sync URL scheme 'ftp'");
    assert_eq!(next_reconnect_delay(1), 2);
    assert_eq!(next_reconnect_delay(20), 30);
    assert_eq!(next_reconnect_delay(u64::MAX), 30);
}

#[test]
fn commutes_need_refresh_until_durations_are_known() {
    assert!(commute_needs_remote_refresh(None));
    let placeholder = Json::Object(vec![
        (s("total_duration"), Json::Str(s("Enriching via Server..."))),
        (s("total_duration_minutes"), Json::Integer(12)),
    ]);
    assert!(commute_needs_remote_refresh(Some(&placeholder)));
    let known = Json::Object(vec![(s("total_duration"), Json::Str(s("12 min"))), (s("total_duration_minutes"), Json::Integer(12))]);
    assert!(!commute_needs_remote_refresh(Some(&known)));
}

#[test]
fn json_text_is_compact_and_ordered() {
    let v = Json::Object(vec![
        (s("b"), Json::Array(vec![Json::Null, Json::Bool(false), Json::Integer(-7)])),
        (s("a"), Json::Str(s("q\"x"))),
    ]);
    assert_eq!(v.to_text(), "{\"b\":[null,false,-7],\"a\":\"q\\\"x\"}");
    assert_eq!(Json::Integer(i128::MIN).to_text(), i128::MIN.to_string());
}

#[test]
fn protocol_diagnostics_flag_tool_results_without_a_call() {
    let call = ToolCall { id: "c1".to_string(), call_type: "function".to_string(), name: "identity".to_string(), arguments: "{}".to_string() };
    let msgs = vec![
        Message { role: Role::User, content: Some("  hi ".to_string()), tool_calls: None, tool_call_id: None, name: None },
        Message { role: Role::Assistant, content: None, tool_calls: Some(vec![call]), tool_call_id: None, name: None },
        Message { role: Role::Tool, content: Some("ok".to_string()), tool_calls: None, tool_call_id: Some("c1".to_string()), name: Some("identity".to_string()) },
        Message { role: Role::Tool, content: Some(" ".to_string()), tool_calls: None, tool_call_id: Some("zz".to_string()), name: None },
    ];
    let lines = protocol_diagnostics(&msgs, "https://x/chat/completions", "m1");
    assert_eq!(
        lines,
        vec![
            "[openai_compat] preparing request api_url=https://x/chat/completions model=m1 messages=4",
            "[openai_compat] #0 role=User content=true tool_calls=0 tool_call_id=- name=-",
            "[openai_compat] assistant message 1 carries tool_calls ids=[c1]",
            "[openai_compat] #1 role=Assistant content=false tool_calls=1 tool_call_id=- name=-",
            "[openai_compat] tool result 2 references tool_call_id=c1 name=identity",
            "[openai_compat] #2 role=Tool content=true tool_calls=0 tool_call_id=c1 name=identity",
            "[openai_compat] tool result 3 references tool_call_id=zz name=-",
            "[openai_compat] protocol risk detected: tool result 3 references unknown tool_call_id=zz",
            "[openai_compat] #3 role=Tool content=false tool_calls=0 tool_call_id=zz name=-",
        ]
    );
}

fn denial(r: Result<(), AgentError>) -> String {
    match r {
        Err(AgentError::Denied(m)) => m,
        other => panic!("expected a denial, got {other:?}"),
    }
}

#[test]
fn denies_paths_outside_allowed_virtual_roots() {
    let policy = FilesystemPolicy::project_sandbox("/project");
    let err = denial(policy.ensure_access(Access::Write, "/other/file.txt"));
    assert!(err.contains("not permitted for write"));
}

#[test]
fn denies_normative_ambient_activation_path_classes() {
    let policy = FilesystemPolicy::project_sandbox("/");
    let err = denial(policy.ensure_access(Access::Write, "/.config/autostart/payload.desktop"));
    assert!(err.contains("forbidden path class"));
}

#[test]
fn denies_normative_activation_artifact_classes() {
    let policy = FilesystemPolicy::project_sandbox("/");
    let err = denial(policy.ensure_access(Access::Write, "/project/launch.desktop"));
    assert!(err.contains("forbidden artifact class"));
}

#[test]
fn allows_ordinary_inert_project_files() {
    let policy = FilesystemPolicy::project_sandbox("/");
    assert_eq!(policy.ensure_access(Access::Write, "/project/Cargo.toml"), Ok(()));
    let data = FilesystemPolicy::safe_data_sandbox("/");
    let err = denial(data.ensure_access(Access::Create, "/run.sh"));
    assert!(err.contains("forbidden artifact class '*.sh'"));
    assert_eq!(FilesystemPolicy::project_sandbox("/").ensure_access(Access::Create, "/run.sh"), Ok(()));
}

#[test]
fn transfers_beyond_the_policy_limits_are_refused() {
    let p = project_policy();
    assert!(p.ensure_read_limit(1024).is_ok());
    assert_eq!(p.ensure_read_limit(1025), Err(AgentError::Sandbox(s("read limit 1025 exceeds policy max 1024"))));
    assert!(p.ensure_write_size(16).is_ok());
    assert_eq!(p.ensure_write_size(17), Err(AgentError::Sandbox(s("write size 17 exceeds policy max 16"))));
    let q = FilesystemPolicy::project_sandbox("/");
    assert_eq!(q.max_read_bytes, 1_048_576);
    assert_eq!(q.max_write_bytes, 1_048_576);
}
