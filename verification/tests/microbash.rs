use hstack_agent::microbash::lexer::MicrobashErrorKind;
use hstack_agent::microbash::lower::{parse_and_lower, DeleteMode, FilesystemInstruction};
use hstack_agent::microbash::parse::{parse_command_line, Command, WriteMode};
use hstack_agent::microbash::tool::MicrobashTool;
use hstack_agent::json::Json;
use hstack_agent::agent::error::AgentError;

#[test]
fn lowers_ls_against_cwd_by_default() {
    let cwd = "/project/src";
    let instructions = parse_and_lower(cwd, "ls").unwrap_or_else(|e| panic!("lowering failed: {:?}", e));
    assert_eq!(
        instructions,
        vec![FilesystemInstruction::ListDir { path: cwd.to_string(), limit: None }]
    );
}

#[test]
fn lowers_relative_cat_path() {
    let cwd = "/project/src";
    let instructions = parse_and_lower(cwd, "cat ../README.md --offset 3 --limit 10")
        .unwrap_or_else(|e| panic!("lowering failed: {:?}", e));
    assert_eq!(
        instructions,
        vec![FilesystemInstruction::ReadFile { path: "/project/README.md".to_string(), offset: 3, limit: 10 }]
    );
}

#[test]
fn lowers_write_with_mode_and_token() {
    let cwd = "/";
    let instructions = parse_and_lower(
        cwd,
        "write /notes.txt \"hello world\" --mode replace_if_token_matches --expected-token abc",
    )
    .unwrap_or_else(|e| panic!("lowering failed: {:?}", e));
    assert_eq!(
        instructions,
        vec![FilesystemInstruction::WriteFile {
            path: "/notes.txt".to_string(),
            content: "hello world".to_string(),
            mode: WriteMode::ReplaceIfTokenMatches,
            expected_conflict_token: Some("abc".to_string()),
        }]
    );
}

#[test]
fn lowers_recursive_rm() {
    let cwd = "/";
    let instructions = parse_and_lower(cwd, "rm -r /tmp").unwrap_or_else(|e| panic!("lowering failed: {:?}", e));
    assert_eq!(
        instructions,
        vec![FilesystemInstruction::DeletePath { path: "/tmp".to_string(), mode: DeleteMode::Recursive }]
    );
}

#[test]
fn rejects_pipelines_explicitly() {
    let err = parse_command_line("ls | cat /tmp").err().unwrap_or_else(|| panic!("expected pipeline rejection"));
    assert_eq!(err.kind, MicrobashErrorKind::UnsupportedConstruct);
    assert_eq!(err.message, "pipelines are not supported in the public baseline");
}

#[test]
fn parses_string_literals() {
    let command = parse_command_line("write relative.txt \"hello\\nworld\"").unwrap_or_else(|e| panic!("parse failed: {:?}", e));
    assert_eq!(
        command.command,
        Command::Write {
            path: "relative.txt".to_string(),
            content: "hello\nworld".to_string(),
            mode: WriteMode::CreateOnly,
            expected_conflict_token: None,
        }
    );
}

#[test]
fn lowering_refuses_paths_above_the_root() {
    let err = parse_and_lower("/", "cat ../../etc/passwd").err().unwrap_or_else(|| panic!("expected refusal"));
    assert_eq!(err.kind, MicrobashErrorKind::InvalidPath);
    assert_eq!(err.message, "path escapes the virtual root");
}

#[test]
fn microbash_command_is_trimmed_and_required() {
    let tool = MicrobashTool::new();
    assert_eq!(tool.name(), "microbash");
    let args = Json::Object(vec![("command".to_string(), Json::Str("  ls  ".to_string()))]);
    assert_eq!(tool.read_command(&args).unwrap(), "ls");
    let blank = Json::Object(vec![("command".to_string(), Json::Str("   ".to_string()))]);
    match tool.read_command(&blank) {
        Err(AgentError::Provider(m)) => assert_eq!(m, "microbash requires a non-empty 'command' string"),
        other => panic!("unexpected {:?}", other),
    }
}
