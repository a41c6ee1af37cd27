use hstack_agent::agent::error::AgentError;
use hstack_agent::microbash::lower::FilesystemInstruction;
use hstack_agent::microbash::parse::WriteMode;
use hstack_agent::microbash::publish::{instruction_deltas, touched_parent_paths, FilesystemOutcome, ReadResult};
use hstack_agent::workspace::delta::WorkspaceDelta;
use hstack_agent::workspace::state::DirectoryEntry;

fn s(t: &str) -> String {
    t.to_string()
}

fn entry(path: &str, name: &str) -> DirectoryEntry {
    DirectoryEntry { path: s(path), name: s(name), kind: s("file") }
}

#[test]
fn a_listing_is_published_as_the_tree() {
    let i = FilesystemInstruction::ListDir { path: s("/docs"), limit: None };
    let o = FilesystemOutcome::ListDir(vec![entry("/docs/a", "a")]);
    assert!(touched_parent_paths(&i, &o).is_empty());
    match instruction_deltas(&i, o, None, vec![]).unwrap().as_slice() {
        [WorkspaceDelta::PublishFilesystemTree { cwd, entries }] => {
            assert_eq!(cwd, "/docs");
            assert_eq!(entries, &vec![entry("/docs/a", "a")]);
        },
        other => panic!("unexpected {:?}", other),
    }
}

#[test]
fn a_read_that_is_not_utf8_is_refused() {
    let i = FilesystemInstruction::ReadFile { path: s("/bin.dat"), offset: 0, limit: 10 };
    let o = FilesystemOutcome::ReadFile(ReadResult { path: s("/bin.dat"), content: vec![0xff, 0xfe], conflict_token: None });
    match instruction_deltas(&i, o, None, vec![]) {
        Err(AgentError::Sandbox(m)) => assert_eq!(m, "file '/bin.dat' is not valid UTF-8"),
        other => panic!("unexpected {:?}", other),
    }
}

#[test]
fn a_written_file_is_shown_and_its_directory_listed_again() {
    let i = FilesystemInstruction::WriteFile {
        path: s("/dir/a.txt"),
        content: s("hello"),
        mode: WriteMode::CreateOnly,
        expected_conflict_token: None,
    };
    let o = FilesystemOutcome::WriteFile { conflict_token: Some(s("5:1")) };
    assert_eq!(touched_parent_paths(&i, &o), vec![s("/dir")]);
    match instruction_deltas(&i, o, None, vec![Some(vec![entry("/dir/a.txt", "a.txt")])]).unwrap().as_slice() {
        [WorkspaceDelta::PublishEditorBuffer { path, conflict_token, content }, WorkspaceDelta::PublishFilesystemTree { cwd, entries }] => {
            assert_eq!((path.as_str(), conflict_token.as_deref(), content.as_str()), ("/dir/a.txt", Some("5:1"), "hello"));
            assert_eq!(cwd, "/dir");
            assert_eq!(entries.len(), 1);
        },
        other => panic!("unexpected {:?}", other),
    }
}

#[test]
fn a_move_relists_both_ends_where_they_can_be_read() {
    let i = FilesystemInstruction::MovePath { from: s("/a/x"), to: s("/b/y"), overwrite: false };
    let o = FilesystemOutcome::MovePath { from: s("/a/x"), to: s("/b/y") };
    assert_eq!(touched_parent_paths(&i, &o), vec![s("/a"), s("/b")]);
    match instruction_deltas(&i, o, None, vec![None, Some(vec![])]).unwrap().as_slice() {
        [WorkspaceDelta::PublishFilesystemTree { cwd, entries }] => {
            assert_eq!(cwd, "/b");
            assert!(entries.is_empty());
        },
        other => panic!("unexpected {:?}", other),
    }
}

#[test]
fn a_patched_file_is_shown_as_read_back() {
    let i = FilesystemInstruction::PatchFile { path: s("/notes.md"), patch: s("{}"), expected_conflict_token: None };
    let o = FilesystemOutcome::PatchFile { conflict_token: None };
    assert_eq!(touched_parent_paths(&i, &o), vec![s("/")]);
    match instruction_deltas(&i, o, Some(b"new text".to_vec()), vec![None]).unwrap().as_slice() {
        [WorkspaceDelta::PublishEditorBuffer { path, content, .. }] => {
            assert_eq!(path, "/notes.md");
            assert_eq!(content, "new text");
        },
        other => panic!("unexpected {:?}", other),
    }
}
