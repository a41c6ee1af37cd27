//! Workspace deltas: what tools publish into the workspace, and exactly
//! what applying each one changes.

use vstd::prelude::*;
use crate::text::{chars_of, push_str, string_from_chars, views};
use crate::vpath::{file_name, file_name_of, parent_of, parent_path};
use crate::workspace::model::{
    available, app_is_available, clamped, demoted, scrolled_start, AppId, AppLifecycle,
    TextViewport,
};
use crate::workspace::render::{editor_rows, infer_language_id, language_of, split_editor_content};
use crate::workspace::state::{
    CliRecord, ComputeRecord, DirectoryEntry, EditorBuffer, EditorDiagnostic, JobRecord,
    SearchMatch, SearchResultRecord, WorkspaceState,
};

verus! {

/// A change that a tool publishes into the workspace. JSON payloads
/// (`metadata`, `payload`, `detail`) travel as their JSON text; `metadata`
/// is `None` for JSON `null`.
#[derive(Debug, Clone)]
pub enum WorkspaceDelta {
    ScratchpadAppend { thought: String, metadata: Option<String> },
    ScratchpadPatch { start_line: usize, delete_count: usize, new_lines: Vec<String> },
    PublishSearchResults { app_id: AppId, query: String, results: Vec<SearchResultRecord> },
    RecordCompute { summary: String, payload: String },
    RecordCli { command: String, state: String, cwd: String, transcript: Vec<String> },
    PublishFilesystemTree { cwd: String, entries: Vec<DirectoryEntry> },
    PublishEditorBuffer { path: String, conflict_token: Option<String>, content: String },
    PublishEditorAnalysis {
        path: String,
        language_id: Option<String>,
        diagnostics: Vec<EditorDiagnostic>,
    },
    PublishFilesystemSearch { query: String, scope_root: String, matches: Vec<SearchMatch> },
    RecordJob { summary: String, state: String, detail: String },
    OpenApp(AppId),
    CloseApp(AppId),
    FocusApp(AppId),
    PinApp(AppId),
    UnpinApp(AppId),
    ScrollApp { app_id: AppId, delta: isize },
}

/// What applying a delta reports.
#[derive(Debug, Clone, Copy, PartialEq, Eq, Structural)]
pub enum DeltaOutcome {
    /// The delta was applied.
    Applied,
    /// A scratchpad patch was applied at this line, its start line clamped
    /// to the document.
    Patched { start_line: usize },
    /// Search results were published for an app that is not a search app.
    InvalidSearchApp,
    /// The app is not available, and nothing changed.
    UnavailableApp(AppId),
}

/// The scratchpad line that an appended thought becomes.
pub open spec fn appended_line(thought: Seq<char>, metadata: Option<String>) -> Seq<char> {
    match metadata {
        Some(m) => thought + " :: "@ + m@,
        None => thought,
    }
}

/// The language of a virtual path, from its file name's extension.
pub open spec fn path_language(path: Seq<char>) -> Option<Seq<char>> {
    match file_name_of(path) {
        Some(name) => language_of(name),
        None => None,
    }
}

/// `l` holds the language `lang`.
pub open spec fn holds_language(l: Option<String>, lang: Option<Seq<char>>) -> bool {
    match l {
        Some(s) => lang == Some(s@),
        None => lang is None,
    }
}

/// The directory an editor buffer at `path` lives in: its parent, or the root.
pub open spec fn buffer_dir(path: Seq<char>) -> Seq<char> {
    match parent_of(path) {
        Some(p) => p,
        None => "/"@,
    }
}

/// The smaller of two integers.
pub open spec fn min_int(a: int, b: int) -> int {
    if a <= b {
        a
    } else {
        b
    }
}

/// Where a scratchpad patch starts: its start line, at most the line count.
pub open spec fn patch_start(len: nat, start_line: usize) -> int {
    min_int(start_line as int, len as int)
}

/// Where a scratchpad patch's deletion ends.
pub open spec fn patch_end(len: nat, start_line: usize, delete_count: usize) -> int {
    min_int(patch_start(len, start_line) + delete_count, len as int)
}

impl WorkspaceState {
    /// `self` is `old` after `app` took the focus.
    pub open spec fn focused_on(&self, old: &Self, app: AppId) -> bool {
        &&& self.dock.focused_app == app
        &&& self.dock.mounted_apps == old.dock.mounted_apps
        &&& self.lifecycle_of(app) == AppLifecycle::OpenMountedFocused
        &&& forall|b: AppId|
            b != app ==> #[trigger] self.lifecycle_of(b) == demoted(old.lifecycle_of(b))
        &&& self.same_frames(old)
    }

    /// The content of every app but `app`, and the setting, are as in `old`.
    pub open spec fn content_kept_but(&self, old: &Self, app: AppId) -> bool {
        &&& self.same_setting(old)
        &&& forall|b: AppId| b != app ==> #[trigger] self.app_content_eq(old, b)
    }

    /// `self` is `old` after `app` took the focus and its content alone
    /// changed, the working directory staying.
    pub open spec fn republished(&self, old: &Self, app: AppId) -> bool {
        &&& self.focused_on(old, app)
        &&& self.content_kept_but(old, app)
        &&& self.filesystem_cwd == old.filesystem_cwd
    }

    /// What applying `delta` does to `old`, and what it reports.
    pub open spec fn delta_effect(
        &self,
        old: &Self,
        delta: WorkspaceDelta,
        web: bool,
        out: DeltaOutcome,
    ) -> bool {
        match delta {
            WorkspaceDelta::ScratchpadAppend { thought, metadata } => {
                &&& out == DeltaOutcome::Applied
                &&& self.republished(old, AppId::Scratchpad)
                &&& views(self.scratchpad.document_lines@) == views(
                    old.scratchpad.document_lines@,
                ).push(appended_line(thought@, metadata))
            },
            WorkspaceDelta::ScratchpadPatch { start_line, delete_count, new_lines } => {
                let lines = old.scratchpad.document_lines@;
                let at = patch_start(lines.len(), start_line);
                let end = patch_end(lines.len(), start_line, delete_count);
                &&& out == DeltaOutcome::Patched { start_line: at as usize }
                &&& self.republished(old, AppId::Scratchpad)
                &&& self.scratchpad.document_lines@ == lines.take(at) + new_lines@ + lines.skip(
                    end,
                )
            },
            WorkspaceDelta::PublishSearchResults { app_id, query, results } => {
                &&& self.focused_on(old, app_id)
                &&& self.filesystem_cwd == old.filesystem_cwd
                &&& if app_id == AppId::WebSearch {
                    &&& out == DeltaOutcome::Applied
                    &&& self.content_kept_but(old, AppId::WebSearch)
                    &&& self.web_search.app_id == old.web_search.app_id
                    &&& self.web_search.kind == old.web_search.kind
                    &&& self.web_search.focused_query == Some(query)
                    &&& self.web_search.query_history@ == old.web_search.query_history@.push(
                        query,
                    )
                    &&& self.web_search.results == results
                } else if app_id == AppId::StackSearch {
                    &&& out == DeltaOutcome::Applied
                    &&& self.content_kept_but(old, AppId::StackSearch)
                    &&& self.stack_search.app_id == old.stack_search.app_id
                    &&& self.stack_search.kind == old.stack_search.kind
                    &&& self.stack_search.focused_query == Some(query)
                    &&& self.stack_search.query_history@
                        == old.stack_search.query_history@.push(query)
                    &&& self.stack_search.results == results
                } else {
                    &&& out == DeltaOutcome::InvalidSearchApp
                    &&& self.same_content(old)
                }
            },
            WorkspaceDelta::RecordCompute { summary, payload } => {
                &&& out == DeltaOutcome::Applied
                &&& self.republished(old, AppId::Compute)
                &&& self.compute.history@ == old.compute.history@.push(
                    ComputeRecord { summary, payload },
                )
            },
            WorkspaceDelta::RecordCli { command, state, cwd, transcript } => {
                &&& out == DeltaOutcome::Applied
                &&& self.republished(old, AppId::Cli)
                &&& self.cli.history@ == old.cli.history@.push(
                    CliRecord { command, state, cwd, transcript },
                )
            },
            WorkspaceDelta::PublishFilesystemTree { cwd, entries } => {
                &&& out == DeltaOutcome::Applied
                &&& self.focused_on(old, AppId::FileTree)
                &&& self.content_kept_but(old, AppId::FileTree)
                &&& self.filesystem_cwd == cwd
                &&& self.file_tree.cwd == cwd
                &&& self.file_tree.entries == entries
            },
            WorkspaceDelta::PublishEditorBuffer { path, conflict_token, content } => {
                &&& out == DeltaOutcome::Applied
                &&& self.focused_on(old, AppId::Editor)
                &&& self.content_kept_but(old, AppId::Editor)
                &&& self.filesystem_cwd@ == buffer_dir(path@)
                &&& self.editor.cwd@ == buffer_dir(path@)
                &&& self.editor.buffer matches Some(b) && b.path == path && b.conflict_token
                    == conflict_token && views(b.lines@) == editor_rows(content@)
                &&& self.editor.diagnostics == old.editor.diagnostics
                &&& if old.editor.language_id is None {
                    holds_language(self.editor.language_id, path_language(path@))
                } else {
                    self.editor.language_id == old.editor.language_id
                }
            },
            WorkspaceDelta::PublishEditorAnalysis { path, language_id, diagnostics } => {
                &&& out == DeltaOutcome::Applied
                &&& if old.editor.buffer matches Some(b) && b.path@ == path@ {
                    &&& self.republished(old, AppId::Editor)
                    &&& self.editor.cwd == old.editor.cwd
                    &&& self.editor.buffer == old.editor.buffer
                    &&& self.editor.diagnostics == diagnostics
                    &&& match language_id {
                        Some(l) => self.editor.language_id == Some(l),
                        None => holds_language(self.editor.language_id, path_language(path@)),
                    }
                } else {
                    *self == *old
                }
            },
            WorkspaceDelta::PublishFilesystemSearch { query, scope_root, matches } => {
                &&& out == DeltaOutcome::Applied
                &&& self.focused_on(old, AppId::FileSearch)
                &&& self.content_kept_but(old, AppId::FileSearch)
                &&& self.filesystem_cwd == scope_root
                &&& self.file_search.focused_query == Some(query)
                &&& self.file_search.query_history@ == old.file_search.query_history@.push(query)
                &&& self.file_search.scope_root == scope_root
                &&& self.file_search.matches == matches
            },
            WorkspaceDelta::RecordJob { summary, state, detail } => {
                &&& out == DeltaOutcome::Applied
                &&& self.republished(old, AppId::Jobs)
                &&& self.jobs.history@ == old.jobs.history@.push(
                    JobRecord { summary, state, detail },
                )
            },
            WorkspaceDelta::OpenApp(a) => if !available(a, web) {
                out == DeltaOutcome::UnavailableApp(a) && *self == *old
            } else {
                &&& out == DeltaOutcome::Applied
                &&& self.lifecycle_of(a) == (if a == AppId::Scratchpad {
                    AppLifecycle::OpenMounted
                } else {
                    AppLifecycle::OpenUnmounted
                })
                &&& forall|b: AppId| b != a ==> #[trigger] self.lifecycle_of(b) == old.lifecycle_of(b)
                &&& self.same_content(old)
                &&& self.same_frames(old)
                &&& self.dock == old.dock
            },
            WorkspaceDelta::CloseApp(a) => {
                &&& out == DeltaOutcome::Applied
                &&& self.same_content(old)
                &&& self.same_frames(old)
                &&& self.dock.mounted_apps == old.dock.mounted_apps
                &&& if a == AppId::Scratchpad {
                    *self == *old
                } else if old.dock.focused_app == a {
                    &&& self.lifecycle_of(a) == AppLifecycle::InstalledClosed
                    &&& self.dock.focused_app == AppId::Scratchpad
                    &&& self.lifecycle_of(AppId::Scratchpad) == AppLifecycle::OpenMountedFocused
                    &&& forall|b: AppId|
                        b != a && b != AppId::Scratchpad ==> #[trigger] self.lifecycle_of(b)
                            == demoted(old.lifecycle_of(b))
                } else {
                    &&& self.lifecycle_of(a) == AppLifecycle::InstalledClosed
                    &&& self.dock == old.dock
                    &&& forall|b: AppId| b != a ==> #[trigger] self.lifecycle_of(b) == old.lifecycle_of(b)
                }
            },
            WorkspaceDelta::FocusApp(a) => if !available(a, web) {
                out == DeltaOutcome::UnavailableApp(a) && *self == *old
            } else {
                out == DeltaOutcome::Applied && self.focused_on(old, a) && self.same_content(old)
            },
            WorkspaceDelta::PinApp(a) => if !available(a, web) {
                out == DeltaOutcome::UnavailableApp(a) && *self == *old
            } else {
                out == DeltaOutcome::Applied && self.pinned_as(old, a, true)
            },
            WorkspaceDelta::UnpinApp(a) => out == DeltaOutcome::Applied && self.pinned_as(
                old,
                a,
                false,
            ),
            WorkspaceDelta::ScrollApp { app_id, delta } => if !available(app_id, web) {
                out == DeltaOutcome::UnavailableApp(app_id) && *self == *old
            } else {
                &&& out == DeltaOutcome::Applied
                &&& self.viewport_of(app_id) == clamped(
                    TextViewport {
                        start_line: scrolled_start(old.viewport_of(app_id).start_line, delta),
                        line_count: old.viewport_of(app_id).line_count,
                    },
                    old.scroll_total(app_id),
                )
                &&& forall|b: AppId| b != app_id ==> #[trigger] self.viewport_of(b) == old.viewport_of(b)
                &&& forall|b: AppId| #[trigger] self.pinned_of(b) == old.pinned_of(b)
                &&& forall|b: AppId| #[trigger] self.lifecycle_of(b) == old.lifecycle_of(b)
                &&& self.same_content(old)
                &&& self.dock == old.dock
            },
        }
    }

    /// `self` is `old` with `app` pinned (or unpinned) and nothing else changed.
    pub open spec fn pinned_as(&self, old: &Self, app: AppId, pinned: bool) -> bool {
        &&& self.pinned_of(app) == pinned
        &&& forall|b: AppId| b != app ==> #[trigger] self.pinned_of(b) == old.pinned_of(b)
        &&& forall|b: AppId| #[trigger] self.lifecycle_of(b) == old.lifecycle_of(b)
        &&& forall|b: AppId| #[trigger] self.viewport_of(b) == old.viewport_of(b)
        &&& self.same_content(old)
        &&& self.dock == old.dock
    }
}

/// Focusing an app and then changing only that app's content republishes it.
proof fn lemma_republish(s0: WorkspaceState, s1: WorkspaceState, s2: WorkspaceState, app: AppId)
    requires
        s1.focused_on(&s0, app),
        s1.same_content(&s0),
        s2.dock == s1.dock,
        forall|b: AppId| #[trigger] s2.lifecycle_of(b) == s1.lifecycle_of(b),
        forall|b: AppId| #[trigger] s2.pinned_of(b) == s1.pinned_of(b),
        forall|b: AppId| #[trigger] s2.viewport_of(b) == s1.viewport_of(b),
        s2.same_setting(&s1),
        forall|b: AppId| b != app ==> #[trigger] s2.app_content_eq(&s1, b),
    ensures
        s2.focused_on(&s0, app),
        s2.content_kept_but(&s0, app),
        s2.filesystem_cwd == s0.filesystem_cwd || s2.filesystem_cwd != s1.filesystem_cwd,
{
    assert forall|b: AppId| b != app implies #[trigger] s2.app_content_eq(&s0, b) by {
        assert(s2.app_content_eq(&s1, b));
        assert(s1.app_content_eq(&s0, b));
    }
    assert forall|b: AppId| #![trigger s2.pinned_of(b)] #![trigger s2.viewport_of(b)]
        s2.pinned_of(b) == s0.pinned_of(b) && s2.viewport_of(b) == s0.viewport_of(b) by {
        assert(s1.pinned_of(b) == s0.pinned_of(b));
        assert(s1.viewport_of(b) == s0.viewport_of(b));
    }
}

impl WorkspaceState {
    /// Appends a thought to the scratchpad, with its metadata when there is any.
    fn append_thought(&mut self, thought: String, metadata: Option<String>)
        ensures
            final(self).republished(&*old(self), AppId::Scratchpad),
            views(final(self).scratchpad.document_lines@) == views(
                old(self).scratchpad.document_lines@,
            ).push(appended_line(thought@, metadata)),
    {
        let ghost s0 = *self;
        self.focus_app(AppId::Scratchpad);
        let ghost s1 = *self;
        assert(s1.app_content_eq(&s0, AppId::Scratchpad));
        let mut line = chars_of(thought.as_str());
        match &metadata {
            Some(m) => {
                push_str(&mut line, " :: ");
                push_str(&mut line, m.as_str());
            },
            None => {},
        }
        self.scratchpad.document_lines.push(string_from_chars(&line));
        proof {
            lemma_republish(s0, s1, *self, AppId::Scratchpad);
            assert(views(self.scratchpad.document_lines@) =~= views(
                s0.scratchpad.document_lines@,
            ).push(appended_line(thought@, metadata)));
        }
    }

    /// Replaces `delete_count` scratchpad lines from `start_line` (both
    /// clamped to the document) with `new_lines`; returns where it started.
    fn patch_scratchpad(&mut self, start_line: usize, delete_count: usize, new_lines: Vec<String>) -> (r: usize)
        ensures
            final(self).republished(&*old(self), AppId::Scratchpad),
            r == patch_start(old(self).scratchpad.document_lines@.len(), start_line),
            final(self).scratchpad.document_lines@ == old(self).scratchpad.document_lines@.take(
                patch_start(old(self).scratchpad.document_lines@.len(), start_line),
            ) + new_lines@ + old(self).scratchpad.document_lines@.skip(
                patch_end(old(self).scratchpad.document_lines@.len(), start_line, delete_count),
            ),
    {
        let ghost s0 = *self;
        self.focus_app(AppId::Scratchpad);
        let ghost s1 = *self;
        assert(s1.app_content_eq(&s0, AppId::Scratchpad));
        let len = self.scratchpad.document_lines.len();
        let insert_at = if start_line < len {
            start_line
        } else {
            len
        };
        let delete_end = if delete_count > len - insert_at {
            len
        } else {
            insert_at + delete_count
        };
        let mut inserted = new_lines;
        let mut tail = self.scratchpad.document_lines.split_off(delete_end);
        self.scratchpad.document_lines.truncate(insert_at);
        self.scratchpad.document_lines.append(&mut inserted);
        self.scratchpad.document_lines.append(&mut tail);
        proof {
            lemma_republish(s0, s1, *self, AppId::Scratchpad);
            let lines = s0.scratchpad.document_lines@;
            assert(self.scratchpad.document_lines@ =~= lines.take(insert_at as int) + new_lines@
                + lines.skip(delete_end as int));
        }
        insert_at
    }

    /// Publishes search results into the web or stack search app, after
    /// giving that app the focus; any other app only takes the focus.
    fn publish_search(&mut self, app_id: AppId, query: String, results: Vec<SearchResultRecord>) -> (r: DeltaOutcome)
        ensures
            final(self).delta_effect(
                &*old(self),
                WorkspaceDelta::PublishSearchResults { app_id, query, results },
                true,
                r,
            ),
    {
        let ghost s0 = *self;
        let ghost q = query;
        let ghost rs = results;
        self.focus_app(app_id);
        let ghost s1 = *self;
        match app_id {
            AppId::WebSearch => {
                self.web_search.focused_query = Some(query.clone());
                self.web_search.query_history.push(query);
                self.web_search.results = results;
                proof {
                    lemma_republish(s0, s1, *self, AppId::WebSearch);
                    assert(s1.app_content_eq(&s0, AppId::WebSearch));
                }
                DeltaOutcome::Applied
            },
            AppId::StackSearch => {
                self.stack_search.focused_query = Some(query.clone());
                self.stack_search.query_history.push(query);
                self.stack_search.results = results;
                proof {
                    lemma_republish(s0, s1, *self, AppId::StackSearch);
                    assert(s1.app_content_eq(&s0, AppId::StackSearch));
                }
                DeltaOutcome::Applied
            },
            _ => DeltaOutcome::InvalidSearchApp,
        }
    }
}

/// The language of a virtual path, from its file name.
pub fn language_for_path(path: &str) -> (r: Option<String>)
    ensures
        holds_language(r, path_language(path@)),
{
    match file_name(path) {
        Some(name) => infer_language_id(name.as_str()),
        None => None,
    }
}

impl WorkspaceState {
    /// Records a light-compute run in the compute app.
    fn record_compute(&mut self, summary: String, payload: String)
        ensures
            final(self).republished(&*old(self), AppId::Compute),
            final(self).compute.history@ == old(self).compute.history@.push(
                ComputeRecord { summary, payload },
            ),
    {
        let ghost s0 = *self;
        self.focus_app(AppId::Compute);
        let ghost s1 = *self;
        assert(s1.app_content_eq(&s0, AppId::Compute));
        self.compute.history.push(ComputeRecord { summary, payload });
        proof {
            lemma_republish(s0, s1, *self, AppId::Compute);
        }
    }

    /// Records a microbash command in the command-line app.
    fn record_cli(&mut self, command: String, state: String, cwd: String, transcript: Vec<String>)
        ensures
            final(self).republished(&*old(self), AppId::Cli),
            final(self).cli.history@ == old(self).cli.history@.push(
                CliRecord { command, state, cwd, transcript },
            ),
    {
        let ghost s0 = *self;
        self.focus_app(AppId::Cli);
        let ghost s1 = *self;
        assert(s1.app_content_eq(&s0, AppId::Cli));
        self.cli.history.push(CliRecord { command, state, cwd, transcript });
        proof {
            lemma_republish(s0, s1, *self, AppId::Cli);
        }
    }

    /// Records an execution job in the jobs app.
    fn record_job(&mut self, summary: String, state: String, detail: String)
        ensures
            final(self).republished(&*old(self), AppId::Jobs),
            final(self).jobs.history@ == old(self).jobs.history@.push(
                JobRecord { summary, state, detail },
            ),
    {
        let ghost s0 = *self;
        self.focus_app(AppId::Jobs);
        let ghost s1 = *self;
        assert(s1.app_content_eq(&s0, AppId::Jobs));
        self.jobs.history.push(JobRecord { summary, state, detail });
        proof {
            lemma_republish(s0, s1, *self, AppId::Jobs);
        }
    }

    /// Shows a directory listing in the file tree, which also becomes the
    /// working directory.
    fn publish_tree(&mut self, cwd: String, entries: Vec<DirectoryEntry>)
        ensures
            final(self).delta_effect(
                &*old(self),
                WorkspaceDelta::PublishFilesystemTree { cwd, entries },
                true,
                DeltaOutcome::Applied,
            ),
    {
        let ghost s0 = *self;
        self.focus_app(AppId::FileTree);
        let ghost s1 = *self;
        self.filesystem_cwd = cwd.clone();
        self.file_tree.cwd = cwd;
        self.file_tree.entries = entries;
        proof {
            lemma_republish(s0, s1, *self, AppId::FileTree);
        }
    }

    /// Opens a file in the editor; its directory becomes the working
    /// directory, and its language is inferred when none is set.
    fn publish_editor_buffer(&mut self, path: String, conflict_token: Option<String>, content: String)
        ensures
            final(self).delta_effect(
                &*old(self),
                WorkspaceDelta::PublishEditorBuffer { path, conflict_token, content },
                true,
                DeltaOutcome::Applied,
            ),
    {
        let ghost s0 = *self;
        self.focus_app(AppId::Editor);
        let ghost s1 = *self;
        assert(s1.app_content_eq(&s0, AppId::Editor));
        let dir = match parent_path(path.as_str()) {
            Some(p) => p,
            None => crate::workspace::ops::root_path(),
        };
        self.filesystem_cwd = dir.clone();
        self.editor.cwd = dir;
        let lines = split_editor_content(content.as_str());
        if self.editor.language_id.is_none() {
            self.editor.language_id = language_for_path(path.as_str());
        }
        self.editor.buffer = Some(EditorBuffer { path, conflict_token, lines });
        proof {
            lemma_republish(s0, s1, *self, AppId::Editor);
        }
    }

    /// Attaches a language and diagnostics to the editor buffer, when the
    /// buffer holds `path`; otherwise nothing changes.
    fn publish_editor_analysis(&mut self, path: String, language_id: Option<String>, diagnostics: Vec<EditorDiagnostic>)
        ensures
            final(self).delta_effect(
                &*old(self),
                WorkspaceDelta::PublishEditorAnalysis { path, language_id, diagnostics },
                true,
                DeltaOutcome::Applied,
            ),
    {
        let same = match &self.editor.buffer {
            Some(b) => crate::text::str_eq(b.path.as_str(), path.as_str()),
            None => false,
        };
        if !same {
            return;
        }
        let ghost s0 = *self;
        self.focus_app(AppId::Editor);
        let ghost s1 = *self;
        assert(s1.app_content_eq(&s0, AppId::Editor));
        let language = match language_id {
            Some(l) => Some(l),
            None => language_for_path(path.as_str()),
        };
        self.editor.language_id = language;
        self.editor.diagnostics = diagnostics;
        proof {
            lemma_republish(s0, s1, *self, AppId::Editor);
        }
    }

    /// Shows filesystem search matches; the search scope becomes the
    /// working directory.
    fn publish_file_search(&mut self, query: String, scope_root: String, matches: Vec<SearchMatch>)
        ensures
            final(self).delta_effect(
                &*old(self),
                WorkspaceDelta::PublishFilesystemSearch { query, scope_root, matches },
                true,
                DeltaOutcome::Applied,
            ),
    {
        let ghost s0 = *self;
        self.focus_app(AppId::FileSearch);
        let ghost s1 = *self;
        assert(s1.app_content_eq(&s0, AppId::FileSearch));
        self.filesystem_cwd = scope_root.clone();
        self.file_search.focused_query = Some(query.clone());
        self.file_search.query_history.push(query);
        self.file_search.scope_root = scope_root;
        self.file_search.matches = matches;
        proof {
            lemma_republish(s0, s1, *self, AppId::FileSearch);
        }
    }
}

/// Applying a delta keeps a well-formed workspace well-formed.
proof fn lemma_effect_keeps_wf(
    s0: WorkspaceState,
    s1: WorkspaceState,
    delta: WorkspaceDelta,
    web: bool,
    out: DeltaOutcome,
)
    requires
        s0.wf(),
        s1.delta_effect(&s0, delta, web, out),
    ensures
        s1.wf(),
{
    match delta {
        WorkspaceDelta::PublishSearchResults { app_id, .. } => {
            if app_id != AppId::WebSearch {
                assert(s1.app_content_eq(&s0, AppId::WebSearch));
            }
            if app_id != AppId::StackSearch {
                assert(s1.app_content_eq(&s0, AppId::StackSearch));
            }
        },
        WorkspaceDelta::CloseApp(a) => {
            assert(s1.app_content_eq(&s0, AppId::WebSearch));
            assert(s1.app_content_eq(&s0, AppId::StackSearch));
            if a != AppId::Scratchpad && s0.dock.focused_app != a {
                assert forall|b: AppId| #[trigger] s1.lifecycle_of(b) == AppLifecycle::OpenMountedFocused
                    implies b == s1.dock.focused_app by {
                    assert(s0.lifecycle_of(b) == AppLifecycle::OpenMountedFocused);
                }
            }
        },
        WorkspaceDelta::OpenApp(a) => {
            if available(a, web) {
                assert(s1.app_content_eq(&s0, AppId::WebSearch));
                assert(s1.app_content_eq(&s0, AppId::StackSearch));
                assert forall|b: AppId| #[trigger] s1.lifecycle_of(b) == AppLifecycle::OpenMountedFocused
                    implies b == s1.dock.focused_app by {
                    assert(s0.lifecycle_of(b) == AppLifecycle::OpenMountedFocused);
                }
            }
        },
        WorkspaceDelta::PinApp(_) | WorkspaceDelta::UnpinApp(_) | WorkspaceDelta::ScrollApp { .. } => {
            assert(s1.app_content_eq(&s0, AppId::WebSearch));
            assert(s1.app_content_eq(&s0, AppId::StackSearch));
            assert forall|b: AppId| #[trigger] s1.lifecycle_of(b) == AppLifecycle::OpenMountedFocused
                implies b == s1.dock.focused_app by {
                assert(s0.lifecycle_of(b) == AppLifecycle::OpenMountedFocused);
            }
        },
        WorkspaceDelta::FocusApp(_) => {
            assert(s1.app_content_eq(&s0, AppId::WebSearch));
            assert(s1.app_content_eq(&s0, AppId::StackSearch));
        },
        WorkspaceDelta::PublishEditorAnalysis { .. } => {
            assert(s1.app_content_eq(&s0, AppId::WebSearch));
            assert(s1.app_content_eq(&s0, AppId::StackSearch));
        },
        _ => {
            assert(s1.app_content_eq(&s0, AppId::WebSearch));
            assert(s1.app_content_eq(&s0, AppId::StackSearch));
        },
    }
}

impl WorkspaceState {
    /// Applies a delta that a tool published: content deltas give their app
    /// the focus and change its content; dock deltas open, close, focus, pin,
    /// unpin or scroll an app, refusing an app that is not available.
    pub fn apply_delta(&mut self, delta: WorkspaceDelta, web_search_available: bool) -> (r: DeltaOutcome)
        ensures
            final(self).delta_effect(&*old(self), delta, web_search_available, r),
            old(self).wf() ==> final(self).wf(),
    {
        let ghost s0 = *self;
        let ghost d = delta;
        let r = match delta {
            WorkspaceDelta::ScratchpadAppend { thought, metadata } => {
                self.append_thought(thought, metadata);
                DeltaOutcome::Applied
            },
            WorkspaceDelta::ScratchpadPatch { start_line, delete_count, new_lines } => {
                let at = self.patch_scratchpad(start_line, delete_count, new_lines);
                DeltaOutcome::Patched { start_line: at }
            },
            WorkspaceDelta::PublishSearchResults { app_id, query, results } => {
                self.publish_search(app_id, query, results)
            },
            WorkspaceDelta::RecordCompute { summary, payload } => {
                self.record_compute(summary, payload);
                DeltaOutcome::Applied
            },
            WorkspaceDelta::RecordCli { command, state, cwd, transcript } => {
                self.record_cli(command, state, cwd, transcript);
                DeltaOutcome::Applied
            },
            WorkspaceDelta::PublishFilesystemTree { cwd, entries } => {
                self.publish_tree(cwd, entries);
                DeltaOutcome::Applied
            },
            WorkspaceDelta::PublishEditorBuffer { path, conflict_token, content } => {
                self.publish_editor_buffer(path, conflict_token, content);
                DeltaOutcome::Applied
            },
            WorkspaceDelta::PublishEditorAnalysis { path, language_id, diagnostics } => {
                self.publish_editor_analysis(path, language_id, diagnostics);
                DeltaOutcome::Applied
            },
            WorkspaceDelta::PublishFilesystemSearch { query, scope_root, matches } => {
                self.publish_file_search(query, scope_root, matches);
                DeltaOutcome::Applied
            },
            WorkspaceDelta::RecordJob { summary, state, detail } => {
                self.record_job(summary, state, detail);
                DeltaOutcome::Applied
            },
            WorkspaceDelta::OpenApp(app_id) => {
                if !app_is_available(app_id, web_search_available) {
                    return DeltaOutcome::UnavailableApp(app_id);
                }
                self.open_app(app_id);
                DeltaOutcome::Applied
            },
            WorkspaceDelta::CloseApp(app_id) => {
                self.close_app(app_id);
                DeltaOutcome::Applied
            },
            WorkspaceDelta::FocusApp(app_id) => {
                if !app_is_available(app_id, web_search_available) {
                    return DeltaOutcome::UnavailableApp(app_id);
                }
                self.focus_app(app_id);
                DeltaOutcome::Applied
            },
            WorkspaceDelta::PinApp(app_id) => {
                if !app_is_available(app_id, web_search_available) {
                    return DeltaOutcome::UnavailableApp(app_id);
                }
                self.set_pinned(app_id, true);
                DeltaOutcome::Applied
            },
            WorkspaceDelta::UnpinApp(app_id) => {
                self.set_pinned(app_id, false);
                DeltaOutcome::Applied
            },
            WorkspaceDelta::ScrollApp { app_id, delta } => {
                if !app_is_available(app_id, web_search_available) {
                    return DeltaOutcome::UnavailableApp(app_id);
                }
                self.scroll_app(app_id, delta);
                DeltaOutcome::Applied
            },
        };
        proof {
            if s0.wf() {
                lemma_effect_keeps_wf(s0, *self, d, web_search_available, r);
            }
        }
        r
    }
}

} // verus!
