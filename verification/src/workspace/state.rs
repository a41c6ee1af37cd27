//! The workspace state: every app of the dock with its lifecycle, pin,
//! viewport and content, and the dock operations (open, close, focus, pin,
//! scroll) with the invariants they keep.

use vstd::prelude::*;
use crate::workspace::model::{
    app_index, available, clamped, demote_focus, demoted, scroll_viewport, scrolled_start,
    AppId, AppLifecycle, ContextBudget, DockState, NearEventItem, ScratchpadApp, SearchAppKind,
    TextViewport, EditorDiagnosticSeverity,
};

verus! {

/// One result shown by a search app; `metadata` is its JSON text.
#[derive(Debug, Clone, PartialEq, Eq)]
pub struct SearchResultRecord {
    pub title: String,
    pub url: Option<String>,
    pub snippet: String,
    pub metadata: String,
}

/// A web or stack search app.
#[derive(Debug, Clone, PartialEq, Eq)]
pub struct SearchApp {
    pub app_id: AppId,
    pub kind: SearchAppKind,
    pub lifecycle: AppLifecycle,
    pub pinned: bool,
    pub viewport: TextViewport,
    pub query_history: Vec<String>,
    pub focused_query: Option<String>,
    pub results: Vec<SearchResultRecord>,
}

impl SearchApp {
    /// A closed, unpinned search app with a six-line viewport and no results.
    pub fn new(app_id: AppId, kind: SearchAppKind) -> (r: Self)
        ensures
            r.app_id == app_id,
            r.kind == kind,
            r.lifecycle == AppLifecycle::InstalledClosed,
            !r.pinned,
            r.viewport == (TextViewport { start_line: 0, line_count: 6 }),
            r.query_history@.len() == 0,
            r.focused_query is None,
            r.results@.len() == 0,
    {
        SearchApp {
            app_id,
            kind,
            lifecycle: AppLifecycle::InstalledClosed,
            pinned: false,
            viewport: TextViewport::new(0, 6),
            query_history: Vec::new(),
            focused_query: None,
            results: Vec::new(),
        }
    }
}

/// One light-compute run; `payload` is its JSON text.
#[derive(Debug, Clone, PartialEq, Eq)]
pub struct ComputeRecord {
    pub summary: String,
    pub payload: String,
}

/// The compute app.
#[derive(Debug, Clone, PartialEq, Eq)]
pub struct ComputeApp {
    pub lifecycle: AppLifecycle,
    pub pinned: bool,
    pub viewport: TextViewport,
    pub history: Vec<ComputeRecord>,
}

/// One microbash command with its state, working directory and output.
#[derive(Debug, Clone, PartialEq, Eq)]
pub struct CliRecord {
    pub command: String,
    pub state: String,
    pub cwd: String,
    pub transcript: Vec<String>,
}

/// The command-line app.
#[derive(Debug, Clone, PartialEq, Eq)]
pub struct CliApp {
    pub lifecycle: AppLifecycle,
    pub pinned: bool,
    pub viewport: TextViewport,
    pub history: Vec<CliRecord>,
}

/// One entry of a directory listing; `kind` is the name of its object kind.
#[derive(Debug, Clone, PartialEq, Eq)]
pub struct DirectoryEntry {
    pub path: String,
    pub name: String,
    pub kind: String,
}

/// The file tree app.
#[derive(Debug, Clone, PartialEq, Eq)]
pub struct FileTreeApp {
    pub lifecycle: AppLifecycle,
    pub pinned: bool,
    pub viewport: TextViewport,
    pub cwd: String,
    pub entries: Vec<DirectoryEntry>,
}

/// The file open in the editor.
#[derive(Debug, Clone, PartialEq, Eq)]
pub struct EditorBuffer {
    pub path: String,
    pub conflict_token: Option<String>,
    pub lines: Vec<String>,
}

/// A diagnostic attached to the editor buffer.
#[derive(Debug, Clone, PartialEq, Eq)]
pub struct EditorDiagnostic {
    pub path: String,
    pub start_line: usize,
    pub start_column: usize,
    pub end_line: usize,
    pub end_column: usize,
    pub severity: EditorDiagnosticSeverity,
    pub source: Option<String>,
    pub message: String,
}

/// The editor app.
#[derive(Debug, Clone, PartialEq, Eq)]
pub struct EditorApp {
    pub lifecycle: AppLifecycle,
    pub pinned: bool,
    pub viewport: TextViewport,
    pub cwd: String,
    pub buffer: Option<EditorBuffer>,
    pub language_id: Option<String>,
    pub diagnostics: Vec<EditorDiagnostic>,
}

/// One text match of a filesystem search.
#[derive(Debug, Clone, PartialEq, Eq)]
pub struct SearchMatch {
    pub path: String,
    pub line: Option<u64>,
    pub column: Option<u64>,
    pub excerpt: String,
}

/// The filesystem search app.
#[derive(Debug, Clone, PartialEq, Eq)]
pub struct FilesystemSearchApp {
    pub lifecycle: AppLifecycle,
    pub pinned: bool,
    pub viewport: TextViewport,
    pub query_history: Vec<String>,
    pub focused_query: Option<String>,
    pub scope_root: String,
    pub matches: Vec<SearchMatch>,
}

/// One execution job; `detail` is its JSON text.
#[derive(Debug, Clone, PartialEq, Eq)]
pub struct JobRecord {
    pub summary: String,
    pub state: String,
    pub detail: String,
}

/// The jobs app.
#[derive(Debug, Clone, PartialEq, Eq)]
pub struct JobApp {
    pub lifecycle: AppLifecycle,
    pub pinned: bool,
    pub viewport: TextViewport,
    pub history: Vec<JobRecord>,
}

/// The whole workspace.
#[derive(Debug, Clone, PartialEq, Eq)]
pub struct WorkspaceState {
    pub budget: ContextBudget,
    pub dock: DockState,
    pub filesystem_cwd: String,
    pub filesystem_mount_host_path: Option<String>,
    pub scratchpad: ScratchpadApp,
    pub web_search: SearchApp,
    pub stack_search: SearchApp,
    pub compute: ComputeApp,
    pub cli: CliApp,
    pub file_tree: FileTreeApp,
    pub editor: EditorApp,
    pub file_search: FilesystemSearchApp,
    pub jobs: JobApp,
    pub near_events: Vec<NearEventItem>,
}

impl WorkspaceState {
    /// The lifecycle of an app.
    pub open spec fn lifecycle_of(&self, app: AppId) -> AppLifecycle {
        match app {
            AppId::Scratchpad => self.scratchpad.lifecycle,
            AppId::WebSearch => self.web_search.lifecycle,
            AppId::StackSearch => self.stack_search.lifecycle,
            AppId::Compute => self.compute.lifecycle,
            AppId::Cli => self.cli.lifecycle,
            AppId::FileTree => self.file_tree.lifecycle,
            AppId::Editor => self.editor.lifecycle,
            AppId::FileSearch => self.file_search.lifecycle,
            AppId::Jobs => self.jobs.lifecycle,
        }
    }

    /// Whether an app is pinned.
    pub open spec fn pinned_of(&self, app: AppId) -> bool {
        match app {
            AppId::Scratchpad => self.scratchpad.pinned,
            AppId::WebSearch => self.web_search.pinned,
            AppId::StackSearch => self.stack_search.pinned,
            AppId::Compute => self.compute.pinned,
            AppId::Cli => self.cli.pinned,
            AppId::FileTree => self.file_tree.pinned,
            AppId::Editor => self.editor.pinned,
            AppId::FileSearch => self.file_search.pinned,
            AppId::Jobs => self.jobs.pinned,
        }
    }

    /// The viewport of an app.
    pub open spec fn viewport_of(&self, app: AppId) -> TextViewport {
        match app {
            AppId::Scratchpad => self.scratchpad.viewport,
            AppId::WebSearch => self.web_search.viewport,
            AppId::StackSearch => self.stack_search.viewport,
            AppId::Compute => self.compute.viewport,
            AppId::Cli => self.cli.viewport,
            AppId::FileTree => self.file_tree.viewport,
            AppId::Editor => self.editor.viewport,
            AppId::FileSearch => self.file_search.viewport,
            AppId::Jobs => self.jobs.viewport,
        }
    }

    /// Only the app that the dock focuses may have a focused lifecycle.
    pub open spec fn focus_consistent(&self) -> bool {
        forall|app: AppId|
            #[trigger] self.lifecycle_of(app) == AppLifecycle::OpenMountedFocused ==> app
                == self.dock.focused_app
    }

    /// The content of `app` (what it shows, apart from its lifecycle, pin
    /// and viewport) is the same in `self` and `other`.
    pub open spec fn app_content_eq(&self, other: &Self, app: AppId) -> bool {
        match app {
            AppId::Scratchpad => self.scratchpad.document_lines == other.scratchpad.document_lines,
            AppId::WebSearch => {
                &&& self.web_search.app_id == other.web_search.app_id
                &&& self.web_search.kind == other.web_search.kind
                &&& self.web_search.query_history == other.web_search.query_history
                &&& self.web_search.focused_query == other.web_search.focused_query
                &&& self.web_search.results == other.web_search.results
            },
            AppId::StackSearch => {
                &&& self.stack_search.app_id == other.stack_search.app_id
                &&& self.stack_search.kind == other.stack_search.kind
                &&& self.stack_search.query_history == other.stack_search.query_history
                &&& self.stack_search.focused_query == other.stack_search.focused_query
                &&& self.stack_search.results == other.stack_search.results
            },
            AppId::Compute => self.compute.history == other.compute.history,
            AppId::Cli => self.cli.history == other.cli.history,
            AppId::FileTree => {
                &&& self.file_tree.cwd == other.file_tree.cwd
                &&& self.file_tree.entries == other.file_tree.entries
            },
            AppId::Editor => {
                &&& self.editor.cwd == other.editor.cwd
                &&& self.editor.buffer == other.editor.buffer
                &&& self.editor.language_id == other.editor.language_id
                &&& self.editor.diagnostics == other.editor.diagnostics
            },
            AppId::FileSearch => {
                &&& self.file_search.query_history == other.file_search.query_history
                &&& self.file_search.focused_query == other.file_search.focused_query
                &&& self.file_search.scope_root == other.file_search.scope_root
                &&& self.file_search.matches == other.file_search.matches
            },
            AppId::Jobs => self.jobs.history == other.jobs.history,
        }
    }

    /// The budget, the host mount and the near events are the same in
    /// `self` and `other`.
    pub open spec fn same_setting(&self, other: &Self) -> bool {
        &&& self.budget == other.budget
        &&& self.filesystem_mount_host_path == other.filesystem_mount_host_path
        &&& self.near_events == other.near_events
    }

    /// Everything but the lifecycles, pins, viewports and the dock is the
    /// same in `self` and `other`.
    pub open spec fn same_content(&self, other: &Self) -> bool {
        &&& self.same_setting(other)
        &&& self.filesystem_cwd == other.filesystem_cwd
        &&& forall|app: AppId| #[trigger] self.app_content_eq(other, app)
    }

    /// `self` is `s` after unavailable apps were normalized away: without a
    /// web search provider, web search is closed, unpinned, emptied and
    /// unmounted, and a focus on it falls back to the scratchpad.
    pub open spec fn normalized_from(&self, s: WorkspaceState, web: bool) -> bool {
        if web {
            *self == s
        } else {
            &&& self.web_search.lifecycle == AppLifecycle::InstalledClosed
            &&& !self.web_search.pinned
            &&& self.web_search.focused_query is None
            &&& self.web_search.results@.len() == 0
            &&& self.web_search.app_id == s.web_search.app_id
            &&& self.web_search.kind == s.web_search.kind
            &&& self.web_search.query_history == s.web_search.query_history
            &&& self.web_search.viewport == s.web_search.viewport
            &&& self.dock.mounted_apps@ == s.dock.mounted_apps@.filter(
                |a: AppId| a != AppId::WebSearch,
            )
            &&& self.dock.focused_app == (if s.dock.focused_app == AppId::WebSearch {
                AppId::Scratchpad
            } else {
                s.dock.focused_app
            })
            &&& self.budget == s.budget
            &&& self.filesystem_cwd == s.filesystem_cwd
            &&& self.filesystem_mount_host_path == s.filesystem_mount_host_path
            &&& self.scratchpad == s.scratchpad
            &&& self.stack_search == s.stack_search
            &&& self.compute == s.compute
            &&& self.cli == s.cli
            &&& self.file_tree == s.file_tree
            &&& self.editor == s.editor
            &&& self.file_search == s.file_search
            &&& self.jobs == s.jobs
            &&& self.near_events == s.near_events
        }
    }

    /// Every content field is the same in `self` and `other`.
    pub open spec fn content_fields_eq(&self, other: &Self) -> bool {
        &&& self.same_setting(other)
        &&& self.filesystem_cwd == other.filesystem_cwd
        &&& self.scratchpad.document_lines == other.scratchpad.document_lines
        &&& self.web_search.app_id == other.web_search.app_id
        &&& self.web_search.kind == other.web_search.kind
        &&& self.web_search.query_history == other.web_search.query_history
        &&& self.web_search.focused_query == other.web_search.focused_query
        &&& self.web_search.results == other.web_search.results
        &&& self.stack_search.app_id == other.stack_search.app_id
        &&& self.stack_search.kind == other.stack_search.kind
        &&& self.stack_search.query_history == other.stack_search.query_history
        &&& self.stack_search.focused_query == other.stack_search.focused_query
        &&& self.stack_search.results == other.stack_search.results
        &&& self.compute.history == other.compute.history
        &&& self.cli.history == other.cli.history
        &&& self.file_tree.cwd == other.file_tree.cwd
        &&& self.file_tree.entries == other.file_tree.entries
        &&& self.editor.cwd == other.editor.cwd
        &&& self.editor.buffer == other.editor.buffer
        &&& self.editor.language_id == other.editor.language_id
        &&& self.editor.diagnostics == other.editor.diagnostics
        &&& self.file_search.query_history == other.file_search.query_history
        &&& self.file_search.focused_query == other.file_search.focused_query
        &&& self.file_search.scope_root == other.file_search.scope_root
        &&& self.file_search.matches == other.file_search.matches
        &&& self.jobs.history == other.jobs.history
    }

    /// Equal content fields give the same content.
    pub proof fn lemma_same_content(&self, other: &Self)
        requires
            self.content_fields_eq(other),
        ensures
            self.same_content(other),
    {
        assert forall|app: AppId| #[trigger] self.app_content_eq(other, app) by {
            match app {
                _ => {},
            }
        }
    }

    /// The same content is transitive.
    pub proof fn lemma_same_content_trans(&self, mid: &Self, other: &Self)
        requires
            self.same_content(mid),
            mid.same_content(other),
        ensures
            self.same_content(other),
    {
        assert forall|app: AppId| #[trigger] self.app_content_eq(other, app) by {
            assert(self.app_content_eq(mid, app));
            assert(mid.app_content_eq(other, app));
        }
    }

    /// Pins and viewports are the same in `self` and `other`.
    pub open spec fn same_frames(&self, other: &Self) -> bool {
        forall|app: AppId|
            #![trigger self.pinned_of(app)]
            #![trigger self.viewport_of(app)]
            self.pinned_of(app) == other.pinned_of(app) && self.viewport_of(app)
                == other.viewport_of(app)
    }

    /// The lifecycle of an app.
    pub fn lifecycle_for(&self, app_id: AppId) -> (r: AppLifecycle)
        ensures
            r == self.lifecycle_of(app_id),
    {
        match app_id {
            AppId::Scratchpad => self.scratchpad.lifecycle,
            AppId::WebSearch => self.web_search.lifecycle,
            AppId::StackSearch => self.stack_search.lifecycle,
            AppId::Compute => self.compute.lifecycle,
            AppId::Cli => self.cli.lifecycle,
            AppId::FileTree => self.file_tree.lifecycle,
            AppId::Editor => self.editor.lifecycle,
            AppId::FileSearch => self.file_search.lifecycle,
            AppId::Jobs => self.jobs.lifecycle,
        }
    }

    /// Whether an app is pinned.
    pub fn is_pinned(&self, app_id: AppId) -> (r: bool)
        ensures
            r == self.pinned_of(app_id),
    {
        match app_id {
            AppId::Scratchpad => self.scratchpad.pinned,
            AppId::WebSearch => self.web_search.pinned,
            AppId::StackSearch => self.stack_search.pinned,
            AppId::Compute => self.compute.pinned,
            AppId::Cli => self.cli.pinned,
            AppId::FileTree => self.file_tree.pinned,
            AppId::Editor => self.editor.pinned,
            AppId::FileSearch => self.file_search.pinned,
            AppId::Jobs => self.jobs.pinned,
        }
    }

    /// Sets the lifecycle of one app.
    #[verifier::rlimit(40)]
    fn set_lifecycle(&mut self, app_id: AppId, lifecycle: AppLifecycle)
        ensures
            final(self).lifecycle_of(app_id) == lifecycle,
            forall|b: AppId| b != app_id ==> #[trigger] final(self).lifecycle_of(b) == old(self).lifecycle_of(b),
            final(self).content_fields_eq(&*old(self)),
            final(self).same_frames(&*old(self)),
            final(self).dock == old(self).dock,
    {
        match app_id {
            AppId::Scratchpad => self.scratchpad.lifecycle = lifecycle,
            AppId::WebSearch => self.web_search.lifecycle = lifecycle,
            AppId::StackSearch => self.stack_search.lifecycle = lifecycle,
            AppId::Compute => self.compute.lifecycle = lifecycle,
            AppId::Cli => self.cli.lifecycle = lifecycle,
            AppId::FileTree => self.file_tree.lifecycle = lifecycle,
            AppId::Editor => self.editor.lifecycle = lifecycle,
            AppId::FileSearch => self.file_search.lifecycle = lifecycle,
            AppId::Jobs => self.jobs.lifecycle = lifecycle,
        }
    }

    /// Removes focus from every app; mounted apps stay mounted.
    pub fn reset_focus(&mut self)
        ensures
            forall|b: AppId| #[trigger] final(self).lifecycle_of(b) == demoted(old(self).lifecycle_of(b)),
            final(self).same_content(&*old(self)),
            final(self).same_frames(&*old(self)),
            final(self).dock == old(self).dock,
    {
        self.scratchpad.lifecycle = demote_focus(self.scratchpad.lifecycle);
        self.web_search.lifecycle = demote_focus(self.web_search.lifecycle);
        self.stack_search.lifecycle = demote_focus(self.stack_search.lifecycle);
        self.compute.lifecycle = demote_focus(self.compute.lifecycle);
        self.cli.lifecycle = demote_focus(self.cli.lifecycle);
        self.file_tree.lifecycle = demote_focus(self.file_tree.lifecycle);
        self.editor.lifecycle = demote_focus(self.editor.lifecycle);
        self.file_search.lifecycle = demote_focus(self.file_search.lifecycle);
        self.jobs.lifecycle = demote_focus(self.jobs.lifecycle);
    }

    /// Gives `app_id` the focus: every other app loses focus, the dock
    /// records the new focus and the app becomes open, mounted and focused.
    pub fn focus_app(&mut self, app_id: AppId)
        ensures
            final(self).dock.focused_app == app_id,
            final(self).dock.mounted_apps == old(self).dock.mounted_apps,
            final(self).lifecycle_of(app_id) == AppLifecycle::OpenMountedFocused,
            forall|b: AppId|
                b != app_id ==> #[trigger] final(self).lifecycle_of(b) == demoted(
                    old(self).lifecycle_of(b),
                ),
            final(self).same_content(&*old(self)),
            final(self).same_frames(&*old(self)),
            final(self).focus_consistent(),
    {
        let ghost s0 = *self;
        self.reset_focus();
        let ghost s1 = *self;
        self.dock.focused_app = app_id;
        let ghost s2 = *self;
        assert forall|b: AppId| #[trigger] s2.lifecycle_of(b) == s1.lifecycle_of(b) by {}
        assert forall|b: AppId| #[trigger] s2.pinned_of(b) == s1.pinned_of(b) && s2.viewport_of(b) == s1.viewport_of(b) by {}
        self.set_lifecycle(app_id, AppLifecycle::OpenMountedFocused);
        proof {
            s2.lemma_same_content(&s1);
            self.lemma_same_content(&s2);
            self.lemma_same_content_trans(&s2, &s1);
            self.lemma_same_content_trans(&s1, &s0);
        }
        assert forall|b: AppId| b != app_id implies #[trigger] self.lifecycle_of(b) == demoted(s0.lifecycle_of(b)) by {
            assert(self.lifecycle_of(b) == s2.lifecycle_of(b));
            assert(s1.lifecycle_of(b) == demoted(s0.lifecycle_of(b)));
        }
        assert forall|b: AppId| #[trigger] self.pinned_of(b) == s0.pinned_of(b) && self.viewport_of(b) == s0.viewport_of(b) by {
            assert(self.pinned_of(b) == s2.pinned_of(b));
            assert(s1.pinned_of(b) == s0.pinned_of(b));
            assert(self.viewport_of(b) == s2.viewport_of(b));
            assert(s1.viewport_of(b) == s0.viewport_of(b));
        }
    }

    /// Opens an app: the scratchpad opens mounted, every other app unmounted.
    pub fn open_app(&mut self, app_id: AppId)
        ensures
            final(self).lifecycle_of(app_id) == (if app_id == AppId::Scratchpad {
                AppLifecycle::OpenMounted
            } else {
                AppLifecycle::OpenUnmounted
            }),
            forall|b: AppId| b != app_id ==> #[trigger] final(self).lifecycle_of(b) == old(self).lifecycle_of(b),
            final(self).same_content(&*old(self)),
            final(self).same_frames(&*old(self)),
            final(self).dock == old(self).dock,
    {
        let ghost s0 = *self;
        match app_id {
            AppId::Scratchpad => self.set_lifecycle(app_id, AppLifecycle::OpenMounted),
            _ => self.set_lifecycle(app_id, AppLifecycle::OpenUnmounted),
        }
        proof {
            self.lemma_same_content(&s0);
        }
    }

    /// Closes an app; the scratchpad cannot be closed. Closing the focused
    /// app gives the focus back to the scratchpad.
    pub fn close_app(&mut self, app_id: AppId)
        ensures
            app_id == AppId::Scratchpad ==> *final(self) == *old(self),
            app_id != AppId::Scratchpad ==> {
                &&& final(self).lifecycle_of(app_id) == AppLifecycle::InstalledClosed
                &&& old(self).dock.focused_app == app_id ==> {
                    &&& final(self).dock.focused_app == AppId::Scratchpad
                    &&& final(self).lifecycle_of(AppId::Scratchpad)
                        == AppLifecycle::OpenMountedFocused
                    &&& forall|b: AppId|
                        b != app_id && b != AppId::Scratchpad ==> #[trigger] final(self).lifecycle_of(b)
                            == demoted(old(self).lifecycle_of(b))
                }
                &&& old(self).dock.focused_app != app_id ==> {
                    &&& final(self).dock == old(self).dock
                    &&& forall|b: AppId|
                        b != app_id ==> #[trigger] final(self).lifecycle_of(b) == old(self).lifecycle_of(b)
                }
            },
            final(self).same_content(&*old(self)),
            final(self).same_frames(&*old(self)),
            final(self).dock.mounted_apps == old(self).dock.mounted_apps,
            old(self).focus_consistent() ==> final(self).focus_consistent(),
    {
        if app_id == AppId::Scratchpad {
            return;
        }
        let ghost s0 = *self;
        self.set_lifecycle(app_id, AppLifecycle::InstalledClosed);
        let ghost s1 = *self;
        proof {
            s1.lemma_same_content(&s0);
        }
        if self.dock.focused_app == app_id {
            self.focus_app(AppId::Scratchpad);
            proof {
                self.lemma_same_content_trans(&s1, &s0);
            }
        }
    }

    /// Pins or unpins an app.
    pub fn set_pinned(&mut self, app_id: AppId, pinned: bool)
        ensures
            final(self).pinned_of(app_id) == pinned,
            forall|b: AppId| b != app_id ==> #[trigger] final(self).pinned_of(b) == old(self).pinned_of(b),
            forall|b: AppId| #[trigger] final(self).lifecycle_of(b) == old(self).lifecycle_of(b),
            forall|b: AppId| #[trigger] final(self).viewport_of(b) == old(self).viewport_of(b),
            final(self).same_content(&*old(self)),
            final(self).dock == old(self).dock,
    {
        match app_id {
            AppId::Scratchpad => self.scratchpad.pinned = pinned,
            AppId::WebSearch => self.web_search.pinned = pinned,
            AppId::StackSearch => self.stack_search.pinned = pinned,
            AppId::Compute => self.compute.pinned = pinned,
            AppId::Cli => self.cli.pinned = pinned,
            AppId::FileTree => self.file_tree.pinned = pinned,
            AppId::Editor => self.editor.pinned = pinned,
            AppId::FileSearch => self.file_search.pinned = pinned,
            AppId::Jobs => self.jobs.pinned = pinned,
        }
    }

    /// Sets the viewport of one app.
    fn set_viewport(&mut self, app_id: AppId, viewport: TextViewport)
        ensures
            final(self).viewport_of(app_id) == viewport,
            forall|b: AppId| b != app_id ==> #[trigger] final(self).viewport_of(b) == old(self).viewport_of(b),
            forall|b: AppId| #[trigger] final(self).pinned_of(b) == old(self).pinned_of(b),
            forall|b: AppId| #[trigger] final(self).lifecycle_of(b) == old(self).lifecycle_of(b),
            final(self).same_content(&*old(self)),
            final(self).dock == old(self).dock,
    {
        match app_id {
            AppId::Scratchpad => self.scratchpad.viewport = viewport,
            AppId::WebSearch => self.web_search.viewport = viewport,
            AppId::StackSearch => self.stack_search.viewport = viewport,
            AppId::Compute => self.compute.viewport = viewport,
            AppId::Cli => self.cli.viewport = viewport,
            AppId::FileTree => self.file_tree.viewport = viewport,
            AppId::Editor => self.editor.viewport = viewport,
            AppId::FileSearch => self.file_search.viewport = viewport,
            AppId::Jobs => self.jobs.viewport = viewport,
        }
    }

    /// Scrolls an app's viewport by `delta` lines within `total_lines`.
    pub fn scroll_app_within(&mut self, app_id: AppId, delta: isize, total_lines: usize)
        ensures
            final(self).viewport_of(app_id) == clamped(
                TextViewport {
                    start_line: scrolled_start(old(self).viewport_of(app_id).start_line, delta),
                    line_count: old(self).viewport_of(app_id).line_count,
                },
                total_lines as nat,
            ),
            forall|b: AppId| b != app_id ==> #[trigger] final(self).viewport_of(b) == old(self).viewport_of(b),
            forall|b: AppId| #[trigger] final(self).pinned_of(b) == old(self).pinned_of(b),
            forall|b: AppId| #[trigger] final(self).lifecycle_of(b) == old(self).lifecycle_of(b),
            final(self).same_content(&*old(self)),
            final(self).dock == old(self).dock,
    {
        let current = match app_id {
            AppId::Scratchpad => self.scratchpad.viewport,
            AppId::WebSearch => self.web_search.viewport,
            AppId::StackSearch => self.stack_search.viewport,
            AppId::Compute => self.compute.viewport,
            AppId::Cli => self.cli.viewport,
            AppId::FileTree => self.file_tree.viewport,
            AppId::Editor => self.editor.viewport,
            AppId::FileSearch => self.file_search.viewport,
            AppId::Jobs => self.jobs.viewport,
        };
        let moved = scroll_viewport(current, delta, total_lines);
        self.set_viewport(app_id, moved);
    }

    /// Closes web search and drops its state when no web search provider is
    /// configured; the focus falls back to the scratchpad.
    pub fn normalize_unavailable_apps(&mut self, web_search_available: bool)
        ensures
            final(self).normalized_from(*old(self), web_search_available),
    {
        if !web_search_available {
            self.web_search.lifecycle = AppLifecycle::InstalledClosed;
            self.web_search.pinned = false;
            self.web_search.focused_query = None;
            self.web_search.results = Vec::new();
            remove_app(&mut self.dock.mounted_apps, AppId::WebSearch);
            if self.dock.focused_app == AppId::WebSearch {
                self.dock.focused_app = AppId::Scratchpad;
            }
        }
    }
}

/// Removes every occurrence of `app` from `apps`, keeping the order of the rest.
pub fn remove_app(apps: &mut Vec<AppId>, app: AppId)
    ensures
        final(apps)@ == old(apps)@.filter(|a: AppId| a != app),
        !final(apps)@.contains(app),
        forall|a: AppId| a != app ==> (#[trigger] final(apps)@.contains(a) <==> old(apps)@.contains(a)),
{
    let ghost original = apps@;
    let mut kept: Vec<AppId> = Vec::new();
    let mut i: usize = 0;
    assert(original.take(0) =~= Seq::<AppId>::empty());
    while i < apps.len()
        invariant
            apps@ == original,
            i <= apps.len(),
            kept@ == original.take(i as int).filter(|a: AppId| a != app),
        decreases apps.len() - i,
    {
        assert(original.take(i + 1).drop_last() =~= original.take(i as int));
        reveal_with_fuel(Seq::filter, 1);
        if apps[i] != app {
            kept.push(apps[i]);
        }
        i = i + 1;
    }
    assert(original.take(original.len() as int) =~= original);
    *apps = kept;
    proof {
        assert forall|a: AppId| a != app implies (apps@.contains(a) <==> original.contains(a)) by {
            if original.contains(a) {
                let k = choose|k: int| 0 <= k < original.len() && original[k] == a;
                original.lemma_filter_contains(|x: AppId| x != app, k);
            }
            if apps@.contains(a) {
                original.lemma_filter_contains_rev(|x: AppId| x != app, a);
            }
        }
        if apps@.contains(app) {
            original.lemma_filter_contains_rev(|x: AppId| x != app, app);
        }
    }
}

} // verus!
