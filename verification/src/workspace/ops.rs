//! The initial workspace, scrolling by each app's own line count, and the
//! workspace deltas that tools publish, with what each one does.

use vstd::prelude::*;
use crate::text::views;
use crate::workspace::model::{
    available, clamped, demoted, in_dock_order, scrolled_start, AppId, AppLifecycle,
    ContextBudget, DockState, ScratchpadApp, SearchAppKind, TextViewport,
};
use crate::workspace::state::{
    CliApp, ComputeApp, EditorApp, FileTreeApp, FilesystemSearchApp, JobApp, SearchApp,
    WorkspaceState,
};
use crate::workspace::views::{
    cli_lines, cli_view, editor_lines, editor_view, file_search_lines, file_search_view,
    file_tree_lines, file_tree_view,
};

verus! {

impl Default for ComputeApp {
    fn default() -> (r: Self)
        ensures
            r.lifecycle == AppLifecycle::InstalledClosed,
            !r.pinned,
            r.viewport == (TextViewport { start_line: 0, line_count: 4 }),
            r.history@.len() == 0,
    {
        ComputeApp {
            lifecycle: AppLifecycle::InstalledClosed,
            pinned: false,
            viewport: TextViewport::new(0, 4),
            history: Vec::new(),
        }
    }
}

impl Default for CliApp {
    fn default() -> (r: Self)
        ensures
            r.lifecycle == AppLifecycle::InstalledClosed,
            !r.pinned,
            r.viewport == (TextViewport { start_line: 0, line_count: 8 }),
            r.history@.len() == 0,
    {
        CliApp {
            lifecycle: AppLifecycle::InstalledClosed,
            pinned: false,
            viewport: TextViewport::new(0, 8),
            history: Vec::new(),
        }
    }
}

impl Default for FileTreeApp {
    fn default() -> (r: Self)
        ensures
            r.lifecycle == AppLifecycle::InstalledClosed,
            !r.pinned,
            r.viewport == (TextViewport { start_line: 0, line_count: 8 }),
            r.cwd@ == "/"@,
            r.entries@.len() == 0,
    {
        FileTreeApp {
            lifecycle: AppLifecycle::InstalledClosed,
            pinned: false,
            viewport: TextViewport::new(0, 8),
            cwd: root_path(),
            entries: Vec::new(),
        }
    }
}

impl Default for EditorApp {
    fn default() -> (r: Self)
        ensures
            r.lifecycle == AppLifecycle::InstalledClosed,
            !r.pinned,
            r.viewport == (TextViewport { start_line: 0, line_count: 12 }),
            r.cwd@ == "/"@,
            r.buffer is None,
            r.language_id is None,
            r.diagnostics@.len() == 0,
    {
        EditorApp {
            lifecycle: AppLifecycle::InstalledClosed,
            pinned: false,
            viewport: TextViewport::new(0, 12),
            cwd: root_path(),
            buffer: None,
            language_id: None,
            diagnostics: Vec::new(),
        }
    }
}

impl Default for FilesystemSearchApp {
    fn default() -> (r: Self)
        ensures
            r.lifecycle == AppLifecycle::InstalledClosed,
            !r.pinned,
            r.viewport == (TextViewport { start_line: 0, line_count: 8 }),
            r.query_history@.len() == 0,
            r.focused_query is None,
            r.scope_root@ == "/"@,
            r.matches@.len() == 0,
    {
        FilesystemSearchApp {
            lifecycle: AppLifecycle::InstalledClosed,
            pinned: false,
            viewport: TextViewport::new(0, 8),
            query_history: Vec::new(),
            focused_query: None,
            scope_root: root_path(),
            matches: Vec::new(),
        }
    }
}

impl Default for JobApp {
    fn default() -> (r: Self)
        ensures
            r.lifecycle == AppLifecycle::InstalledClosed,
            !r.pinned,
            r.viewport == (TextViewport { start_line: 0, line_count: 6 }),
            r.history@.len() == 0,
    {
        JobApp {
            lifecycle: AppLifecycle::InstalledClosed,
            pinned: false,
            viewport: TextViewport::new(0, 6),
            history: Vec::new(),
        }
    }
}

/// The root virtual path.
pub fn root_path() -> (r: String)
    ensures
        r@ == "/"@,
{
    String::from_str("/")
}

impl WorkspaceState {
    /// The initial workspace: only the scratchpad is open, mounted, focused
    /// and pinned, holding its title line; every other app is closed with
    /// its default viewport and no content; the working directory is the
    /// root and no host directory is mounted.
    pub open spec fn is_initial(&self) -> bool {
        &&& self.budget == ContextBudget {
            usable_tokens: 24_000,
            prompt_budget: 4_000,
            short_term_budget: 4_000,
            near_event_budget: 3_000,
            dock_budget: 1_000,
            app_budget: 12_000,
        }
        &&& self.dock.focused_app == AppId::Scratchpad
        &&& self.dock.mounted_apps@ == seq![AppId::Scratchpad]
        &&& self.filesystem_cwd@ == "/"@
        &&& self.filesystem_mount_host_path is None
        &&& self.scratchpad.lifecycle == AppLifecycle::OpenMountedFocused
        &&& self.scratchpad.pinned
        &&& self.scratchpad.viewport == (TextViewport { start_line: 0, line_count: 16 })
        &&& views(self.scratchpad.document_lines@) == seq!["# Scratchpad"@]
        &&& self.web_search.app_id == AppId::WebSearch
        &&& self.web_search.kind == SearchAppKind::Web
        &&& self.stack_search.app_id == AppId::StackSearch
        &&& self.stack_search.kind == SearchAppKind::Stack
        &&& forall|a: AppId|
            a != AppId::Scratchpad ==> #[trigger] self.lifecycle_of(a) == AppLifecycle::InstalledClosed
                && !self.pinned_of(a)
        &&& self.near_events@.len() == 0
    }
}

impl Default for WorkspaceState {
    fn default() -> (r: Self)
        ensures
            r.is_initial(),
            r.wf(),
    {
        let r = WorkspaceState {
            budget: ContextBudget::default(),
            dock: DockState::default(),
            filesystem_cwd: root_path(),
            filesystem_mount_host_path: None,
            scratchpad: ScratchpadApp::default(),
            web_search: SearchApp::new(AppId::WebSearch, SearchAppKind::Web),
            stack_search: SearchApp::new(AppId::StackSearch, SearchAppKind::Stack),
            compute: ComputeApp::default(),
            cli: CliApp::default(),
            file_tree: FileTreeApp::default(),
            editor: EditorApp::default(),
            file_search: FilesystemSearchApp::default(),
            jobs: JobApp::default(),
            near_events: Vec::new(),
        };
        assert(in_dock_order(r.dock.mounted_apps@));
        assert(views(r.scratchpad.document_lines@) =~= seq!["# Scratchpad"@]);
        assert(r.budget.prompt_budget == 4_000);
        assert forall|a: AppId| a != AppId::Scratchpad implies #[trigger] r.lifecycle_of(a)
            == AppLifecycle::InstalledClosed && !r.pinned_of(a) by {
            match a {
                _ => {},
            }
        }
        r
    }
}

/// `n`, or 1 when it is 0.
pub open spec fn at_least_one(n: nat) -> nat {
    if n == 0 {
        1
    } else {
        n
    }
}

impl WorkspaceState {
    /// The number of lines an app scrolls within: the scratchpad's document
    /// lines; the results or history of search, compute and jobs; the
    /// rendered lines of the command-line, file tree, editor and file search
    /// apps; all but the scratchpad's at least 1.
    pub open spec fn scroll_total(&self, app: AppId) -> nat {
        match app {
            AppId::Scratchpad => self.scratchpad.document_lines@.len(),
            AppId::WebSearch => at_least_one(self.web_search.results@.len()),
            AppId::StackSearch => at_least_one(self.stack_search.results@.len()),
            AppId::Compute => at_least_one(self.compute.history@.len()),
            AppId::Cli => at_least_one(cli_view(self.cli.history@).len()),
            AppId::FileTree => at_least_one(file_tree_view(self.file_tree).len()),
            AppId::Editor => at_least_one(editor_view(self.editor).len()),
            AppId::FileSearch => at_least_one(file_search_view(self.file_search).len()),
            AppId::Jobs => at_least_one(self.jobs.history@.len()),
        }
    }

    /// The number of lines an app scrolls within.
    pub fn scroll_total_of(&self, app_id: AppId) -> (r: usize)
        ensures
            r == self.scroll_total(app_id),
    {
        let n = match app_id {
            AppId::Scratchpad => return self.scratchpad.document_lines.len(),
            AppId::WebSearch => self.web_search.results.len(),
            AppId::StackSearch => self.stack_search.results.len(),
            AppId::Compute => self.compute.history.len(),
            AppId::Cli => cli_lines(&self.cli).len(),
            AppId::FileTree => file_tree_lines(&self.file_tree).len(),
            AppId::Editor => editor_lines(&self.editor).len(),
            AppId::FileSearch => file_search_lines(&self.file_search).len(),
            AppId::Jobs => self.jobs.history.len(),
        };
        if n == 0 {
            1
        } else {
            n
        }
    }

    /// Scrolls an app's viewport by `delta` lines within its own line count.
    pub fn scroll_app(&mut self, app_id: AppId, delta: isize)
        ensures
            final(self).viewport_of(app_id) == clamped(
                TextViewport {
                    start_line: scrolled_start(old(self).viewport_of(app_id).start_line, delta),
                    line_count: old(self).viewport_of(app_id).line_count,
                },
                old(self).scroll_total(app_id),
            ),
            forall|b: AppId| b != app_id ==> #[trigger] final(self).viewport_of(b) == old(self).viewport_of(b),
            forall|b: AppId| #[trigger] final(self).pinned_of(b) == old(self).pinned_of(b),
            forall|b: AppId| #[trigger] final(self).lifecycle_of(b) == old(self).lifecycle_of(b),
            final(self).same_content(&*old(self)),
            final(self).dock == old(self).dock,
    {
        let total = self.scroll_total_of(app_id);
        self.scroll_app_within(app_id, delta, total);
    }
}

} // verus!
