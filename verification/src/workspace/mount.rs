//! Mounting a host folder into the agent's workspace: the filesystem apps
//! start over, and the file tree opens on the folder's root listing.

use vstd::prelude::*;
use crate::memory::WorkingMemory;
use crate::workspace::model::{AppLifecycle, TextViewport};
use crate::workspace::ops::root_path;
use crate::workspace::state::{DirectoryEntry, EditorApp, FileTreeApp, FilesystemSearchApp, JobApp, WorkspaceState};

verus! {

/// The filesystem apps of `ws` are back where they start: the working
/// directory is the root, no folder is mounted, and the file tree,
/// editor, file search and jobs are closed, unpinned and empty.
pub open spec fn filesystem_apps_reset(ws: WorkspaceState) -> bool {
    &&& ws.filesystem_cwd@ == "/"@
    &&& ws.filesystem_mount_host_path is None
    &&& ws.file_tree.lifecycle == AppLifecycle::InstalledClosed && !ws.file_tree.pinned
    &&& ws.file_tree.viewport == (TextViewport { start_line: 0, line_count: 8 })
    &&& ws.file_tree.cwd@ == "/"@ && ws.file_tree.entries@.len() == 0
    &&& editor_search_jobs_reset(ws)
}

/// The editor, file search and jobs of `ws` are closed, unpinned and
/// empty.
pub open spec fn editor_search_jobs_reset(ws: WorkspaceState) -> bool {
    &&& ws.editor.lifecycle == AppLifecycle::InstalledClosed && !ws.editor.pinned
    &&& ws.editor.viewport == (TextViewport { start_line: 0, line_count: 12 })
    &&& ws.editor.cwd@ == "/"@ && ws.editor.buffer is None && ws.editor.language_id is None
    &&& ws.editor.diagnostics@.len() == 0
    &&& ws.file_search.lifecycle == AppLifecycle::InstalledClosed && !ws.file_search.pinned
    &&& ws.file_search.viewport == (TextViewport { start_line: 0, line_count: 8 })
    &&& ws.file_search.query_history@.len() == 0 && ws.file_search.focused_query is None
    &&& ws.file_search.scope_root@ == "/"@ && ws.file_search.matches@.len() == 0
    &&& ws.jobs.lifecycle == AppLifecycle::InstalledClosed && !ws.jobs.pinned
    &&& ws.jobs.viewport == (TextViewport { start_line: 0, line_count: 6 })
    &&& ws.jobs.history@.len() == 0
}

/// `new` differs from `old` in its filesystem apps at most.
pub open spec fn others_kept(old: WorkspaceState, new: WorkspaceState) -> bool {
    &&& new.budget == old.budget && new.dock == old.dock
    &&& new.scratchpad == old.scratchpad && new.web_search == old.web_search && new.stack_search == old.stack_search
    &&& new.compute == old.compute && new.cli == old.cli && new.near_events == old.near_events
}

/// Forgets any mounted folder: the working directory goes back to the
/// root, and the file tree, editor, file search and jobs to their closed,
/// empty start; everything else stays.
pub fn reset_agent_filesystem_workspace(memory: &mut WorkingMemory)
    requires
        old(memory).workspace.wf(),
    ensures
        final(memory).workspace.wf(),
        filesystem_apps_reset(final(memory).workspace),
        others_kept(old(memory).workspace, final(memory).workspace),
        final(memory).messages == old(memory).messages,
        final(memory).technical_noise == old(memory).technical_noise,
        final(memory).proposed_stack_actions == old(memory).proposed_stack_actions,
{
    let ghost w0 = memory.workspace;
    memory.workspace.filesystem_cwd = root_path();
    memory.workspace.filesystem_mount_host_path = None;
    memory.workspace.file_tree = FileTreeApp::default();
    memory.workspace.editor = EditorApp::default();
    memory.workspace.file_search = FilesystemSearchApp::default();
    memory.workspace.jobs = JobApp::default();
    proof {
        let w = memory.workspace;
        assert forall|app: crate::workspace::model::AppId|
            #[trigger] w.lifecycle_of(app) == AppLifecycle::OpenMountedFocused implies app == w.dock.focused_app by {
            assert(w0.lifecycle_of(app) == AppLifecycle::OpenMountedFocused);
        }
    }
}

/// Mounts the host folder `host_path`, whose root lists `entries`: the
/// filesystem apps start over, then the file tree opens (mounted, not
/// focused) at the root with those entries and the folder is recorded.
pub fn mount_agent_filesystem(memory: &mut WorkingMemory, host_path: String, entries: Vec<DirectoryEntry>)
    requires
        old(memory).workspace.wf(),
    ensures
        final(memory).workspace.wf(),
        others_kept(old(memory).workspace, final(memory).workspace),
        final(memory).workspace.filesystem_cwd@ == "/"@,
        final(memory).workspace.filesystem_mount_host_path == Some(host_path),
        final(memory).workspace.file_tree.lifecycle == AppLifecycle::OpenMounted,
        !final(memory).workspace.file_tree.pinned,
        final(memory).workspace.file_tree.viewport == (TextViewport { start_line: 0, line_count: 8 }),
        final(memory).workspace.file_tree.cwd@ == "/"@,
        final(memory).workspace.file_tree.entries == entries,
        editor_search_jobs_reset(final(memory).workspace),
        final(memory).messages == old(memory).messages,
        final(memory).technical_noise == old(memory).technical_noise,
        final(memory).proposed_stack_actions == old(memory).proposed_stack_actions,
{
    reset_agent_filesystem_workspace(memory);
    let ghost w0 = memory.workspace;
    memory.workspace.filesystem_mount_host_path = Some(host_path);
    memory.workspace.file_tree.lifecycle = AppLifecycle::OpenMounted;
    memory.workspace.file_tree.cwd = root_path();
    memory.workspace.file_tree.entries = entries;
    proof {
        let w = memory.workspace;
        assert forall|app: crate::workspace::model::AppId|
            #[trigger] w.lifecycle_of(app) == AppLifecycle::OpenMountedFocused implies app == w.dock.focused_app by {
            assert(w0.lifecycle_of(app) == AppLifecycle::OpenMountedFocused);
        }
    }
}

} // verus!
