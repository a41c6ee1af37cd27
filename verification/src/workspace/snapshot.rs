//! A compact JSON picture of the workspace for the host: the policies in
//! force, the dock, and the size and lifecycle of each app.

use vstd::prelude::*;
use crate::agent::trace::{entries, object2, object_of, text_is};
use crate::agent::turn::opt_text_is;
use crate::json::Json;
use crate::memory::WorkingMemory;
use crate::workspace::inspect::{lifecycle_name, lifecycle_text};
use crate::workspace::model::{label_of, AppId, AppLifecycle};
use crate::workspace::state::{EditorApp, WorkspaceState};

verus! {

/// `j` is the integer `n`.
pub open spec fn int_is(j: Json, n: int) -> bool {
    j matches Json::Integer(v) && v == n
}

/// Entry `i` of object `j` is named `key`.
pub open spec fn key_at(j: Json, i: int, key: Seq<char>) -> bool {
    entries(j)[i].0@ == key
}

/// The value of entry `i` of object `j`.
pub open spec fn val_at(j: Json, i: int) -> Json {
    entries(j)[i].1
}

/// `j` is `{key: n, "lifecycle": l}`.
pub open spec fn count_then_lifecycle(j: Json, key: Seq<char>, n: int, l: AppLifecycle) -> bool {
    &&& object_of(j, 2)
    &&& key_at(j, 0, key) && int_is(val_at(j, 0), n)
    &&& key_at(j, 1, "lifecycle"@) && text_is(val_at(j, 1), lifecycle_text(l))
}

/// `j` is `{"lifecycle": l, key: n}`.
pub open spec fn lifecycle_then_count(j: Json, key: Seq<char>, n: int, l: AppLifecycle) -> bool {
    &&& object_of(j, 2)
    &&& key_at(j, 0, "lifecycle"@) && text_is(val_at(j, 0), lifecycle_text(l))
    &&& key_at(j, 1, key) && int_is(val_at(j, 1), n)
}

/// `j` is an array of the labels of `apps`.
pub open spec fn labels_are(j: Json, apps: Seq<AppId>) -> bool {
    j matches Json::Array(items) && items@.len() == apps.len() && forall|i: int|
        0 <= i < apps.len() ==> #[trigger] text_is(items@[i], label_of(apps[i]))
}

/// `j` describes the editor: its directory, how many diagnostics it
/// holds, whether a buffer is open, its language, and its lifecycle.
pub open spec fn editor_is(j: Json, e: EditorApp) -> bool {
    &&& object_of(j, 5)
    &&& key_at(j, 0, "cwd"@) && text_is(val_at(j, 0), e.cwd@)
    &&& key_at(j, 1, "diagnostics"@) && int_is(val_at(j, 1), e.diagnostics@.len() as int)
    &&& key_at(j, 2, "has_buffer"@) && val_at(j, 2) == Json::Bool(e.buffer is Some)
    &&& key_at(j, 3, "language_id"@) && opt_text_is(val_at(j, 3), e.language_id)
    &&& key_at(j, 4, "lifecycle"@) && text_is(val_at(j, 4), lifecycle_text(e.lifecycle))
}

/// `j` describes each app of `ws`, apps by name in order.
pub open spec fn apps_are(j: Json, ws: WorkspaceState) -> bool {
    let fs = val_at(j, 3);
    let ft = val_at(j, 4);
    let mount = val_at(j, 5);
    &&& object_of(j, 10)
    &&& key_at(j, 0, "cli"@) && count_then_lifecycle(val_at(j, 0), "history"@, ws.cli.history@.len() as int, ws.cli.lifecycle)
    &&& key_at(j, 1, "compute"@) && count_then_lifecycle(
        val_at(j, 1),
        "history"@,
        ws.compute.history@.len() as int,
        ws.compute.lifecycle,
    )
    &&& key_at(j, 2, "editor"@) && editor_is(val_at(j, 2), ws.editor)
    &&& key_at(j, 3, "file_search"@) && object_of(fs, 3)
    &&& key_at(fs, 0, "lifecycle"@) && text_is(val_at(fs, 0), lifecycle_text(ws.file_search.lifecycle))
    &&& key_at(fs, 1, "matches"@) && int_is(val_at(fs, 1), ws.file_search.matches@.len() as int)
    &&& key_at(fs, 2, "scope_root"@) && text_is(val_at(fs, 2), ws.file_search.scope_root@)
    &&& key_at(j, 4, "file_tree"@) && object_of(ft, 3)
    &&& key_at(ft, 0, "cwd"@) && text_is(val_at(ft, 0), ws.file_tree.cwd@)
    &&& key_at(ft, 1, "entries"@) && int_is(val_at(ft, 1), ws.file_tree.entries@.len() as int)
    &&& key_at(ft, 2, "lifecycle"@) && text_is(val_at(ft, 2), lifecycle_text(ws.file_tree.lifecycle))
    &&& key_at(j, 5, "filesystem_mount"@) && object_of(mount, 1)
    &&& key_at(mount, 0, "host_path"@) && opt_text_is(val_at(mount, 0), ws.filesystem_mount_host_path)
    &&& key_at(j, 6, "jobs"@) && count_then_lifecycle(val_at(j, 6), "history"@, ws.jobs.history@.len() as int, ws.jobs.lifecycle)
    &&& key_at(j, 7, "scratchpad"@) && lifecycle_then_count(
        val_at(j, 7),
        "lines"@,
        ws.scratchpad.document_lines@.len() as int,
        ws.scratchpad.lifecycle,
    )
    &&& key_at(j, 8, "stack_search"@) && lifecycle_then_count(
        val_at(j, 8),
        "results"@,
        ws.stack_search.results@.len() as int,
        ws.stack_search.lifecycle,
    )
    &&& key_at(j, 9, "web_search"@) && lifecycle_then_count(
        val_at(j, 9),
        "results"@,
        ws.web_search.results@.len() as int,
        ws.web_search.lifecycle,
    )
}

/// `j` is the runtime snapshot of `ws`: its apps, its dock (the focused
/// app and the mounted apps, by label), and the short-term and near-event
/// policies, keys in order.
pub open spec fn snapshot_is(j: Json, ws: WorkspaceState) -> bool {
    let dock = val_at(j, 1);
    let policy = val_at(j, 2);
    &&& object_of(j, 3)
    &&& key_at(j, 0, "apps"@) && apps_are(val_at(j, 0), ws)
    &&& key_at(j, 1, "dock"@) && object_of(dock, 2)
    &&& key_at(dock, 0, "focused_app"@) && text_is(val_at(dock, 0), label_of(ws.dock.focused_app))
    &&& key_at(dock, 1, "mounted_apps"@) && labels_are(val_at(dock, 1), ws.dock.mounted_apps@)
    &&& key_at(j, 2, "policy"@) && object_of(policy, 2)
    &&& key_at(policy, 0, "near_event"@) && text_is(val_at(policy, 0), "v1_72h_or_urgent"@)
    &&& key_at(policy, 1, "short_term"@) && text_is(val_at(policy, 1), "v1_last_user_goal_pinned"@)
}

fn count_entry(key: &str, n: usize) -> (r: (String, Json))
    ensures
        r.0@ == key@ && int_is(r.1, n as int),
{
    (String::from_str(key), Json::Integer(n as i128))
}

fn text_entry_of(key: &str, val: &String) -> (r: (String, Json))
    ensures
        r.0@ == key@ && text_is(r.1, val@),
{
    (String::from_str(key), Json::Str(val.clone()))
}

fn lifecycle_entry(l: AppLifecycle) -> (r: (String, Json))
    ensures
        r.0@ == "lifecycle"@ && text_is(r.1, lifecycle_text(l)),
{
    (String::from_str("lifecycle"), Json::Str(String::from_str(lifecycle_name(l))))
}

fn opt_text_entry(key: &str, val: &Option<String>) -> (r: (String, Json))
    ensures
        r.0@ == key@ && opt_text_is(r.1, *val),
{
    let v = match val {
        Some(t) => Json::Str(t.clone()),
        None => Json::Null,
    };
    (String::from_str(key), v)
}

fn editor_json(e: &EditorApp) -> (r: Json)
    ensures
        editor_is(r, *e),
{
    let mut es: Vec<(String, Json)> = Vec::new();
    es.push(text_entry_of("cwd", &e.cwd));
    es.push(count_entry("diagnostics", e.diagnostics.len()));
    es.push((String::from_str("has_buffer"), Json::Bool(e.buffer.is_some())));
    es.push(opt_text_entry("language_id", &e.language_id));
    es.push(lifecycle_entry(e.lifecycle));
    proof {
        reveal_strlit("cwd");
        reveal_strlit("diagnostics");
        reveal_strlit("has_buffer");
        reveal_strlit("language_id");
    }
    Json::Object(es)
}

fn apps_json(ws: &WorkspaceState) -> (r: Json)
    ensures
        apps_are(r, *ws),
{
    proof {
        reveal_strlit("cli");
        reveal_strlit("compute");
        reveal_strlit("editor");
        reveal_strlit("file_search");
        reveal_strlit("file_tree");
        reveal_strlit("filesystem_mount");
        reveal_strlit("jobs");
        reveal_strlit("scratchpad");
        reveal_strlit("stack_search");
        reveal_strlit("web_search");
        reveal_strlit("history");
        reveal_strlit("lines");
        reveal_strlit("results");
        reveal_strlit("matches");
        reveal_strlit("scope_root");
        reveal_strlit("cwd");
        reveal_strlit("entries");
        reveal_strlit("host_path");
    }
    let mut fs: Vec<(String, Json)> = Vec::new();
    fs.push(lifecycle_entry(ws.file_search.lifecycle));
    fs.push(count_entry("matches", ws.file_search.matches.len()));
    fs.push(text_entry_of("scope_root", &ws.file_search.scope_root));
    let mut ft: Vec<(String, Json)> = Vec::new();
    ft.push(text_entry_of("cwd", &ws.file_tree.cwd));
    ft.push(count_entry("entries", ws.file_tree.entries.len()));
    ft.push(lifecycle_entry(ws.file_tree.lifecycle));
    let mut mount: Vec<(String, Json)> = Vec::new();
    mount.push(opt_text_entry("host_path", &ws.filesystem_mount_host_path));
    let mut es: Vec<(String, Json)> = Vec::new();
    es.push((String::from_str("cli"), object2(count_entry("history", ws.cli.history.len()), lifecycle_entry(ws.cli.lifecycle))));
    es.push((
        String::from_str("compute"),
        object2(count_entry("history", ws.compute.history.len()), lifecycle_entry(ws.compute.lifecycle)),
    ));
    es.push((String::from_str("editor"), editor_json(&ws.editor)));
    es.push((String::from_str("file_search"), Json::Object(fs)));
    es.push((String::from_str("file_tree"), Json::Object(ft)));
    es.push((String::from_str("filesystem_mount"), Json::Object(mount)));
    es.push((String::from_str("jobs"), object2(count_entry("history", ws.jobs.history.len()), lifecycle_entry(ws.jobs.lifecycle))));
    es.push((
        String::from_str("scratchpad"),
        object2(lifecycle_entry(ws.scratchpad.lifecycle), count_entry("lines", ws.scratchpad.document_lines.len())),
    ));
    es.push((
        String::from_str("stack_search"),
        object2(lifecycle_entry(ws.stack_search.lifecycle), count_entry("results", ws.stack_search.results.len())),
    ));
    es.push((
        String::from_str("web_search"),
        object2(lifecycle_entry(ws.web_search.lifecycle), count_entry("results", ws.web_search.results.len())),
    ));
    Json::Object(es)
}

fn labels_json(apps: &Vec<AppId>) -> (r: Json)
    ensures
        labels_are(r, apps@),
{
    let mut items: Vec<Json> = Vec::new();
    let mut i: usize = 0;
    while i < apps.len()
        invariant
            i <= apps@.len(),
            items@.len() == i,
            forall|k: int| 0 <= k < i ==> #[trigger] text_is(items@[k], label_of(apps@[k])),
        decreases apps@.len() - i,
    {
        items.push(Json::Str(String::from_str(apps[i].label())));
        i = i + 1;
    }
    Json::Array(items)
}

/// The runtime snapshot of the workspace of `memory`, for the host to show:
/// the size and lifecycle of each app, the dock, and the policies in force.
pub fn workspace_runtime_snapshot(memory: &WorkingMemory) -> (r: Json)
    ensures
        snapshot_is(r, memory.workspace),
{
    proof {
        reveal_strlit("apps");
        reveal_strlit("dock");
        reveal_strlit("policy");
        reveal_strlit("focused_app");
        reveal_strlit("mounted_apps");
        reveal_strlit("near_event");
        reveal_strlit("short_term");
        reveal_strlit("v1_72h_or_urgent");
        reveal_strlit("v1_last_user_goal_pinned");
    }
    let ws = &memory.workspace;
    let dock = object2(
        (String::from_str("focused_app"), Json::Str(String::from_str(ws.dock.focused_app.label()))),
        (String::from_str("mounted_apps"), labels_json(&ws.dock.mounted_apps)),
    );
    let policy = object2(
        (String::from_str("near_event"), Json::Str(String::from_str("v1_72h_or_urgent"))),
        (String::from_str("short_term"), Json::Str(String::from_str("v1_last_user_goal_pinned"))),
    );
    let mut es: Vec<(String, Json)> = Vec::new();
    es.push((String::from_str("apps"), apps_json(ws)));
    es.push((String::from_str("dock"), dock));
    es.push((String::from_str("policy"), policy));
    Json::Object(es)
}

} // verus!
