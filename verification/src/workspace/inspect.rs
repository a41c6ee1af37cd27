//! What `inspect_app` reports of an app: its label, lifecycle, pin,
//! viewport, the lines its viewport shows, and the state particular to
//! the app, as a JSON object with its keys in order.

use vstd::prelude::*;
use crate::agent::action::{AgentAction, WorkingMemoryDelta};
use crate::agent::error::AgentError;
use crate::agent::tools::{dock_app_arg, InspectAppTool};
use crate::agent::trace::{entries, text_is};
use crate::agent::turn::opt_text_is;
use crate::json::Json;
use crate::memory::WorkingMemory;
use crate::text::{push_str, string_from_chars, views};
use crate::workspace::model::{available, label_of, AppId, AppLifecycle, EditorDiagnosticSeverity, TextViewport};
use crate::workspace::render::{numbered_content_lines, numbered_line, visible, visible_lines};
use crate::workspace::state::{EditorDiagnostic, SearchResultRecord, WorkspaceState};
use crate::workspace::views::{
    cli_lines, cli_view, compute_line, compute_record_lines, editor_lines, editor_view, file_search_lines,
    file_search_view, file_tree_lines, file_tree_view, job_line, job_record_lines,
};

verus! {

/// The name of a lifecycle.
pub open spec fn lifecycle_text(l: AppLifecycle) -> Seq<char> {
    match l {
        AppLifecycle::InstalledClosed => "InstalledClosed"@,
        AppLifecycle::OpenUnmounted => "OpenUnmounted"@,
        AppLifecycle::OpenMounted => "OpenMounted"@,
        AppLifecycle::OpenMountedFocused => "OpenMountedFocused"@,
    }
}

/// The line of one search result: its title, and its snippet after ` :: `
/// when there is one.
pub open spec fn result_summary(r: SearchResultRecord) -> Seq<char> {
    if r.snippet@.len() > 0 {
        r.title@ + " :: "@ + r.snippet@
    } else {
        r.title@
    }
}

/// The lines an app shows before its viewport cuts them.
pub open spec fn app_lines(ws: WorkspaceState, app: AppId) -> Seq<Seq<char>> {
    match app {
        AppId::Scratchpad => Seq::new(
            ws.scratchpad.document_lines@.len(),
            |i: int| numbered_line(i as nat, ws.scratchpad.document_lines@[i]@),
        ),
        AppId::WebSearch => ws.web_search.results@.map_values(|r: SearchResultRecord| result_summary(r)),
        AppId::StackSearch => ws.stack_search.results@.map_values(|r: SearchResultRecord| result_summary(r)),
        AppId::Compute => ws.compute.history@.map_values(|r: crate::workspace::state::ComputeRecord| compute_line(r)),
        AppId::Cli => cli_view(ws.cli.history@),
        AppId::FileTree => file_tree_view(ws.file_tree),
        AppId::Editor => editor_view(ws.editor),
        AppId::FileSearch => file_search_view(ws.file_search),
        AppId::Jobs => ws.jobs.history@.map_values(|r: crate::workspace::state::JobRecord| job_line(r)),
    }
}

/// The keys of an app's report, in order.
pub open spec fn inspect_keys(app: AppId) -> Seq<Seq<char>> {
    match app {
        AppId::WebSearch | AppId::StackSearch => seq![
            "app_id"@,
            "focused_query"@,
            "lifecycle"@,
            "pinned"@,
            "viewport"@,
            "visible"@,
        ],
        AppId::FileTree => seq!["app_id"@, "cwd"@, "lifecycle"@, "pinned"@, "viewport"@, "visible"@],
        AppId::Editor => seq![
            "app_id"@,
            "conflict_token"@,
            "cwd"@,
            "diagnostics"@,
            "language_id"@,
            "lifecycle"@,
            "path"@,
            "pinned"@,
            "viewport"@,
            "visible"@,
        ],
        AppId::FileSearch => seq![
            "app_id"@,
            "focused_query"@,
            "lifecycle"@,
            "pinned"@,
            "scope_root"@,
            "viewport"@,
            "visible"@,
        ],
        _ => seq!["app_id"@, "lifecycle"@, "pinned"@, "viewport"@, "visible"@],
    }
}

/// `j` is a viewport: its line count and start line.
pub open spec fn viewport_json_is(j: Json, v: TextViewport) -> bool {
    j is Object && entries(j).len() == 2 && entries(j)[0].0@ == "line_count"@ && entries(j)[0].1 == Json::Integer(
        v.line_count as i128,
    ) && entries(j)[1].0@ == "start_line"@ && entries(j)[1].1 == Json::Integer(v.start_line as i128)
}

/// The name of a diagnostic severity.
pub open spec fn severity_text(s: EditorDiagnosticSeverity) -> Seq<char> {
    match s {
        EditorDiagnosticSeverity::Hint => "Hint"@,
        EditorDiagnosticSeverity::Information => "Information"@,
        EditorDiagnosticSeverity::Warning => "Warning"@,
        EditorDiagnosticSeverity::Error => "Error"@,
    }
}

/// `j` is the diagnostic `d`: its span, message, path, severity and
/// source, under their names in order.
pub open spec fn diagnostic_is(j: Json, d: EditorDiagnostic) -> bool {
    &&& j is Object
    &&& entries(j).len() == 8
    &&& entries(j)[0].0@ == "end_column"@ && entries(j)[0].1 == Json::Integer(d.end_column as i128)
    &&& entries(j)[1].0@ == "end_line"@ && entries(j)[1].1 == Json::Integer(d.end_line as i128)
    &&& entries(j)[2].0@ == "message"@ && text_is(entries(j)[2].1, d.message@)
    &&& entries(j)[3].0@ == "path"@ && text_is(entries(j)[3].1, d.path@)
    &&& entries(j)[4].0@ == "severity"@ && text_is(entries(j)[4].1, severity_text(d.severity))
    &&& entries(j)[5].0@ == "source"@ && opt_text_is(entries(j)[5].1, d.source)
    &&& entries(j)[6].0@ == "start_column"@ && entries(j)[6].1 == Json::Integer(d.start_column as i128)
    &&& entries(j)[7].0@ == "start_line"@ && entries(j)[7].1 == Json::Integer(d.start_line as i128)
}

/// `j` lists the diagnostics `ds`.
pub open spec fn diagnostics_json_is(j: Json, ds: Seq<EditorDiagnostic>) -> bool {
    j matches Json::Array(items) && items@.len() == ds.len() && forall|i: int|
        0 <= i < ds.len() ==> #[trigger] diagnostic_is(items@[i], ds[i])
}

/// `j` lists the texts `lines`.
pub open spec fn lines_json_is(j: Json, lines: Seq<Seq<char>>) -> bool {
    j matches Json::Array(items) && items@.len() == lines.len() && forall|i: int|
        0 <= i < lines.len() ==> #[trigger] text_is(items@[i], lines[i])
}

/// The focused query of a search app, a file search, or nothing.
pub open spec fn focused_query_of(ws: WorkspaceState, app: AppId) -> Option<String> {
    match app {
        AppId::WebSearch => ws.web_search.focused_query,
        AppId::StackSearch => ws.stack_search.focused_query,
        _ => ws.file_search.focused_query,
    }
}

/// `e` reports what its key names of `app` in `ws`.
pub open spec fn inspect_entry_ok(ws: WorkspaceState, app: AppId, e: (String, Json)) -> bool {
    let k = e.0@;
    let v = e.1;
    let buffer = ws.editor.buffer;
    &&& k == "app_id"@ ==> text_is(v, label_of(app))
    &&& k == "lifecycle"@ ==> text_is(v, lifecycle_text(ws.lifecycle_of(app)))
    &&& k == "pinned"@ ==> v == Json::Bool(ws.pinned_of(app))
    &&& k == "viewport"@ ==> viewport_json_is(v, ws.viewport_of(app))
    &&& k == "visible"@ ==> lines_json_is(v, visible(app_lines(ws, app), ws.viewport_of(app)))
    &&& k == "cwd"@ ==> text_is(v, if app == AppId::FileTree { ws.file_tree.cwd@ } else { ws.editor.cwd@ })
    &&& k == "path"@ ==> opt_text_is(v, match buffer { Some(b) => Some(b.path), None => None })
    &&& k == "conflict_token"@ ==> opt_text_is(v, match buffer { Some(b) => b.conflict_token, None => None })
    &&& k == "language_id"@ ==> opt_text_is(v, ws.editor.language_id)
    &&& k == "diagnostics"@ ==> diagnostics_json_is(v, ws.editor.diagnostics@)
    &&& k == "scope_root"@ ==> text_is(v, ws.file_search.scope_root@)
    &&& k == "focused_query"@ ==> opt_text_is(v, focused_query_of(ws, app))
}

/// `j` is the report of `app` in `ws`.
pub open spec fn inspect_is(ws: WorkspaceState, app: AppId, j: Json) -> bool {
    &&& j is Object
    &&& entries(j).map_values(|e: (String, Json)| e.0@) == inspect_keys(app)
    &&& forall|i: int| 0 <= i < entries(j).len() ==> #[trigger] inspect_entry_ok(ws, app, entries(j)[i])
}

/// The lines a viewport shows, by their texts.
proof fn lemma_visible_views(lines: Seq<String>, v: TextViewport)
    ensures
        views(visible(lines, v)) == visible(views(lines), v),
{
    assert(views(visible(lines, v)) =~= visible(views(lines), v));
}

/// The texts of `lines` as a JSON array.
fn lines_json(lines: &Vec<String>) -> (r: Json)
    ensures
        lines_json_is(r, views(lines@)),
{
    let mut items: Vec<Json> = Vec::new();
    let mut i: usize = 0;
    while i < lines.len()
        invariant
            i <= lines@.len(),
            items@.len() == i,
            forall|k: int| 0 <= k < i ==> #[trigger] text_is(items@[k], lines@[k]@),
        decreases lines@.len() - i,
    {
        items.push(Json::Str(lines[i].clone()));
        i = i + 1;
    }
    Json::Array(items)
}

/// An optional text as JSON.
fn opt_json(o: &Option<String>) -> (r: Json)
    ensures
        opt_text_is(r, *o),
{
    match o {
        Some(t) => Json::Str(t.clone()),
        None => Json::Null,
    }
}

/// The name of a lifecycle.
pub(crate) fn lifecycle_name(l: AppLifecycle) -> (r: &'static str)
    ensures
        r@ == lifecycle_text(l),
{
    match l {
        AppLifecycle::InstalledClosed => "InstalledClosed",
        AppLifecycle::OpenUnmounted => "OpenUnmounted",
        AppLifecycle::OpenMounted => "OpenMounted",
        AppLifecycle::OpenMountedFocused => "OpenMountedFocused",
    }
}

/// The name of a diagnostic severity.
fn severity_name(s: EditorDiagnosticSeverity) -> (r: &'static str)
    ensures
        r@ == severity_text(s),
{
    match s {
        EditorDiagnosticSeverity::Hint => "Hint",
        EditorDiagnosticSeverity::Information => "Information",
        EditorDiagnosticSeverity::Warning => "Warning",
        EditorDiagnosticSeverity::Error => "Error",
    }
}

/// A diagnostic as JSON, its fields under their names in order.
fn diagnostic_json(d: &EditorDiagnostic) -> (r: Json)
    ensures
        diagnostic_is(r, *d),
{
    let mut es: Vec<(String, Json)> = Vec::new();
    es.push((String::from_str("end_column"), Json::Integer(d.end_column as i128)));
    es.push((String::from_str("end_line"), Json::Integer(d.end_line as i128)));
    es.push((String::from_str("message"), Json::Str(d.message.clone())));
    es.push((String::from_str("path"), Json::Str(d.path.clone())));
    es.push((String::from_str("severity"), Json::Str(String::from_str(severity_name(d.severity)))));
    es.push((String::from_str("source"), opt_json(&d.source)));
    es.push((String::from_str("start_column"), Json::Integer(d.start_column as i128)));
    es.push((String::from_str("start_line"), Json::Integer(d.start_line as i128)));
    Json::Object(es)
}

/// The lines of search results.
fn result_lines(results: &Vec<SearchResultRecord>) -> (r: Vec<String>)
    ensures
        views(r@) == results@.map_values(|x: SearchResultRecord| result_summary(x)),
{
    let mut out: Vec<String> = Vec::new();
    let mut i: usize = 0;
    while i < results.len()
        invariant
            i <= results@.len(),
            views(out@) == results@.take(i as int).map_values(|x: SearchResultRecord| result_summary(x)),
        decreases results@.len() - i,
    {
        let r = &results[i];
        let mut line: Vec<char> = Vec::new();
        push_str(&mut line, r.title.as_str());
        if !r.snippet.as_str().is_empty() {
            push_str(&mut line, " :: ");
            push_str(&mut line, r.snippet.as_str());
        }
        let ghost before = out@;
        out.push(string_from_chars(&line));
        assert(views(out@) =~= views(before).push(result_summary(results@[i as int])));
        i = i + 1;
        assert(views(out@) =~= results@.take(i as int).map_values(|x: SearchResultRecord| result_summary(x)));
    }
    assert(results@.take(results@.len() as int) =~= results@);
    out
}

impl WorkspaceState {
    /// The lines `app` shows before its viewport cuts them.
    fn app_line_texts(&self, app: AppId) -> (r: Vec<String>)
        ensures
            views(r@) == app_lines(*self, app),
    {
        match app {
            AppId::Scratchpad => {
                let r = numbered_content_lines(&self.scratchpad.document_lines);
                assert(views(r@) =~= app_lines(*self, app));
                r
            },
            AppId::WebSearch => result_lines(&self.web_search.results),
            AppId::StackSearch => result_lines(&self.stack_search.results),
            AppId::Compute => compute_record_lines(&self.compute.history, false),
            AppId::Cli => cli_lines(&self.cli),
            AppId::FileTree => file_tree_lines(&self.file_tree),
            AppId::Editor => editor_lines(&self.editor),
            AppId::FileSearch => file_search_lines(&self.file_search),
            AppId::Jobs => job_record_lines(&self.jobs.history),
        }
    }

    /// The frame of an app: its lifecycle, pin and viewport.
    fn frame_of(&self, app: AppId) -> (r: (AppLifecycle, bool, TextViewport))
        ensures
            r == (self.lifecycle_of(app), self.pinned_of(app), self.viewport_of(app)),
    {
        match app {
            AppId::Scratchpad => (self.scratchpad.lifecycle, self.scratchpad.pinned, self.scratchpad.viewport),
            AppId::WebSearch => (self.web_search.lifecycle, self.web_search.pinned, self.web_search.viewport),
            AppId::StackSearch => (self.stack_search.lifecycle, self.stack_search.pinned, self.stack_search.viewport),
            AppId::Compute => (self.compute.lifecycle, self.compute.pinned, self.compute.viewport),
            AppId::Cli => (self.cli.lifecycle, self.cli.pinned, self.cli.viewport),
            AppId::FileTree => (self.file_tree.lifecycle, self.file_tree.pinned, self.file_tree.viewport),
            AppId::Editor => (self.editor.lifecycle, self.editor.pinned, self.editor.viewport),
            AppId::FileSearch => (self.file_search.lifecycle, self.file_search.pinned, self.file_search.viewport),
            AppId::Jobs => (self.jobs.lifecycle, self.jobs.pinned, self.jobs.viewport),
        }
    }

    /// The report of `app`.
    pub fn inspect_app(&self, app: AppId) -> (r: Json)
        ensures
            inspect_is(*self, app, r),
    {
        proof {
            reveal_strlit("app_id");
            reveal_strlit("focused_query");
            reveal_strlit("lifecycle");
            reveal_strlit("pinned");
            reveal_strlit("viewport");
            reveal_strlit("visible");
            reveal_strlit("cwd");
            reveal_strlit("conflict_token");
            reveal_strlit("diagnostics");
            reveal_strlit("language_id");
            reveal_strlit("path");
            reveal_strlit("scope_root");
        }
        let (lifecycle, pinned, viewport) = self.frame_of(app);
        let all = self.app_line_texts(app);
        let shown = visible_lines(&all, viewport);
        proof {
            lemma_visible_views(all@, viewport);
        }
        proof {
            assert("path"@.len() == 4 && "cwd"@.len() == 3 && "pinned"@.len() == 6 && "app_id"@.len() == 6);
            assert("viewport"@.len() == 8 && "visible"@.len() == 7 && "lifecycle"@.len() == 9);
            assert("conflict_token"@.len() == 14 && "language_id"@.len() == 11 && "diagnostics"@.len() == 11);
            assert("scope_root"@.len() == 10 && "focused_query"@.len() == 13);
            assert("app_id"@[0] != "pinned"@[0]);
            assert("diagnostics"@[0] != "language_id"@[0]);
        }
        let mut vp: Vec<(String, Json)> = Vec::new();
        vp.push((String::from_str("line_count"), Json::Integer(viewport.line_count as i128)));
        vp.push((String::from_str("start_line"), Json::Integer(viewport.start_line as i128)));
        let id_e = (String::from_str("app_id"), Json::Str(String::from_str(app.label())));
        assert(inspect_entry_ok(*self, app, id_e));
        let life_e = (String::from_str("lifecycle"), Json::Str(String::from_str(lifecycle_name(lifecycle))));
        assert(inspect_entry_ok(*self, app, life_e));
        let pin_e = (String::from_str("pinned"), Json::Bool(pinned));
        assert(inspect_entry_ok(*self, app, pin_e));
        let vp_e = (String::from_str("viewport"), Json::Object(vp));
        assert(inspect_entry_ok(*self, app, vp_e));
        let vis_e = (String::from_str("visible"), lines_json(&shown));
        assert(inspect_entry_ok(*self, app, vis_e));
        let mut es: Vec<(String, Json)> = Vec::new();
        match app {
            AppId::WebSearch | AppId::StackSearch => {
                let q = if app == AppId::WebSearch {
                    opt_json(&self.web_search.focused_query)
                } else {
                    opt_json(&self.stack_search.focused_query)
                };
                let q_e = (String::from_str("focused_query"), q);
                assert(inspect_entry_ok(*self, app, q_e));
                es.push(id_e);
                es.push(q_e);
                es.push(life_e);
                es.push(pin_e);
                es.push(vp_e);
                es.push(vis_e);
                assert(es@ =~= seq![id_e, q_e, life_e, pin_e, vp_e, vis_e]);
            },
            AppId::FileTree => {
                let cwd_e = (String::from_str("cwd"), Json::Str(self.file_tree.cwd.clone()));
                assert(inspect_entry_ok(*self, app, cwd_e));
                es.push(id_e);
                es.push(cwd_e);
                es.push(life_e);
                es.push(pin_e);
                es.push(vp_e);
                es.push(vis_e);
                assert(es@ =~= seq![id_e, cwd_e, life_e, pin_e, vp_e, vis_e]);
            },
            AppId::Editor => {
                let (path, token) = match &self.editor.buffer {
                    Some(b) => (Json::Str(b.path.clone()), opt_json(&b.conflict_token)),
                    None => (Json::Null, Json::Null),
                };
                let mut diags: Vec<Json> = Vec::new();
                let mut i: usize = 0;
                while i < self.editor.diagnostics.len()
                    invariant
                        i <= self.editor.diagnostics@.len(),
                        diags@.len() == i,
                        forall|k: int| 0 <= k < i ==> #[trigger] diagnostic_is(diags@[k], self.editor.diagnostics@[k]),
                    decreases self.editor.diagnostics@.len() - i,
                {
                    diags.push(diagnostic_json(&self.editor.diagnostics[i]));
                    i = i + 1;
                }
                let tok_e = (String::from_str("conflict_token"), token);
                assert(inspect_entry_ok(*self, app, tok_e));
                let cwd_e = (String::from_str("cwd"), Json::Str(self.editor.cwd.clone()));
                assert(inspect_entry_ok(*self, app, cwd_e));
                let diag_e = (String::from_str("diagnostics"), Json::Array(diags));
                assert(inspect_entry_ok(*self, app, diag_e));
                let lang_e = (String::from_str("language_id"), opt_json(&self.editor.language_id));
                assert(inspect_entry_ok(*self, app, lang_e));
                let path_e = (String::from_str("path"), path);
                assert(inspect_entry_ok(*self, app, path_e));
                es.push(id_e);
                es.push(tok_e);
                es.push(cwd_e);
                es.push(diag_e);
                es.push(lang_e);
                es.push(life_e);
                es.push(path_e);
                es.push(pin_e);
                es.push(vp_e);
                es.push(vis_e);
                assert(es@ =~= seq![id_e, tok_e, cwd_e, diag_e, lang_e, life_e, path_e, pin_e, vp_e, vis_e]);
            },
            AppId::FileSearch => {
                let q_e = (String::from_str("focused_query"), opt_json(&self.file_search.focused_query));
                assert(inspect_entry_ok(*self, app, q_e));
                let scope_e = (String::from_str("scope_root"), Json::Str(self.file_search.scope_root.clone()));
                assert(inspect_entry_ok(*self, app, scope_e));
                es.push(id_e);
                es.push(q_e);
                es.push(life_e);
                es.push(pin_e);
                es.push(scope_e);
                es.push(vp_e);
                es.push(vis_e);
                assert(es@ =~= seq![id_e, q_e, life_e, pin_e, scope_e, vp_e, vis_e]);
            },
            _ => {
                es.push(id_e);
                es.push(life_e);
                es.push(pin_e);
                es.push(vp_e);
                es.push(vis_e);
                assert(es@ =~= seq![id_e, life_e, pin_e, vp_e, vis_e]);
            },
        }
        assert(forall|i: int| 0 <= i < es@.len() ==> #[trigger] inspect_entry_ok(*self, app, es@[i]));
        let r = Json::Object(es);
        assert(entries(r).map_values(|e: (String, Json)| e.0@) =~= inspect_keys(app));
        r
    }
}

impl InspectAppTool {
    /// Records the report of the app that `args` name, under
    /// `inspect_app:` and the app's label.
    pub fn action(&self, args: &Json, memory: &WorkingMemory, web_search_available: bool) -> (r: Result<AgentAction, AgentError>)
        ensures
            match dock_app_arg(*args) {
                None => r matches Err(AgentError::Provider(m)) && m@ == "inspect_app requires a valid 'app_id'"@,
                Some(app) => if !available(app, web_search_available) {
                    r matches Err(AgentError::Provider(m)) && m@
                        == "inspect_app cannot inspect unavailable app '"@ + label_of(app) + "'"@
                } else {
                    r matches Ok(AgentAction::UpdateWorkingMemory(WorkingMemoryDelta::AddTechnicalNoise(k, p)))
                        && k@ == "inspect_app:"@ + label_of(app) && inspect_is(memory.workspace, app, p)
                },
            },
    {
        let app = match self.read_app(args, web_search_available) {
            Ok(a) => a,
            Err(e) => return Err(e),
        };
        let mut k: Vec<char> = Vec::new();
        push_str(&mut k, "inspect_app:");
        push_str(&mut k, app.label());
        let p = memory.workspace.inspect_app(app);
        Ok(AgentAction::UpdateWorkingMemory(WorkingMemoryDelta::AddTechnicalNoise(string_from_chars(&k), p)))
    }
}

} // verus!
