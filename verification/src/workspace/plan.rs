//! Viewport candidates of every app, the allocation plan, and the rendered
//! dock and near-event regions.

use vstd::prelude::*;
use crate::text::{join, push_chars, push_str, string_from_chars, views};
use crate::workspace::model::{
    all_app_ids, app_index, available, base_utility, dock_order, in_dock_order, label_of,
    mount_synced, priority_class, priority_of, sync_app_mount_state, utility_of, AllocationPlan,
    AppId, AppLifecycle, TextViewport, ViewportCandidate, ViewportTier,
};
use crate::workspace::render::{
    build_text_candidates, clamp_text_to_budget, clamped_text, minimal_lines, preferred_lines,
    token_cost, window_text,
};
use crate::workspace::solve::{bounded, of_app, selection, solve_viewport_selection, utility_bound};
use crate::workspace::state::WorkspaceState;
use crate::workspace::views::{
    cli_lines, cli_view, compute_line, compute_record_lines, editor_lines, editor_view,
    file_search_lines, file_search_view, file_tree_lines, file_tree_view, job_line,
    job_record_lines, search_lines, search_view,
};

verus! {

/// The upper-case label of an app.
pub open spec fn upper_label(app: AppId) -> Seq<char> {
    match app {
        AppId::Scratchpad => "SCRATCHPAD"@,
        AppId::WebSearch => "WEBSEARCH"@,
        AppId::StackSearch => "STACK-SEARCH"@,
        AppId::Compute => "COMPUTE"@,
        AppId::Cli => "CLI"@,
        AppId::FileTree => "FILE-TREE"@,
        AppId::Editor => "EDITOR"@,
        AppId::FileSearch => "FILE-SEARCH"@,
        AppId::Jobs => "JOBS"@,
    }
}

/// The upper-case label of an app.
pub fn upper_label_of(app: AppId) -> (r: &'static str)
    ensures
        r@ == upper_label(app),
{
    match app {
        AppId::Scratchpad => "SCRATCHPAD",
        AppId::WebSearch => "WEBSEARCH",
        AppId::StackSearch => "STACK-SEARCH",
        AppId::Compute => "COMPUTE",
        AppId::Cli => "CLI",
        AppId::FileTree => "FILE-TREE",
        AppId::Editor => "EDITOR",
        AppId::FileSearch => "FILE-SEARCH",
        AppId::Jobs => "JOBS",
    }
}

/// The header of an app's viewport window.
pub open spec fn header_of(app: AppId) -> Seq<char> {
    match app {
        AppId::Scratchpad => "SCRATCHPAD"@,
        AppId::WebSearch => upper_label(app),
        AppId::StackSearch => upper_label(app),
        AppId::Compute => "COMPUTE"@,
        AppId::Cli => "CLI"@,
        AppId::FileTree => "FILE TREE"@,
        AppId::Editor => "EDITOR"@,
        AppId::FileSearch => "FILE SEARCH"@,
        AppId::Jobs => "JOBS"@,
    }
}

/// The name of a lifecycle, as `Debug` prints it.
pub open spec fn lifecycle_name(l: AppLifecycle) -> Seq<char> {
    match l {
        AppLifecycle::InstalledClosed => "InstalledClosed"@,
        AppLifecycle::OpenUnmounted => "OpenUnmounted"@,
        AppLifecycle::OpenMounted => "OpenMounted"@,
        AppLifecycle::OpenMountedFocused => "OpenMountedFocused"@,
    }
}

/// The name of a lifecycle.
pub fn lifecycle_label(l: AppLifecycle) -> (r: &'static str)
    ensures
        r@ == lifecycle_name(l),
{
    match l {
        AppLifecycle::InstalledClosed => "InstalledClosed",
        AppLifecycle::OpenUnmounted => "OpenUnmounted",
        AppLifecycle::OpenMounted => "OpenMounted",
        AppLifecycle::OpenMountedFocused => "OpenMountedFocused",
    }
}

impl WorkspaceState {
    /// Well-formedness: focus is consistent, the two search apps carry their
    /// own ids, and the mounted apps are listed in dock order.
    pub open spec fn wf(&self) -> bool {
        &&& self.focus_consistent()
        &&& self.web_search.app_id == AppId::WebSearch
        &&& self.stack_search.app_id == AppId::StackSearch
        &&& in_dock_order(self.dock.mounted_apps@)
    }

    /// The lines that an app shows in its viewport window.
    pub open spec fn lines_view(&self, app: AppId) -> Seq<Seq<char>> {
        match app {
            AppId::Scratchpad => views(self.scratchpad.document_lines@),
            AppId::WebSearch => search_view(self.web_search, upper_label(AppId::WebSearch)),
            AppId::StackSearch => search_view(self.stack_search, upper_label(AppId::StackSearch)),
            AppId::Compute => seq!["COMPUTE APP"@] + self.compute.history@.map_values(
                |x: crate::workspace::state::ComputeRecord| "- "@ + compute_line(x),
            ),
            AppId::Cli => cli_view(self.cli.history@),
            AppId::FileTree => file_tree_view(self.file_tree),
            AppId::Editor => editor_view(self.editor),
            AppId::FileSearch => file_search_view(self.file_search),
            AppId::Jobs => seq!["cwd: "@ + self.filesystem_cwd@] + self.jobs.history@.map_values(
                |x: crate::workspace::state::JobRecord| job_line(x),
            ),
        }
    }

    /// `c` are the viewport candidates of `app`: none when it is closed,
    /// otherwise its minimal tier (mandatory when pinned or focused) and its
    /// preferred tier, rendered from its lines and viewport.
    pub open spec fn candidates_ok(&self, app: AppId, c: Seq<ViewportCandidate>) -> bool {
        let l = self.lifecycle_of(app);
        let v = self.viewport_of(app);
        let base = utility_of(priority_of(self.dock.focused_app, app));
        if l == AppLifecycle::InstalledClosed {
            c.len() == 0
        } else {
            &&& c.len() == 2
            &&& c[0].app_id == app
            &&& c[0].tier == ViewportTier::Minimal
            &&& c[0].mandatory == (self.pinned_of(app) || l == AppLifecycle::OpenMountedFocused)
            &&& c[0].utility == base + 20
            &&& c[0].content@ == window_text(
                header_of(app),
                self.lines_view(app),
                TextViewport { start_line: v.start_line, line_count: minimal_lines(v) },
            )
            &&& c[0].cost_tokens == token_cost(c[0].content@.len())
            &&& c[1].app_id == app
            &&& c[1].tier == ViewportTier::Preferred
            &&& !c[1].mandatory
            &&& c[1].utility == base + 50
            &&& c[1].content@ == window_text(
                header_of(app),
                self.lines_view(app),
                TextViewport { start_line: v.start_line, line_count: preferred_lines(v) },
            )
            &&& c[1].cost_tokens == token_cost(c[1].content@.len())
        }
    }

    /// `c` holds, app by app, exactly the viewport candidates of each app.
    pub open spec fn describes_candidates(&self, c: Seq<ViewportCandidate>) -> bool {
        forall|app: AppId| #[trigger] self.candidates_ok(app, of_app(c, app))
    }

    /// The lines an app shows.
    pub fn app_lines(&self, app: AppId) -> (r: Vec<String>)
        requires
            self.wf(),
        ensures
            views(r@) == self.lines_view(app),
    {
        match app {
            AppId::Scratchpad => {
                let mut out: Vec<String> = Vec::new();
                let mut i: usize = 0;
                while i < self.scratchpad.document_lines.len()
                    invariant
                        i <= self.scratchpad.document_lines@.len(),
                        out@ == self.scratchpad.document_lines@.take(i as int),
                    decreases self.scratchpad.document_lines@.len() - i,
                {
                    out.push(self.scratchpad.document_lines[i].clone());
                    i = i + 1;
                    assert(self.scratchpad.document_lines@.take(i as int)
                        =~= self.scratchpad.document_lines@.take(i - 1).push(
                        self.scratchpad.document_lines@[i - 1],
                    ));
                }
                assert(self.scratchpad.document_lines@.take(
                    self.scratchpad.document_lines@.len() as int,
                ) == self.scratchpad.document_lines@);
                out
            },
            AppId::WebSearch => search_lines(&self.web_search, upper_label_of(AppId::WebSearch)),
            AppId::StackSearch => search_lines(
                &self.stack_search,
                upper_label_of(AppId::StackSearch),
            ),
            AppId::Compute => {
                let mut out: Vec<String> = Vec::new();
                out.push(String::from_str("COMPUTE APP"));
                let rest = compute_record_lines(&self.compute.history, true);
                let ghost rest_view = views(rest@);
                let ghost first = out@;
                append_strings(&mut out, rest);
                proof {
                    let h = self.compute.history@;
                    let f = |x: crate::workspace::state::ComputeRecord| "- "@ + compute_line(x);
                    assert(rest_view =~= h.map_values(f));
                    assert(views(out@) =~= views(first) + rest_view);
                    assert(views(first) =~= seq!["COMPUTE APP"@]);
                }
                out
            },
            AppId::Cli => cli_lines(&self.cli),
            AppId::FileTree => file_tree_lines(&self.file_tree),
            AppId::Editor => editor_lines(&self.editor),
            AppId::FileSearch => file_search_lines(&self.file_search),
            AppId::Jobs => {
                let mut out: Vec<String> = Vec::new();
                let mut head: Vec<char> = Vec::new();
                push_str(&mut head, "cwd: ");
                push_str(&mut head, self.filesystem_cwd.as_str());
                out.push(string_from_chars(&head));
                let rest = job_record_lines(&self.jobs.history);
                append_strings(&mut out, rest);
                assert(views(out@) =~= self.lines_view(app));
                out
            },
        }
    }

    /// The viewport candidates of one app.
    pub fn candidates_for(&self, app: AppId) -> (r: Vec<ViewportCandidate>)
        requires
            self.wf(),
        ensures
            self.candidates_ok(app, r@),
            forall|i: int| 0 <= i < r@.len() ==> (#[trigger] r@[i]).app_id == app,
            bounded(r@),
    {
        let lifecycle = self.lifecycle_for(app);
        if !lifecycle.is_open() {
            return Vec::new();
        }
        let lines = self.app_lines(app);
        let header: &str = match app {
            AppId::Scratchpad => "SCRATCHPAD",
            AppId::WebSearch => upper_label_of(AppId::WebSearch),
            AppId::StackSearch => upper_label_of(AppId::StackSearch),
            AppId::Compute => "COMPUTE",
            AppId::Cli => "CLI",
            AppId::FileTree => "FILE TREE",
            AppId::Editor => "EDITOR",
            AppId::FileSearch => "FILE SEARCH",
            AppId::Jobs => "JOBS",
        };
        let viewport = match app {
            AppId::Scratchpad => self.scratchpad.viewport,
            AppId::WebSearch => self.web_search.viewport,
            AppId::StackSearch => self.stack_search.viewport,
            AppId::Compute => self.compute.viewport,
            AppId::Cli => self.cli.viewport,
            AppId::FileTree => self.file_tree.viewport,
            AppId::Editor => self.editor.viewport,
            AppId::FileSearch => self.file_search.viewport,
            AppId::Jobs => self.jobs.viewport,
        };
        let pinned = self.is_pinned(app);
        let priority = priority_class(self.dock.focused_app, app);
        let r = build_text_candidates(app, lifecycle, pinned, &lines, viewport, header, priority);
        assert(r@.len() == 2);
        r
    }

    /// The viewport candidates of every app, in dock order.
    pub fn collect_candidates(&self) -> (r: Vec<ViewportCandidate>)
        requires
            self.wf(),
        ensures
            self.describes_candidates(r@),
            bounded(r@),
    {
        let ids = all_app_ids();
        let mut out: Vec<ViewportCandidate> = Vec::new();
        let mut k: usize = 0;
        while k < 9
            invariant
                self.wf(),
                ids@ == dock_order(),
                k <= 9,
                bounded(out@),
                forall|a: AppId|
                    app_index(a) < k ==> #[trigger] self.candidates_ok(a, of_app(out@, a)),
                forall|a: AppId| app_index(a) >= k ==> #[trigger] of_app(out@, a).len() == 0,
            decreases 9 - k,
        {
            let app = ids[k];
            assert(app_index(app) == k);
            let group = self.candidates_for(app);
            let ghost before = out@;
            let mut j: usize = 0;
            while j < group.len()
                invariant
                    j <= group@.len(),
                    out@ == before + group@.take(j as int),
                    bounded(before),
                    bounded(group@),
                decreases group@.len() - j,
            {
                out.push(group[j].duplicate());
                j = j + 1;
                assert(group@.take(j as int) =~= group@.take(j - 1).push(group@[j - 1]));
            }
            assert(group@.take(group@.len() as int) == group@);
            proof {
                assert(out@ =~= before + group@);
                assert forall|i: int| 0 <= i < out@.len() implies -utility_bound() <= (
                #[trigger] out@[i]).utility <= utility_bound() by {
                    if i < before.len() {
                        assert(out@[i] == before[i]);
                    } else {
                        assert(out@[i] == group@[i - before.len()]);
                    }
                }
                assert forall|a: AppId| true implies #[trigger] of_app(out@, a) == of_app(before, a)
                    + of_app(group@, a) by {
                    lemma_of_app_concat(before, group@, a);
                }
                lemma_of_app_uniform(group@, app);
                assert forall|a: AppId| app_index(a) < k + 1 implies #[trigger] self.candidates_ok(
                    a,
                    of_app(out@, a),
                ) by {
                    if a == app {
                        assert(of_app(before, a).len() == 0);
                        assert(of_app(out@, a) =~= group@);
                    } else {
                        assert(of_app(group@, a) =~= Seq::<ViewportCandidate>::empty());
                        assert(of_app(out@, a) =~= of_app(before, a));
                    }
                }
                assert forall|a: AppId| app_index(a) >= k + 1 implies #[trigger] of_app(
                    out@,
                    a,
                ).len() == 0 by {
                    assert(a != app);
                    assert(of_app(group@, a) =~= Seq::<ViewportCandidate>::empty());
                }
            }
            k = k + 1;
        }
        proof {
            assert forall|a: AppId| #[trigger] self.candidates_ok(a, of_app(out@, a)) by {
                crate::workspace::model::dock_order_indexes(a);
            }
        }
        out
    }
}

/// Moves the strings of `rest` to the end of `out`.
fn append_strings(out: &mut Vec<String>, rest: Vec<String>)
    ensures
        final(out)@ == old(out)@ + rest@,
{
    let mut rest = rest;
    out.append(&mut rest);
}

proof fn lemma_of_app_concat(x: Seq<ViewportCandidate>, y: Seq<ViewportCandidate>, a: AppId)
    ensures
        of_app(x + y, a) == of_app(x, a) + of_app(y, a),
    decreases y.len(),
{
    if y.len() == 0 {
        assert(x + y =~= x);
        assert(of_app(y, a) =~= Seq::<ViewportCandidate>::empty());
        assert(of_app(x, a) + of_app(y, a) =~= of_app(x, a));
    } else {
        assert((x + y).drop_last() =~= x + y.drop_last());
        assert((x + y).last() == y.last());
        lemma_of_app_concat(x, y.drop_last(), a);
        if y.last().app_id == a {
            assert(of_app(x, a) + of_app(y, a) =~= (of_app(x, a) + of_app(y.drop_last(), a)).push(
                y.last(),
            ));
        }
    }
}

proof fn lemma_of_app_uniform(g: Seq<ViewportCandidate>, app: AppId)
    requires
        forall|i: int| 0 <= i < g.len() ==> (#[trigger] g[i]).app_id == app,
    ensures
        of_app(g, app) == g,
        forall|b: AppId| b != app ==> #[trigger] of_app(g, b).len() == 0,
    decreases g.len(),
{
    if g.len() > 0 {
        lemma_of_app_uniform(g.drop_last(), app);
        assert(of_app(g.drop_last(), app).push(g.last()) =~= g);
        assert forall|b: AppId| b != app implies #[trigger] of_app(g, b).len() == 0 by {
            assert(of_app(g, b) == of_app(g.drop_last(), b));
        }
    }
}

/// The apps of the first `n` in dock order that some selected candidate belongs to.
pub open spec fn mounted_upto(sel: Seq<ViewportCandidate>, n: nat) -> Seq<AppId>
    decreases n,
{
    if n == 0 {
        Seq::empty()
    } else {
        let prev = mounted_upto(sel, (n - 1) as nat);
        let a = dock_order()[n - 1];
        if exists|i: int| 0 <= i < sel.len() && (#[trigger] sel[i]).app_id == a {
            prev.push(a)
        } else {
            prev
        }
    }
}

/// The apps that some selected candidate belongs to, in dock order.
pub open spec fn mounted_from(sel: Seq<ViewportCandidate>) -> Seq<AppId> {
    mounted_upto(sel, 9)
}

pub(crate) proof fn lemma_mounted_upto(sel: Seq<ViewportCandidate>, n: nat)
    requires
        n <= 9,
    ensures
        in_dock_order(mounted_upto(sel, n)),
        forall|i: int| 0 <= i < mounted_upto(sel, n).len() ==> app_index(#[trigger] mounted_upto(sel, n)[i]) < n,
        forall|a: AppId|
            app_index(a) < n ==> (#[trigger] mounted_upto(sel, n).contains(a) <==> exists|i: int|
                0 <= i < sel.len() && (#[trigger] sel[i]).app_id == a),
    decreases n,
{
    if n > 0 {
        lemma_mounted_upto(sel, (n - 1) as nat);
        let prev = mounted_upto(sel, (n - 1) as nat);
        let a = dock_order()[n - 1];
        crate::workspace::model::dock_order_indexes(a);
        assert(app_index(a) == n - 1) by {
            assert(dock_order()[n - 1] == a);
        }
        assert forall|b: AppId| app_index(b) < n implies (#[trigger] mounted_upto(sel, n).contains(b) <==> exists|i: int|
            0 <= i < sel.len() && (#[trigger] sel[i]).app_id == b) by {
            crate::workspace::model::dock_order_indexes(b);
            if app_index(b) == n - 1 {
                assert(b == a);
                if mounted_upto(sel, n).contains(b) && !prev.contains(b) {
                } else if prev.contains(b) {
                    let k = choose|k: int| 0 <= k < prev.len() && prev[k] == b;
                    assert(app_index(prev[k]) < n - 1);
                }
                if exists|i: int| 0 <= i < sel.len() && (#[trigger] sel[i]).app_id == a {
                    assert(mounted_upto(sel, n).last() == a);
                }
            } else {
                if mounted_upto(sel, n).contains(b) {
                    let k = choose|k: int| 0 <= k < mounted_upto(sel, n).len() && mounted_upto(sel, n)[k] == b;
                    if k < prev.len() {
                        assert(prev[k] == b);
                    }
                }
                if prev.contains(b) {
                    let k = choose|k: int| 0 <= k < prev.len() && prev[k] == b;
                    assert(mounted_upto(sel, n)[k] == b);
                }
            }
        }
    }
}

/// Items of the near-event region, each as `- title [reason]`, the time
/// when there is one, and a newline.
pub open spec fn near_items_text(items: Seq<crate::workspace::model::NearEventItem>) -> Seq<char>
    decreases items.len(),
{
    if items.len() == 0 {
        Seq::empty()
    } else {
        let it = items.last();
        near_items_text(items.drop_last()) + "- "@ + it.title@ + " ["@ + it.reason@ + "]"@
            + match it.timestamp_iso {
            Some(t) => " @ "@ + t@,
            None => Seq::empty(),
        } + "\n"@
    }
}

/// The header of the near-event region, naming its policy.
pub open spec fn near_header() -> Seq<char> {
    "NEAR HSTACK EVENTS\npolicy: v1_72h_or_urgent\n"@
}

/// The near-event region: `- none` without items, else the items, cut to
/// the near-event budget.
pub open spec fn near_text(items: Seq<crate::workspace::model::NearEventItem>, budget: nat) -> Seq<char> {
    if items.len() == 0 {
        near_header() + "- none\n"@
    } else {
        clamped_text(near_header() + near_items_text(items), budget)
    }
}

/// The labels of the first `n` available apps, in dock order, that are
/// pinned (`pinned`) or open (otherwise).
pub open spec fn app_labels(s: WorkspaceState, web: bool, n: nat, pinned: bool) -> Seq<Seq<char>>
    decreases n,
{
    if n == 0 {
        Seq::empty()
    } else {
        let prev = app_labels(s, web, (n - 1) as nat, pinned);
        let a = dock_order()[n - 1];
        let chosen = if pinned {
            s.pinned_of(a)
        } else {
            s.lifecycle_of(a) != AppLifecycle::InstalledClosed
        };
        if available(a, web) && chosen {
            prev.push(label_of(a))
        } else {
            prev
        }
    }
}

/// The dock line of one app: label, lifecycle, then `focused`, `mounted`
/// or `unmounted`, and `pinned` as they apply.
pub open spec fn dock_entry_text(s: WorkspaceState, a: AppId, mounted: bool) -> Seq<char> {
    let l = s.lifecycle_of(a);
    label_of(a) + " :: "@ + lifecycle_name(l) + (if s.dock.focused_app == a {
        " :: focused"@
    } else {
        Seq::empty()
    }) + (if mounted {
        " :: mounted"@
    } else if l != AppLifecycle::InstalledClosed {
        " :: unmounted"@
    } else {
        Seq::empty()
    }) + (if s.pinned_of(a) {
        " :: pinned"@
    } else {
        Seq::empty()
    })
}

/// The dock lines of the first `n` available apps.
pub open spec fn dock_entries(s: WorkspaceState, mounted: Seq<AppId>, web: bool, n: nat) -> Seq<char>
    decreases n,
{
    if n == 0 {
        Seq::empty()
    } else {
        let a = dock_order()[n - 1];
        dock_entries(s, mounted, web, (n - 1) as nat) + if available(a, web) {
            "- "@ + dock_entry_text(s, a, mounted.contains(a)) + "\n"@
        } else {
            Seq::empty()
        }
    }
}

/// The names of the first six file tree entries, joined by commas.
pub open spec fn preview_text(s: WorkspaceState) -> Seq<char> {
    let es = s.file_tree.entries@;
    let shown = if es.len() < 6 {
        es
    } else {
        es.take(6)
    };
    join(shown.map_values(|e: crate::workspace::state::DirectoryEntry| e.name@), ", "@)
}

/// The dock region before it is cut to its budget.
pub open spec fn dock_raw(s: WorkspaceState, mounted: Seq<AppId>, web: bool) -> Seq<char> {
    "DOCK\nfocused: "@ + label_of(s.dock.focused_app) + "\npinned: ["@ + join(
        app_labels(s, web, 9, true),
        ", "@,
    ) + "]\nopen: ["@ + join(app_labels(s, web, 9, false), ", "@) + "]\nmounted: ["@ + join(
        mounted.map_values(|a: AppId| label_of(a)),
        ", "@,
    ) + "]\nfilesystem_mount: "@ + match s.filesystem_mount_host_path {
        Some(h) => h@,
        None => "none"@,
    } + "\n"@ + match s.filesystem_mount_host_path {
        Some(_) => "filesystem_root_virtual: /\n"@ + if s.file_tree.entries@.len() == 0 {
            "filesystem_root_preview: none\n"@
        } else {
            "filesystem_root_preview: "@ + preview_text(s) + "\n"@
        },
        None => Seq::empty(),
    } + dock_entries(s, mounted, web, 9)
}

impl WorkspaceState {
    /// The labels of available apps that are pinned (or open), in dock order.
    fn collect_app_labels(&self, web_search_available: bool, pinned: bool) -> (r: Vec<String>)
        ensures
            views(r@) == app_labels(*self, web_search_available, 9, pinned),
    {
        let ids = all_app_ids();
        let mut out: Vec<String> = Vec::new();
        let mut k: usize = 0;
        while k < 9
            invariant
                ids@ == dock_order(),
                k <= 9,
                views(out@) == app_labels(*self, web_search_available, k as nat, pinned),
            decreases 9 - k,
        {
            let a = ids[k];
            let chosen = if pinned {
                self.is_pinned(a)
            } else {
                self.lifecycle_for(a).is_open()
            };
            if crate::workspace::model::app_is_available(a, web_search_available) && chosen {
                let ghost before = out@;
                out.push(String::from_str(a.label()));
                assert(views(out@) =~= views(before).push(label_of(a)));
            }
            k = k + 1;
        }
        out
    }

    /// Renders the dock region for the mounted apps `mounted_apps`.
    pub fn render_dock(&self, mounted_apps: &Vec<AppId>, web_search_available: bool) -> (r: String)
        ensures
            r@ == clamped_text(
                dock_raw(*self, mounted_apps@, web_search_available),
                self.budget.dock_budget as nat,
            ),
    {
        let mut content: Vec<char> = Vec::new();
        push_str(&mut content, "DOCK\nfocused: ");
        push_str(&mut content, self.dock.focused_app.label());
        push_str(&mut content, "\npinned: [");
        let pinned = self.collect_app_labels(web_search_available, true);
        let pinned_text = crate::text::join_strings(&pinned, ", ");
        push_chars(&mut content, &pinned_text);
        push_str(&mut content, "]\nopen: [");
        let open = self.collect_app_labels(web_search_available, false);
        let open_text = crate::text::join_strings(&open, ", ");
        push_chars(&mut content, &open_text);
        push_str(&mut content, "]\nmounted: [");
        let mut mounted_labels: Vec<String> = Vec::new();
        let mut i: usize = 0;
        while i < mounted_apps.len()
            invariant
                i <= mounted_apps@.len(),
                views(mounted_labels@) == mounted_apps@.take(i as int).map_values(
                    |a: AppId| label_of(a),
                ),
            decreases mounted_apps@.len() - i,
        {
            let ghost before = mounted_labels@;
            mounted_labels.push(String::from_str(mounted_apps[i].label()));
            i = i + 1;
            assert(mounted_apps@.take(i as int).map_values(|a: AppId| label_of(a))
                =~= mounted_apps@.take(i - 1).map_values(|a: AppId| label_of(a)).push(
                label_of(mounted_apps@[i - 1]),
            ));
            assert(views(mounted_labels@) =~= views(before).push(label_of(mounted_apps@[i - 1])));
        }
        assert(mounted_apps@.take(mounted_apps@.len() as int) == mounted_apps@);
        let mounted_text = crate::text::join_strings(&mounted_labels, ", ");
        push_chars(&mut content, &mounted_text);
        push_str(&mut content, "]\nfilesystem_mount: ");
        match &self.filesystem_mount_host_path {
            Some(h) => push_str(&mut content, h.as_str()),
            None => push_str(&mut content, "none"),
        }
        push_str(&mut content, "\n");
        match &self.filesystem_mount_host_path {
            Some(_) => {
                push_str(&mut content, "filesystem_root_virtual: /\n");
                if self.file_tree.entries.len() == 0 {
                    push_str(&mut content, "filesystem_root_preview: none\n");
                } else {
                    let n = if self.file_tree.entries.len() < 6 {
                        self.file_tree.entries.len()
                    } else {
                        6
                    };
                    let mut names: Vec<String> = Vec::new();
                    let mut j: usize = 0;
                    let ghost es = self.file_tree.entries@;
                    let ghost shown = if es.len() < 6 {
                        es
                    } else {
                        es.take(6)
                    };
                    assert(shown.len() == n);
                    while j < n
                        invariant
                            es == self.file_tree.entries@,
                            n <= es.len(),
                            shown.len() == n,
                            forall|q: int| 0 <= q < n ==> shown[q] == es[q],
                            j <= n,
                            views(names@) == shown.take(j as int).map_values(
                                |e: crate::workspace::state::DirectoryEntry| e.name@,
                            ),
                        decreases n - j,
                    {
                        let ghost before = names@;
                        names.push(self.file_tree.entries[j].name.clone());
                        j = j + 1;
                        assert(shown.take(j as int).map_values(
                            |e: crate::workspace::state::DirectoryEntry| e.name@,
                        ) =~= shown.take(j - 1).map_values(
                            |e: crate::workspace::state::DirectoryEntry| e.name@,
                        ).push(shown[j - 1].name@));
                        assert(views(names@) =~= views(before).push(shown[j - 1].name@));
                    }
                    assert(shown.take(n as int) == shown);
                    let preview = crate::text::join_strings(&names, ", ");
                    push_str(&mut content, "filesystem_root_preview: ");
                    push_chars(&mut content, &preview);
                    push_str(&mut content, "\n");
                }
            },
            None => {},
        }
        let ids = all_app_ids();
        let ghost head = content@;
        let mut k: usize = 0;
        while k < 9
            invariant
                ids@ == dock_order(),
                k <= 9,
                content@ == head + dock_entries(*self, mounted_apps@, web_search_available, k as nat),
            decreases 9 - k,
        {
            let a = ids[k];
            let line = self.dock_entry_line(a, mounted_apps, web_search_available);
            push_chars(&mut content, &line);
            k = k + 1;
        }
        assert(content@ =~= dock_raw(*self, mounted_apps@, web_search_available));
        let raw = string_from_chars(&content);
        clamp_text_to_budget(raw.as_str(), self.budget.dock_budget)
    }

    /// The dock line of `a` (empty when it is unavailable).
    #[verifier::rlimit(50)]
    #[verifier::spinoff_prover]
    fn dock_entry_line(&self, a: AppId, mounted_apps: &Vec<AppId>, web_search_available: bool) -> (r: Vec<char>)
        ensures
            r@ == (if available(a, web_search_available) {
                "- "@ + dock_entry_text(*self, a, mounted_apps@.contains(a)) + "\n"@
            } else {
                Seq::empty()
            }),
    {
        let mut line: Vec<char> = Vec::new();
        if crate::workspace::model::app_is_available(a, web_search_available) {
            let lifecycle = self.lifecycle_for(a);
            let is_mounted = crate::workspace::model::holds_app(mounted_apps, a);
            push_str(&mut line, "- ");
            push_str(&mut line, a.label());
            push_str(&mut line, " :: ");
            push_str(&mut line, lifecycle_label(lifecycle));
            if self.dock.focused_app == a {
                push_str(&mut line, " :: focused");
            }
            if is_mounted {
                push_str(&mut line, " :: mounted");
            } else if lifecycle.is_open() {
                push_str(&mut line, " :: unmounted");
            }
            if self.is_pinned(a) {
                push_str(&mut line, " :: pinned");
            }
            push_str(&mut line, "\n");
            assert(line@ =~= "- "@ + dock_entry_text(*self, a, mounted_apps@.contains(a)) + "\n"@);
        }
        line
    }

    /// Renders the near-event region.
    pub fn render_near_events(&self) -> (r: String)
        ensures
            r@ == near_text(self.near_events@, self.budget.near_event_budget as nat),
    {
        let mut content: Vec<char> = Vec::new();
        push_str(&mut content, "NEAR HSTACK EVENTS\npolicy: v1_72h_or_urgent\n");
        if self.near_events.len() == 0 {
            push_str(&mut content, "- none\n");
            return string_from_chars(&content);
        }
        let ghost items = self.near_events@;
        let mut i: usize = 0;
        assert(items.take(0) =~= Seq::<crate::workspace::model::NearEventItem>::empty());
        while i < self.near_events.len()
            invariant
                items == self.near_events@,
                i <= items.len(),
                content@ == near_header() + near_items_text(items.take(i as int)),
            decreases items.len() - i,
        {
            let item = &self.near_events[i];
            push_str(&mut content, "- ");
            push_str(&mut content, item.title.as_str());
            push_str(&mut content, " [");
            push_str(&mut content, item.reason.as_str());
            push_str(&mut content, "]");
            match &item.timestamp_iso {
                Some(t) => {
                    push_str(&mut content, " @ ");
                    push_str(&mut content, t.as_str());
                },
                None => {},
            }
            push_str(&mut content, "\n");
            i = i + 1;
            assert(items.take(i as int).drop_last() =~= items.take(i - 1));
            assert(items.take(i as int).last() == items[i - 1]);
        }
        assert(items.take(items.len() as int) == items);
        let raw = string_from_chars(&content);
        clamp_text_to_budget(raw.as_str(), self.budget.near_event_budget)
    }
}

} // verus!
