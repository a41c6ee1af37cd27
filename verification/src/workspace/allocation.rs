//! Building and materializing the allocation plan: which app viewports are
//! mounted, and the dock and near-event regions rendered for them.

use vstd::prelude::*;
use crate::workspace::model::{
    all_app_ids, app_index, dock_order_indexes, dock_order, in_dock_order, mount_synced, sync_app_mount_state, AllocationPlan,
    AppId, AppLifecycle, ViewportCandidate,
};
use crate::workspace::plan::{dock_raw, lemma_mounted_upto, mounted_from, mounted_upto, near_text};
use crate::workspace::render::clamped_text;
use crate::workspace::solve::{
    allocation_is_optimal, completes, first_mandatory_from, groups_of, groups_upto, has_mandatory,
    mandatory_picks, of_app, of_app_members, picks_from, selection, solve_viewport_selection,
};
use crate::workspace::state::WorkspaceState;

verus! {

/// The apps of the selected candidates, in dock order.
pub fn mounted_apps_of(sel: &Vec<ViewportCandidate>) -> (r: Vec<AppId>)
    ensures
        r@ == mounted_from(sel@),
{
    let ids = all_app_ids();
    let mut out: Vec<AppId> = Vec::new();
    let mut k: usize = 0;
    while k < 9
        invariant
            ids@ == dock_order(),
            k <= 9,
            out@ == mounted_upto(sel@, k as nat),
        decreases 9 - k,
    {
        let a = ids[k];
        let mut found = false;
        let mut i: usize = 0;
        while i < sel.len()
            invariant
                i <= sel.len(),
                found <==> exists|j: int| 0 <= j < i && (#[trigger] sel@[j]).app_id == a,
            decreases sel.len() - i,
        {
            if sel[i].app_id == a {
                found = true;
            }
            i = i + 1;
        }
        if found {
            out.push(a);
        }
        k = k + 1;
    }
    out
}

impl WorkspaceState {
    /// `r` is the plan for candidates `c`: the selection that the allocator
    /// makes under the app budget, its contents in order, the apps it mounts
    /// in dock order, and the dock and near-event regions rendered for them.
    pub open spec fn plan_of(&self, web: bool, c: Seq<ViewportCandidate>, r: AllocationPlan) -> bool {
        let sel = selection(c, self.budget.app_budget as nat);
        &&& r.selected_app_contents@.len() == sel.len()
        &&& forall|i: int|
            0 <= i < sel.len() ==> (#[trigger] r.selected_app_contents@[i]).0 == sel[i].app_id
                && r.selected_app_contents@[i].1@ == sel[i].content@
        &&& r.mounted_apps@ == mounted_from(sel)
        &&& r.dock_content@ == clamped_text(
            dock_raw(*self, mounted_from(sel), web),
            self.budget.dock_budget as nat,
        )
        &&& r.near_event_content@ == near_text(
            self.near_events@,
            self.budget.near_event_budget as nat,
        )
    }

    /// `self` is `n` with `mounted` as the mounted apps and every open app's
    /// lifecycle brought in line with it and with the focus.
    pub open spec fn synced_from(&self, n: WorkspaceState, mounted: Seq<AppId>) -> bool {
        &&& self.dock.mounted_apps@ == mounted
        &&& self.dock.focused_app == n.dock.focused_app
        &&& forall|a: AppId|
            #[trigger] self.lifecycle_of(a) == mount_synced(
                n.lifecycle_of(a),
                a,
                n.dock.focused_app,
                mounted.contains(a),
            )
        &&& self.same_content(&n)
        &&& self.same_frames(&n)
        &&& self.web_search.kind == n.web_search.kind
        &&& self.stack_search.kind == n.stack_search.kind
    }

    /// Builds the allocation plan: gathers every app's viewport candidates,
    /// selects under the app budget, and renders the dock and near-event
    /// regions for the apps that the selection mounts.
    pub fn build_allocation_plan(&self, web_search_available: bool) -> (r: AllocationPlan)
        requires
            self.wf(),
        ensures
            exists|c: Seq<ViewportCandidate>|
                self.describes_candidates(c) && #[trigger] self.plan_of(web_search_available, c, r),
    {
        let candidates = self.collect_candidates();
        let selected = solve_viewport_selection(&candidates, self.budget.app_budget);
        let mounted = mounted_apps_of(&selected);
        let mut contents: Vec<(AppId, String)> = Vec::new();
        let mut i: usize = 0;
        while i < selected.len()
            invariant
                i <= selected@.len(),
                contents@.len() == i,
                forall|j: int|
                    0 <= j < i ==> (#[trigger] contents@[j]).0 == selected@[j].app_id
                        && contents@[j].1@ == selected@[j].content@,
            decreases selected@.len() - i,
        {
            contents.push((selected[i].app_id, selected[i].content.clone()));
            i = i + 1;
        }
        let dock_content = self.render_dock(&mounted, web_search_available);
        let near_event_content = self.render_near_events();
        let r = AllocationPlan {
            dock_content,
            near_event_content,
            selected_app_contents: contents,
            mounted_apps: mounted,
        };
        assert(self.plan_of(web_search_available, candidates@, r));
        r
    }
}

/// Normalizing keeps a well-formed workspace well-formed.
proof fn lemma_normalized_wf(s: WorkspaceState, n: WorkspaceState, web: bool)
    requires
        s.wf(),
        n.normalized_from(s, web),
    ensures
        n.wf(),
{
    if !web {
        let f = |a: AppId| a != AppId::WebSearch;
        let m = s.dock.mounted_apps@;
        let fm = m.filter(f);
        assert forall|i: int, j: int| 0 <= i < j < fm.len() implies
            crate::workspace::model::app_index(fm[i]) < crate::workspace::model::app_index(fm[j]) by {
            lemma_filter_order(m, f, i, j);
        }
        assert forall|app: AppId| #[trigger] n.lifecycle_of(app) == AppLifecycle::OpenMountedFocused
            implies app == n.dock.focused_app by {
            assert(s.lifecycle_of(app) == AppLifecycle::OpenMountedFocused);
        }
    }
}

/// Filtering keeps the relative order of what remains: two kept items come
/// from two positions of the original in the same order.
proof fn lemma_filter_order(m: Seq<AppId>, f: spec_fn(AppId) -> bool, i: int, j: int)
    requires
        crate::workspace::model::in_dock_order(m),
        0 <= i < j < m.filter(f).len(),
    ensures
        crate::workspace::model::app_index(m.filter(f)[i]) < crate::workspace::model::app_index(
            m.filter(f)[j],
        ),
    decreases m.len(),
{
    reveal_with_fuel(Seq::filter, 1);
    let init = m.drop_last();
    let fi = init.filter(f);
    assert(init =~= m.subrange(0, m.len() - 1));
    assert forall|x: int, y: int| 0 <= x < y < init.len() implies crate::workspace::model::app_index(init[x])
        < crate::workspace::model::app_index(init[y]) by {
        assert(init[x] == m[x] && init[y] == m[y]);
    }
    if j < fi.len() {
        lemma_filter_order(init, f, i, j);
        assert(m.filter(f)[i] == fi[i] && m.filter(f)[j] == fi[j]);
    } else {
        assert(f(m.last()) && m.filter(f)[j] == m.last());
        assert(m.filter(f)[i] == fi[i]);
        init.lemma_filter_contains_rev(f, fi[i]);
        let k = choose|k: int| 0 <= k < init.len() && init[k] == fi[i];
        assert(m[k] == fi[i]);
        assert(m[m.len() - 1] == m.last());
    }
}

/// A copy of a list of apps.
fn copy_apps(apps: &Vec<AppId>) -> (r: Vec<AppId>)
    ensures
        r@ == apps@,
{
    let mut out: Vec<AppId> = Vec::new();
    let mut i: usize = 0;
    while i < apps.len()
        invariant
            i <= apps@.len(),
            out@ == apps@.take(i as int),
        decreases apps@.len() - i,
    {
        out.push(apps[i]);
        i = i + 1;
        assert(out@ =~= apps@.take(i as int));
    }
    assert(apps@.take(apps@.len() as int) =~= apps@);
    out
}

impl WorkspaceState {
    /// Brings every open app's lifecycle in line with the mounted apps and
    /// the focus.
    pub fn sync_lifecycle_mount_state(&mut self)
        ensures
            final(self).dock == old(self).dock,
            forall|a: AppId|
                #[trigger] final(self).lifecycle_of(a) == mount_synced(
                    old(self).lifecycle_of(a),
                    a,
                    old(self).dock.focused_app,
                    old(self).dock.mounted_apps@.contains(a),
                ),
            final(self).same_content(&*old(self)),
            final(self).same_frames(&*old(self)),
            final(self).web_search.kind == old(self).web_search.kind,
            final(self).stack_search.kind == old(self).stack_search.kind,
    {
        let focused = self.dock.focused_app;
        sync_app_mount_state(&mut self.scratchpad.lifecycle, AppId::Scratchpad, focused, &self.dock.mounted_apps);
        sync_app_mount_state(&mut self.web_search.lifecycle, AppId::WebSearch, focused, &self.dock.mounted_apps);
        sync_app_mount_state(&mut self.stack_search.lifecycle, AppId::StackSearch, focused, &self.dock.mounted_apps);
        sync_app_mount_state(&mut self.compute.lifecycle, AppId::Compute, focused, &self.dock.mounted_apps);
        sync_app_mount_state(&mut self.cli.lifecycle, AppId::Cli, focused, &self.dock.mounted_apps);
        sync_app_mount_state(&mut self.file_tree.lifecycle, AppId::FileTree, focused, &self.dock.mounted_apps);
        sync_app_mount_state(&mut self.editor.lifecycle, AppId::Editor, focused, &self.dock.mounted_apps);
        sync_app_mount_state(&mut self.file_search.lifecycle, AppId::FileSearch, focused, &self.dock.mounted_apps);
        sync_app_mount_state(&mut self.jobs.lifecycle, AppId::Jobs, focused, &self.dock.mounted_apps);
    }

    /// Normalizes unavailable apps, builds the allocation plan, records the
    /// apps it mounts in the dock and brings every open app's lifecycle in
    /// line with it.
    pub fn materialize_allocation_plan(&mut self, web_search_available: bool) -> (r: AllocationPlan)
        requires
            old(self).wf(),
        ensures
            final(self).wf(),
            exists|n: WorkspaceState, c: Seq<ViewportCandidate>|
                #[trigger] n.normalized_from(*old(self), web_search_available)
                    && n.describes_candidates(c) && #[trigger] n.plan_of(
                    web_search_available,
                    c,
                    r,
                ) && final(self).synced_from(n, r.mounted_apps@),
    {
        self.normalize_unavailable_apps(web_search_available);
        let ghost n = *self;
        proof {
            lemma_normalized_wf(*old(self), n, web_search_available);
        }
        let plan = self.build_allocation_plan(web_search_available);
        let ghost c = choose|c: Seq<ViewportCandidate>|
            n.describes_candidates(c) && #[trigger] n.plan_of(web_search_available, c, plan);
        self.dock.mounted_apps = copy_apps(&plan.mounted_apps);
        let ghost before_sync = *self;
        self.sync_lifecycle_mount_state();
        proof {
            before_sync.lemma_same_content(&n);
            self.lemma_same_content_trans(&before_sync, &n);
            assert(self.app_content_eq(&n, AppId::WebSearch));
            assert(self.app_content_eq(&n, AppId::StackSearch));
            let sel = selection(c, n.budget.app_budget as nat);
            lemma_mounted_upto(sel, 9);
            assert(self.synced_from(n, plan.mounted_apps@));
            assert(self.focus_consistent());
        }
        plan
    }
}

/// The group of every app with candidates stands among the groups, at its
/// place in dock order.
proof fn lemma_app_group_listed(c: Seq<ViewportCandidate>, a: AppId, n: nat)
    requires
        app_index(a) < n <= 9,
        of_app(c, a).len() > 0,
    ensures
        exists|j: int| 0 <= j < groups_upto(c, n).len() && #[trigger] groups_upto(c, n)[j] == of_app(c, a),
    decreases n,
{
    dock_order_indexes(a);
    let prev = groups_upto(c, (n - 1) as nat);
    if app_index(a) == n - 1 {
        assert(groups_upto(c, n)[prev.len() as int] == of_app(c, a));
    } else {
        lemma_app_group_listed(c, a, (n - 1) as nat);
        let j = choose|j: int| 0 <= j < prev.len() && #[trigger] prev[j] == of_app(c, a);
        assert(groups_upto(c, n)[j] == prev[j]);
    }
}

/// The mandatory picks hold a member of every group with a mandatory candidate.
proof fn lemma_mandatory_picks_cover(gs: Seq<Seq<ViewportCandidate>>, j: int)
    requires
        0 <= j < gs.len(),
        has_mandatory(gs[j]),
    ensures
        exists|e: ViewportCandidate| mandatory_picks(gs).contains(e) && #[trigger] gs[j].contains(e),
    decreases gs.len(),
{
    let prev = mandatory_picks(gs.drop_last());
    if j < gs.len() - 1 {
        lemma_mandatory_picks_cover(gs.drop_last(), j);
        assert(gs.drop_last()[j] == gs[j]);
        let e = choose|e: ViewportCandidate| prev.contains(e) && #[trigger] gs.drop_last()[j].contains(e);
        let k = choose|k: int| 0 <= k < prev.len() && prev[k] == e;
        assert(mandatory_picks(gs)[k] == e);
        assert(gs[j].contains(e));
    } else {
        crate::workspace::solve::lemma_first_mandatory_index(gs.last(), 0);
        let m = first_mandatory_from(gs.last(), 0)->0;
        let e = gs.last()[m as int];
        assert(mandatory_picks(gs)[prev.len() as int] == e);
        assert(gs[j].contains(e));
    }
}

/// A valid choice holds a member of every later group with a mandatory
/// candidate.
proof fn lemma_completes_cover(gs: Seq<Seq<ViewportCandidate>>, i: nat, rem: int, p: Seq<ViewportCandidate>, j: int)
    requires
        completes(gs, i, rem, p),
        i <= j < gs.len(),
        has_mandatory(gs[j]),
    ensures
        exists|e: ViewportCandidate| p.contains(e) && #[trigger] gs[j].contains(e),
    decreases gs.len() - i,
{
    if !has_mandatory(gs[i as int]) && completes(gs, i + 1, rem, p) {
        lemma_completes_cover(gs, i + 1, rem, p, j);
    } else {
        assert(picks_from(gs, i, 0, rem, p));
        let rest = p.drop_first();
        if j == i {
            let k = choose|k: int| 0 <= k < gs[i as int].len() && gs[i as int][k] == p[0];
            assert(p.contains(p[0]));
            assert(gs[j].contains(p[0]));
        } else {
            lemma_completes_cover(gs, i + 1, rem - p[0].cost_tokens, rest, j);
            let e = choose|e: ViewportCandidate| rest.contains(e) && #[trigger] gs[j].contains(e);
            let k = choose|k: int| 0 <= k < rest.len() && rest[k] == e;
            assert(p[k + 1] == e);
        }
    }
}

/// Every open app that is pinned or focused is mounted by the plan, whatever
/// the budget.
pub proof fn pinned_or_focused_apps_are_mounted(
    s: WorkspaceState,
    web: bool,
    c: Seq<ViewportCandidate>,
    r: AllocationPlan,
    a: AppId,
)
    requires
        s.describes_candidates(c),
        s.plan_of(web, c, r),
        s.lifecycle_of(a) != AppLifecycle::InstalledClosed,
        s.pinned_of(a) || s.lifecycle_of(a) == AppLifecycle::OpenMountedFocused,
    ensures
        r.mounted_apps@.contains(a),
{
    let g = of_app(c, a);
    assert(s.candidates_ok(a, g));
    assert(first_mandatory_from(g, 0) == Some(0nat));
    let gs = groups_of(c);
    dock_order_indexes(a);
    lemma_app_group_listed(c, a, 9);
    let j = choose|j: int| 0 <= j < gs.len() && #[trigger] gs[j] == g;
    let budget = s.budget.app_budget as nat;
    let sel = selection(c, budget);
    allocation_is_optimal(c, budget);
    if sel == mandatory_picks(gs) {
        lemma_mandatory_picks_cover(gs, j);
    } else {
        lemma_completes_cover(gs, 0, budget as int, sel, j);
    }
    let e = choose|e: ViewportCandidate| sel.contains(e) && #[trigger] gs[j].contains(e);
    of_app_members(c, a);
    let k = choose|k: int| 0 <= k < sel.len() && sel[k] == e;
    assert(sel[k].app_id == a);
    lemma_mounted_upto(sel, 9);
}

} // verus!
