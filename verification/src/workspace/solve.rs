//! The viewport allocator: chooses at most one viewport candidate per app so
//! that every app with a mandatory candidate is mounted, the total cost fits
//! the app budget, and the total utility is as large as possible.

use vstd::prelude::*;
use crate::workspace::model::{all_app_ids, dock_order, AppId, ViewportCandidate};

verus! {

/// The magnitude that no 64-bit utility exceeds.
pub open spec fn utility_bound() -> int {
    0x8000_0000_0000_0000
}

/// Candidates whose utilities lie within that magnitude: every sequence of
/// candidates, as `lemma_all_bounded` shows.
pub open spec fn bounded(cands: Seq<ViewportCandidate>) -> bool {
    forall|i: int|
        #![trigger cands[i]]
        0 <= i < cands.len() ==> -utility_bound() <= cands[i].utility <= utility_bound()
}

/// The candidates of `cands` that belong to `app`, in order.
pub open spec fn of_app(cands: Seq<ViewportCandidate>, app: AppId) -> Seq<ViewportCandidate>
    decreases cands.len(),
{
    if cands.len() == 0 {
        Seq::empty()
    } else if cands.last().app_id == app {
        of_app(cands.drop_last(), app).push(cands.last())
    } else {
        of_app(cands.drop_last(), app)
    }
}

/// The non-empty per-app groups of the first `n` apps in dock order.
pub open spec fn groups_upto(cands: Seq<ViewportCandidate>, n: nat) -> Seq<Seq<ViewportCandidate>>
    decreases n,
{
    if n == 0 {
        Seq::empty()
    } else {
        let prev = groups_upto(cands, (n - 1) as nat);
        let g = of_app(cands, dock_order()[n - 1]);
        if g.len() > 0 {
            prev.push(g)
        } else {
            prev
        }
    }
}

/// The candidates grouped by app, in dock order, empty groups left out.
pub open spec fn groups_of(cands: Seq<ViewportCandidate>) -> Seq<Seq<ViewportCandidate>> {
    groups_upto(cands, 9)
}

/// Index of the first mandatory candidate of `g` at or after `k`.
pub open spec fn first_mandatory_from(g: Seq<ViewportCandidate>, k: nat) -> Option<nat>
    decreases g.len() - k,
{
    if k >= g.len() {
        None
    } else if g[k as int].mandatory {
        Some(k)
    } else {
        first_mandatory_from(g, k + 1)
    }
}

/// Whether a group holds a mandatory candidate.
pub open spec fn has_mandatory(g: Seq<ViewportCandidate>) -> bool {
    first_mandatory_from(g, 0) is Some
}

/// The first mandatory candidate of each group that has one.
pub open spec fn mandatory_picks(gs: Seq<Seq<ViewportCandidate>>) -> Seq<ViewportCandidate>
    decreases gs.len(),
{
    if gs.len() == 0 {
        Seq::empty()
    } else {
        let prev = mandatory_picks(gs.drop_last());
        match first_mandatory_from(gs.last(), 0) {
            Some(k) => prev.push(gs.last()[k as int]),
            None => prev,
        }
    }
}

/// Total cost of a selection.
pub open spec fn cost_of(sel: Seq<ViewportCandidate>) -> int
    decreases sel.len(),
{
    if sel.len() == 0 {
        0
    } else {
        cost_of(sel.drop_last()) + sel.last().cost_tokens
    }
}

/// Total utility of a selection.
pub open spec fn value_of(sel: Seq<ViewportCandidate>) -> int
    decreases sel.len(),
{
    if sel.len() == 0 {
        0
    } else {
        value_of(sel.drop_last()) + sel.last().utility
    }
}

/// The exhaustive search over groups `index..`: each group without a
/// mandatory candidate may be skipped first, then each candidate that fits
/// the remaining budget is tried in order; a complete selection replaces the
/// best one only when its utility is strictly larger.
pub open spec fn search(
    gs: Seq<Seq<ViewportCandidate>>,
    index: nat,
    rem: int,
    val: int,
    sel: Seq<ViewportCandidate>,
    best: (int, Seq<ViewportCandidate>),
) -> (int, Seq<ViewportCandidate>)
    decreases gs.len() - index, gs[index as int].len() + 1,
{
    if index >= gs.len() {
        if val > best.0 {
            (val, sel)
        } else {
            best
        }
    } else {
        let skipped = if !has_mandatory(gs[index as int]) {
            search(gs, index + 1, rem, val, sel, best)
        } else {
            best
        };
        search_candidates(gs, index, 0, rem, val, sel, skipped)
    }
}

/// The part of `search` that tries candidates `k..` of group `index`.
pub open spec fn search_candidates(
    gs: Seq<Seq<ViewportCandidate>>,
    index: nat,
    k: nat,
    rem: int,
    val: int,
    sel: Seq<ViewportCandidate>,
    best: (int, Seq<ViewportCandidate>),
) -> (int, Seq<ViewportCandidate>)
    decreases gs.len() - index, gs[index as int].len() - k,
{
    if index >= gs.len() || k >= gs[index as int].len() {
        best
    } else {
        let c = gs[index as int][k as int];
        let tried = if c.cost_tokens > rem {
            best
        } else {
            search(gs, index + 1, rem - c.cost_tokens, val + c.utility, sel.push(c), best)
        };
        search_candidates(gs, index, k + 1, rem, val, sel, tried)
    }
}

/// The selection the allocator makes for `cands` under `budget`: when the
/// mandatory candidates alone exhaust the budget, or the search finds no
/// selection of utility at least 0, exactly the mandatory candidates;
/// otherwise the best selection that the search finds.
pub open spec fn selection(cands: Seq<ViewportCandidate>, budget: nat) -> Seq<ViewportCandidate> {
    let gs = groups_of(cands);
    if cost_of(mandatory_picks(gs)) >= budget {
        mandatory_picks(gs)
    } else {
        let found = search(gs, 0, budget as int, 0, Seq::empty(), (-1, Seq::empty()));
        if found.1.len() == 0 {
            mandatory_picks(gs)
        } else {
            found.1
        }
    }
}

/// The views of the groups.
pub open spec fn group_views(groups: Seq<Vec<ViewportCandidate>>) -> Seq<Seq<ViewportCandidate>> {
    groups.map_values(|g: Vec<ViewportCandidate>| g@)
}

/// Groups whose candidates are bounded, few enough to be summed.
pub open spec fn groups_bounded(gs: Seq<Seq<ViewportCandidate>>) -> bool {
    &&& gs.len() <= 64
    &&& forall|i: int| 0 <= i < gs.len() ==> bounded(#[trigger] gs[i])
}

/// A copy of a selection.
fn copy_candidates(v: &Vec<ViewportCandidate>) -> (r: Vec<ViewportCandidate>)
    ensures
        r@ == v@,
{
    let mut out: Vec<ViewportCandidate> = Vec::new();
    let mut i: usize = 0;
    while i < v.len()
        invariant
            i <= v.len(),
            out@ == v@.take(i as int),
        decreases v.len() - i,
    {
        out.push(v[i].duplicate());
        i = i + 1;
        assert(v@.take(i as int) =~= v@.take(i - 1).push(v@[i - 1]));
    }
    assert(v@.take(v.len() as int) == v@);
    out
}

/// Whether a group holds a mandatory candidate, computed.
fn group_has_mandatory(g: &Vec<ViewportCandidate>) -> (r: bool)
    ensures
        r == has_mandatory(g@),
{
    let mut k: usize = 0;
    while k < g.len()
        invariant
            k <= g.len(),
            first_mandatory_from(g@, 0) == first_mandatory_from(g@, k as nat),
        decreases g.len() - k,
    {
        if g[k].mandatory {
            return true;
        }
        k = k + 1;
    }
    false
}

/// The first mandatory candidate of a group, if any.
fn first_mandatory(g: &Vec<ViewportCandidate>) -> (r: Option<usize>)
    ensures
        r matches Some(k) ==> first_mandatory_from(g@, 0) == Some(k as nat) && k < g@.len(),
        r is None ==> first_mandatory_from(g@, 0) is None,
{
    let mut k: usize = 0;
    while k < g.len()
        invariant
            k <= g.len(),
            first_mandatory_from(g@, 0) == first_mandatory_from(g@, k as nat),
        decreases g.len() - k,
    {
        if g[k].mandatory {
            return Some(k);
        }
        k = k + 1;
    }
    None
}

/// The exhaustive search of the allocator, from group `index` on, with the
/// selection so far in `current_selection` and the best complete selection
/// so far in `best_selection` and `best_value`.
fn solve_groups(
    groups: &Vec<Vec<ViewportCandidate>>,
    index: usize,
    remaining_budget: usize,
    current_value: i128,
    current_selection: &mut Vec<ViewportCandidate>,
    best_selection: &mut Vec<ViewportCandidate>,
    best_value: &mut i128,
)
    requires
        groups_bounded(group_views(groups@)),
        index <= groups@.len(),
        -(index as int) * utility_bound() <= current_value <= (index as int) * utility_bound(),
        -1 <= *old(best_value) <= 64 * utility_bound(),
    ensures
        (*final(best_value) as int, final(best_selection)@) == search(
            group_views(groups@),
            index as nat,
            remaining_budget as int,
            current_value as int,
            old(current_selection)@,
            (*old(best_value) as int, old(best_selection)@),
        ),
        final(current_selection)@ == old(current_selection)@,
        -1 <= *final(best_value) <= 64 * utility_bound(),
    decreases groups@.len() - index,
{
    let ghost gs = group_views(groups@);
    if index >= groups.len() {
        if current_value > *best_value {
            assert(current_value <= 64 * utility_bound());
            *best_value = current_value;
            *best_selection = copy_candidates(current_selection);
        }
        return;
    }
    let group = &groups[index];
    assert(group@ == gs[index as int]);
    let has_mandatory_candidate = group_has_mandatory(group);
    if !has_mandatory_candidate {
        solve_groups(
            groups,
            index + 1,
            remaining_budget,
            current_value,
            current_selection,
            best_selection,
            best_value,
        );
    }
    let ghost sel0 = current_selection@;
    let ghost target = search_candidates(
        gs,
        index as nat,
        0,
        remaining_budget as int,
        current_value as int,
        sel0,
        (*best_value as int, best_selection@),
    );
    let mut k: usize = 0;
    while k < group.len()
        invariant
            gs == group_views(groups@),
            groups_bounded(gs),
            index < groups@.len(),
            group@ == gs[index as int],
            -(index as int) * utility_bound() <= current_value <= (index as int) * utility_bound(),
            -1 <= *best_value <= 64 * utility_bound(),
            current_selection@ == sel0,
            k <= group.len(),
            search_candidates(
                gs,
                index as nat,
                k as nat,
                remaining_budget as int,
                current_value as int,
                sel0,
                (*best_value as int, best_selection@),
            ) == target,
        decreases group.len() - k,
    {
        let candidate = &group[k];
        if candidate.cost_tokens <= remaining_budget {
            assert(bounded(gs[index as int]));
            assert(-utility_bound() <= group@[k as int].utility <= utility_bound());
            current_selection.push(candidate.duplicate());
            solve_groups(
                groups,
                index + 1,
                remaining_budget - candidate.cost_tokens,
                current_value + candidate.utility as i128,
                current_selection,
                best_selection,
                best_value,
            );
            current_selection.pop();
            assert(current_selection@ =~= sel0);
        }
        k = k + 1;
    }
}

/// Copies of the candidates of `cands` that belong to `app`.
fn candidates_of_app(cands: &Vec<ViewportCandidate>, app: AppId) -> (r: Vec<ViewportCandidate>)
    ensures
        r@ == of_app(cands@, app),
{
    let mut out: Vec<ViewportCandidate> = Vec::new();
    let mut i: usize = 0;
    assert(cands@.take(0) =~= Seq::<ViewportCandidate>::empty());
    while i < cands.len()
        invariant
            i <= cands.len(),
            out@ == of_app(cands@.take(i as int), app),
        decreases cands.len() - i,
    {
        assert(cands@.take(i + 1).drop_last() =~= cands@.take(i as int));
        if cands[i].app_id == app {
            out.push(cands[i].duplicate());
        }
        i = i + 1;
    }
    assert(cands@.take(cands.len() as int) == cands@);
    out
}

/// Every sequence of candidates is bounded: utilities are 64-bit.
pub proof fn lemma_all_bounded(cands: Seq<ViewportCandidate>)
    ensures
        bounded(cands),
{
    assert forall|i: int| 0 <= i < cands.len() implies -utility_bound() <= #[trigger] cands[i].utility
        <= utility_bound() by {
        let u: i64 = cands[i].utility;
        assert(-0x8000_0000_0000_0000 <= u <= 0x7fff_ffff_ffff_ffff);
    }
}

proof fn lemma_of_app_bounded(cands: Seq<ViewportCandidate>, app: AppId)
    requires
        bounded(cands),
    ensures
        bounded(of_app(cands, app)),
        of_app(cands, app).len() <= cands.len(),
    decreases cands.len(),
{
    if cands.len() > 0 {
        assert(bounded(cands.drop_last()));
        lemma_of_app_bounded(cands.drop_last(), app);
    }
}

proof fn lemma_groups_upto_len(cands: Seq<ViewportCandidate>, n: nat)
    ensures
        groups_upto(cands, n).len() <= n,
    decreases n,
{
    if n > 0 {
        lemma_groups_upto_len(cands, (n - 1) as nat);
    }
}

proof fn lemma_cost_nonneg(sel: Seq<ViewportCandidate>)
    ensures
        cost_of(sel) >= 0,
    decreases sel.len(),
{
    if sel.len() > 0 {
        lemma_cost_nonneg(sel.drop_last());
    }
}

pub(crate) proof fn lemma_first_mandatory_index(g: Seq<ViewportCandidate>, k: nat)
    ensures
        first_mandatory_from(g, k) matches Some(j) ==> k <= j < g.len() && g[j as int].mandatory,
    decreases g.len() - k,
{
    if k < g.len() && !g[k as int].mandatory {
        lemma_first_mandatory_index(g, k + 1);
    }
}

/// Chooses the viewports to mount from `candidates` under `budget` tokens.
pub fn solve_viewport_selection(candidates: &Vec<ViewportCandidate>, budget: usize) -> (r: Vec<
    ViewportCandidate,
>)
    ensures
        r@ == selection(candidates@, budget as nat),
{
    let ghost cands = candidates@;
    proof {
        lemma_all_bounded(cands);
    }
    let mut app_groups: Vec<Vec<ViewportCandidate>> = Vec::new();
    let mut min_mandatory_cost: usize = 0;
    let ids = all_app_ids();
    let mut a: usize = 0;
    while a < 9
        invariant
            ids@ == dock_order(),
            bounded(cands),
            cands == candidates@,
            a <= 9,
            group_views(app_groups@) == groups_upto(cands, a as nat),
            min_mandatory_cost as int == (if cost_of(mandatory_picks(groups_upto(cands, a as nat)))
                > usize::MAX {
                usize::MAX as int
            } else {
                cost_of(mandatory_picks(groups_upto(cands, a as nat)))
            }),
            groups_bounded(groups_upto(cands, a as nat)),
            groups_upto(cands, a as nat).len() <= a,
        decreases 9 - a,
    {
        let app = ids[a];
        let group = candidates_of_app(candidates, app);
        proof {
            lemma_of_app_bounded(cands, app);
            lemma_cost_nonneg(mandatory_picks(groups_upto(cands, a as nat)));
        }
        if group.len() > 0 {
            let ghost prev = group_views(app_groups@);
            let ghost next = prev.push(group@);
            proof {
                let gs1 = groups_upto(cands, (a + 1) as nat);
                assert(gs1 == next);
                assert(next.drop_last() == prev);
                assert(next.last() == group@);
                lemma_first_mandatory_index(group@, 0);
            }
            match first_mandatory(&group) {
                Some(k) => {
                    proof {
                        assert(mandatory_picks(next).drop_last() == mandatory_picks(prev));
                    }
                    let cost = group[k].cost_tokens;
                    min_mandatory_cost = if min_mandatory_cost > usize::MAX - cost {
                        usize::MAX
                    } else {
                        min_mandatory_cost + cost
                    };
                },
                None => {},
            }
            app_groups.push(group);
            proof {
                assert(group_views(app_groups@) =~= next);
                assert forall|i: int| 0 <= i < next.len() implies bounded(#[trigger] next[i]) by {
                    if i < prev.len() {
                        assert(next[i] == prev[i]);
                    }
                }
            }
        }
        a = a + 1;
    }
    let ghost gs = groups_of(cands);
    assert(group_views(app_groups@) == gs);
    if min_mandatory_cost >= budget {
        return mandatory_fallback(&app_groups);
    }
    let mut best_value: i128 = -1;
    let mut best_selection: Vec<ViewportCandidate> = Vec::new();
    let mut current_selection: Vec<ViewportCandidate> = Vec::new();
    solve_groups(
        &app_groups,
        0,
        budget,
        0,
        &mut current_selection,
        &mut best_selection,
        &mut best_value,
    );
    if best_selection.len() == 0 {
        return mandatory_fallback(&app_groups);
    }
    best_selection
}

/// The first mandatory candidate of each group that has one.
fn mandatory_fallback(groups: &Vec<Vec<ViewportCandidate>>) -> (r: Vec<ViewportCandidate>)
    ensures
        r@ == mandatory_picks(group_views(groups@)),
{
    let mut out: Vec<ViewportCandidate> = Vec::new();
    let mut i: usize = 0;
    while i < groups.len()
        invariant
            i <= groups.len(),
            out@ == mandatory_picks(group_views(groups@).take(i as int)),
        decreases groups.len() - i,
    {
        let ghost gv = group_views(groups@).take(i + 1);
        assert(gv.drop_last() =~= group_views(groups@).take(i as int));
        assert(gv.last() == groups@[i as int]@);
        match first_mandatory(&groups[i]) {
            Some(k) => {
                out.push(groups[i][k].duplicate());
            },
            None => {},
        }
        i = i + 1;
    }
    assert(group_views(groups@).take(groups.len() as int) =~= group_views(groups@));
    out
}

/// Total utility of a selection, summed from the front.
pub open spec fn utility_sum(picks: Seq<ViewportCandidate>) -> int
    decreases picks.len(),
{
    if picks.len() == 0 {
        0
    } else {
        picks[0].utility + utility_sum(picks.drop_first())
    }
}

/// Total cost of a selection, summed from the front.
pub open spec fn cost_sum(picks: Seq<ViewportCandidate>) -> int
    decreases picks.len(),
{
    if picks.len() == 0 {
        0
    } else {
        picks[0].cost_tokens + cost_sum(picks.drop_first())
    }
}

/// `picks` is a valid choice for groups `i..` under `rem` tokens: one
/// candidate from each group in order, except that a group without a
/// mandatory candidate may be left out, each pick fitting what remains of
/// the budget.
pub open spec fn completes(gs: Seq<Seq<ViewportCandidate>>, i: nat, rem: int, picks: Seq<
    ViewportCandidate,
>) -> bool
    decreases gs.len() - i,
{
    if i >= gs.len() {
        picks.len() == 0
    } else {
        ||| (!has_mandatory(gs[i as int]) && completes(gs, i + 1, rem, picks))
        ||| picks_from(gs, i, 0, rem, picks)
    }
}

/// `picks` starts with a candidate of group `i` at position `k` or later that
/// fits `rem`, and completes the later groups with what remains.
pub open spec fn picks_from(gs: Seq<Seq<ViewportCandidate>>, i: nat, k: nat, rem: int, picks: Seq<
    ViewportCandidate,
>) -> bool
    decreases gs.len() - i, 0nat,
{
    &&& i < gs.len()
    &&& picks.len() > 0
    &&& exists|j: int| k <= j < gs[i as int].len() && gs[i as int][j] == picks[0]
    &&& picks[0].cost_tokens <= rem
    &&& completes(gs, i + 1, rem - picks[0].cost_tokens, picks.drop_first())
}

proof fn lemma_cons_sums(c: ViewportCandidate, rest: Seq<ViewportCandidate>)
    ensures
        (seq![c] + rest).drop_first() == rest,
        (seq![c] + rest)[0] == c,
        utility_sum(seq![c] + rest) == c.utility + utility_sum(rest),
{
    assert((seq![c] + rest).drop_first() =~= rest);
}

proof fn lemma_search_candidates(
    gs: Seq<Seq<ViewportCandidate>>,
    i: nat,
    k: nat,
    rem: int,
    val: int,
    sel: Seq<ViewportCandidate>,
    best: (int, Seq<ViewportCandidate>),
)
    requires
        i < gs.len(),
    ensures
        ({
            let r = search_candidates(gs, i, k, rem, val, sel, best);
            &&& r.0 >= best.0
            &&& r.0 == best.0 ==> r == best
            &&& r.0 > best.0 ==> exists|p: Seq<ViewportCandidate>|
                picks_from(gs, i, k, rem, p) && r.1 == sel + p && r.0 == val + utility_sum(p)
            &&& forall|p: Seq<ViewportCandidate>|
                picks_from(gs, i, k, rem, p) ==> val + utility_sum(p) <= r.0
        }),
    decreases gs.len() - i, gs[i as int].len() - k,
{
    let r = search_candidates(gs, i, k, rem, val, sel, best);
    if k >= gs[i as int].len() {
        assert forall|p: Seq<ViewportCandidate>| picks_from(gs, i, k, rem, p) implies val
            + utility_sum(p) <= r.0 by {
            let j = choose|j: int| k <= j < gs[i as int].len() && gs[i as int][j] == p[0];
        }
    } else {
        let c = gs[i as int][k as int];
        let tried = if c.cost_tokens > rem {
            best
        } else {
            search(gs, i + 1, rem - c.cost_tokens, val + c.utility, sel.push(c), best)
        };
        if c.cost_tokens <= rem {
            lemma_search(gs, i + 1, rem - c.cost_tokens, val + c.utility, sel.push(c), best);
        }
        lemma_search_candidates(gs, i, k + 1, rem, val, sel, tried);
        assert(r == search_candidates(gs, i, k + 1, rem, val, sel, tried));
        assert forall|p: Seq<ViewportCandidate>| picks_from(gs, i, k, rem, p) implies val
            + utility_sum(p) <= r.0 by {
            if p[0] == c {
                lemma_cons_sums(c, p.drop_first());
                assert(p =~= seq![c] + p.drop_first());
                assert(completes(gs, i + 1, rem - c.cost_tokens, p.drop_first()));
                assert(val + c.utility + utility_sum(p.drop_first()) <= tried.0);
            } else {
                let j = choose|j: int| k <= j < gs[i as int].len() && gs[i as int][j] == p[0];
                assert(j != k);
                assert(picks_from(gs, i, k + 1, rem, p));
            }
        }
        if r.0 > best.0 {
            if r.0 > tried.0 {
                let p = choose|p: Seq<ViewportCandidate>|
                    picks_from(gs, i, k + 1, rem, p) && r.1 == sel + p && r.0 == val
                        + utility_sum(p);
                let j = choose|j: int| k + 1 <= j < gs[i as int].len() && gs[i as int][j] == p[0];
                assert(picks_from(gs, i, k, rem, p));
            } else {
                assert(r == tried);
                assert(c.cost_tokens <= rem);
                let q = choose|q: Seq<ViewportCandidate>|
                    completes(gs, i + 1, rem - c.cost_tokens, q) && tried.1 == sel.push(c) + q
                        && tried.0 == val + c.utility + utility_sum(q);
                let p = seq![c] + q;
                lemma_cons_sums(c, q);
                assert(sel.push(c) + q =~= sel + p);
                assert(gs[i as int][k as int] == p[0]);
                assert(picks_from(gs, i, k, rem, p));
            }
        }
    }
}

proof fn lemma_search(
    gs: Seq<Seq<ViewportCandidate>>,
    i: nat,
    rem: int,
    val: int,
    sel: Seq<ViewportCandidate>,
    best: (int, Seq<ViewportCandidate>),
)
    requires
        i <= gs.len(),
    ensures
        ({
            let r = search(gs, i, rem, val, sel, best);
            &&& r.0 >= best.0
            &&& r.0 == best.0 ==> r == best
            &&& r.0 > best.0 ==> exists|p: Seq<ViewportCandidate>|
                completes(gs, i, rem, p) && r.1 == sel + p && r.0 == val + utility_sum(p)
            &&& forall|p: Seq<ViewportCandidate>|
                completes(gs, i, rem, p) ==> val + utility_sum(p) <= r.0
        }),
    decreases gs.len() - i, gs[i as int].len() + 1,
{
    let r = search(gs, i, rem, val, sel, best);
    if i >= gs.len() {
        if r.0 > best.0 {
            let p = Seq::<ViewportCandidate>::empty();
            assert(sel + p =~= sel);
            assert(completes(gs, i, rem, p));
        }
    } else {
        let g = gs[i as int];
        let skipped = if !has_mandatory(g) {
            search(gs, i + 1, rem, val, sel, best)
        } else {
            best
        };
        if !has_mandatory(g) {
            lemma_search(gs, i + 1, rem, val, sel, best);
        }
        lemma_search_candidates(gs, i, 0, rem, val, sel, skipped);
        assert forall|p: Seq<ViewportCandidate>| completes(gs, i, rem, p) implies val
            + utility_sum(p) <= r.0 by {
            if !has_mandatory(g) && completes(gs, i + 1, rem, p) {
            } else {
                assert(picks_from(gs, i, 0, rem, p));
            }
        }
        if r.0 > best.0 {
            if r.0 > skipped.0 {
                let p = choose|p: Seq<ViewportCandidate>|
                    picks_from(gs, i, 0, rem, p) && r.1 == sel + p && r.0 == val + utility_sum(p);
                assert(completes(gs, i, rem, p));
            } else {
                assert(r == skipped);
                assert(!has_mandatory(g));
                let p = choose|p: Seq<ViewportCandidate>|
                    completes(gs, i + 1, rem, p) && skipped.1 == sel + p && skipped.0 == val
                        + utility_sum(p);
                assert(completes(gs, i, rem, p));
            }
        }
    }
}

/// The allocator is optimal: unless it falls back to the mandatory
/// candidates alone, it returns a valid choice (one candidate per app group,
/// every group with a mandatory candidate represented, each pick fitting the
/// budget that remains) whose total utility is at least that of every valid
/// choice.
pub proof fn allocation_is_optimal(cands: Seq<ViewportCandidate>, budget: nat)
    ensures
        ({
            let gs = groups_of(cands);
            let fallback = mandatory_picks(gs);
            let chosen = selection(cands, budget);
            chosen != fallback ==> {
                &&& completes(gs, 0, budget as int, chosen)
                &&& forall|p: Seq<ViewportCandidate>|
                    completes(gs, 0, budget as int, p) ==> utility_sum(p) <= utility_sum(chosen)
            }
        }),
{
    let gs = groups_of(cands);
    let best0 = (-1int, Seq::<ViewportCandidate>::empty());
    let found = search(gs, 0, budget as int, 0, Seq::empty(), best0);
    lemma_search(gs, 0, budget as int, 0, Seq::empty(), best0);
    if cost_of(mandatory_picks(gs)) < budget && found.1.len() != 0 {
        assert(found != best0);
        let p = choose|p: Seq<ViewportCandidate>|
            completes(gs, 0, budget as int, p) && found.1 == Seq::<ViewportCandidate>::empty() + p
                && found.0 == 0 + utility_sum(p);
        assert(Seq::<ViewportCandidate>::empty() + p =~= p);
    }
}

/// A valid choice never exceeds the budget it was made under.
pub proof fn valid_choice_fits_budget(gs: Seq<Seq<ViewportCandidate>>, i: nat, rem: int, picks: Seq<
    ViewportCandidate,
>)
    requires
        completes(gs, i, rem, picks),
        rem >= 0,
    ensures
        cost_sum(picks) <= rem,
    decreases gs.len() - i,
{
    if i < gs.len() {
        if !has_mandatory(gs[i as int]) && completes(gs, i + 1, rem, picks) {
            valid_choice_fits_budget(gs, i + 1, rem, picks);
        } else {
            assert(picks_from(gs, i, 0, rem, picks));
            valid_choice_fits_budget(gs, i + 1, rem - picks[0].cost_tokens, picks.drop_first());
        }
    }
}

/// Every element of `sel` belongs to one of the groups.
pub open spec fn from_groups(gs: Seq<Seq<ViewportCandidate>>, sel: Seq<ViewportCandidate>) -> bool {
    forall|k: int|
        0 <= k < sel.len() ==> exists|j: int| 0 <= j < gs.len() && (#[trigger] gs[j]).contains(#[trigger] sel[k])
}

proof fn lemma_completes_from_groups(gs: Seq<Seq<ViewportCandidate>>, i: nat, rem: int, p: Seq<ViewportCandidate>)
    requires
        completes(gs, i, rem, p),
    ensures
        from_groups(gs, p),
    decreases gs.len() - i,
{
    if i < gs.len() {
        if !has_mandatory(gs[i as int]) && completes(gs, i + 1, rem, p) {
            lemma_completes_from_groups(gs, i + 1, rem, p);
        } else {
            assert(picks_from(gs, i, 0, rem, p));
            let rest = p.drop_first();
            lemma_completes_from_groups(gs, i + 1, rem - p[0].cost_tokens, rest);
            let j0 = choose|j: int| 0 <= j < gs[i as int].len() && gs[i as int][j] == p[0];
            assert forall|k: int| 0 <= k < p.len() implies exists|j: int| 0 <= j < gs.len() && (#[trigger] gs[j]).contains(#[trigger] p[k]) by {
                if k == 0 {
                    assert(gs[i as int].contains(p[0]));
                } else {
                    assert(p[k] == rest[k - 1]);
                }
            }
        }
    }
}

proof fn lemma_mandatory_picks_from_groups(gs: Seq<Seq<ViewportCandidate>>)
    ensures
        from_groups(gs, mandatory_picks(gs)),
    decreases gs.len(),
{
    if gs.len() > 0 {
        lemma_mandatory_picks_from_groups(gs.drop_last());
        let prev = mandatory_picks(gs.drop_last());
        let mp = mandatory_picks(gs);
        assert forall|k: int| 0 <= k < mp.len() implies exists|j: int| 0 <= j < gs.len() && (#[trigger] gs[j]).contains(#[trigger] mp[k]) by {
            if k < prev.len() {
                assert(mp[k] == prev[k]);
                let j = choose|j: int| 0 <= j < gs.drop_last().len() && (#[trigger] gs.drop_last()[j]).contains(prev[k]);
                assert(gs[j] == gs.drop_last()[j]);
            } else {
                let m = first_mandatory_from(gs.last(), 0)->0;
                lemma_first_mandatory_index(gs.last(), 0);
                assert(mp[k] == gs.last()[m as int]);
                assert(gs[gs.len() - 1].contains(mp[k]));
            }
        }
    }
}

/// Every selected candidate belongs to one of the candidate groups.
pub proof fn selection_from_groups(cands: Seq<ViewportCandidate>, budget: nat)
    ensures
        from_groups(groups_of(cands), selection(cands, budget)),
{
    let gs = groups_of(cands);
    lemma_mandatory_picks_from_groups(gs);
    let best0 = (-1int, Seq::<ViewportCandidate>::empty());
    let found = search(gs, 0, budget as int, 0, Seq::empty(), best0);
    lemma_search(gs, 0, budget as int, 0, Seq::empty(), best0);
    if cost_of(mandatory_picks(gs)) < budget && found.1.len() != 0 {
        assert(found != best0);
        let p = choose|p: Seq<ViewportCandidate>|
            completes(gs, 0, budget as int, p) && found.1 == Seq::<ViewportCandidate>::empty() + p
                && found.0 == 0 + utility_sum(p);
        assert(Seq::<ViewportCandidate>::empty() + p =~= p);
        lemma_completes_from_groups(gs, 0, budget as int, p);
    }
}

/// Every group is the non-empty set of candidates of one app.
pub proof fn groups_are_app_groups(cands: Seq<ViewportCandidate>, n: nat)
    ensures
        forall|j: int|
            0 <= j < groups_upto(cands, n).len() ==> exists|a: AppId|
                #[trigger] groups_upto(cands, n)[j] == of_app(cands, a) && of_app(cands, a).len() > 0,
    decreases n,
{
    if n > 0 {
        groups_are_app_groups(cands, (n - 1) as nat);
        let prev = groups_upto(cands, (n - 1) as nat);
        let gs = groups_upto(cands, n);
        assert forall|j: int| 0 <= j < gs.len() implies exists|a: AppId|
            #[trigger] gs[j] == of_app(cands, a) && of_app(cands, a).len() > 0 by {
            if j < prev.len() {
                assert(gs[j] == prev[j]);
            } else {
                let a = dock_order()[n - 1];
                assert(gs[j] == of_app(cands, a));
            }
        }
    }
}

/// Every candidate of `of_app(cands, a)` belongs to `a` and comes from `cands`.
pub proof fn of_app_members(cands: Seq<ViewportCandidate>, a: AppId)
    ensures
        forall|k: int| 0 <= k < of_app(cands, a).len() ==> (#[trigger] of_app(cands, a)[k]).app_id == a,
    decreases cands.len(),
{
    if cands.len() > 0 {
        of_app_members(cands.drop_last(), a);
    }
}

} // verus!
