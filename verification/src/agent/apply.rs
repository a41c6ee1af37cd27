//! Applying an action to the working memory: the transition that a
//! decoded turn, or the host, asks for.

use vstd::prelude::*;
use crate::agent::action::{AgentAction, WorkingMemoryDelta};
use crate::agent::control::AgentControlSystem;
use crate::agent::error::AgentError;
use crate::json::Json;
use crate::memory::{retained, same_messages, Message, NoiseEntry, Role, WorkingMemory};
use crate::workspace::delta::DeltaOutcome;
use crate::workspace::model::{AllocationPlan, ViewportCandidate};
use crate::workspace::state::WorkspaceState;

verus! {

/// The answer of the last stop in an action, in application order.
pub open spec fn last_stop(a: AgentAction) -> Option<Seq<char>>
    decreases a, 1int,
{
    match a {
        AgentAction::Stop(s) => Some(s@),
        AgentAction::Compound(v) => last_stop_in(v@),
        _ => None,
    }
}

/// The answer of the last stop among `v`.
pub open spec fn last_stop_in(v: Seq<AgentAction>) -> Option<Seq<char>>
    decreases v, 0int,
{
    if v.len() == 0 {
        None
    } else {
        match last_stop(v[v.len() - 1]) {
            Some(s) => Some(s),
            None => last_stop_in(v.subrange(0, v.len() - 1)),
        }
    }
}

/// The stack proposals of an action, in application order.
pub open spec fn stack_of(a: AgentAction) -> Seq<String>
    decreases a, 1int,
{
    match a {
        AgentAction::UpdateStack(s) => seq![s],
        AgentAction::Compound(v) => stack_in(v@),
        _ => Seq::empty(),
    }
}

/// The stack proposals among `v`, in order.
pub open spec fn stack_in(v: Seq<AgentAction>) -> Seq<String>
    decreases v, 0int,
{
    if v.len() == 0 {
        Seq::empty()
    } else {
        stack_in(v.subrange(0, v.len() - 1)) + stack_of(v[v.len() - 1])
    }
}

/// How many noise entries an action records: one per noise delta and one
/// per workspace change.
pub open spec fn noise_of(a: AgentAction) -> nat
    decreases a, 1int,
{
    match a {
        AgentAction::UpdateWorkingMemory(WorkingMemoryDelta::AddTechnicalNoise(..)) => 1,
        AgentAction::UpdateWorkspace(..) => 1,
        AgentAction::Compound(v) => noise_in(v@),
        _ => 0,
    }
}

/// How many noise entries the actions of `v` record.
pub open spec fn noise_in(v: Seq<AgentAction>) -> nat
    decreases v, 0int,
{
    if v.len() == 0 {
        0
    } else {
        noise_in(v.subrange(0, v.len() - 1)) + noise_of(v[v.len() - 1])
    }
}

/// The view of an optional text.
pub open spec fn answer_view(o: Option<String>) -> Option<Seq<char>> {
    match o {
        Some(s) => Some(s@),
        None => None,
    }
}

/// Whether the control approves each of the proposals `ps`.
pub open spec fn all_approved<C: AgentControlSystem>(control: C, ps: Seq<String>) -> bool {
    forall|i: int| 0 <= i < ps.len() ==> #[trigger] control.approves(ps[i]@)
}

/// Whether the `k`-th of the proposals `ps` is the first that the control
/// refuses.
pub open spec fn first_refused<C: AgentControlSystem>(control: C, ps: Seq<String>, k: int) -> bool {
    &&& 0 <= k < ps.len()
    &&& all_approved(control, ps.take(k))
    &&& !control.approves(ps[k]@)
}

/// `new` is the workspace `w` after the allocation plan is materialized:
/// unavailable apps normalized, the plan chosen over the normalized
/// workspace's candidates, and the dock and lifecycles synced to it.
pub open spec fn materialized(new: WorkspaceState, w: WorkspaceState, web: bool) -> bool {
    exists|n: WorkspaceState, c: Seq<ViewportCandidate>, p: AllocationPlan|
        #[trigger] n.plan_of(web, c, p) && n.normalized_from(w, web) && n.describes_candidates(c) && new.synced_from(
            n,
            p.mounted_apps@,
        )
}

/// `m` is an assistant message with the text `answer`.
pub open spec fn is_answer(m: Message, answer: Seq<char>) -> bool {
    &&& m.role == Role::Assistant
    &&& m.content matches Some(c) && c@ == answer
    &&& m.tool_calls is None
    &&& m.tool_call_id is None
    &&& m.name is None
}

/// `m1` is `m0` with `msg` appended to its messages, then those retained
/// under the short-term budget.
pub open spec fn message_pushed(m0: WorkingMemory, msg: Message, m1: WorkingMemory) -> bool {
    &&& same_messages(m1.messages@, retained(m0.messages@.push(msg), m0.workspace.budget.short_term_budget as int))
    &&& m1.technical_noise == m0.technical_noise
    &&& m1.proposed_stack_actions == m0.proposed_stack_actions
    &&& m1.workspace == m0.workspace
}

/// `m1` is what applying the single action `a` to `m0` gives, when it
/// succeeds.
pub open spec fn applies_one<C: AgentControlSystem>(control: C, m0: WorkingMemory, a: AgentAction, m1: WorkingMemory, web: bool) -> bool {
    match a {
        AgentAction::Stop(answer) => exists|msg: Message| #[trigger] is_answer(msg, answer@) && message_pushed(m0, msg, m1),
        AgentAction::UpdateWorkingMemory(WorkingMemoryDelta::AppendMessage(msg)) => message_pushed(m0, msg, m1),
        AgentAction::UpdateWorkingMemory(WorkingMemoryDelta::AddTechnicalNoise(k, v)) => {
            &&& m1.technical_noise@.len() == m0.technical_noise@.len() + 1
            &&& m1.technical_noise@.drop_last() == m0.technical_noise@
            &&& m1.technical_noise@.last() matches NoiseEntry::Record(Json::Object(es)) && es@ == seq![(k, v)]
            &&& m1.messages == m0.messages
            &&& m1.proposed_stack_actions == m0.proposed_stack_actions
            &&& m1.workspace == m0.workspace
        },
        AgentAction::UpdateWorkspace(d) => exists|w: WorkspaceState, o: DeltaOutcome| {
            &&& #[trigger] w.delta_effect(&m0.workspace, d, web, o)
            &&& materialized(m1.workspace, w, web)
            &&& m1.technical_noise@.len() == m0.technical_noise@.len() + 1
            &&& m1.technical_noise@.drop_last() == m0.technical_noise@
            &&& m1.technical_noise@.last() matches NoiseEntry::Workspace { outcome, .. } && outcome == o
            &&& m1.messages == m0.messages
            &&& m1.proposed_stack_actions == m0.proposed_stack_actions
        },
        AgentAction::UpdateStack(p) => {
            &&& control.approves(p@)
            &&& m1.proposed_stack_actions@ == m0.proposed_stack_actions@.push(p)
            &&& m1.messages == m0.messages
            &&& m1.technical_noise == m0.technical_noise
            &&& m1.workspace == m0.workspace
        },
        AgentAction::Compound(_) => false,
    }
}

/// The single actions of `a`, in the order they are applied.
pub open spec fn leaves(a: AgentAction) -> Seq<AgentAction>
    decreases a, 1int,
{
    match a {
        AgentAction::Compound(v) => leaves_in(v@),
        _ => seq![a],
    }
}

/// The single actions of `v`, in the order they are applied.
pub open spec fn leaves_in(v: Seq<AgentAction>) -> Seq<AgentAction>
    decreases v, 0int,
{
    if v.len() == 0 {
        Seq::empty()
    } else {
        leaves_in(v.subrange(0, v.len() - 1)) + leaves(v[v.len() - 1])
    }
}

/// `m1` is what applying the single actions `v` in turn to `m0` gives.
pub open spec fn applies_seq<C: AgentControlSystem>(control: C, m0: WorkingMemory, v: Seq<AgentAction>, m1: WorkingMemory, web: bool) -> bool
    decreases v.len(),
{
    if v.len() == 0 {
        m1 == m0
    } else {
        exists|mid: WorkingMemory|
            applies_seq(control, m0, v.drop_last(), mid, web) && #[trigger] applies_one(control, mid, v.last(), m1, web)
    }
}

/// `m1` is what applying `a` to `m0` gives, when it succeeds: its single
/// actions in turn, each as `applies_one` says.
pub open spec fn applies<C: AgentControlSystem>(control: C, m0: WorkingMemory, a: AgentAction, m1: WorkingMemory, web: bool) -> bool {
    applies_seq(control, m0, leaves(a), m1, web)
}

/// Applying two sequences of single actions in turn is applying the two
/// joined.
proof fn lemma_applies_join<C: AgentControlSystem>(
    control: C,
    m0: WorkingMemory,
    x: Seq<AgentAction>,
    mid: WorkingMemory,
    y: Seq<AgentAction>,
    m1: WorkingMemory,
    web: bool,
)
    requires
        applies_seq(control, m0, x, mid, web),
        applies_seq(control, mid, y, m1, web),
    ensures
        applies_seq(control, m0, x + y, m1, web),
    decreases y.len(),
{
    if y.len() == 0 {
        assert(x + y =~= x);
    } else {
        let w = choose|w: WorkingMemory|
            applies_seq(control, mid, y.drop_last(), w, web) && #[trigger] applies_one(control, w, y.last(), m1, web);
        lemma_applies_join(control, m0, x, mid, y.drop_last(), w, web);
        assert((x + y).drop_last() =~= x + y.drop_last());
        assert((x + y).last() == y.last());
    }
}

/// The single actions of two action sequences in a row are those of the
/// first, then those of the second.
proof fn lemma_leaves_append(s1: Seq<AgentAction>, s2: Seq<AgentAction>)
    ensures
        leaves_in(s1 + s2) == leaves_in(s1) + leaves_in(s2),
    decreases s2.len(),
{
    if s2.len() == 0 {
        assert(s1 + s2 =~= s1);
        assert(leaves_in(s1) + leaves_in(s2) =~= leaves_in(s1));
    } else {
        let s = s1 + s2;
        let l2 = s2.subrange(0, s2.len() - 1);
        assert(s.subrange(0, s.len() - 1) =~= s1 + l2);
        assert(s[s.len() - 1] == s2[s2.len() - 1]);
        lemma_leaves_append(s1, l2);
        assert(leaves_in(s) =~= leaves_in(s1) + leaves_in(s2));
    }
}

/// The single actions of a sequence, split after its first `i + 1`
/// actions.
proof fn lemma_leaves_split(all: Seq<AgentAction>, i: int)
    requires
        0 <= i < all.len(),
    ensures
        leaves_in(all.take(i + 1)) == leaves_in(all.take(i)) + leaves(all[i]),
        leaves_in(all) == leaves_in(all.take(i)) + leaves(all[i]) + leaves_in(all.skip(i + 1)),
{
    let t = all.take(i + 1);
    assert(t.subrange(0, i) =~= all.take(i));
    assert(t[i] == all[i]);
    assert(all =~= t + all.skip(i + 1));
    lemma_leaves_append(t, all.skip(i + 1));
}

/// `m1` comes from `m0` by the single actions of `v` before its `j`-th,
/// a stack proposal that the control refuses with `e`.
pub open spec fn refused_after<C: AgentControlSystem>(control: C, m0: WorkingMemory, v: Seq<AgentAction>, m1: WorkingMemory, e: AgentError, web: bool, j: int) -> bool {
    &&& 0 <= j < v.len()
    &&& v[j] matches AgentAction::UpdateStack(p) && !control.approves(p@) && e == control.refusal(p@)
    &&& applies_seq(control, m0, v.take(j), m1, web)
}

/// A refusal inside the `i`-th action of a sequence is a refusal of the
/// sequence, after the actions before it.
proof fn lemma_refusal_in_sequence<C: AgentControlSystem>(
    control: C,
    all: Seq<AgentAction>,
    i: int,
    m0: WorkingMemory,
    before: WorkingMemory,
    m1: WorkingMemory,
    e: AgentError,
    web: bool,
)
    requires
        0 <= i < all.len(),
        applies_seq(control, m0, leaves_in(all.take(i)), before, web),
        exists|j: int| #[trigger] refused_after(control, before, leaves(all[i]), m1, e, web, j),
    ensures
        exists|j: int| #[trigger] refused_after(control, m0, leaves_in(all), m1, e, web, j),
{
    let lb = leaves_in(all.take(i));
    let lh = leaves(all[i]);
    let lall = leaves_in(all);
    lemma_leaves_split(all, i);
    let j = choose|j: int| #[trigger] refused_after(control, before, lh, m1, e, web, j);
    let jj = lb.len() + j;
    lemma_applies_join(control, m0, lb, before, lh.take(j), m1, web);
    assert(lall.take(jj) =~= lb + lh.take(j));
    assert(lall[jj] == lh[j]);
    assert(refused_after(control, m0, lall, m1, e, web, jj));
}

/// Over any run of single actions applied in turn, the proposals the
/// memory collects are exactly the run's stack proposals, in order, and the
/// control approved each of them.
pub proof fn applied_proposals_are_approved<C: AgentControlSystem>(
    control: C,
    m0: WorkingMemory,
    v: Seq<AgentAction>,
    m1: WorkingMemory,
    web: bool,
)
    requires
        applies_seq(control, m0, v, m1, web),
    ensures
        m1.proposed_stack_actions@ == m0.proposed_stack_actions@ + stack_in(v),
        all_approved(control, stack_in(v)),
    decreases v.len(),
{
    if v.len() == 0 {
        assert(m0.proposed_stack_actions@ + stack_in(v) =~= m0.proposed_stack_actions@);
    } else {
        let mid = choose|mid: WorkingMemory|
            applies_seq(control, m0, v.drop_last(), mid, web) && #[trigger] applies_one(control, mid, v.last(), m1, web);
        applied_proposals_are_approved(control, m0, v.drop_last(), mid, web);
        assert(v.subrange(0, v.len() - 1) == v.drop_last());
        let before = stack_in(v.drop_last());
        let here = stack_of(v.last());
        assert(stack_in(v) == before + here);
        match v.last() {
            AgentAction::UpdateStack(p) => {
                assert(here =~= seq![p]);
            },
            AgentAction::Compound(_) => {},
            _ => {
                assert(here =~= Seq::<String>::empty());
            },
        }
        assert(m1.proposed_stack_actions@ =~= m0.proposed_stack_actions@ + stack_in(v));
        assert forall|j: int| 0 <= j < stack_in(v).len() implies #[trigger] control.approves(stack_in(v)[j]@) by {
            if j < before.len() {
                assert(stack_in(v)[j] == before[j]);
            } else {
                assert(stack_in(v)[j] == here[j - before.len()]);
            }
        }
    }
}

/// A single action applied alone.
proof fn lemma_applies_single<C: AgentControlSystem>(control: C, m0: WorkingMemory, a: AgentAction, m1: WorkingMemory, web: bool)
    requires
        applies_one(control, m0, a, m1, web),
    ensures
        applies_seq(control, m0, seq![a], m1, web),
{
    let one = seq![a];
    assert(one.drop_last() =~= Seq::<AgentAction>::empty());
    assert(one.last() == a);
    assert(applies_seq(control, m0, one.drop_last(), m0, web));
    assert(applies_one(control, m0, one.last(), m1, web));
}

/// Applies `action` to `memory`, collecting approved stack proposals in
/// `deltas`, and returns the answer of its last stop, if any. A stack
/// proposal that the control refuses ends the application with its
/// error.
pub fn apply_action<C: AgentControlSystem>(
    control: &C,
    action: AgentAction,
    memory: &mut WorkingMemory,
    deltas: &mut Vec<String>,
    web_search_available: bool,
) -> (r: Result<Option<String>, AgentError>)
    requires
        old(memory).workspace.wf(),
    ensures
        final(memory).workspace.wf(),
        stack_of(action).len() == 0 ==> r is Ok,
        r is Ok <==> all_approved(*control, stack_of(action)),
        r matches Err(e) ==> exists|k: int| {
            &&& #[trigger] first_refused(*control, stack_of(action), k)
            &&& e == control.refusal(stack_of(action)[k]@)
            &&& final(deltas)@ == old(deltas)@ + stack_of(action).take(k)
            &&& final(memory).proposed_stack_actions@ == old(memory).proposed_stack_actions@ + stack_of(action).take(k)
        },
        r is Ok ==> applies(*control, *old(memory), action, *final(memory), web_search_available),
        r matches Err(e) ==> exists|j: int|
            #[trigger] refused_after(*control, *old(memory), leaves(action), *final(memory), e, web_search_available, j),
        r matches Ok(answer) ==> {
            &&& answer_view(answer) == last_stop(action)
            &&& final(deltas)@ == old(deltas)@ + stack_of(action)
            &&& final(memory).proposed_stack_actions@ == old(memory).proposed_stack_actions@ + stack_of(action)
            &&& final(memory).technical_noise@.len() == old(memory).technical_noise@.len() + noise_of(action)
        },
    decreases action,
{
    let ghost whole = action;
    match action {
        AgentAction::Stop(answer) => {
            let msg = crate::memory::Message {
                role: crate::memory::Role::Assistant,
                content: Some(answer.clone()),
                tool_calls: None,
                tool_call_id: None,
                name: None,
            };
            let ghost g = msg;
            assert(is_answer(g, answer@));
            memory.push_message(msg);
            proof {
                assert(message_pushed(*old(memory), g, *memory));
                assert(applies_one(*control, *old(memory), whole, *memory, web_search_available));
                lemma_applies_single(*control, *old(memory), whole, *memory, web_search_available);
            }
            Ok(Some(answer))
        },
        AgentAction::UpdateWorkingMemory(delta) => {
            match delta {
                WorkingMemoryDelta::AppendMessage(m) => memory.push_message(m),
                WorkingMemoryDelta::AddTechnicalNoise(key, value) => {
                    let mut es: Vec<(String, Json)> = Vec::new();
                    es.push((key, value));
                    memory.technical_noise.push(NoiseEntry::Record(Json::Object(es)));
                    assert(memory.technical_noise@.drop_last() =~= old(memory).technical_noise@);
                },
            }
            proof {
                assert(applies_one(*control, *old(memory), whole, *memory, web_search_available));
                lemma_applies_single(*control, *old(memory), whole, *memory, web_search_available);
            }
            Ok(None)
        },
        AgentAction::UpdateWorkspace(delta) => {
            let copy = delta.clone();
            let ghost d = delta;
            let outcome = memory.workspace.apply_delta(delta, web_search_available);
            let ghost w = memory.workspace;
            let plan = memory.workspace.materialize_allocation_plan(web_search_available);
            memory.technical_noise.push(NoiseEntry::Workspace { delta: copy, outcome });
            proof {
                let (n, c) = choose|n: WorkspaceState, c: Seq<ViewportCandidate>|
                    #[trigger] n.normalized_from(w, web_search_available) && n.describes_candidates(c)
                        && #[trigger] n.plan_of(web_search_available, c, plan) && memory.workspace.synced_from(
                        n,
                        plan.mounted_apps@,
                    );
                assert(n.plan_of(web_search_available, c, plan));
                assert(materialized(memory.workspace, w, web_search_available));
                assert(memory.technical_noise@.drop_last() =~= old(memory).technical_noise@);
                assert(w.delta_effect(&old(memory).workspace, d, web_search_available, outcome));
                assert(applies_one(*control, *old(memory), whole, *memory, web_search_available));
                lemma_applies_single(*control, *old(memory), whole, *memory, web_search_available);
            }
            Ok(None)
        },
        AgentAction::UpdateStack(proposal) => {
            match control.validate_stack_action(&proposal) {
                Ok(()) => {},
                Err(e) => {
                    proof {
                        let ps = stack_of(whole);
                        assert(ps.take(0) =~= Seq::<String>::empty());
                        assert(first_refused(*control, ps, 0));
                        assert(leaves(whole).take(0) =~= Seq::<AgentAction>::empty());
                        assert(leaves(whole)[0] == whole);
                        assert(applies_seq(*control, *old(memory), leaves(whole).take(0), *memory, web_search_available));
                        assert(refused_after(*control, *old(memory), leaves(whole), *memory, e, web_search_available, 0));
                    }
                    return Err(e);
                },
            }
            proof {
                assert(all_approved(*control, stack_of(whole)));
            }
            memory.proposed_stack_actions.push(proposal.clone());
            deltas.push(proposal);
            proof {
                lemma_applies_single(*control, *old(memory), whole, *memory, web_search_available);
            }
            Ok(None)
        },
        AgentAction::Compound(actions) => {
            let ghost all = actions@;
            proof {
                assert(decreases_to!(whole => whole->Compound_0));
                assert(decreases_to!(whole->Compound_0 => all));
            }
            let n = actions.len();
            assert(all.len() == n);
            let mut rest = actions;
            let mut last: Option<String> = None;
            let mut i: usize = 0;
            let ghost d0 = deltas@;
            let ghost p0 = memory.proposed_stack_actions@;
            let ghost n0 = memory.technical_noise@.len();
            let ghost m0 = *memory;
            proof {
                assert(all.take(0).len() == 0);
                assert(leaves_in(all.take(0)) =~= Seq::<AgentAction>::empty());
            }
            while rest.len() > 0
                invariant
                    i <= all.len(),
                    all.len() <= usize::MAX,
                    rest@ == all.skip(i as int),
                    whole == AgentAction::Compound(whole->Compound_0),
                    whole == action,
                    whole->Compound_0@ == all,
                    decreases_to!(whole => all),
                    memory.workspace.wf(),
                    answer_view(last) == last_stop_in(all.take(i as int)),
                    deltas@ == d0 + stack_in(all.take(i as int)),
                    memory.proposed_stack_actions@ == p0 + stack_in(all.take(i as int)),
                    memory.technical_noise@.len() == n0 + noise_in(all.take(i as int)),
                    stack_in(all).len() == 0 ==> stack_in(all.take(i as int)).len() == 0,
                    all_approved(*control, stack_in(all.take(i as int))),
                    d0 == old(deltas)@,
                    p0 == old(memory).proposed_stack_actions@,
                    m0 == *old(memory),
                    applies_seq(*control, m0, leaves_in(all.take(i as int)), *memory, web_search_available),
                decreases rest@.len(),
            {
                let a = rest.remove(0);
                proof {
                    assert(a == all[i as int]);
                    assert(decreases_to!(all => all[i as int]));
                    assert(decreases_to!(whole => a));
                }
                let ghost before = *memory;
                let got = apply_action(control, a, memory, deltas, web_search_available);
                proof {
                    let t = all.take(i + 1);
                    assert(t.subrange(0, i as int) =~= all.take(i as int));
                    assert(t[i as int] == all[i as int]);
                    lemma_stack_prefix(all, i as int + 1);
                }
                proof {
                    lemma_stack_split(all, i as int);
                }
                let next = match got {
                    Ok(x) => x,
                    Err(e) => {
                        proof {
                            let before = stack_in(all.take(i as int));
                            let here = stack_of(a);
                            let ps = stack_in(all);
                            let k = choose|k: int| {
                                &&& #[trigger] first_refused(*control, here, k)
                                &&& e == control.refusal(here[k]@)
                                &&& deltas@ == d0 + before + here.take(k)
                                &&& memory.proposed_stack_actions@ == p0 + before + here.take(k)
                            };
                            let kk = before.len() + k;
                            assert(ps.take(kk) =~= before + here.take(k));
                            assert(ps[kk] == here[k]);
                            assert forall|j: int| 0 <= j < ps.take(kk).len() implies #[trigger] control.approves(
                                ps.take(kk)[j]@,
                            ) by {
                                if j < before.len() {
                                    assert(ps.take(kk)[j] == before[j]);
                                } else {
                                    assert(ps.take(kk)[j] == here.take(k)[j - before.len()]);
                                }
                            }
                            assert(first_refused(*control, ps, kk));
                            assert(deltas@ =~= d0 + ps.take(kk));
                            assert(memory.proposed_stack_actions@ =~= p0 + ps.take(kk));
                            assert(stack_of(whole) == ps);
                            assert(e == control.refusal(ps[kk]@));
                            assert({
                                &&& first_refused(*control, stack_of(whole), kk)
                                &&& e == control.refusal(stack_of(whole)[kk]@)
                                &&& deltas@ == d0 + stack_of(whole).take(kk)
                                &&& memory.proposed_stack_actions@ == p0 + stack_of(whole).take(kk)
                            });
                        }
                        proof {
                            lemma_refusal_in_sequence(*control, all, i as int, m0, before, *memory, e, web_search_available);
                            assert(leaves(whole) == leaves_in(all));
                        }
                        return Err(e);
                    },
                };
                proof {
                    let t = all.take(i + 1);
                    assert(t.subrange(0, t.len() - 1) =~= all.take(i as int));
                    assert(t[t.len() - 1] == a);
                    assert(leaves_in(t) == leaves_in(all.take(i as int)) + leaves(a));
                    lemma_applies_join(
                        *control,
                        m0,
                        leaves_in(all.take(i as int)),
                        before,
                        leaves(a),
                        *memory,
                        web_search_available,
                    );
                }
                proof {
                    let before = stack_in(all.take(i as int));
                    let here = stack_of(a);
                    let after = stack_in(all.take(i + 1));
                    assert(after =~= before + here);
                    assert forall|j: int| 0 <= j < after.len() implies #[trigger] control.approves(after[j]@) by {
                        if j < before.len() {
                            assert(after[j] == before[j]);
                        } else {
                            assert(after[j] == here[j - before.len()]);
                        }
                    }
                }
                if next.is_some() {
                    last = next;
                }
                i = i + 1;
                proof {
                    assert(deltas@ =~= d0 + stack_in(all.take(i as int)));
                    assert(memory.proposed_stack_actions@ =~= p0 + stack_in(all.take(i as int)));
                }
            }
            proof {
                assert(all.take(i as int) =~= all);
            }
            proof {
                assert(leaves(whole) == leaves_in(all));
            }
            Ok(last)
        },
    }
}

/// The stack proposals of two action sequences in a row are those of the
/// first, then those of the second.
proof fn lemma_stack_append(s1: Seq<AgentAction>, s2: Seq<AgentAction>)
    ensures
        stack_in(s1 + s2) == stack_in(s1) + stack_in(s2),
    decreases s2.len(),
{
    if s2.len() == 0 {
        assert(s1 + s2 =~= s1);
        assert(stack_in(s1) + stack_in(s2) =~= stack_in(s1));
    } else {
        let s = s1 + s2;
        let l2 = s2.subrange(0, s2.len() - 1);
        assert(s.subrange(0, s.len() - 1) =~= s1 + l2);
        assert(s[s.len() - 1] == s2[s2.len() - 1]);
        lemma_stack_append(s1, l2);
        assert(stack_in(s) =~= stack_in(s1) + stack_in(s2));
    }
}

/// The stack proposals of a sequence, split after its first `i + 1`
/// actions.
proof fn lemma_stack_split(all: Seq<AgentAction>, i: int)
    requires
        0 <= i < all.len(),
    ensures
        stack_in(all.take(i + 1)) == stack_in(all.take(i)) + stack_of(all[i]),
        stack_in(all) == stack_in(all.take(i)) + stack_of(all[i]) + stack_in(all.skip(i + 1)),
{
    let t = all.take(i + 1);
    assert(t.subrange(0, i) =~= all.take(i));
    assert(t[i] == all[i]);
    assert(all =~= t + all.skip(i + 1));
    lemma_stack_append(t, all.skip(i + 1));
}

/// The stack proposals of a prefix are among those of the whole: an
/// action sequence with none has a prefix with none.
proof fn lemma_stack_prefix(all: Seq<AgentAction>, k: int)
    requires
        0 <= k <= all.len(),
    ensures
        stack_in(all.take(k)).len() <= stack_in(all).len(),
    decreases all.len() - k,
{
    if k < all.len() {
        lemma_stack_prefix(all, k + 1);
        let t = all.take(k + 1);
        assert(t.subrange(0, k) =~= all.take(k));
    } else {
        assert(all.take(k) =~= all);
    }
}

} // verus!
