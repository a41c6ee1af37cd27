//! Provider messages and the short-term memory kernel: the latest user
//! message is always kept, and older history is kept newest first for as
//! long as it fits the short-term budget.

use vstd::prelude::*;
use crate::workspace::render::{estimate_token_cost, token_cost};
use crate::json::Json;
use crate::workspace::delta::{DeltaOutcome, WorkspaceDelta};
use crate::workspace::state::WorkspaceState;

verus! {

/// Who wrote a message.
#[derive(Debug, Clone, Copy, PartialEq, Eq, Structural)]
pub enum Role {
    System,
    User,
    Assistant,
    Tool,
}

/// One tool call that an assistant message requests.
#[derive(Debug, Clone, PartialEq, Eq)]
pub struct ToolCall {
    pub id: String,
    pub call_type: String,
    pub name: String,
    pub arguments: String,
}

impl ToolCall {
    /// A copy of this call.
    pub fn duplicate(&self) -> (r: Self)
        ensures
            r == *self,
    {
        ToolCall {
            id: self.id.clone(),
            call_type: self.call_type.clone(),
            name: self.name.clone(),
            arguments: self.arguments.clone(),
        }
    }
}

/// A message of the conversation with the provider.
#[derive(Debug, Clone, PartialEq, Eq)]
pub struct Message {
    pub role: Role,
    pub content: Option<String>,
    pub tool_calls: Option<Vec<ToolCall>>,
    pub tool_call_id: Option<String>,
    pub name: Option<String>,
}

/// A copy of an optional text.
pub fn copy_text(t: &Option<String>) -> (r: Option<String>)
    ensures
        r == *t,
{
    match t {
        Some(s) => Some(s.clone()),
        None => None,
    }
}

/// A copy of a list of tool calls.
pub fn copy_calls(calls: &Vec<ToolCall>) -> (r: Vec<ToolCall>)
    ensures
        r@ == calls@,
{
    let mut out: Vec<ToolCall> = Vec::new();
    let mut i: usize = 0;
    while i < calls.len()
        invariant
            i <= calls@.len(),
            out@ == calls@.take(i as int),
        decreases calls@.len() - i,
    {
        out.push(calls[i].duplicate());
        i = i + 1;
        assert(out@ =~= calls@.take(i as int));
    }
    assert(calls@.take(calls@.len() as int) =~= calls@);
    out
}

impl Message {
    /// A copy of this message.
    pub fn duplicate(&self) -> (r: Self)
        ensures
            r.role == self.role,
            r.content == self.content,
            r.tool_call_id == self.tool_call_id,
            r.name == self.name,
            match (r.tool_calls, self.tool_calls) {
                (Some(a), Some(b)) => a@ == b@,
                (None, None) => true,
                _ => false,
            },
    {
        Message {
            role: self.role,
            content: copy_text(&self.content),
            tool_calls: match &self.tool_calls {
                Some(calls) => Some(copy_calls(calls)),
                None => None,
            },
            tool_call_id: copy_text(&self.tool_call_id),
            name: copy_text(&self.name),
        }
    }
}

/// `a` and `b` are the same message, tool calls compared by content.
pub open spec fn same_message(a: Message, b: Message) -> bool {
    &&& a.role == b.role
    &&& a.content == b.content
    &&& a.tool_call_id == b.tool_call_id
    &&& a.name == b.name
    &&& match (a.tool_calls, b.tool_calls) {
        (Some(x), Some(y)) => x@ == y@,
        (None, None) => true,
        _ => false,
    }
}

/// What a message costs in the short-term window: the token estimate of
/// its content (an absent content counts as empty) plus a fixed 16.
pub open spec fn message_cost(m: Message) -> nat {
    let len = match m.content {
        Some(c) => c@.len(),
        None => 0,
    };
    token_cost(len) + 16
}

/// The cost of one message.
pub fn short_term_message_cost(m: &Message) -> (r: usize)
    ensures
        r == message_cost(*m),
{
    let base = match &m.content {
        Some(c) => estimate_token_cost(c.as_str()),
        None => estimate_token_cost(""),
    };
    proof {
        reveal_strlit("");
    }
    base + 16
}

/// The index of the latest user message, if any.
pub open spec fn latest_user(ms: Seq<Message>) -> Option<int>
    decreases ms.len(),
{
    if ms.len() == 0 {
        None
    } else if ms.last().role == Role::User {
        Some(ms.len() - 1)
    } else {
        latest_user(ms.drop_last())
    }
}

/// `x`, saturated at the largest `usize`.
pub open spec fn sat(x: int) -> int {
    if x > usize::MAX {
        usize::MAX as int
    } else {
        x
    }
}

/// The scan that walks down from position `k - 1` with `spent` tokens
/// spent, marking in `flags` the messages it keeps: the pinned position `u`
/// is passed over; a message that fits is kept; one that does not fit ends
/// the scan once something is kept, and is passed over before that.
pub open spec fn scan(
    ms: Seq<Message>,
    u: Option<int>,
    k: int,
    spent: int,
    any: bool,
    budget: int,
    flags: Seq<bool>,
) -> Seq<bool>
    decreases k,
{
    if k <= 0 {
        flags
    } else {
        let i = k - 1;
        if u == Some(i) {
            scan(ms, u, i, spent, any, budget, flags)
        } else if sat(spent + message_cost(ms[i])) > budget {
            if any {
                flags
            } else {
                scan(ms, u, i, spent, any, budget, flags)
            }
        } else {
            scan(ms, u, i, sat(spent + message_cost(ms[i])), true, budget, flags.update(i, true))
        }
    }
}

/// Which messages the kernel keeps under `budget`: the latest user message,
/// then what the scan keeps.
pub open spec fn keep_flags(ms: Seq<Message>, budget: int) -> Seq<bool> {
    let none = Seq::new(ms.len(), |i: int| false);
    match latest_user(ms) {
        Some(u) => scan(
            ms,
            Some(u),
            ms.len() as int,
            message_cost(ms[u]) as int,
            true,
            budget,
            none.update(u, true),
        ),
        None => scan(ms, None, ms.len() as int, 0, false, budget, none),
    }
}

/// The messages of `ms` at positions below `n` that `flags` marks, in order.
pub open spec fn pick(ms: Seq<Message>, flags: Seq<bool>, n: int) -> Seq<Message>
    decreases n,
{
    if n <= 0 {
        Seq::empty()
    } else if flags[n - 1] {
        pick(ms, flags, n - 1).push(ms[n - 1])
    } else {
        pick(ms, flags, n - 1)
    }
}

/// The messages that the kernel keeps, in their original order.
pub open spec fn retained(ms: Seq<Message>, budget: int) -> Seq<Message> {
    pick(ms, keep_flags(ms, budget), ms.len() as int)
}

/// `r` holds, position by position, the same messages as `s`.
pub open spec fn same_messages(r: Seq<Message>, s: Seq<Message>) -> bool {
    &&& r.len() == s.len()
    &&& forall|i: int| 0 <= i < r.len() ==> same_message(#[trigger] r[i], s[i])
}

/// The scan only marks messages: it keeps the length of the flags and
/// every mark already made.
pub proof fn lemma_scan_marks(
    ms: Seq<Message>,
    u: Option<int>,
    k: int,
    spent: int,
    any: bool,
    budget: int,
    flags: Seq<bool>,
)
    requires
        k <= flags.len(),
    ensures
        scan(ms, u, k, spent, any, budget, flags).len() == flags.len(),
        forall|i: int| 0 <= i < flags.len() && flags[i] ==> #[trigger] scan(ms, u, k, spent, any, budget, flags)[i],
    decreases k,
{
    if k > 0 {
        let i = k - 1;
        if u == Some(i) {
            lemma_scan_marks(ms, u, i, spent, any, budget, flags);
        } else if sat(spent + message_cost(ms[i])) > budget {
            if !any {
                lemma_scan_marks(ms, u, i, spent, any, budget, flags);
            }
        } else {
            lemma_scan_marks(ms, u, i, sat(spent + message_cost(ms[i])), true, budget, flags.update(i, true));
        }
    }
}

/// The index of the latest user message.
fn latest_user_index(ms: &Vec<Message>) -> (r: Option<usize>)
    ensures
        match r {
            Some(i) => latest_user(ms@) == Some(i as int) && i < ms@.len(),
            None => latest_user(ms@) is None,
        },
{
    let mut k: usize = ms.len();
    assert(ms@.take(ms@.len() as int) =~= ms@);
    while k > 0
        invariant
            k <= ms@.len(),
            latest_user(ms@) == latest_user(ms@.take(k as int)),
        decreases k,
    {
        assert(ms@.take(k as int).drop_last() =~= ms@.take(k - 1));
        if ms[k - 1].role == Role::User {
            return Some(k - 1);
        }
        k = k - 1;
    }
    None
}

/// Keeps the latest user message and, newest first, as much older history
/// as fits `budget` tokens; the kept messages stay in their order.
pub fn retain_short_term_messages(messages: &Vec<Message>, budget: usize) -> (r: Vec<Message>)
    ensures
        same_messages(r@, retained(messages@, budget as int)),
{
    let ghost ms = messages@;
    let n = messages.len();
    let latest = latest_user_index(messages);
    let mut keep: Vec<bool> = Vec::new();
    let mut j: usize = 0;
    while j < n
        invariant
            j <= n,
            keep@ =~= Seq::new(j as nat, |i: int| false),
        decreases n - j,
    {
        keep.push(false);
        j = j + 1;
    }
    let mut spent: usize = 0;
    let mut any = false;
    match latest {
        Some(u) => {
            keep.set(u, true);
            spent = short_term_message_cost(&messages[u]);
            any = true;
        },
        None => {},
    }
    let ghost u_opt: Option<int> = match latest {
        Some(u) => Some(u as int),
        None => None,
    };
    let ghost target = keep_flags(ms, budget as int);
    let mut k: usize = n;
    while k > 0
        invariant
            n == ms.len(),
            ms == messages@,
            k <= n,
            keep@.len() == n,
            latest matches Some(u) ==> u < n,
            u_opt == (match latest {
                Some(u) => Some(u as int),
                None => None,
            }),
            target == scan(ms, u_opt, k as int, spent as int, any, budget as int, keep@),
        ensures
            target == keep@,
            keep@.len() == n,
        decreases k,
    {
        let i = k - 1;
        let is_latest = match latest {
            Some(u) => u == i,
            None => false,
        };
        if is_latest {
            k = i;
            continue;
        }
        let cost = short_term_message_cost(&messages[i]);
        let total: usize = if spent > usize::MAX - cost {
            usize::MAX
        } else {
            spent + cost
        };
        if total > budget {
            if any {
                break;
            }
            k = i;
            continue;
        }
        keep.set(i, true);
        spent = total;
        any = true;
        k = i;
    }
    let mut out: Vec<Message> = Vec::new();
    let mut t: usize = 0;
    assert(target.len() == n);
    while t < n
        invariant
            t <= n,
            n == ms.len(),
            ms == messages@,
            keep@ == target,
            target.len() == n,
            same_messages(out@, pick(ms, target, t as int)),
        decreases n - t,
    {
        if keep[t] {
            let ghost before = out@;
            out.push(messages[t].duplicate());
            assert forall|x: int| 0 <= x < out@.len() implies same_message(
                #[trigger] out@[x],
                pick(ms, target, t + 1)[x],
            ) by {
                if x < before.len() {
                    assert(out@[x] == before[x]);
                }
            }
        }
        t = t + 1;
    }
    out
}

/// The total cost of some messages.
pub open spec fn total_cost(ms: Seq<Message>) -> int
    decreases ms.len(),
{
    if ms.len() == 0 {
        0
    } else {
        total_cost(ms.drop_last()) + message_cost(ms.last())
    }
}

/// The total cost of the messages below `n` that `flags` marks.
pub open spec fn flagged_cost(ms: Seq<Message>, flags: Seq<bool>, n: int) -> int
    decreases n,
{
    if n <= 0 {
        0
    } else if flags[n - 1] {
        flagged_cost(ms, flags, n - 1) + message_cost(ms[n - 1])
    } else {
        flagged_cost(ms, flags, n - 1)
    }
}

proof fn lemma_pick_cost(ms: Seq<Message>, flags: Seq<bool>, n: int)
    ensures
        total_cost(pick(ms, flags, n)) == flagged_cost(ms, flags, n),
    decreases n,
{
    if n > 0 {
        lemma_pick_cost(ms, flags, n - 1);
        if flags[n - 1] {
            assert(pick(ms, flags, n).drop_last() == pick(ms, flags, n - 1));
        }
    }
}

proof fn lemma_flag_cost(ms: Seq<Message>, flags: Seq<bool>, i: int, n: int)
    requires
        0 <= i < flags.len(),
        !flags[i],
        n <= flags.len(),
    ensures
        flagged_cost(ms, flags.update(i, true), n) == flagged_cost(ms, flags, n) + (if i < n {
            message_cost(ms[i]) as int
        } else {
            0
        }),
    decreases n,
{
    if n > 0 {
        lemma_flag_cost(ms, flags, i, n - 1);
    }
}

proof fn lemma_flagged_le_total(ms: Seq<Message>, flags: Seq<bool>, n: int)
    requires
        0 <= n <= ms.len(),
    ensures
        flagged_cost(ms, flags, n) <= total_cost(ms.take(n)),
    decreases n,
{
    if n > 0 {
        lemma_flagged_le_total(ms, flags, n - 1);
        assert(ms.take(n).drop_last() =~= ms.take(n - 1));
    }
}

proof fn lemma_flagged_nonneg(ms: Seq<Message>, flags: Seq<bool>, n: int)
    ensures
        flagged_cost(ms, flags, n) >= 0,
    decreases n,
{
    if n > 0 {
        lemma_flagged_nonneg(ms, flags, n - 1);
    }
}

/// What the scan adds fits the budget: either it marks nothing more, or
/// everything marked costs at most `budget`.
proof fn lemma_scan_cost(
    ms: Seq<Message>,
    u: Option<int>,
    k: int,
    spent: int,
    any: bool,
    budget: int,
    flags: Seq<bool>,
)
    requires
        k <= flags.len(),
        flags.len() == ms.len(),
        budget < usize::MAX || total_cost(ms) <= usize::MAX,
        0 <= budget <= usize::MAX,
        0 <= spent <= usize::MAX,
        flagged_cost(ms, flags, flags.len() as int) == spent,
        forall|j: int| 0 <= j < k && u != Some(j) ==> !#[trigger] flags[j],
    ensures
        scan(ms, u, k, spent, any, budget, flags) == flags || flagged_cost(
            ms,
            scan(ms, u, k, spent, any, budget, flags),
            flags.len() as int,
        ) <= budget,
    decreases k,
{
    if k > 0 {
        let i = k - 1;
        if u == Some(i) {
            lemma_scan_cost(ms, u, i, spent, any, budget, flags);
        } else if sat(spent + message_cost(ms[i])) > budget {
            if !any {
                lemma_scan_cost(ms, u, i, spent, any, budget, flags);
            }
        } else {
            let next = flags.update(i, true);
            lemma_flag_cost(ms, flags, i, flags.len() as int);
            lemma_flagged_le_total(ms, next, ms.len() as int);
            assert(ms.take(ms.len() as int) =~= ms);
            assert forall|j: int| 0 <= j < i && u != Some(j) implies !#[trigger] next[j] by {
                assert(next[j] == flags[j]);
            }
            lemma_scan_cost(ms, u, i, sat(spent + message_cost(ms[i])), true, budget, next);
        }
    }
}

proof fn lemma_pick_contains(ms: Seq<Message>, flags: Seq<bool>, n: int, i: int)
    requires
        0 <= i < n,
        flags[i],
    ensures
        pick(ms, flags, n).contains(ms[i]),
    decreases n,
{
    if i < n - 1 {
        lemma_pick_contains(ms, flags, n - 1, i);
        let p = pick(ms, flags, n - 1);
        let k = choose|k: int| 0 <= k < p.len() && p[k] == ms[i];
        if flags[n - 1] {
            assert(pick(ms, flags, n)[k] == ms[i]);
        }
    } else {
        assert(pick(ms, flags, n).last() == ms[i]);
    }
}

proof fn lemma_pick_none(ms: Seq<Message>, flags: Seq<bool>, n: int)
    requires
        forall|j: int| 0 <= j < n ==> !#[trigger] flags[j],
    ensures
        pick(ms, flags, n).len() == 0,
    decreases n,
{
    if n > 0 {
        lemma_pick_none(ms, flags, n - 1);
    }
}

proof fn lemma_pick_single(ms: Seq<Message>, flags: Seq<bool>, u: int, n: int)
    requires
        0 <= u < n,
        flags[u],
        forall|j: int| 0 <= j < n && j != u ==> !#[trigger] flags[j],
    ensures
        pick(ms, flags, n) == seq![ms[u]],
    decreases n,
{
    if u < n - 1 {
        lemma_pick_single(ms, flags, u, n - 1);
    } else {
        lemma_pick_none(ms, flags, n - 1);
        assert(pick(ms, flags, n) =~= seq![ms[u]]);
    }
}

/// The latest user message is always kept, whatever the budget.
pub proof fn latest_user_message_is_retained(ms: Seq<Message>, budget: int, u: int)
    requires
        latest_user(ms) == Some(u),
    ensures
        retained(ms, budget).contains(ms[u]),
{
    lemma_latest_user_index(ms);
    let none = Seq::new(ms.len(), |i: int| false);
    let start = none.update(u, true);
    lemma_scan_marks(ms, Some(u), ms.len() as int, message_cost(ms[u]) as int, true, budget, start);
    lemma_pick_contains(ms, keep_flags(ms, budget), ms.len() as int, u);
}

proof fn lemma_latest_user_index(ms: Seq<Message>)
    ensures
        latest_user(ms) matches Some(u) ==> 0 <= u < ms.len() && ms[u].role == Role::User,
    decreases ms.len(),
{
    if ms.len() > 0 && ms.last().role != Role::User {
        lemma_latest_user_index(ms.drop_last());
    }
}

/// `idx` lists increasing positions of `ms` below `n`, and `r` holds the
/// messages at those positions.
pub open spec fn picks_at(ms: Seq<Message>, r: Seq<Message>, idx: Seq<int>, n: int) -> bool {
    &&& idx.len() == r.len()
    &&& forall|k: int| 0 <= k < idx.len() ==> 0 <= #[trigger] idx[k] < n && r[k] == ms[idx[k]]
    &&& forall|k: int, l: int| 0 <= k < l < idx.len() ==> #[trigger] idx[k] < #[trigger] idx[l]
}

proof fn lemma_pick_positions(ms: Seq<Message>, flags: Seq<bool>, n: int) -> (idx: Seq<int>)
    requires
        0 <= n <= ms.len(),
    ensures
        picks_at(ms, pick(ms, flags, n), idx, n),
    decreases n,
{
    if n <= 0 {
        Seq::empty()
    } else {
        let prev = lemma_pick_positions(ms, flags, n - 1);
        if flags[n - 1] {
            let idx = prev.push(n - 1);
            assert(pick(ms, flags, n) == pick(ms, flags, n - 1).push(ms[n - 1]));
            assert forall|k: int, l: int| 0 <= k < l < idx.len() implies #[trigger] idx[k] < #[trigger] idx[l] by {
                if l < prev.len() {
                    assert(idx[k] == prev[k] && idx[l] == prev[l]);
                } else {
                    assert(idx[k] == prev[k]);
                }
            }
            idx
        } else {
            prev
        }
    }
}

/// The kept messages are messages of the conversation, in their order:
/// each is the message at an increasing position.
pub proof fn retained_messages_keep_their_order(ms: Seq<Message>, budget: int)
    ensures
        exists|idx: Seq<int>| #[trigger] picks_at(ms, retained(ms, budget), idx, ms.len() as int),
{
    let idx = lemma_pick_positions(ms, keep_flags(ms, budget), ms.len() as int);
    assert(picks_at(ms, retained(ms, budget), idx, ms.len() as int));
}

/// Below `k`, the pinned position `u` aside, `f` marks exactly the
/// positions from `c` on.
pub open spec fn marks_from(f: Seq<bool>, u: Option<int>, k: int, c: int) -> bool {
    &&& 0 <= c <= k
    &&& forall|j: int| 0 <= j < k && u != Some(j) ==> (#[trigger] f[j] <==> c <= j)
}

/// Once something is kept, the scan keeps a run of the newest messages
/// below `k`: some `c` splits them into dropped (below `c`) and kept
/// (from `c` on), the pinned position aside.
proof fn lemma_scan_suffix(ms: Seq<Message>, u: Option<int>, k: int, spent: int, budget: int, flags: Seq<bool>)
    requires
        0 <= k <= flags.len(),
        forall|j: int| 0 <= j < k && u != Some(j) ==> !#[trigger] flags[j],
    ensures
        exists|c: int| #[trigger] marks_from(scan(ms, u, k, spent, true, budget, flags), u, k, c),
    decreases k,
{
    if k == 0 {
        assert(marks_from(scan(ms, u, k, spent, true, budget, flags), u, k, 0));
    } else {
        let i = k - 1;
        if u == Some(i) {
            lemma_scan_suffix(ms, u, i, spent, budget, flags);
            let c = choose|c: int| #[trigger] marks_from(scan(ms, u, i, spent, true, budget, flags), u, i, c);
            assert(marks_from(scan(ms, u, k, spent, true, budget, flags), u, k, c));
        } else if sat(spent + message_cost(ms[i])) > budget {
            assert(marks_from(scan(ms, u, k, spent, true, budget, flags), u, k, k));
        } else {
            let next = flags.update(i, true);
            let sp = sat(spent + message_cost(ms[i]));
            assert forall|j: int| 0 <= j < i && u != Some(j) implies !#[trigger] next[j] by {
                assert(next[j] == flags[j]);
            }
            lemma_scan_suffix(ms, u, i, sp, budget, next);
            lemma_scan_marks(ms, u, i, sp, true, budget, next);
            let res = scan(ms, u, k, spent, true, budget, flags);
            assert(res == scan(ms, u, i, sp, true, budget, next));
            let c = choose|c: int| #[trigger] marks_from(res, u, i, c);
            assert(res[i]);
            assert forall|j: int| 0 <= j < k && u != Some(j) implies (#[trigger] res[j] <==> c <= j) by {
                if j == i {
                    assert(c <= i);
                }
            }
            assert(marks_from(res, u, k, c));
        }
    }
}

/// The kept history is the newest part of the conversation, without gaps:
/// when the conversation has a latest user message (kept whatever the
/// budget), any other message that is kept is followed only by kept
/// messages, so no older message is kept past one dropped for the budget.
pub proof fn kept_history_has_no_gaps(ms: Seq<Message>, budget: int, j: int, k: int)
    requires
        latest_user(ms) is Some,
        0 <= j < k < ms.len(),
        latest_user(ms) != Some(j),
        latest_user(ms) != Some(k),
        keep_flags(ms, budget)[j],
    ensures
        keep_flags(ms, budget)[k],
{
    lemma_latest_user_index(ms);
    let u = latest_user(ms)->0;
    let none = Seq::new(ms.len(), |i: int| false);
    let start = none.update(u, true);
    let n = ms.len() as int;
    let f = keep_flags(ms, budget);
    assert(f == scan(ms, Some(u), n, message_cost(ms[u]) as int, true, budget, start));
    lemma_scan_suffix(ms, Some(u), n, message_cost(ms[u]) as int, budget, start);
    let c = choose|c: int| #[trigger] marks_from(f, Some(u), n, c);
    assert(f[j] <==> c <= j);
    assert(f[k] <==> c <= k);
}

/// The kept messages cost at most the budget, unless the latest user
/// message alone exceeds it, in which case it is all that is kept. Each
/// message's cost is a `usize`, as the kernel computes it. (With the
/// largest budget, costs that add up past the largest `usize` saturate
/// there, as the kernel's running total does, and the law is stated for
/// conversations whose total cost fits.)
pub proof fn retained_messages_fit_budget(ms: Seq<Message>, budget: int)
    requires
        0 <= budget <= usize::MAX,
        forall|i: int| 0 <= i < ms.len() ==> #[trigger] message_cost(ms[i]) <= usize::MAX,
        budget < usize::MAX || total_cost(ms) <= usize::MAX,
    ensures
        total_cost(retained(ms, budget)) <= budget || (latest_user(ms) matches Some(u) && retained(ms, budget)
            == seq![ms[u]]),
{
    lemma_latest_user_index(ms);
    let n = ms.len() as int;
    let none = Seq::new(ms.len(), |i: int| false);
    let flags = keep_flags(ms, budget);
    lemma_pick_cost(ms, flags, n);
    match latest_user(ms) {
        Some(u) => {
            let start = none.update(u, true);
            lemma_flag_cost(ms, none, u, n);
            lemma_pick_none(ms, none, n);
            lemma_pick_cost(ms, none, n);
            lemma_flagged_le_total(ms, start, n);
            assert(ms.take(n) =~= ms);
            lemma_scan_cost(ms, Some(u), n, message_cost(ms[u]) as int, true, budget, start);
            if flags == start {
                lemma_pick_single(ms, start, u, n);
            }
        },
        None => {
            lemma_pick_none(ms, none, n);
            lemma_pick_cost(ms, none, n);
            lemma_scan_cost(ms, None, n, 0, false, budget, none);
            if flags == none {
                lemma_pick_none(ms, none, n);
            }
        },
    }
}

/// One entry of technical noise: a JSON record, or a workspace change
/// with what applying it reported.
#[derive(Debug)]
pub enum NoiseEntry {
    Record(Json),
    Workspace { delta: WorkspaceDelta, outcome: DeltaOutcome },
}

/// The agent's working memory: the short-term conversation, raw tool
/// outputs and traces, the stack actions it proposed as JSON text, and its
/// workspace.
pub struct WorkingMemory {
    pub messages: Vec<Message>,
    pub technical_noise: Vec<NoiseEntry>,
    pub proposed_stack_actions: Vec<String>,
    pub workspace: WorkspaceState,
}

impl WorkingMemory {
    /// An empty memory over the initial workspace.
    pub fn new() -> (r: Self)
        ensures
            r.messages@.len() == 0,
            r.technical_noise@.len() == 0,
            r.proposed_stack_actions@.len() == 0,
            r.workspace.is_initial(),
            r.workspace.wf(),
    {
        WorkingMemory {
            messages: Vec::new(),
            technical_noise: Vec::new(),
            proposed_stack_actions: Vec::new(),
            workspace: WorkspaceState::default(),
        }
    }

    /// Appends a message, then keeps what the short-term kernel retains
    /// under the workspace's short-term budget.
    pub fn push_message(&mut self, message: Message)
        ensures
            same_messages(
                final(self).messages@,
                retained(
                    old(self).messages@.push(message),
                    old(self).workspace.budget.short_term_budget as int,
                ),
            ),
            final(self).technical_noise == old(self).technical_noise,
            final(self).proposed_stack_actions == old(self).proposed_stack_actions,
            final(self).workspace == old(self).workspace,
    {
        self.messages.push(message);
        let budget = self.workspace.budget.short_term_budget;
        self.messages = retain_short_term_messages(&self.messages, budget);
    }
}

impl WorkspaceState {
    /// The short-term messages that fit this workspace's budget.
    pub fn render_short_term_messages(&self, messages: &Vec<Message>) -> (r: Vec<Message>)
        ensures
            same_messages(r@, retained(messages@, self.budget.short_term_budget as int)),
    {
        retain_short_term_messages(messages, self.budget.short_term_budget)
    }
}

} // verus!
