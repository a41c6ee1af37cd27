//! A decoded turn as the action the harness applies, and the records the
//! run loop keeps of its turns.

use vstd::prelude::*;
use crate::agent::action::{AgentAction, WorkingMemoryDelta};
use crate::agent::decode::{anomaly_key, anomaly_kind, CallOutcome, TurnItem};
use crate::agent::run::{ForcedReason, FallbackCause, HOST_TERMINAL_FALLBACK_ANSWER, MAX_ITERATIONS};
use crate::agent::trace::{entries, entry_is, object_of, payload_is, text_entry, text_is};
use crate::json::Json;
use crate::memory::{Message, ToolCall};
use crate::text::{push_str, string_from_chars};

verus! {

/// `j` is `null` for no text and the string otherwise.
pub open spec fn opt_text_is(j: Json, o: Option<String>) -> bool {
    match o {
        Some(s) => text_is(j, s@),
        None => j is Null,
    }
}

/// `j` is the integer `n`.
pub open spec fn int_is(j: Json, n: int) -> bool {
    j matches Json::Integer(m) && m == n
}

/// `j` lists `calls`, each as its arguments and name.
pub open spec fn calls_are(j: Json, calls: Seq<ToolCall>) -> bool {
    j matches Json::Array(items) && items@.len() == calls.len() && forall|i: int|
        0 <= i < calls.len() ==> object_of(#[trigger] items@[i], 2) && entry_is(
            entries(items@[i])[0],
            "arguments"@,
            calls[i].arguments@,
        ) && entry_is(entries(items@[i])[1], "name"@, calls[i].name@)
}

/// The tool calls a response carries (none when it carries no list).
pub open spec fn calls_of(calls: Option<Vec<ToolCall>>) -> Seq<ToolCall> {
    match calls {
        Some(v) => v@,
        None => Seq::empty(),
    }
}

/// `j` is an object of the one entry `key`, and `inner` its value.
pub open spec fn single(j: Json, key: Seq<char>, inner: Json) -> bool {
    object_of(j, 1) && entries(j)[0].0@ == key && entries(j)[0].1 == inner
}

/// `j` is the trace of a turn: the response's content, `middle` (the
/// iteration or the reason), and its tool calls.
pub open spec fn turn_trace_is(j: Json, response: Message, middle_key: Seq<char>) -> bool {
    &&& object_of(j, 3)
    &&& entries(j)[0].0@ == "assistant_content"@ && opt_text_is(entries(j)[0].1, response.content)
    &&& entries(j)[1].0@ == middle_key
    &&& entries(j)[2].0@ == "tool_calls"@ && calls_are(entries(j)[2].1, calls_of(response.tool_calls))
}

/// An optional text as JSON.
fn opt_text_json(o: &Option<String>) -> (r: Json)
    ensures
        opt_text_is(r, *o),
{
    match o {
        Some(s) => Json::Str(s.clone()),
        None => Json::Null,
    }
}

/// The tool calls of a response as JSON.
fn calls_json(calls: &Option<Vec<ToolCall>>) -> (r: Json)
    ensures
        calls_are(r, calls_of(*calls)),
{
    let mut items: Vec<Json> = Vec::new();
    match calls {
        Some(v) => {
            let mut i: usize = 0;
            while i < v.len()
                invariant
                    i <= v@.len(),
                    items@.len() == i,
                    forall|k: int| 0 <= k < i ==> object_of(#[trigger] items@[k], 2) && entry_is(
                        entries(items@[k])[0],
                        "arguments"@,
                        v@[k].arguments@,
                    ) && entry_is(entries(items@[k])[1], "name"@, v@[k].name@),
                decreases v@.len() - i,
            {
                let mut es: Vec<(String, Json)> = Vec::new();
                es.push(text_entry("arguments", v[i].arguments.as_str()));
                es.push(text_entry("name", v[i].name.as_str()));
                items.push(Json::Object(es));
                i = i + 1;
            }
        },
        None => {},
    }
    Json::Array(items)
}

/// An object of the one entry `key`.
fn single_json(key: &str, inner: Json) -> (r: Json)
    ensures
        single(r, key@, inner),
{
    let mut es: Vec<(String, Json)> = Vec::new();
    es.push((String::from_str(key), inner));
    Json::Object(es)
}

/// The trace of a turn, with `middle` between its content and its calls.
fn turn_trace(response: &Message, middle: (String, Json)) -> (r: Json)
    ensures
        turn_trace_is(r, *response, middle.0@),
        entries(r)[1] == middle,
{
    let mut es: Vec<(String, Json)> = Vec::new();
    es.push((String::from_str("assistant_content"), opt_text_json(&response.content)));
    es.push(middle);
    es.push((String::from_str("tool_calls"), calls_json(&response.tool_calls)));
    Json::Object(es)
}

/// The record of a normal turn: under `agent_iteration`, the response's
/// content, the iteration and its tool calls.
pub fn iteration_record(iteration: usize, response: &Message) -> (r: Json)
    ensures
        object_of(r, 1) && entries(r)[0].0@ == "agent_iteration"@,
        turn_trace_is(entries(r)[0].1, *response, "index"@),
        int_is(entries(entries(r)[0].1)[1].1, iteration as int),
{
    let t = turn_trace(response, (String::from_str("index"), Json::Integer(iteration as i128)));
    single_json("agent_iteration", t)
}

/// The record of the forced turn: under its trace key, the response's
/// content, why it ran and its tool calls.
pub fn forced_turn_record(reason: &ForcedReason, response: &Message) -> (r: Json)
    ensures
        object_of(r, 1) && entries(r)[0].0@ == (if *reason is MaxIterations { "forced_terminal_turn"@ } else { "identity_enforcement_turn"@ }),
        turn_trace_is(entries(r)[0].1, *response, "reason"@),
        text_is(entries(entries(r)[0].1)[1].1, match *reason {
            ForcedReason::MaxIterations => "max_iterations"@,
            ForcedReason::Anomaly(s) => s@,
        }),
{
    let t = turn_trace(response, (String::from_str("reason"), Json::Str(reason.text())));
    single_json(reason.trace_key(), t)
}

/// The record of a run that used up its normal turns.
pub fn limit_record(iteration: usize) -> (r: Json)
    ensures
        object_of(r, 1) && entries(r)[0].0@ == "agent_limit"@,
        object_of(entries(r)[0].1, 3),
        entries(entries(r)[0].1)[0].0@ == "iteration"@ && int_is(entries(entries(r)[0].1)[0].1, iteration as int),
        entries(entries(r)[0].1)[1].0@ == "max_iterations"@ && int_is(entries(entries(r)[0].1)[1].1, MAX_ITERATIONS as int),
        entry_is(entries(entries(r)[0].1)[2], "reason"@, "max_iterations"@),
{
    let mut es: Vec<(String, Json)> = Vec::new();
    es.push((String::from_str("iteration"), Json::Integer(iteration as i128)));
    es.push((String::from_str("max_iterations"), Json::Integer(MAX_ITERATIONS as i128)));
    es.push(text_entry("reason", "max_iterations"));
    single_json("agent_limit", Json::Object(es))
}

/// The record of the host's fallback: its answer, why the forced turn
/// failed, and why it ran.
pub fn fallback_record(reason: &ForcedReason, cause: &FallbackCause) -> (r: Json)
    ensures
        object_of(r, 1) && entries(r)[0].0@ == "host_terminal_fallback"@,
        object_of(entries(r)[0].1, 3),
        entry_is(entries(entries(r)[0].1)[0], "answer"@, HOST_TERMINAL_FALLBACK_ANSWER@),
        entry_is(entries(entries(r)[0].1)[1], "forced_turn_reason"@, match *cause {
            FallbackCause::NonTerminalAction => "forced_turn_non_terminal_action"@,
            FallbackCause::Anomaly(s) => s@,
        }),
        entry_is(entries(entries(r)[0].1)[2], "reason"@, match *reason {
            ForcedReason::MaxIterations => "max_iterations"@,
            ForcedReason::Anomaly(s) => s@,
        }),
{
    let mut es: Vec<(String, Json)> = Vec::new();
    es.push(text_entry("answer", HOST_TERMINAL_FALLBACK_ANSWER));
    es.push((String::from_str("forced_turn_reason"), Json::Str(cause.text())));
    es.push((String::from_str("reason"), Json::Str(reason.text())));
    single_json("host_terminal_fallback", Json::Object(es))
}

/// `a` is the action for turn item `item`, given the provider's response,
/// the parsed arguments and the tool's action.
pub open spec fn item_action(item: TurnItem, response: Message, arguments: Option<Json>, tool_action: Option<AgentAction>, a: AgentAction) -> bool {
    match item {
        TurnItem::Trace(anomaly) => a matches AgentAction::UpdateWorkingMemory(WorkingMemoryDelta::AddTechnicalNoise(k, p))
            && k@ == anomaly_key(anomaly_kind(anomaly)) && payload_is(anomaly, p),
        TurnItem::AppendResponse => a == AgentAction::UpdateWorkingMemory(WorkingMemoryDelta::AppendMessage(response)),
        TurnItem::ToolCallTrace { tool_name } => a matches AgentAction::UpdateWorkingMemory(
            WorkingMemoryDelta::AddTechnicalNoise(k, p),
        ) && k@ == "tool_call:"@ + tool_name@ && single(p, "arguments"@, arguments->0),
        TurnItem::ToolAction => a == tool_action->0,
        TurnItem::ToolReply(m) => a == AgentAction::UpdateWorkingMemory(WorkingMemoryDelta::AppendMessage(m)),
    }
}

/// How many items of `items` are `AppendResponse`, `ToolCallTrace` and
/// `ToolAction`.
pub open spec fn uses(items: Seq<TurnItem>) -> (nat, nat, nat)
    decreases items.len(),
{
    if items.len() == 0 {
        (0, 0, 0)
    } else {
        let u = uses(items.drop_last());
        match items.last() {
            TurnItem::AppendResponse => ((u.0 + 1) as nat, u.1, u.2),
            TurnItem::ToolCallTrace { .. } => (u.0, (u.1 + 1) as nat, u.2),
            TurnItem::ToolAction => (u.0, u.1, (u.2 + 1) as nat),
            _ => u,
        }
    }
}

/// The action of a decoded turn: each item in order as an action, in one
/// compound action. The response is appended where the items say so,
/// the parsed arguments are recorded with the call, and the tool's own
/// action stands where the items place it.
pub fn assemble_turn(items: Vec<TurnItem>, response: Message, arguments: Option<Json>, tool_action: Option<AgentAction>) -> (r: AgentAction)
    requires
        uses(items@).0 <= 1,
        uses(items@).1 <= 1 && (uses(items@).1 == 1 ==> arguments is Some),
        uses(items@).2 <= 1 && (uses(items@).2 == 1 ==> tool_action is Some),
    ensures
        r matches AgentAction::Compound(v) && v@.len() == items@.len() && forall|i: int|
            0 <= i < items@.len() ==> #[trigger] item_action(items@[i], response, arguments, tool_action, v@[i]),
{
    let ghost all = items@;
    let ghost resp0 = response;
    let ghost args0 = arguments;
    let ghost act0 = tool_action;
    let mut response = Some(response);
    let mut arguments = arguments;
    let mut tool_action = tool_action;
    let mut rest = items;
    let mut out: Vec<AgentAction> = Vec::new();
    let mut i: usize = 0;
    let n = rest.len();
    while rest.len() > 0
        invariant
            i <= all.len(),
            all.len() == n,
            rest@ == all.skip(i as int),
            out@.len() == i,
            forall|k: int| 0 <= k < i ==> #[trigger] item_action(all[k], resp0, args0, act0, out@[k]),
            uses(all).0 <= 1 && uses(all).1 <= 1 && uses(all).2 <= 1,
            uses(all).1 == 1 ==> args0 is Some,
            uses(all).2 == 1 ==> act0 is Some,
            response == (if uses(all.take(i as int)).0 == 0 { Some(resp0) } else { None::<Message> }),
            arguments == (if uses(all.take(i as int)).1 == 0 { args0 } else { None::<Json> }),
            tool_action == (if uses(all.take(i as int)).2 == 0 { act0 } else { None::<AgentAction> }),
        decreases rest@.len(),
    {
        let item = rest.remove(0);
        proof {
            let t = all.take(i + 1);
            assert(t.drop_last() =~= all.take(i as int));
            assert(t.last() == all[i as int]);
            lemma_uses_prefix(all, i as int + 1);
        }
        let a = match item {
            TurnItem::Trace(anomaly) => anomaly.into_action(),
            TurnItem::AppendResponse => {
                let m = response.take().unwrap();
                AgentAction::UpdateWorkingMemory(WorkingMemoryDelta::AppendMessage(m))
            },
            TurnItem::ToolCallTrace { tool_name } => {
                let mut k: Vec<char> = Vec::new();
                push_str(&mut k, "tool_call:");
                push_str(&mut k, tool_name.as_str());
                let p = single_json("arguments", arguments.take().unwrap());
                AgentAction::UpdateWorkingMemory(WorkingMemoryDelta::AddTechnicalNoise(string_from_chars(&k), p))
            },
            TurnItem::ToolAction => tool_action.take().unwrap(),
            TurnItem::ToolReply(m) => AgentAction::UpdateWorkingMemory(WorkingMemoryDelta::AppendMessage(m)),
        };
        out.push(a);
        i = i + 1;
    }
    AgentAction::Compound(out)
}

/// The counts of a prefix are at most those of the whole.
proof fn lemma_uses_prefix(all: Seq<TurnItem>, k: int)
    requires
        0 <= k <= all.len(),
    ensures
        uses(all.take(k)).0 <= uses(all).0,
        uses(all.take(k)).1 <= uses(all).1,
        uses(all.take(k)).2 <= uses(all).2,
    decreases all.len() - k,
{
    if k < all.len() {
        lemma_uses_prefix(all, k + 1);
        assert(all.take(k + 1).drop_last() =~= all.take(k));
    } else {
        assert(all.take(k) =~= all);
    }
}

/// The counts of a concatenation add up.
proof fn lemma_uses_concat(a: Seq<TurnItem>, b: Seq<TurnItem>)
    ensures
        uses(a + b).0 == uses(a).0 + uses(b).0,
        uses(a + b).1 == uses(a).1 + uses(b).1,
        uses(a + b).2 == uses(a).2 + uses(b).2,
    decreases b.len(),
{
    if b.len() == 0 {
        assert(a + b =~= a);
    } else {
        lemma_uses_concat(a, b.drop_last());
        assert((a + b).drop_last() =~= a + b.drop_last());
        assert((a + b).last() == b.last());
    }
}

/// A finished turn appends the response once, traces the call once when
/// its arguments parsed, and applies the tool's action once when it ran.
proof fn lemma_finished_uses(ignored: Option<String>, call: ToolCall, outcome: CallOutcome, items: Seq<TurnItem>)
    requires
        crate::agent::decode::finished(ignored, call, outcome, items),
    ensures
        uses(items).0 == 1,
        uses(items).1 == (if outcome is Executed || outcome is Failed { 1nat } else { 0nat }),
        uses(items).2 == (if outcome is Executed { 1nat } else { 0nat }),
{
    let l = crate::agent::decode::leading_traces(ignored, call, outcome);
    let e = crate::agent::decode::turn_effects(call, outcome);
    assert(items =~= (l + e).push(items.last()));
    lemma_uses_concat(l + e, seq![items.last()]);
    assert((l + e).push(items.last()) =~= (l + e) + seq![items.last()]);
    lemma_uses_concat(l, e);
    reveal_with_fuel(uses, 4);
    assert(seq![items.last()].drop_last() =~= Seq::<TurnItem>::empty());
    let first = match ignored {
        Some(c) => seq![TurnItem::Trace(crate::agent::decode::DecodeAnomaly::AssistantContentIgnored { content: c })],
        None => Seq::empty(),
    };
    assert(uses(first) == (0nat, 0nat, 0nat)) by {
        if first.len() == 1 {
            assert(first.drop_last() =~= Seq::<TurnItem>::empty());
        }
    }
    let second = l.subrange(first.len() as int, l.len() as int);
    assert(l =~= first + second);
    lemma_uses_concat(first, second);
    assert(uses(second) == (0nat, 0nat, 0nat)) by {
        if second.len() == 1 {
            assert(second.drop_last() =~= Seq::<TurnItem>::empty());
        }
    }
    let traced = match outcome {
        CallOutcome::Executed | CallOutcome::Failed { .. } => seq![TurnItem::ToolCallTrace { tool_name: call.name }],
        _ => Seq::empty(),
    };
    let acted = match outcome {
        CallOutcome::Executed => seq![TurnItem::ToolAction],
        _ => Seq::empty(),
    };
    assert(e =~= seq![TurnItem::AppendResponse] + traced + acted);
    lemma_uses_concat(seq![TurnItem::AppendResponse] + traced, acted);
    lemma_uses_concat(seq![TurnItem::AppendResponse], traced);
    assert(seq![TurnItem::AppendResponse].drop_last() =~= Seq::<TurnItem>::empty());
    if traced.len() == 1 {
        assert(traced.drop_last() =~= Seq::<TurnItem>::empty());
    }
    if acted.len() == 1 {
        assert(acted.drop_last() =~= Seq::<TurnItem>::empty());
    }
}

/// The action of a turn whose single call came out as `outcome`: its
/// items, as `finish_turn` lays them out, each as an action.
pub fn turn_action(
    ignored: Option<String>,
    call: &ToolCall,
    outcome: CallOutcome,
    response: Message,
    arguments: Option<Json>,
    tool_action: Option<AgentAction>,
) -> (r: AgentAction)
    requires
        (outcome is Executed || outcome is Failed) ==> arguments is Some,
        outcome is Executed ==> tool_action is Some,
    ensures
        exists|items: Seq<TurnItem>| #[trigger] crate::agent::decode::finished(ignored, *call, outcome, items)
            && (r matches AgentAction::Compound(v) && v@.len() == items.len() && forall|i: int|
            0 <= i < items.len() ==> #[trigger] item_action(items[i], response, arguments, tool_action, v@[i])),
{
    let ghost out0 = outcome;
    let items = crate::agent::decode::finish_turn(ignored, call, outcome);
    proof {
        lemma_finished_uses(ignored, *call, out0, items@);
    }
    assemble_turn(items, response, arguments, tool_action)
}

} // verus!
