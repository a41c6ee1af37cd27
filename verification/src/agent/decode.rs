//! Decoding a provider turn under the harness's transition algebra: raw
//! output has no effect of its own; a turn either runs exactly one tool
//! call or is a structural anomaly, and assistant prose beside a tool call
//! is recorded and ignored.

use vstd::prelude::*;
use crate::memory::{Message, Role, ToolCall};
use crate::text::{push_str, str_eq, string_from_chars, trim, trim_string, views};

verus! {

/// The kinds of decode anomaly.
#[derive(Debug, Clone, PartialEq, Eq)]
pub enum DecodeAnomalyKind {
    AssistantContentIgnored,
    MultipleToolCallsInSingleTurn,
    ToolInvalidArguments { tool_name: String },
    ToolExecutionFailed { tool_name: String },
    UnknownTool { tool_name: String },
    NonActionableAssistantContent,
    NoActionableModelOutput,
    MultipleDecodeAnomalies,
}

/// A structural anomaly found while decoding a provider turn, with what it
/// records.
#[derive(Debug)]
pub enum DecodeAnomaly {
    /// Assistant prose came with a tool call and has no effect.
    AssistantContentIgnored { content: String },
    /// A turn asked for more than one tool call.
    MultipleToolCallsInSingleTurn { tool_names: Vec<String> },
    /// A tool call's arguments were not valid JSON.
    ToolInvalidArguments { tool_name: String, error: String, raw_arguments: String },
    /// A tool failed.
    ToolExecutionFailed { tool_name: String, error: String },
    /// A tool call named no allowed tool.
    UnknownTool { tool_name: String },
    /// Assistant prose came without any tool call.
    NonActionableAssistantContent { content: String },
    /// The turn had neither prose nor tool calls.
    NoActionableModelOutput,
    /// Several anomalies at once.
    MultipleDecodeAnomalies { anomalies: Vec<DecodeAnomaly> },
}

impl DecodeAnomaly {
    /// The kind of this anomaly.
    pub fn kind(&self) -> (r: DecodeAnomalyKind)
        ensures
            r == anomaly_kind(*self),
    {
        match self {
            DecodeAnomaly::AssistantContentIgnored { .. } => DecodeAnomalyKind::AssistantContentIgnored,
            DecodeAnomaly::MultipleToolCallsInSingleTurn { .. } => DecodeAnomalyKind::MultipleToolCallsInSingleTurn,
            DecodeAnomaly::ToolInvalidArguments { tool_name, .. } => DecodeAnomalyKind::ToolInvalidArguments {
                tool_name: tool_name.clone(),
            },
            DecodeAnomaly::ToolExecutionFailed { tool_name, .. } => DecodeAnomalyKind::ToolExecutionFailed {
                tool_name: tool_name.clone(),
            },
            DecodeAnomaly::UnknownTool { tool_name } => DecodeAnomalyKind::UnknownTool {
                tool_name: tool_name.clone(),
            },
            DecodeAnomaly::NonActionableAssistantContent { .. } => DecodeAnomalyKind::NonActionableAssistantContent,
            DecodeAnomaly::NoActionableModelOutput => DecodeAnomalyKind::NoActionableModelOutput,
            DecodeAnomaly::MultipleDecodeAnomalies { .. } => DecodeAnomalyKind::MultipleDecodeAnomalies,
        }
    }

    /// The key under which the anomaly is recorded: tool anomalies under
    /// `tool_error:` and the tool's name, ignored prose under its own key,
    /// everything else under `agent_runtime`.
    pub fn key(&self) -> (r: String)
        ensures
            r@ == anomaly_key(anomaly_kind(*self)),
    {
        match self {
            DecodeAnomaly::AssistantContentIgnored { .. } => String::from_str("assistant_content_ignored"),
            DecodeAnomaly::ToolInvalidArguments { tool_name, .. }
            | DecodeAnomaly::ToolExecutionFailed { tool_name, .. }
            | DecodeAnomaly::UnknownTool { tool_name } => {
                let mut k: Vec<char> = Vec::new();
                push_str(&mut k, "tool_error:");
                push_str(&mut k, tool_name.as_str());
                string_from_chars(&k)
            },
            _ => String::from_str("agent_runtime"),
        }
    }

    /// The reason recorded with the anomaly, used to trace why the harness
    /// terminalized.
    pub fn reason(&self) -> (r: &'static str)
        ensures
            r@ == anomaly_reason(anomaly_kind(*self)),
    {
        match self {
            DecodeAnomaly::AssistantContentIgnored { .. } => "content_with_tool_calls_has_no_semantic_effect",
            DecodeAnomaly::MultipleToolCallsInSingleTurn { .. } => "multiple_tool_calls_in_single_turn",
            DecodeAnomaly::ToolInvalidArguments { .. } => "invalid_arguments",
            DecodeAnomaly::ToolExecutionFailed { .. } => "tool_execution_failed",
            DecodeAnomaly::UnknownTool { .. } => "unknown_tool",
            DecodeAnomaly::NonActionableAssistantContent { .. } => "non_actionable_assistant_content",
            DecodeAnomaly::NoActionableModelOutput => "no_actionable_model_output",
            DecodeAnomaly::MultipleDecodeAnomalies { .. } => "multiple_decode_anomalies",
        }
    }

    /// Prose that came with a tool call.
    pub fn assistant_content_ignored(content: String) -> (r: DecodeAnomaly)
        ensures
            r == (DecodeAnomaly::AssistantContentIgnored { content }),
    {
        DecodeAnomaly::AssistantContentIgnored { content }
    }

    /// A turn that named several tools.
    pub fn multiple_tool_calls_in_single_turn(tool_names: Vec<String>) -> (r: DecodeAnomaly)
        ensures
            r == (DecodeAnomaly::MultipleToolCallsInSingleTurn { tool_names }),
    {
        DecodeAnomaly::MultipleToolCallsInSingleTurn { tool_names }
    }

    /// Arguments of `tool_name` that did not parse.
    pub fn tool_invalid_arguments(tool_name: String, error: String, raw_arguments: String) -> (r: DecodeAnomaly)
        ensures
            r == (DecodeAnomaly::ToolInvalidArguments { tool_name, error, raw_arguments }),
    {
        DecodeAnomaly::ToolInvalidArguments { tool_name, error, raw_arguments }
    }

    /// A failure of `tool_name`.
    pub fn tool_execution_failed(tool_name: String, error: String) -> (r: DecodeAnomaly)
        ensures
            r == (DecodeAnomaly::ToolExecutionFailed { tool_name, error }),
    {
        DecodeAnomaly::ToolExecutionFailed { tool_name, error }
    }

    /// A call of a tool that is not offered.
    pub fn unknown_tool(tool_name: String) -> (r: DecodeAnomaly)
        ensures
            r == (DecodeAnomaly::UnknownTool { tool_name }),
    {
        DecodeAnomaly::UnknownTool { tool_name }
    }

    /// Prose without any tool call.
    pub fn non_actionable_assistant_content(content: String) -> (r: DecodeAnomaly)
        ensures
            r == (DecodeAnomaly::NonActionableAssistantContent { content }),
    {
        DecodeAnomaly::NonActionableAssistantContent { content }
    }

    /// A turn with neither prose nor tool calls.
    pub fn no_actionable_model_output() -> (r: DecodeAnomaly)
        ensures
            r == DecodeAnomaly::NoActionableModelOutput,
    {
        DecodeAnomaly::NoActionableModelOutput
    }

    /// Several anomalies found in one turn.
    pub fn multiple(anomalies: Vec<DecodeAnomaly>) -> (r: DecodeAnomaly)
        ensures
            r == (DecodeAnomaly::MultipleDecodeAnomalies { anomalies }),
    {
        DecodeAnomaly::MultipleDecodeAnomalies { anomalies }
    }
}

/// The kind of an anomaly.
pub open spec fn anomaly_kind(a: DecodeAnomaly) -> DecodeAnomalyKind {
    match a {
        DecodeAnomaly::AssistantContentIgnored { .. } => DecodeAnomalyKind::AssistantContentIgnored,
        DecodeAnomaly::MultipleToolCallsInSingleTurn { .. } => DecodeAnomalyKind::MultipleToolCallsInSingleTurn,
        DecodeAnomaly::ToolInvalidArguments { tool_name, .. } => DecodeAnomalyKind::ToolInvalidArguments { tool_name },
        DecodeAnomaly::ToolExecutionFailed { tool_name, .. } => DecodeAnomalyKind::ToolExecutionFailed { tool_name },
        DecodeAnomaly::UnknownTool { tool_name } => DecodeAnomalyKind::UnknownTool { tool_name },
        DecodeAnomaly::NonActionableAssistantContent { .. } => DecodeAnomalyKind::NonActionableAssistantContent,
        DecodeAnomaly::NoActionableModelOutput => DecodeAnomalyKind::NoActionableModelOutput,
        DecodeAnomaly::MultipleDecodeAnomalies { .. } => DecodeAnomalyKind::MultipleDecodeAnomalies,
    }
}

/// The key an anomaly kind is recorded under.
pub open spec fn anomaly_key(k: DecodeAnomalyKind) -> Seq<char> {
    match k {
        DecodeAnomalyKind::AssistantContentIgnored => "assistant_content_ignored"@,
        DecodeAnomalyKind::ToolInvalidArguments { tool_name } => "tool_error:"@ + tool_name@,
        DecodeAnomalyKind::ToolExecutionFailed { tool_name } => "tool_error:"@ + tool_name@,
        DecodeAnomalyKind::UnknownTool { tool_name } => "tool_error:"@ + tool_name@,
        _ => "agent_runtime"@,
    }
}

/// The reason an anomaly kind records.
pub open spec fn anomaly_reason(k: DecodeAnomalyKind) -> Seq<char> {
    match k {
        DecodeAnomalyKind::AssistantContentIgnored => "content_with_tool_calls_has_no_semantic_effect"@,
        DecodeAnomalyKind::MultipleToolCallsInSingleTurn => "multiple_tool_calls_in_single_turn"@,
        DecodeAnomalyKind::ToolInvalidArguments { .. } => "invalid_arguments"@,
        DecodeAnomalyKind::ToolExecutionFailed { .. } => "tool_execution_failed"@,
        DecodeAnomalyKind::UnknownTool { .. } => "unknown_tool"@,
        DecodeAnomalyKind::NonActionableAssistantContent => "non_actionable_assistant_content"@,
        DecodeAnomalyKind::NoActionableModelOutput => "no_actionable_model_output"@,
        DecodeAnomalyKind::MultipleDecodeAnomalies => "multiple_decode_anomalies"@,
    }
}

/// The assistant prose of a turn: its content, trimmed, when not blank.
pub open spec fn prose_of(content: Option<String>) -> Option<Seq<char>> {
    match content {
        Some(c) => if trim(c@).len() > 0 {
            Some(trim(c@))
        } else {
            None
        },
        None => None,
    }
}

/// The position of the first allowed tool named `name`.
pub open spec fn allowed_index(allowed: Seq<Seq<char>>, name: Seq<char>, k: int) -> Option<int>
    decreases allowed.len() - k,
{
    if k < 0 || k >= allowed.len() {
        None
    } else if allowed[k] == name {
        Some(k)
    } else {
        allowed_index(allowed, name, k + 1)
    }
}

/// What a turn decodes to before any tool runs.
#[derive(Debug)]
pub enum TurnPlan {
    /// The turn is this anomaly alone.
    Anomaly(DecodeAnomaly),
    /// The turn's single tool call is to run: `tool` is the position of
    /// its tool among the allowed tools (none when it names no allowed
    /// tool); `ignored_prose` is assistant prose that came with it.
    Call { tool: Option<usize>, ignored_prose: Option<String> },
}

/// `p` is the plan for a turn with `content` and `calls` under the
/// allowed tool names `allowed`: no calls make an anomaly (non-actionable
/// prose, or no output at all); several calls make an anomaly naming them
/// all; a single call is to run.
pub open spec fn plans(content: Option<String>, calls: Seq<ToolCall>, allowed: Seq<Seq<char>>, p: TurnPlan) -> bool {
    if calls.len() == 0 {
        match prose_of(content) {
            Some(c) => (p matches TurnPlan::Anomaly(DecodeAnomaly::NonActionableAssistantContent { content: s }) && s@ == c),
            None => p matches TurnPlan::Anomaly(DecodeAnomaly::NoActionableModelOutput),
        }
    } else if calls.len() > 1 {
        (p matches TurnPlan::Anomaly(DecodeAnomaly::MultipleToolCallsInSingleTurn { tool_names })
            && views(tool_names@) == calls.map_values(|c: ToolCall| c.name@))
    } else {
        &&& p matches TurnPlan::Call { tool, ignored_prose }
        &&& (match allowed_index(allowed, calls[0].name@, 0) {
            Some(i) => tool == Some(i as usize),
            None => tool is None,
        })
        &&& (match prose_of(content) {
            Some(c) => (ignored_prose matches Some(s) && s@ == c),
            None => ignored_prose is None,
        })
    }
}

/// The prose of a turn's content.
fn prose(content: &Option<String>) -> (r: Option<String>)
    ensures
        match r {
            Some(s) => prose_of(*content) == Some(s@),
            None => prose_of(*content) is None,
        },
{
    match content {
        Some(c) => {
            let cs = crate::text::chars_of(c.as_str());
            let t = crate::text::trim_chars(&cs);
            if t.len() > 0 {
                Some(string_from_chars(&t))
            } else {
                None
            }
        },
        None => None,
    }
}

/// The position of the first allowed tool named `name`.
fn find_allowed(allowed: &Vec<String>, name: &str) -> (r: Option<usize>)
    ensures
        match r {
            Some(i) => allowed_index(views(allowed@), name@, 0) == Some(i as int),
            None => allowed_index(views(allowed@), name@, 0) is None,
        },
{
    let mut i: usize = 0;
    while i < allowed.len()
        invariant
            i <= allowed@.len(),
            allowed_index(views(allowed@), name@, 0) == allowed_index(views(allowed@), name@, i as int),
        decreases allowed@.len() - i,
    {
        if str_eq(allowed[i].as_str(), name) {
            return Some(i);
        }
        i = i + 1;
    }
    None
}

/// Decodes a provider turn, before any tool runs.
pub fn plan_turn(content: &Option<String>, calls: &Vec<ToolCall>, allowed: &Vec<String>) -> (r: TurnPlan)
    ensures
        plans(*content, calls@, views(allowed@), r),
{
    let text = prose(content);
    if calls.len() == 0 {
        return match text {
            Some(c) => TurnPlan::Anomaly(DecodeAnomaly::NonActionableAssistantContent { content: c }),
            None => TurnPlan::Anomaly(DecodeAnomaly::NoActionableModelOutput),
        };
    }
    if calls.len() > 1 {
        let mut names: Vec<String> = Vec::new();
        let mut i: usize = 0;
        while i < calls.len()
            invariant
                i <= calls@.len(),
                names@.len() == i,
                forall|k: int| 0 <= k < i ==> (#[trigger] names@[k])@ == calls@[k].name@,
            decreases calls@.len() - i,
        {
            names.push(calls[i].name.clone());
            i = i + 1;
        }
        assert(views(names@) =~= calls@.map_values(|c: ToolCall| c.name@));
        return TurnPlan::Anomaly(DecodeAnomaly::MultipleToolCallsInSingleTurn { tool_names: names });
    }
    let tool = find_allowed(allowed, calls[0].name.as_str());
    TurnPlan::Call { tool, ignored_prose: text }
}

/// What came of running a turn's single tool call.
#[derive(Debug)]
pub enum CallOutcome {
    /// The call named no allowed tool; nothing ran.
    UnknownTool,
    /// The call's arguments were not valid JSON; nothing ran.
    InvalidArguments { error: String },
    /// The tool ran and produced its action.
    Executed,
    /// The tool ran and failed.
    Failed { error: String },
}

/// One step of the action a decoded turn applies, in order.
#[derive(Debug)]
pub enum TurnItem {
    /// Records an anomaly as technical noise under its key.
    Trace(DecodeAnomaly),
    /// Appends the provider's own message to the history.
    AppendResponse,
    /// Records the call's parsed arguments under `tool_call:` and the name.
    ToolCallTrace { tool_name: String },
    /// The action that the tool produced.
    ToolAction,
    /// Appends the tool's reply to the history.
    ToolReply(Message),
}

/// The text of the tool reply that closes a turn.
pub open spec fn reply_text(name: Seq<char>, outcome: CallOutcome) -> Seq<char> {
    match outcome {
        CallOutcome::UnknownTool => "tool "@ + name + " is unknown"@,
        CallOutcome::InvalidArguments { .. } => "tool "@ + name + " failed: invalid arguments"@,
        CallOutcome::Executed => "tool "@ + name + " executed successfully"@,
        CallOutcome::Failed { error } => "tool "@ + name + " failed: "@ + error@,
    }
}

/// The anomalies a turn records first: ignored prose, then what went wrong
/// with the call.
pub open spec fn leading_traces(ignored: Option<String>, call: ToolCall, outcome: CallOutcome) -> Seq<TurnItem> {
    let first = match ignored {
        Some(c) => seq![TurnItem::Trace(DecodeAnomaly::AssistantContentIgnored { content: c })],
        None => Seq::empty(),
    };
    let second = match outcome {
        CallOutcome::UnknownTool => seq![TurnItem::Trace(DecodeAnomaly::UnknownTool { tool_name: call.name })],
        CallOutcome::InvalidArguments { error } => seq![
            TurnItem::Trace(DecodeAnomaly::ToolInvalidArguments {
                tool_name: call.name,
                error,
                raw_arguments: call.arguments,
            }),
        ],
        CallOutcome::Executed => Seq::empty(),
        CallOutcome::Failed { error } => seq![
            TurnItem::Trace(DecodeAnomaly::ToolExecutionFailed { tool_name: call.name, error }),
        ],
    };
    first + second
}

/// The effects of a turn after its traces, but for the closing reply: the
/// provider's message, the call trace when the arguments parsed, and the
/// tool's action when it ran successfully.
pub open spec fn turn_effects(call: ToolCall, outcome: CallOutcome) -> Seq<TurnItem> {
    let traced = match outcome {
        CallOutcome::Executed | CallOutcome::Failed { .. } => seq![TurnItem::ToolCallTrace { tool_name: call.name }],
        _ => Seq::empty(),
    };
    let acted = match outcome {
        CallOutcome::Executed => seq![TurnItem::ToolAction],
        _ => Seq::empty(),
    };
    seq![TurnItem::AppendResponse] + traced + acted
}

/// `m` is the tool reply that closes a turn.
pub open spec fn closing_reply(m: Message, call: ToolCall, outcome: CallOutcome) -> bool {
    &&& m.role == Role::Tool
    &&& (m.content matches Some(s) && s@ == reply_text(call.name@, outcome))
    &&& m.tool_calls is None
    &&& m.tool_call_id == Some(call.id)
    &&& m.name == Some(call.name)
}

/// `items` is the action of a turn whose single call came out as
/// `outcome`: its traces, its effects, and the closing reply.
pub open spec fn finished(ignored: Option<String>, call: ToolCall, outcome: CallOutcome, items: Seq<TurnItem>) -> bool {
    let body = leading_traces(ignored, call, outcome) + turn_effects(call, outcome);
    &&& items.len() == body.len() + 1
    &&& items.drop_last() == body
    &&& (items.last() matches TurnItem::ToolReply(m) && closing_reply(m, call, outcome))
}

/// The action of a turn whose single call came out as `outcome`, after
/// `ignored` prose, if any, was set aside.
pub fn finish_turn(ignored: Option<String>, call: &ToolCall, outcome: CallOutcome) -> (r: Vec<TurnItem>)
    ensures
        finished(ignored, *call, outcome, r@),
{
    let ghost out0 = outcome;
    let mut items: Vec<TurnItem> = Vec::new();
    match ignored {
        Some(c) => items.push(TurnItem::Trace(DecodeAnomaly::AssistantContentIgnored { content: c })),
        None => {},
    }
    let mut text: Vec<char> = Vec::new();
    push_str(&mut text, "tool ");
    push_str(&mut text, call.name.as_str());
    match outcome {
        CallOutcome::UnknownTool => {
            items.push(TurnItem::Trace(DecodeAnomaly::UnknownTool { tool_name: call.name.clone() }));
            items.push(TurnItem::AppendResponse);
            push_str(&mut text, " is unknown");
        },
        CallOutcome::InvalidArguments { error } => {
            items.push(TurnItem::Trace(DecodeAnomaly::ToolInvalidArguments {
                tool_name: call.name.clone(),
                error,
                raw_arguments: call.arguments.clone(),
            }));
            items.push(TurnItem::AppendResponse);
            push_str(&mut text, " failed: invalid arguments");
        },
        CallOutcome::Executed => {
            items.push(TurnItem::AppendResponse);
            items.push(TurnItem::ToolCallTrace { tool_name: call.name.clone() });
            items.push(TurnItem::ToolAction);
            push_str(&mut text, " executed successfully");
        },
        CallOutcome::Failed { error } => {
            push_str(&mut text, " failed: ");
            push_str(&mut text, error.as_str());
            items.push(TurnItem::Trace(DecodeAnomaly::ToolExecutionFailed { tool_name: call.name.clone(), error }));
            items.push(TurnItem::AppendResponse);
            items.push(TurnItem::ToolCallTrace { tool_name: call.name.clone() });
        },
    }
    let ghost body = items@;
    items.push(TurnItem::ToolReply(Message {
        role: Role::Tool,
        content: Some(string_from_chars(&text)),
        tool_calls: None,
        tool_call_id: Some(call.id.clone()),
        name: Some(call.name.clone()),
    }));
    proof {
        assert(items@.drop_last() =~= body);
        assert(body =~= leading_traces(ignored, *call, out0) + turn_effects(*call, out0));
    }
    items
}

/// Assistant prose beside a tool call has no semantic force: whatever
/// prose came with the call, the turn's effects and closing reply are the
/// same, and the prose only adds one trace before them.
pub proof fn prose_beside_a_call_changes_nothing(
    prose_a: Option<String>,
    prose_b: Option<String>,
    call: ToolCall,
    outcome: CallOutcome,
    items_a: Seq<TurnItem>,
    items_b: Seq<TurnItem>,
)
    requires
        finished(prose_a, call, outcome, items_a),
        finished(prose_b, call, outcome, items_b),
    ensures
        items_a.subrange(leading_traces(prose_a, call, outcome).len() as int, items_a.len() - 1)
            == items_b.subrange(leading_traces(prose_b, call, outcome).len() as int, items_b.len() - 1),
        items_a.last() matches TurnItem::ToolReply(ma) && items_b.last() matches TurnItem::ToolReply(mb)
            && ma.content.unwrap()@ == mb.content.unwrap()@ && ma.role == mb.role && ma.tool_call_id == mb.tool_call_id
            && ma.name == mb.name,
        leading_traces(prose_a, call, outcome).len() == leading_traces(None, call, outcome).len() + (if prose_a is Some { 1int } else { 0 }),
{
    let la = leading_traces(prose_a, call, outcome);
    let lb = leading_traces(prose_b, call, outcome);
    let e = turn_effects(call, outcome);
    assert(items_a.subrange(la.len() as int, items_a.len() - 1) =~= e) by {
        assert forall|k: int| 0 <= k < e.len() implies items_a.subrange(la.len() as int, items_a.len() - 1)[k] == e[k] by {
            assert(items_a.drop_last()[la.len() + k] == (la + e)[la.len() + k]);
        }
    }
    assert(items_b.subrange(lb.len() as int, items_b.len() - 1) =~= e) by {
        assert forall|k: int| 0 <= k < e.len() implies items_b.subrange(lb.len() as int, items_b.len() - 1)[k] == e[k] by {
            assert(items_b.drop_last()[lb.len() + k] == (lb + e)[lb.len() + k]);
        }
    }
}

/// A tool's own action is applied exactly when the tool ran successfully.
pub proof fn tool_action_only_when_executed(
    prose: Option<String>,
    call: ToolCall,
    outcome: CallOutcome,
    items: Seq<TurnItem>,
)
    requires
        finished(prose, call, outcome, items),
    ensures
        items.contains(TurnItem::ToolAction) <==> outcome is Executed,
{
    let l = leading_traces(prose, call, outcome);
    let e = turn_effects(call, outcome);
    if outcome is Executed {
        assert(items[l.len() + 2int] == (l + e)[l.len() + 2int]);
        assert(items[l.len() + 2int] == TurnItem::ToolAction);
    } else if items.contains(TurnItem::ToolAction) {
        let k = choose|k: int| 0 <= k < items.len() && items[k] == TurnItem::ToolAction;
        if k < items.len() - 1 {
            assert(items.drop_last()[k] == (l + e)[k]);
            if k < l.len() {
                assert(l[k] is Trace);
            } else {
                assert(e[k - l.len()] != TurnItem::ToolAction);
            }
        }
    }
}

} // verus!
