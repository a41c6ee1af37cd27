//! The tool contract the harness adds to the system message of every
//! turn: which tools are valid, what each does, and the values its enum
//! parameters take.

use vstd::prelude::*;
use crate::json::{member, Json};
use crate::memory::{Message, Role};
use crate::text::{join, push_chars, push_str, string_from_chars};

verus! {

/// What the contract says of a tool: its name, description and JSON
/// parameter schema.
#[derive(Debug)]
pub struct ToolSpec {
    pub name: String,
    pub description: String,
    pub parameters: Json,
}

/// The strings among `values`, in order.
pub open spec fn enum_texts(values: Seq<Json>) -> Seq<Seq<char>>
    decreases values.len(),
{
    if values.len() == 0 {
        Seq::empty()
    } else {
        let r = enum_texts(values.drop_last());
        match values.last() {
            Json::Str(s) => r.push(s@),
            _ => r,
        }
    }
}

/// The hint of one parameter: its name and the strings its `enum` allows,
/// when it has an `enum` list holding any string.
pub open spec fn hint_of(entry: (String, Json)) -> Option<Seq<char>> {
    match member(entry.1, "enum"@) {
        Some(Json::Array(values)) => {
            let t = enum_texts(values@);
            if t.len() > 0 {
                Some(entry.0@ + " ∈ ["@ + join(t, ", "@) + "]"@)
            } else {
                None
            }
        },
        _ => None,
    }
}

/// The hints of the parameters `es`, in order.
pub open spec fn hints(es: Seq<(String, Json)>) -> Seq<Seq<char>>
    decreases es.len(),
{
    if es.len() == 0 {
        Seq::empty()
    } else {
        let r = hints(es.drop_last());
        match hint_of(es.last()) {
            Some(h) => r.push(h),
            None => r,
        }
    }
}

/// The summary of a parameter schema: the hints of its `properties`,
/// separated by `; `; nothing when it has no `properties` object.
pub open spec fn parameter_summary(p: Json) -> Seq<char> {
    match member(p, "properties"@) {
        Some(Json::Object(es)) => join(hints(es@), "; "@),
        _ => Seq::empty(),
    }
}

/// The contract line of one tool.
pub open spec fn tool_line(t: ToolSpec) -> Seq<char> {
    let s = parameter_summary(t.parameters);
    "- tool "@ + t.name@ + ": "@ + t.description@ + (if s.len() > 0 { " :: "@ + s } else { Seq::empty() }) + "\n"@
}

/// The contract lines of `ts`, in order.
pub open spec fn tool_lines(ts: Seq<ToolSpec>) -> Seq<char>
    decreases ts.len(),
{
    if ts.len() == 0 {
        Seq::empty()
    } else {
        tool_lines(ts.drop_last()) + tool_line(ts.last())
    }
}

/// The tool contract for the tools `ts`; in forced mode it names the
/// identity tool as the only valid one.
pub open spec fn contract_text(ts: Seq<ToolSpec>, forced: bool) -> Seq<char> {
    "TOOL CONTRACT\n"@ + (if forced {
        "- Mandatory terminal mode is active.\n- The only valid tool in this turn is `identity`.\n"@
    } else {
        "- Only the tools listed below are valid in this turn.\n"@
    }) + (if ts.len() == 0 {
        "- available_tools: []\n"@
    } else {
        "- available_tools: ["@ + join(ts.map_values(|t: ToolSpec| t.name@), ", "@) + "]\n"@ + tool_lines(ts)
    }) + "- Any other tool name is invalid and has no semantic effect.\n"@
}

/// The strings among `values`.
fn enum_strings(values: &Vec<Json>) -> (r: Vec<String>)
    ensures
        crate::text::views(r@) == enum_texts(values@),
{
    let mut out: Vec<String> = Vec::new();
    let mut i: usize = 0;
    while i < values.len()
        invariant
            i <= values@.len(),
            crate::text::views(out@) == enum_texts(values@.take(i as int)),
        decreases values@.len() - i,
    {
        assert(values@.take(i + 1).drop_last() =~= values@.take(i as int));
        match &values[i] {
            Json::Str(s) => {
                let ghost before = out@;
                out.push(s.clone());
                assert(crate::text::views(out@) =~= crate::text::views(before).push(s@));
            },
            _ => {},
        }
        i = i + 1;
    }
    assert(values@.take(values@.len() as int) =~= values@);
    out
}

/// Summarizes a parameter schema.
pub fn summarize_tool_parameters(parameters: &Json) -> (r: String)
    ensures
        r@ == parameter_summary(*parameters),
{
    let es = match parameters.get("properties") {
        Some(Json::Object(es)) => es,
        _ => {
            return String::new();
        },
    };
    let mut pieces: Vec<String> = Vec::new();
    let mut i: usize = 0;
    while i < es.len()
        invariant
            i <= es@.len(),
            crate::text::views(pieces@) == hints(es@.take(i as int)),
        decreases es@.len() - i,
    {
        assert(es@.take(i + 1).drop_last() =~= es@.take(i as int));
        let (name, spec) = &es[i];
        match spec.get("enum") {
            Some(Json::Array(values)) => {
                let t = enum_strings(values);
                if t.len() > 0 {
                    let mut h: Vec<char> = Vec::new();
                    push_str(&mut h, name.as_str());
                    push_str(&mut h, " ∈ [");
                    let body = crate::text::join_strings(&t, ", ");
                    push_chars(&mut h, &body);
                    push_str(&mut h, "]");
                    let ghost before = pieces@;
                    pieces.push(string_from_chars(&h));
                    assert(crate::text::views(pieces@) =~= crate::text::views(before).push(h@));
                }
            },
            _ => {},
        }
        i = i + 1;
    }
    assert(es@.take(es@.len() as int) =~= es@);
    let text = crate::text::join_strings(&pieces, "; ");
    string_from_chars(&text)
}

/// The tool contract for `tools`.
pub fn tool_contract_text(tools: &Vec<ToolSpec>, forced: bool) -> (r: Vec<char>)
    ensures
        r@ == contract_text(tools@, forced),
{
    let mut c: Vec<char> = Vec::new();
    push_str(&mut c, "TOOL CONTRACT\n");
    if forced {
        push_str(&mut c, "- Mandatory terminal mode is active.\n- The only valid tool in this turn is `identity`.\n");
    } else {
        push_str(&mut c, "- Only the tools listed below are valid in this turn.\n");
    }
    let ghost head = c@;
    if tools.len() == 0 {
        push_str(&mut c, "- available_tools: []\n");
    } else {
        let mut names: Vec<String> = Vec::new();
        let mut i: usize = 0;
        while i < tools.len()
            invariant
                i <= tools@.len(),
                crate::text::views(names@) == tools@.take(i as int).map_values(|t: ToolSpec| t.name@),
            decreases tools@.len() - i,
        {
            let ghost before = names@;
            names.push(tools[i].name.clone());
            assert(crate::text::views(names@) =~= crate::text::views(before).push(tools@[i as int].name@));
            i = i + 1;
            assert(crate::text::views(names@) =~= tools@.take(i as int).map_values(|t: ToolSpec| t.name@));
        }
        assert(tools@.take(tools@.len() as int) =~= tools@);
        push_str(&mut c, "- available_tools: [");
        let listed = crate::text::join_strings(&names, ", ");
        push_chars(&mut c, &listed);
        push_str(&mut c, "]\n");
        let ghost mid = c@;
        let mut k: usize = 0;
        while k < tools.len()
            invariant
                k <= tools@.len(),
                c@ == mid + tool_lines(tools@.take(k as int)),
            decreases tools@.len() - k,
        {
            assert(tools@.take(k + 1).drop_last() =~= tools@.take(k as int));
            let t = &tools[k];
            push_str(&mut c, "- tool ");
            push_str(&mut c, t.name.as_str());
            push_str(&mut c, ": ");
            push_str(&mut c, t.description.as_str());
            let s = summarize_tool_parameters(&t.parameters);
            if !s.as_str().is_empty() {
                push_str(&mut c, " :: ");
                push_str(&mut c, s.as_str());
            }
            push_str(&mut c, "\n");
            k = k + 1;
            assert(c@ =~= mid + tool_lines(tools@.take(k as int)));
        }
        assert(tools@.take(tools@.len() as int) =~= tools@);
    }
    push_str(&mut c, "- Any other tool name is invalid and has no semantic effect.\n");
    c
}

/// `after` is `before` with the contract `contract` added to its leading
/// system message, or put in a new leading system message when it has
/// none.
pub open spec fn contract_inserted(before: Seq<Message>, after: Seq<Message>, contract: Seq<char>) -> bool {
    if before.len() > 0 && before[0].role == Role::System {
        &&& after.len() == before.len()
        &&& after[0].role == Role::System
        &&& (after[0].content matches Some(c) && c@ == match before[0].content {
            Some(existing) => existing@ + "\n\n"@ + contract,
            None => contract,
        })
        &&& after[0].tool_calls == before[0].tool_calls
        &&& after[0].tool_call_id == before[0].tool_call_id
        &&& after[0].name == before[0].name
        &&& forall|i: int| 1 <= i < after.len() ==> after[i] == before[i]
    } else {
        &&& after.len() == before.len() + 1
        &&& after[0].role == Role::System
        &&& (after[0].content matches Some(c) && c@ == contract)
        &&& after[0].tool_calls is None && after[0].tool_call_id is None && after[0].name is None
        &&& forall|i: int| 1 <= i < after.len() ==> after[i] == before[i - 1]
    }
}

/// Adds the tool contract for `tools` to the messages of a turn, keeping a
/// single leading system message.
pub fn insert_tool_contract_message(messages: &mut Vec<Message>, tools: &Vec<ToolSpec>, forced: bool)
    ensures
        contract_inserted(old(messages)@, final(messages)@, contract_text(tools@, forced)),
{
    let contract = tool_contract_text(tools, forced);
    if messages.len() > 0 && messages[0].role == Role::System {
        let first = messages.remove(0);
        let content = match &first.content {
            Some(existing) => {
                let mut t: Vec<char> = Vec::new();
                push_str(&mut t, existing.as_str());
                push_str(&mut t, "\n\n");
                push_chars(&mut t, &contract);
                string_from_chars(&t)
            },
            None => string_from_chars(&contract),
        };
        messages.insert(0, Message {
            role: Role::System,
            content: Some(content),
            tool_calls: first.tool_calls,
            tool_call_id: first.tool_call_id,
            name: first.name,
        });
    } else {
        messages.insert(0, Message {
            role: Role::System,
            content: Some(string_from_chars(&contract)),
            tool_calls: None,
            tool_call_id: None,
            name: None,
        });
    }
}

} // verus!
