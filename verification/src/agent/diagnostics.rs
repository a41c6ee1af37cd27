//! The protocol diagnostics written before each chat request: the request
//! itself, the tool calls each assistant message carries, the tool result
//! each tool message answers, and any tool result that answers a call no
//! message made.

use vstd::prelude::*;
use crate::memory::{Message, Role, ToolCall};
use crate::text::{decimal, decimal_chars, join, push_chars, push_str, string_from_chars, trim};

verus! {

/// The name of a role, as `Debug` writes it.
pub open spec fn role_name(r: Role) -> Seq<char> {
    match r {
        Role::System => "System"@,
        Role::User => "User"@,
        Role::Assistant => "Assistant"@,
        Role::Tool => "Tool"@,
    }
}

/// The ids of the tool calls a message carries.
pub open spec fn call_ids(m: Message) -> Seq<Seq<char>> {
    match m.tool_calls {
        Some(cs) => cs@.map_values(|c: ToolCall| c.id@),
        None => Seq::empty(),
    }
}

/// Some message of `ms` carries a tool call with id `id`.
pub open spec fn id_known(ms: Seq<Message>, id: Seq<char>) -> bool {
    exists|i: int, k: int| 0 <= i < ms.len() && 0 <= k < call_ids(ms[i]).len() && #[trigger] call_ids(ms[i])[k] == id
}

/// An optional text, or `-`.
pub open spec fn or_dash(o: Option<String>) -> Seq<char> {
    match o {
        Some(s) => s@,
        None => "-"@,
    }
}

/// Whether a message has content that is not blank.
pub open spec fn has_content(m: Message) -> bool {
    m.content matches Some(c) && trim(c@).len() > 0
}

/// The one-line summary of message `i`.
pub open spec fn summary_line(m: Message, i: nat) -> Seq<char> {
    "#"@ + decimal(i) + " role="@ + role_name(m.role) + " content="@ + (if has_content(m) {
        "true"@
    } else {
        "false"@
    }) + " tool_calls="@ + decimal(call_ids(m).len()) + " tool_call_id="@ + or_dash(m.tool_call_id) + " name="@
        + or_dash(m.name)
}

/// The line listing the calls of assistant message `i`, when it makes
/// any.
pub open spec fn calls_lines(ms: Seq<Message>, i: int) -> Seq<Seq<char>> {
    let m = ms[i];
    if m.role == Role::Assistant && call_ids(m).len() > 0 {
        seq![
            "[openai_compat] assistant message "@ + decimal(i as nat) + " carries tool_calls ids=["@ + join(
                call_ids(m),
                ","@,
            ) + "]"@,
        ]
    } else {
        Seq::empty()
    }
}

/// The warning that tool message `i` answers a call no message made.
pub open spec fn risk_lines(ms: Seq<Message>, i: int) -> Seq<Seq<char>> {
    let id = or_dash(ms[i].tool_call_id);
    if id != "-"@ && !id_known(ms, id) {
        seq!["[openai_compat] protocol risk detected: tool result "@ + decimal(i as nat) + " references unknown tool_call_id="@ + id]
    } else {
        Seq::empty()
    }
}

/// The lines of tool message `i`: the call it answers, and the warning
/// when no message made that call.
pub open spec fn result_lines(ms: Seq<Message>, i: int) -> Seq<Seq<char>> {
    let m = ms[i];
    if m.role == Role::Tool {
        seq![
            "[openai_compat] tool result "@ + decimal(i as nat) + " references tool_call_id="@ + or_dash(m.tool_call_id)
                + " name="@ + or_dash(m.name),
        ] + risk_lines(ms, i)
    } else {
        Seq::empty()
    }
}

/// The diagnostics of message `i` of `ms`: the calls of an assistant
/// message that makes any, the call a tool message answers (and a warning
/// when no message made it), then the summary.
pub open spec fn message_diagnostics(ms: Seq<Message>, i: int) -> Seq<Seq<char>> {
    calls_lines(ms, i) + result_lines(ms, i) + seq!["[openai_compat] "@ + summary_line(ms[i], i as nat)]
}

/// The diagnostics of the first `n` messages of `ms`, in order.
pub open spec fn diagnostics_upto(ms: Seq<Message>, n: int) -> Seq<Seq<char>>
    decreases n,
{
    if n <= 0 {
        Seq::empty()
    } else {
        diagnostics_upto(ms, n - 1) + message_diagnostics(ms, n - 1)
    }
}

/// All the diagnostics of a request to `api_url` for `model`.
pub open spec fn protocol_diagnostics_of(ms: Seq<Message>, api_url: Seq<char>, model: Seq<char>) -> Seq<Seq<char>> {
    seq![
        "[openai_compat] preparing request api_url="@ + api_url + " model="@ + model + " messages="@ + decimal(
            ms.len(),
        ),
    ] + diagnostics_upto(ms, ms.len() as int)
}

/// The ids of the tool calls a message carries.
fn message_call_ids(m: &Message) -> (r: Vec<String>)
    ensures
        crate::text::views(r@) == call_ids(*m),
{
    let mut out: Vec<String> = Vec::new();
    match &m.tool_calls {
        Some(cs) => {
            let mut k: usize = 0;
            while k < cs.len()
                invariant
                    k <= cs@.len(),
                    crate::text::views(out@) =~= cs@.take(k as int).map_values(|c: ToolCall| c.id@),
                decreases cs@.len() - k,
            {
                let ghost before = crate::text::views(out@);
                out.push(cs[k].id.clone());
                assert(crate::text::views(out@) =~= before.push(cs@[k as int].id@));
                k = k + 1;
                assert(cs@.take(k as int).map_values(|c: ToolCall| c.id@) =~= cs@.take(k - 1).map_values(
                    |c: ToolCall| c.id@,
                ).push(cs@[k - 1].id@));
            }
            assert(cs@.take(cs@.len() as int) =~= cs@);
        },
        None => {},
    }
    out
}

/// Whether some message of `ms` carries a call with id `id`.
fn id_is_known(ms: &Vec<Message>, id: &str) -> (r: bool)
    ensures
        r == id_known(ms@, id@),
{
    let mut i: usize = 0;
    while i < ms.len()
        invariant
            i <= ms@.len(),
            forall|j: int, k: int| 0 <= j < i && 0 <= k < call_ids(ms@[j]).len() ==> #[trigger] call_ids(ms@[j])[k] != id@,
        decreases ms@.len() - i,
    {
        let ids = message_call_ids(&ms[i]);
        let mut k: usize = 0;
        while k < ids.len()
            invariant
                i < ms@.len(),
                forall|j: int, q: int| 0 <= j < i && 0 <= q < call_ids(ms@[j]).len() ==> #[trigger] call_ids(ms@[j])[q] != id@,
                k <= ids@.len(),
                crate::text::views(ids@) == call_ids(ms@[i as int]),
                forall|q: int| 0 <= q < k ==> call_ids(ms@[i as int])[q] != id@,
            decreases ids@.len() - k,
        {
            if crate::text::str_eq(ids[k].as_str(), id) {
                assert(call_ids(ms@[i as int])[k as int] == id@);
                return true;
            }
            k = k + 1;
        }
        i = i + 1;
    }
    false
}

/// An optional text, or `-`.
fn dash_or(o: &Option<String>) -> (r: String)
    ensures
        r@ == or_dash(*o),
{
    match o {
        Some(s) => s.clone(),
        None => String::from_str("-"),
    }
}

/// The line listing the calls of assistant message `i`, when it makes
/// any.
fn calls_line(ms: &Vec<Message>, i: usize) -> (r: Vec<String>)
    requires
        i < ms@.len(),
    ensures
        crate::text::views(r@) == calls_lines(ms@, i as int),
{
    let m = &ms[i];
    let ids = message_call_ids(m);
    let mut out: Vec<String> = Vec::new();
    let is_assistant = match m.role {
        Role::Assistant => true,
        _ => false,
    };
    if is_assistant && ids.len() > 0 {
        let index = decimal_chars(i as u64);
        let mut v: Vec<char> = Vec::new();
        push_str(&mut v, "[openai_compat] assistant message ");
        push_chars(&mut v, &index);
        push_str(&mut v, " carries tool_calls ids=[");
        let joined = crate::text::join_strings(&ids, ",");
        push_chars(&mut v, &joined);
        push_str(&mut v, "]");
        out.push(string_from_chars(&v));
    }
    assert(crate::text::views(out@) =~= calls_lines(ms@, i as int));
    out
}

/// The lines of tool message `i`.
fn result_line(ms: &Vec<Message>, i: usize) -> (r: Vec<String>)
    requires
        i < ms@.len(),
    ensures
        crate::text::views(r@) == result_lines(ms@, i as int),
{
    proof {
        reveal_strlit("-");
    }
    let m = &ms[i];
    let mut out: Vec<String> = Vec::new();
    let is_tool = match m.role {
        Role::Tool => true,
        _ => false,
    };
    if is_tool {
        let index = decimal_chars(i as u64);
        let id = dash_or(&m.tool_call_id);
        let name = dash_or(&m.name);
        let mut v: Vec<char> = Vec::new();
        push_str(&mut v, "[openai_compat] tool result ");
        push_chars(&mut v, &index);
        push_str(&mut v, " references tool_call_id=");
        push_str(&mut v, id.as_str());
        push_str(&mut v, " name=");
        push_str(&mut v, name.as_str());
        out.push(string_from_chars(&v));
        if !crate::text::str_eq(id.as_str(), "-") && !id_is_known(ms, id.as_str()) {
            let mut w: Vec<char> = Vec::new();
            push_str(&mut w, "[openai_compat] protocol risk detected: tool result ");
            push_chars(&mut w, &index);
            push_str(&mut w, " references unknown tool_call_id=");
            push_str(&mut w, id.as_str());
            out.push(string_from_chars(&w));
        }
    }
    assert(crate::text::views(out@) =~= result_lines(ms@, i as int));
    out
}

/// The summary line of message `i`.
fn summary(ms: &Vec<Message>, i: usize) -> (r: String)
    requires
        i < ms@.len(),
    ensures
        r@ == "[openai_compat] "@ + summary_line(ms@[i as int], i as nat),
{
    let m = &ms[i];
    let index = decimal_chars(i as u64);
    let ids = message_call_ids(m);
    let id = dash_or(&m.tool_call_id);
    let name = dash_or(&m.name);
    let mut v: Vec<char> = Vec::new();
    push_str(&mut v, "[openai_compat] ");
    let ghost prefix = v@;
    push_str(&mut v, "#");
    push_chars(&mut v, &index);
    push_str(&mut v, " role=");
    let role = match m.role {
        Role::System => "System",
        Role::User => "User",
        Role::Assistant => "Assistant",
        Role::Tool => "Tool",
    };
    push_str(&mut v, role);
    push_str(&mut v, " content=");
    let filled = match &m.content {
        Some(c) => {
            let cs = crate::text::chars_of(c.as_str());
            crate::text::trim_chars(&cs).len() > 0
        },
        None => false,
    };
    push_str(&mut v, if filled { "true" } else { "false" });
    push_str(&mut v, " tool_calls=");
    let count = decimal_chars(ids.len() as u64);
    push_chars(&mut v, &count);
    push_str(&mut v, " tool_call_id=");
    push_str(&mut v, id.as_str());
    push_str(&mut v, " name=");
    push_str(&mut v, name.as_str());
    assert(filled == has_content(ms@[i as int]));
    assert(v@ =~= prefix + summary_line(ms@[i as int], i as nat));
    string_from_chars(&v)
}

/// The diagnostics of message `i`.
fn diagnostics_of_message(ms: &Vec<Message>, i: usize) -> (r: Vec<String>)
    requires
        i < ms@.len(),
    ensures
        crate::text::views(r@) == message_diagnostics(ms@, i as int),
{
    let mut out = calls_line(ms, i);
    let rest = result_line(ms, i);
    let ghost a = crate::text::views(out@);
    let mut k: usize = 0;
    while k < rest.len()
        invariant
            k <= rest@.len(),
            crate::text::views(out@) =~= a + crate::text::views(rest@).take(k as int),
        decreases rest@.len() - k,
    {
        let ghost b = crate::text::views(out@);
        out.push(rest[k].clone());
        assert(crate::text::views(out@) =~= b.push(rest@[k as int]@));
        k = k + 1;
        assert(crate::text::views(rest@).take(k as int) =~= crate::text::views(rest@).take(k - 1).push(rest@[k - 1]@));
    }
    assert(crate::text::views(rest@).take(rest@.len() as int) =~= crate::text::views(rest@));
    let ghost c = crate::text::views(out@);
    out.push(summary(ms, i));
    assert(crate::text::views(out@) =~= c.push(out@[out@.len() - 1]@));
    out
}

/// The diagnostics written before a request to `api_url` for `model`
/// with `messages`, one line each.
pub fn protocol_diagnostics(messages: &Vec<Message>, api_url: &str, model: &str) -> (r: Vec<String>)
    ensures
        crate::text::views(r@) == protocol_diagnostics_of(messages@, api_url@, model@),
{
    let mut head: Vec<char> = Vec::new();
    push_str(&mut head, "[openai_compat] preparing request api_url=");
    push_str(&mut head, api_url);
    push_str(&mut head, " model=");
    push_str(&mut head, model);
    push_str(&mut head, " messages=");
    let n = decimal_chars(messages.len() as u64);
    push_chars(&mut head, &n);
    let mut out: Vec<String> = Vec::new();
    out.push(string_from_chars(&head));
    let ghost first = crate::text::views(out@);
    let mut i: usize = 0;
    while i < messages.len()
        invariant
            i <= messages@.len(),
            crate::text::views(out@) == first + diagnostics_upto(messages@, i as int),
        decreases messages@.len() - i,
    {
        let lines = diagnostics_of_message(messages, i);
        let ghost before = crate::text::views(out@);
        let mut k: usize = 0;
        while k < lines.len()
            invariant
                k <= lines@.len(),
                crate::text::views(out@) == before + crate::text::views(lines@).take(k as int),
            decreases lines@.len() - k,
        {
            let ghost b2 = crate::text::views(out@);
            out.push(lines[k].clone());
            assert(crate::text::views(out@) =~= b2.push(lines@[k as int]@));
            k = k + 1;
            assert(crate::text::views(lines@).take(k as int) =~= crate::text::views(lines@).take(k - 1).push(
                lines@[k - 1]@,
            ));
        }
        assert(crate::text::views(lines@).take(lines@.len() as int) =~= crate::text::views(lines@));
        i = i + 1;
        assert(before + message_diagnostics(messages@, i - 1) =~= first + diagnostics_upto(messages@, i as int));
    }
    out
}

} // verus!
