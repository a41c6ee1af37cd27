//! The OpenAI-compatible chat protocol: the endpoint a request goes to,
//! the authorization it carries, the request body, and what a reply
//! yields.

use vstd::prelude::*;
use crate::agent::contract::ToolSpec;
use crate::agent::error::AgentError;
use crate::agent::trace::{entries, text_is};
use crate::json::Json;
use crate::memory::{Message, Role, ToolCall};
use crate::text::{chars_of, decimal, decimal_chars, push_chars, push_str, starts_with, str_eq, string_from_chars};

verus! {

/// `s` without the `/` characters that end it.
pub open spec fn trim_end_slashes(s: Seq<char>) -> Seq<char>
    decreases s.len(),
{
    if s.len() > 0 && s.last() == '/' {
        trim_end_slashes(s.drop_last())
    } else {
        s
    }
}

/// The chat completions endpoint under `endpoint`.
pub fn chat_completions_url(endpoint: &str) -> (r: String)
    ensures
        r@ == trim_end_slashes(endpoint@) + "/chat/completions"@,
{
    let cs = chars_of(endpoint);
    let mut n: usize = cs.len();
    assert(cs@.take(n as int) =~= cs@);
    while n > 0 && cs[n - 1] == '/'
        invariant
            n <= cs@.len(),
            trim_end_slashes(cs@) == trim_end_slashes(cs@.take(n as int)),
        decreases n,
    {
        assert(cs@.take(n as int).drop_last() =~= cs@.take(n - 1));
        n = n - 1;
    }
    assert(trim_end_slashes(cs@.take(n as int)) == cs@.take(n as int));
    let mut out = crate::text::chars_slice(&cs, 0, n);
    push_str(&mut out, "/chat/completions");
    string_from_chars(&out)
}

/// The authorization header value for an API key: none for an empty key,
/// the key itself when it already starts with `Bearer `, else the key
/// after `Bearer `.
pub open spec fn authorization_of(key: Seq<char>) -> Option<Seq<char>> {
    if key.len() == 0 {
        None
    } else if starts_with(key, "Bearer "@) {
        Some(key)
    } else {
        Some("Bearer "@ + key)
    }
}

/// The authorization header value for `api_key`.
pub fn authorization_value(api_key: &str) -> (r: Option<String>)
    ensures
        match authorization_of(api_key@) {
            Some(v) => r matches Some(s) && s@ == v,
            None => r is None,
        },
{
    let cs = chars_of(api_key);
    if cs.len() == 0 {
        return None;
    }
    let mut prefix: Vec<char> = Vec::new();
    push_str(&mut prefix, "Bearer ");
    if crate::text::chars_start_with(&cs, &prefix) {
        Some(String::from_str(api_key))
    } else {
        let mut out: Vec<char> = Vec::new();
        push_str(&mut out, "Bearer ");
        push_str(&mut out, api_key);
        Some(string_from_chars(&out))
    }
}

/// The wire name of a role.
pub open spec fn role_name(r: Role) -> Seq<char> {
    match r {
        Role::System => "system"@,
        Role::User => "user"@,
        Role::Assistant => "assistant"@,
        Role::Tool => "tool"@,
    }
}

/// `j` is a tool call on the wire: its id, type and function.
pub open spec fn wire_call_is(j: Json, c: ToolCall) -> bool {
    let es = entries(j);
    &&& j is Object && es.len() == 3
    &&& es[0].0@ == "id"@ && text_is(es[0].1, c.id@)
    &&& es[1].0@ == "type"@ && text_is(es[1].1, c.call_type@)
    &&& es[2].0@ == "function"@ && es[2].1 is Object && entries(es[2].1).len() == 2
    &&& entries(es[2].1)[0].0@ == "name"@ && text_is(entries(es[2].1)[0].1, c.name@)
    &&& entries(es[2].1)[1].0@ == "arguments"@ && text_is(entries(es[2].1)[1].1, c.arguments@)
}

/// The fields a message carries on the wire, in order: its role; its
/// content when it has one; its tool calls when it is an assistant
/// message with a list; its tool call id and name when it is a tool
/// result that has them.
pub open spec fn wire_keys(m: Message) -> Seq<Seq<char>> {
    seq!["role"@] + (if m.content is Some { seq!["content"@] } else { Seq::empty() }) + (if m.role == Role::Assistant
        && m.tool_calls is Some { seq!["tool_calls"@] } else { Seq::empty() }) + (if m.role == Role::Tool
        && m.tool_call_id is Some { seq!["tool_call_id"@] } else { Seq::empty() }) + (if m.role == Role::Tool
        && m.name is Some { seq!["name"@] } else { Seq::empty() })
}

/// `e` carries what its key names of message `m`.
pub open spec fn entry_ok(e: (String, Json), m: Message) -> bool {
    let k = e.0@;
    &&& k == "role"@ ==> text_is(e.1, role_name(m.role))
    &&& k == "content"@ ==> text_is(e.1, m.content->0@)
    &&& k == "tool_call_id"@ ==> text_is(e.1, m.tool_call_id->0@)
    &&& k == "name"@ ==> text_is(e.1, m.name->0@)
    &&& k == "tool_calls"@ ==> (e.1 matches Json::Array(items) && items@.len() == m.tool_calls->0@.len()
        && forall|c: int| 0 <= c < items@.len() ==> #[trigger] wire_call_is(items@[c], m.tool_calls->0@[c]))
}

/// `j` is message `m` on the wire.
pub open spec fn wire_message_is(j: Json, m: Message) -> bool {
    let es = entries(j);
    &&& j is Object
    &&& es.map_values(|e: (String, Json)| e.0@) == wire_keys(m)
    &&& forall|i: int| 0 <= i < es.len() ==> #[trigger] entry_ok(es[i], m)
}

/// A tool call on the wire.
fn wire_call(c: &ToolCall) -> (r: Json)
    ensures
        wire_call_is(r, *c),
{
    let mut f: Vec<(String, Json)> = Vec::new();
    f.push((String::from_str("name"), Json::Str(c.name.clone())));
    f.push((String::from_str("arguments"), Json::Str(c.arguments.clone())));
    let mut es: Vec<(String, Json)> = Vec::new();
    es.push((String::from_str("id"), Json::Str(c.id.clone())));
    es.push((String::from_str("type"), Json::Str(c.call_type.clone())));
    es.push((String::from_str("function"), Json::Object(f)));
    Json::Object(es)
}

/// A message on the wire.
pub fn wire_message(m: &Message) -> (r: Json)
    ensures
        wire_message_is(r, *m),
{
    proof {
        reveal_strlit("role");
        reveal_strlit("content");
        reveal_strlit("tool_calls");
        reveal_strlit("tool_call_id");
        reveal_strlit("name");
        assert("role"@.len() == 4 && "name"@.len() == 4 && "content"@.len() == 7);
        assert("tool_calls"@.len() == 10 && "tool_call_id"@.len() == 12);
        assert("role"@[0] != "name"@[0]);
    }
    let role = match m.role {
        Role::System => "system",
        Role::User => "user",
        Role::Assistant => "assistant",
        Role::Tool => "tool",
    };
    let mut es: Vec<(String, Json)> = Vec::new();
    es.push((String::from_str("role"), Json::Str(String::from_str(role))));
    assert(es@[0].0@ == "role"@);
    assert(text_is(es@[0].1, role_name(m.role)));
    assert("role"@ != "content"@);
    assert("role"@ != "tool_call_id"@);
    assert("role"@[0] != "name"@[0]);
    assert("role"@ != "name"@);
    assert("role"@ != "tool_calls"@);
    assert(entry_ok(es@[0], *m));
    let ghost keys = seq!["role"@];
    assert(es@.map_values(|e: (String, Json)| e.0@) =~= keys);
    let ghost mut prev = es@;
    match &m.content {
        Some(c) => {
            es.push((String::from_str("content"), Json::Str(c.clone())));
            assert(es@.last().0@ == "content"@);
            assert(text_is(es@.last().1, m.content->0@));
            assert(entry_ok(es@.last(), *m));
            assert(es@ =~= prev.push(es@.last()));
        },
        None => {},
    }
    assert(forall|i: int| 0 <= i < es@.len() ==> #[trigger] entry_ok(es@[i], *m));
    proof { prev = es@; }
    let is_assistant = m.role == Role::Assistant;
    let is_tool = m.role == Role::Tool;
    if is_assistant {
        match &m.tool_calls {
            Some(calls) => {
                let mut items: Vec<Json> = Vec::new();
                let mut i: usize = 0;
                while i < calls.len()
                    invariant
                        i <= calls@.len(),
                        items@.len() == i,
                        forall|c: int| 0 <= c < i ==> #[trigger] wire_call_is(items@[c], calls@[c]),
                    decreases calls@.len() - i,
                {
                    items.push(wire_call(&calls[i]));
                    i = i + 1;
                }
                es.push((String::from_str("tool_calls"), Json::Array(items)));
                assert(es@.last().0@ == "tool_calls"@);
                assert(entry_ok(es@.last(), *m));
                assert(es@ =~= prev.push(es@.last()));
            },
            None => {},
        }
    }
    assert(forall|i: int| 0 <= i < es@.len() ==> #[trigger] entry_ok(es@[i], *m));
    proof { prev = es@; }
    if is_tool {
        match &m.tool_call_id {
            Some(t) => {
                es.push((String::from_str("tool_call_id"), Json::Str(t.clone())));
                assert(entry_ok(es@.last(), *m));
                assert(es@ =~= prev.push(es@.last()));
            },
            None => {},
        }
        assert(forall|i: int| 0 <= i < es@.len() ==> #[trigger] entry_ok(es@[i], *m));
        proof { prev = es@; }
        match &m.name {
            Some(t) => {
                es.push((String::from_str("name"), Json::Str(t.clone())));
                assert(entry_ok(es@.last(), *m));
                assert(es@ =~= prev.push(es@.last()));
            },
            None => {},
        }
    }
    assert(forall|i: int| 0 <= i < es@.len() ==> #[trigger] entry_ok(es@[i], *m));
    assert(es@.map_values(|e: (String, Json)| e.0@) =~= wire_keys(*m));
    Json::Object(es)
}

/// `j` is a tool offered on the wire: its type and function.
pub open spec fn wire_tool_is(j: Json, t: ToolSpec) -> bool {
    let es = entries(j);
    &&& j is Object && es.len() == 2
    &&& es[0].0@ == "type"@ && text_is(es[0].1, "function"@)
    &&& es[1].0@ == "function"@ && es[1].1 is Object && entries(es[1].1).len() == 3
    &&& entries(es[1].1)[0].0@ == "name"@ && text_is(entries(es[1].1)[0].1, t.name@)
    &&& entries(es[1].1)[1].0@ == "description"@ && text_is(entries(es[1].1)[1].1, t.description@)
    &&& entries(es[1].1)[2].0@ == "parameters"@ && entries(es[1].1)[2].1 == t.parameters
}

/// `j` is the chat request for `model` over `messages`, offering `tools`
/// when given with automatic tool choice, at temperature 0.7.
pub open spec fn chat_request_is(j: Json, model: Seq<char>, messages: Seq<Message>, tools: Option<Seq<ToolSpec>>) -> bool {
    let es = entries(j);
    &&& j is Object && es.len() == (if tools is Some { 5int } else { 3int })
    &&& es[0].0@ == "model"@ && text_is(es[0].1, model)
    &&& es[1].0@ == "messages"@ && (es[1].1 matches Json::Array(items) && items@.len() == messages.len()
        && forall|i: int| 0 <= i < messages.len() ==> #[trigger] wire_message_is(items@[i], messages[i]))
    &&& es[2].0@ == "temperature"@ && (es[2].1 matches Json::Fractional(t) && t@ == "0.7"@)
    &&& tools matches Some(ts) ==> {
        &&& es[3].0@ == "tools"@ && (es[3].1 matches Json::Array(items) && items@.len() == ts.len()
            && forall|i: int| 0 <= i < ts.len() ==> #[trigger] wire_tool_is(items@[i], ts[i]))
        &&& es[4].0@ == "tool_choice"@ && text_is(es[4].1, "auto"@)
    }
}

/// The view of an optional tool list.
pub open spec fn tools_view(tools: Option<Vec<ToolSpec>>) -> Option<Seq<ToolSpec>> {
    match tools {
        Some(v) => Some(v@),
        None => None,
    }
}

/// The chat request for `model` over `messages`, offering `tools` when
/// given.
pub fn chat_request_body(model: &str, messages: &Vec<Message>, tools: Option<Vec<ToolSpec>>) -> (r: Json)
    ensures
        chat_request_is(r, model@, messages@, tools_view(tools)),
{
    let mut items: Vec<Json> = Vec::new();
    let mut i: usize = 0;
    while i < messages.len()
        invariant
            i <= messages@.len(),
            items@.len() == i,
            forall|k: int| 0 <= k < i ==> #[trigger] wire_message_is(items@[k], messages@[k]),
        decreases messages@.len() - i,
    {
        items.push(wire_message(&messages[i]));
        i = i + 1;
    }
    let mut es: Vec<(String, Json)> = Vec::new();
    es.push((String::from_str("model"), Json::Str(String::from_str(model))));
    es.push((String::from_str("messages"), Json::Array(items)));
    es.push((String::from_str("temperature"), Json::Fractional(String::from_str("0.7"))));
    match tools {
        Some(ts) => {
            let ghost all = ts@;
            let total = ts.len();
            let mut rest = ts;
            let mut wire: Vec<Json> = Vec::new();
            let mut k: usize = 0;
            while rest.len() > 0
                invariant
                    k <= all.len(),
                    all.len() == total,
                    rest@ == all.skip(k as int),
                    wire@.len() == k,
                    forall|j: int| 0 <= j < k ==> #[trigger] wire_tool_is(wire@[j], all[j]),
                decreases rest@.len(),
            {
                let t = rest.remove(0);
                assert(t == all[k as int]);
                let ToolSpec { name, description, parameters } = t;
                let mut f: Vec<(String, Json)> = Vec::new();
                f.push((String::from_str("name"), Json::Str(name)));
                f.push((String::from_str("description"), Json::Str(description)));
                f.push((String::from_str("parameters"), parameters));
                let mut w: Vec<(String, Json)> = Vec::new();
                w.push((String::from_str("type"), Json::Str(String::from_str("function"))));
                w.push((String::from_str("function"), Json::Object(f)));
                wire.push(Json::Object(w));
                k = k + 1;
            }
            es.push((String::from_str("tools"), Json::Array(wire)));
            es.push((String::from_str("tool_choice"), Json::Str(String::from_str("auto"))));
        },
        None => {},
    }
    Json::Object(es)
}

/// The error of a reply with a failing status.
pub fn api_error(status: u16, body: &str) -> (r: AgentError)
    ensures
        r matches AgentError::Provider(m) && m@ == "API error (status "@ + decimal(status as nat) + "): "@ + body@,
{
    let mut m: Vec<char> = Vec::new();
    push_str(&mut m, "API error (status ");
    let d = decimal_chars(status as u64);
    push_chars(&mut m, &d);
    push_str(&mut m, "): ");
    push_str(&mut m, body);
    AgentError::Provider(string_from_chars(&m))
}

/// Checks the status of a provider's reply: a status in the 2xx range
/// passes; any other fails with the reply's body.
pub fn check_reply_status(status: u16, body: &str) -> (r: Result<(), AgentError>)
    ensures
        200 <= status < 300 ==> r is Ok,
        !(200 <= status < 300) ==> (r matches Err(AgentError::Provider(m)) && m@ == "API error (status "@ + decimal(
            status as nat,
        ) + "): "@ + body@),
{
    if 200 <= status && status < 300 {
        Ok(())
    } else {
        Err(api_error(status, body))
    }
}

/// The role that a wire name names, if any.
pub open spec fn role_of_name(name: Seq<char>) -> Option<Role> {
    if name == "system"@ {
        Some(Role::System)
    } else if name == "user"@ {
        Some(Role::User)
    } else if name == "assistant"@ {
        Some(Role::Assistant)
    } else if name == "tool"@ {
        Some(Role::Tool)
    } else {
        None
    }
}

/// The role that a wire name names, if any.
pub fn role_from_wire(name: &str) -> (r: Option<Role>)
    ensures
        r == role_of_name(name@),
{
    if str_eq(name, "system") {
        Some(Role::System)
    } else if str_eq(name, "user") {
        Some(Role::User)
    } else if str_eq(name, "assistant") {
        Some(Role::Assistant)
    } else if str_eq(name, "tool") {
        Some(Role::Tool)
    } else {
        None
    }
}

/// Reading a role back from its wire name gives the role.
pub proof fn role_names_read_back(r: Role)
    ensures
        role_of_name(role_name(r)) == Some(r),
{
    reveal_strlit("system");
    reveal_strlit("user");
    reveal_strlit("assistant");
    reveal_strlit("tool");
    assert("user"@[0] != "system"@[0]);
    assert("assistant"@[0] != "system"@[0] && "assistant"@[0] != "user"@[0]);
    assert("tool"@[0] != "system"@[0] && "tool"@[0] != "user"@[0] && "tool"@[0] != "assistant"@[0]);
}

/// The message of a reply: the message of its first choice; a reply
/// without choices fails.
pub fn first_choice(choices: Vec<Message>) -> (r: Result<Message, AgentError>)
    ensures
        choices@.len() > 0 ==> r == Ok::<Message, AgentError>(choices@[0]),
        choices@.len() == 0 ==> (r matches Err(AgentError::Provider(m)) && m@ == "API returned empty choices"@),
{
    let mut choices = choices;
    if choices.len() == 0 {
        return Err(AgentError::Provider(String::from_str("API returned empty choices")));
    }
    Ok(choices.remove(0))
}

} // verus!
